//! The commands of the program and their arguments.

use vstd::prelude::*;

verus! {

/// What was asked for on the command line.
#[derive(Debug, PartialEq, Eq)]
pub struct Cli {
    pub command: Commands,
    /// The seconds after which a request is given up.
    pub timeout: u64,
}

/// The commands.
#[allow(inconsistent_fields)]
#[derive(Debug, PartialEq, Eq)]
pub enum Commands {
    /// Search for pages and databases.
    Search { query: String, limit: usize },
    /// Read the content of a page.
    Read { page_id: String },
    /// Create a page.
    Create { parent: String, title: String, content: Option<String> },
    /// Append a paragraph to a page.
    Append { page_id: String, content: String },
    /// Append a block of code to a page.
    AppendCode { page_id: String, code: String, language: String },
    /// Append a bookmark to a page.
    AppendBookmark { page_id: String, url: String, caption: Option<String> },
    /// Change the title or the icon of a page.
    Update { page_id: String, title: Option<String>, icon: Option<String> },
    /// Move a page to the trash.
    Delete { page_id: String },
    /// Query a database.
    Query {
        database_id: String,
        filter: Option<String>,
        sort: Option<String>,
        direction: String,
        limit: usize,
    },
    /// Delete a block.
    DeleteBlock { block_id: String },
    /// Append a heading to a page.
    AppendHeading { page_id: String, text: String, level: u8 },
    /// Append a divider to a page.
    AppendDivider { page_id: String },
    /// Append a bulleted list to a page.
    AppendList { page_id: String, items: String },
    /// Append a paragraph with a link to a page.
    AppendLink {
        page_id: String,
        prefix: Option<String>,
        link_text: String,
        url: String,
        suffix: Option<String>,
    },
    /// List the identifiers of the blocks of a page.
    GetBlockIds { page_id: String },
    /// Move a page under another parent.
    Move { page_id: String, parent: String, delete: bool },
}

} // verus!
