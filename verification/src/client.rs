//! The requests that make up each operation of the client.
//!
//! Nothing here talks to the network. Every operation yields the request to
//! send: its method, its address, its headers and its body.

use vstd::prelude::*;
use vstd::string::StringExecFns;
use crate::config::NOTION_API_BASE;
use crate::error::Error;
use crate::ident::{is_invalid_id, normalize_page_id, normalized_id};
use crate::json::{values_of, Json, JsonValue};
use crate::paginate::Fetch;
use crate::payload::{
    archive_body, archive_json, bookmark, bookmark_json, bullets, bullets_json, children,
    children_json, code_block, code_json, copy_page_json, create_page_body, create_page_json,
    divider, divider_json, heading_kind, mirror_blocks, new_page, only_child, paragraph,
    paragraph_json, query_body, query_json, rich_paragraph, rich_paragraph_json, search_body,
    search_json, segments_of, text_block, text_block_json, texts_of, update_page_body,
    update_page_json, RichTextSegment,
};
use crate::render::extract_title;
use crate::text::{join2, join3, join4, opt_str, opt_text};

verus! {

/// The HTTP methods that the client uses.
#[derive(Clone, Copy, Debug, PartialEq, Eq, Structural)]
pub enum Method {
    Get,
    Post,
    Patch,
    Delete,
}

/// A request, ready to be sent.
#[derive(Debug, PartialEq, Eq)]
pub struct Request {
    pub method: Method,
    pub url: String,
    /// The headers, each a name and a value.
    pub headers: Vec<(String, String)>,
    pub body: Option<Json>,
}

/// The mathematical value of a [`Request`].
pub struct RequestView {
    pub method: Method,
    pub url: Seq<char>,
    pub headers: Seq<(Seq<char>, Seq<char>)>,
    pub body: Option<JsonValue>,
}

/// The names and values of a run of headers.
pub open spec fn headers_of(headers: Seq<(String, String)>) -> Seq<(Seq<char>, Seq<char>)> {
    headers.map_values(|h: (String, String)| (h.0@, h.1@))
}

/// The value of an optional document.
pub open spec fn opt_json(body: Option<Json>) -> Option<JsonValue> {
    match body {
        Some(b) => Some(b@),
        None => None,
    }
}

impl View for Request {
    type V = RequestView;

    open spec fn view(&self) -> RequestView {
        RequestView {
            method: self.method,
            url: self.url@,
            headers: headers_of(self.headers@),
            body: opt_json(self.body),
        }
    }
}

/// The headers of every request: the content type where there is a body,
/// then the bearer token and the version of the API.
pub open spec fn headers_for(
    api_key: Seq<char>,
    api_version: Seq<char>,
    has_body: bool,
) -> Seq<(Seq<char>, Seq<char>)> {
    let auth = seq![
        ("Authorization"@, "Bearer "@ + api_key),
        ("Notion-Version"@, api_version),
    ];
    if has_body {
        seq![("Content-Type"@, "application/json"@)] + auth
    } else {
        auth
    }
}

/// The address of a page.
pub open spec fn page_url(id: Seq<char>) -> Seq<char> {
    NOTION_API_BASE@ + "/pages/"@ + id
}

/// The address under which pages are created.
pub open spec fn pages_url() -> Seq<char> {
    NOTION_API_BASE@ + "/pages"@
}

/// The address of a block.
pub open spec fn block_url(id: Seq<char>) -> Seq<char> {
    NOTION_API_BASE@ + "/blocks/"@ + id
}

/// The address of the children of a page or block.
pub open spec fn children_url(id: Seq<char>) -> Seq<char> {
    NOTION_API_BASE@ + "/blocks/"@ + id + "/children"@
}

/// The address of the children of a page or block, from a cursor on.
pub open spec fn children_page_url(id: Seq<char>, cursor: Option<Seq<char>>) -> Seq<char> {
    match cursor {
        Some(c) => children_url(id) + "?start_cursor="@ + c,
        None => children_url(id),
    }
}

/// The address of the search.
pub open spec fn search_url() -> Seq<char> {
    NOTION_API_BASE@ + "/search"@
}

/// The address under which a database is queried.
pub open spec fn query_url(id: Seq<char>) -> Seq<char> {
    NOTION_API_BASE@ + "/databases/"@ + id + "/query"@
}

/// What a client is made of.
pub struct ClientView {
    pub api_key: Seq<char>,
    pub api_version: Seq<char>,
    pub timeout_secs: u64,
}

impl ClientView {
    /// The request of this client with the given method, address and body.
    pub open spec fn request(
        self,
        method: Method,
        url: Seq<char>,
        body: Option<JsonValue>,
    ) -> RequestView {
        RequestView {
            method,
            url,
            headers: headers_for(self.api_key, self.api_version, body.is_some()),
            body,
        }
    }

    /// The request that appends `blocks` to the page or block `id`.
    pub open spec fn append(self, id: Seq<char>, blocks: Seq<JsonValue>) -> RequestView {
        self.request(Method::Patch, children_url(id), Some(children_json(blocks)))
    }
}

/// Whether `r` is the request that `make` builds from the canonical form of
/// `id`, or the error that reports `id` as no identifier.
pub open spec fn for_id(
    r: Result<Request, Error>,
    id: Seq<char>,
    make: spec_fn(Seq<char>) -> RequestView,
) -> bool {
    match r {
        Ok(request) => normalized_id(id).is_some() && request@ == make(normalized_id(id).unwrap()),
        Err(e) => is_invalid_id(e, id),
    }
}

/// A session with the service: the key, the version of the API and the
/// timeout that every request of one command is made with.
#[derive(Debug, PartialEq, Eq)]
pub struct NotionClient {
    api_key: String,
    api_version: String,
    timeout_secs: u64,
}

impl View for NotionClient {
    type V = ClientView;

    closed spec fn view(&self) -> ClientView {
        ClientView {
            api_key: self.api_key@,
            api_version: self.api_version@,
            timeout_secs: self.timeout_secs,
        }
    }
}

impl NotionClient {
    /// A session with the given key, timeout and API version.
    pub fn new(api_key: String, timeout_secs: u64, api_version: String) -> (r: NotionClient)
        ensures
            r@ == (ClientView { api_key: api_key@, api_version: api_version@, timeout_secs }),
    {
        NotionClient { api_key, api_version, timeout_secs }
    }

    /// The seconds after which a request is given up.
    pub fn timeout_secs(&self) -> (r: u64)
        ensures
            r == self@.timeout_secs,
    {
        self.timeout_secs
    }

    /// The headers that go with every request.
    pub fn headers(&self, has_body: bool) -> (r: Vec<(String, String)>)
        ensures
            headers_of(r@) == headers_for(self@.api_key, self@.api_version, has_body),
    {
        let mut out: Vec<(String, String)> = Vec::new();
        if has_body {
            out.push((String::from_str("Content-Type"), String::from_str("application/json")));
        }
        out.push((String::from_str("Authorization"), join2("Bearer ", self.api_key.as_str())));
        out.push((String::from_str("Notion-Version"), self.api_version.clone()));
        assert(headers_of(out@) =~= headers_for(self@.api_key, self@.api_version, has_body));
        out
    }

    fn request(&self, method: Method, url: String, body: Option<Json>) -> (r: Request)
        ensures
            r@ == self@.request(method, url@, opt_json(body)),
    {
        let headers = self.headers(body.is_some());
        Request { method, url, headers, body }
    }

    fn append(&self, id: &str, body: Json) -> (r: Request)
        ensures
            r@ == self@.request(Method::Patch, children_url(id@), Some(body@)),
    {
        self.request(Method::Patch, join4(NOTION_API_BASE, "/blocks/", id, "/children"), Some(body))
    }

    /// The request that fetches a page.
    pub fn get_page(&self, page_id: &str) -> (r: Result<Request, Error>)
        ensures
            for_id(r, page_id@, |id: Seq<char>| self@.request(Method::Get, page_url(id), None)),
    {
        let id = match normalize_page_id(page_id) {
            Ok(id) => id,
            Err(e) => {
                return Err(e);
            },
        };
        Ok(self.request(Method::Get, join3(NOTION_API_BASE, "/pages/", id.as_str()), None))
    }

    /// The request that fetches one page of the blocks of a page.
    pub fn get_blocks(&self, page_id: &str, fetch: &Fetch) -> (r: Result<Request, Error>)
        ensures
            for_id(
                r,
                page_id@,
                |id: Seq<char>|
                    self@.request(
                        Method::Get,
                        children_page_url(id, opt_text(fetch.cursor)),
                        None,
                    ),
            ),
    {
        let id = match normalize_page_id(page_id) {
            Ok(id) => id,
            Err(e) => {
                return Err(e);
            },
        };
        let mut url = join4(NOTION_API_BASE, "/blocks/", id.as_str(), "/children");
        if let Some(cursor) = &fetch.cursor {
            url.append("?start_cursor=");
            url.append(cursor.as_str());
        }
        Ok(self.request(Method::Get, url, None))
    }

    /// The request that fetches one page of the results of a search.
    pub fn search(&self, query: &str, fetch: &Fetch) -> (r: Request)
        ensures
            r@ == self@.request(
                Method::Post,
                search_url(),
                Some(search_json(query@, fetch.page_size, opt_text(fetch.cursor))),
            ),
    {
        self.request(
            Method::Post,
            join2(NOTION_API_BASE, "/search"),
            Some(search_body(query, fetch.page_size, &fetch.cursor)),
        )
    }

    /// The request that creates a page under `parent_id`, with one paragraph
    /// where content is given.
    pub fn create_page(&self, parent_id: &str, title: &str, content: Option<&str>) -> (r: Result<
        Request,
        Error,
    >)
        ensures
            for_id(
                r,
                parent_id@,
                |id: Seq<char>|
                    self@.request(
                        Method::Post,
                        pages_url(),
                        Some(create_page_json(id, title@, opt_str(content))),
                    ),
            ),
    {
        let id = match normalize_page_id(parent_id) {
            Ok(id) => id,
            Err(e) => {
                return Err(e);
            },
        };
        Ok(
            self.request(
                Method::Post,
                join2(NOTION_API_BASE, "/pages"),
                Some(create_page_body(id.as_str(), title, content)),
            ),
        )
    }

    /// The request that appends a paragraph.
    pub fn append_blocks(&self, page_id: &str, content: &str) -> (r: Result<Request, Error>)
        ensures
            for_id(r, page_id@, |id: Seq<char>| self@.append(id, seq![paragraph_json(content@)])),
    {
        let id = match normalize_page_id(page_id) {
            Ok(id) => id,
            Err(e) => {
                return Err(e);
            },
        };
        Ok(self.append(id.as_str(), only_child(paragraph(content))))
    }

    /// The request that appends a block of code.
    pub fn append_code_block(&self, page_id: &str, code: &str, language: &str) -> (r: Result<
        Request,
        Error,
    >)
        ensures
            for_id(
                r,
                page_id@,
                |id: Seq<char>| self@.append(id, seq![code_json(code@, language@)]),
            ),
    {
        let id = match normalize_page_id(page_id) {
            Ok(id) => id,
            Err(e) => {
                return Err(e);
            },
        };
        Ok(self.append(id.as_str(), only_child(code_block(code, language))))
    }

    /// The request that appends a bookmark.
    pub fn append_bookmark(&self, page_id: &str, url: &str, caption: Option<&str>) -> (r: Result<
        Request,
        Error,
    >)
        ensures
            for_id(
                r,
                page_id@,
                |id: Seq<char>| self@.append(id, seq![bookmark_json(url@, opt_str(caption))]),
            ),
    {
        let id = match normalize_page_id(page_id) {
            Ok(id) => id,
            Err(e) => {
                return Err(e);
            },
        };
        Ok(self.append(id.as_str(), only_child(bookmark(url, caption))))
    }

    /// The request that appends a heading of level 1, 2 or 3.
    ///
    /// The identifier is looked at first: a level out of range is reported
    /// only for an identifier that is one.
    pub fn append_heading(&self, page_id: &str, text: &str, level: u8) -> (r: Result<
        Request,
        Error,
    >)
        ensures
            match r {
                Ok(request) => {
                    &&& normalized_id(page_id@).is_some()
                    &&& heading_kind(level).is_some()
                    &&& request@ == self@.append(
                        normalized_id(page_id@).unwrap(),
                        seq![text_block_json(heading_kind(level).unwrap(), text@)],
                    )
                },
                Err(e) => if normalized_id(page_id@).is_some() {
                    heading_kind(level).is_none() && e == (Error::InvalidHeadingLevel { level })
                } else {
                    is_invalid_id(e, page_id@)
                },
            },
    {
        let id = match normalize_page_id(page_id) {
            Ok(id) => id,
            Err(e) => {
                return Err(e);
            },
        };
        let kind = if level == 1 {
            "heading_1"
        } else if level == 2 {
            "heading_2"
        } else if level == 3 {
            "heading_3"
        } else {
            return Err(Error::InvalidHeadingLevel { level });
        };
        Ok(self.append(id.as_str(), only_child(text_block(kind, text))))
    }

    /// The request that appends a divider.
    pub fn append_divider(&self, page_id: &str) -> (r: Result<Request, Error>)
        ensures
            for_id(r, page_id@, |id: Seq<char>| self@.append(id, seq![divider_json()])),
    {
        let id = match normalize_page_id(page_id) {
            Ok(id) => id,
            Err(e) => {
                return Err(e);
            },
        };
        Ok(self.append(id.as_str(), only_child(divider())))
    }

    /// The request that appends a bulleted list, one block for each item.
    pub fn append_bulleted_list(&self, page_id: &str, items: &Vec<String>) -> (r: Result<
        Request,
        Error,
    >)
        ensures
            for_id(
                r,
                page_id@,
                |id: Seq<char>| self@.append(id, bullets_json(texts_of(items@))),
            ),
    {
        let id = match normalize_page_id(page_id) {
            Ok(id) => id,
            Err(e) => {
                return Err(e);
            },
        };
        Ok(self.append(id.as_str(), children(bullets(items))))
    }

    /// The request that appends one paragraph of plain and linked text.
    pub fn append_rich_text(&self, page_id: &str, segments: &Vec<RichTextSegment>) -> (r: Result<
        Request,
        Error,
    >)
        ensures
            for_id(
                r,
                page_id@,
                |id: Seq<char>|
                    self@.append(id, seq![rich_paragraph_json(segments_of(segments@))]),
            ),
    {
        let id = match normalize_page_id(page_id) {
            Ok(id) => id,
            Err(e) => {
                return Err(e);
            },
        };
        Ok(self.append(id.as_str(), only_child(rich_paragraph(segments))))
    }

    /// The request that changes the title or the icon of a page. Only what
    /// is given is named in the body.
    pub fn update_page(&self, page_id: &str, title: Option<&str>, icon: Option<&str>) -> (r: Result<
        Request,
        Error,
    >)
        ensures
            for_id(
                r,
                page_id@,
                |id: Seq<char>|
                    self@.request(
                        Method::Patch,
                        page_url(id),
                        Some(update_page_json(opt_str(title), opt_str(icon))),
                    ),
            ),
    {
        let id = match normalize_page_id(page_id) {
            Ok(id) => id,
            Err(e) => {
                return Err(e);
            },
        };
        Ok(
            self.request(
                Method::Patch,
                join3(NOTION_API_BASE, "/pages/", id.as_str()),
                Some(update_page_body(title, icon)),
            ),
        )
    }

    /// The request that moves a page to the trash.
    pub fn delete_page(&self, page_id: &str) -> (r: Result<Request, Error>)
        ensures
            for_id(
                r,
                page_id@,
                |id: Seq<char>| self@.request(Method::Patch, page_url(id), Some(archive_json())),
            ),
    {
        let id = match normalize_page_id(page_id) {
            Ok(id) => id,
            Err(e) => {
                return Err(e);
            },
        };
        Ok(
            self.request(
                Method::Patch,
                join3(NOTION_API_BASE, "/pages/", id.as_str()),
                Some(archive_body()),
            ),
        )
    }

    /// The request that deletes a block.
    pub fn delete_block(&self, block_id: &str) -> (r: Result<Request, Error>)
        ensures
            for_id(r, block_id@, |id: Seq<char>| self@.request(Method::Delete, block_url(id), None)),
    {
        let id = match normalize_page_id(block_id) {
            Ok(id) => id,
            Err(e) => {
                return Err(e);
            },
        };
        Ok(self.request(Method::Delete, join3(NOTION_API_BASE, "/blocks/", id.as_str()), None))
    }

    /// The request that fetches one page of the rows of a database.
    ///
    /// The filter is written as `Property=value` or `Property:type=value`; a
    /// text without `=` filters nothing. The rows are sorted by the property
    /// `sort`, if one is given: ascending for the direction `asc`, descending
    /// for any other.
    pub fn query_database(
        &self,
        database_id: &str,
        filter: Option<&str>,
        sort: Option<&str>,
        direction: &str,
        fetch: &Fetch,
    ) -> (r: Result<Request, Error>)
        ensures
            for_id(
                r,
                database_id@,
                |id: Seq<char>|
                    self@.request(
                        Method::Post,
                        query_url(id),
                        Some(
                            query_json(
                                fetch.page_size,
                                opt_text(fetch.cursor),
                                opt_str(filter),
                                opt_str(sort),
                                direction@,
                            ),
                        ),
                    ),
            ),
    {
        let id = match normalize_page_id(database_id) {
            Ok(id) => id,
            Err(e) => {
                return Err(e);
            },
        };
        Ok(
            self.request(
                Method::Post,
                join4(NOTION_API_BASE, "/databases/", id.as_str(), "/query"),
                Some(query_body(fetch.page_size, &fetch.cursor, filter, sort, direction)),
            ),
        )
    }

    /// The request that creates, under `new_parent`, a copy of the page `page`
    /// whose content is `blocks`.
    ///
    /// A move is this copy, followed by [`NotionClient::delete_page`] on the
    /// page that was copied, where that is asked for. The two are separate
    /// requests: if the second fails the page exists twice.
    pub fn move_page(&self, new_parent: &str, page: &Json, blocks: &Vec<Json>) -> (r: Result<
        Request,
        Error,
    >)
        ensures
            for_id(
                r,
                new_parent@,
                |id: Seq<char>|
                    self@.request(
                        Method::Post,
                        pages_url(),
                        Some(copy_page_json(id, page@, values_of(blocks@))),
                    ),
            ),
    {
        let id = match normalize_page_id(new_parent) {
            Ok(id) => id,
            Err(e) => {
                return Err(e);
            },
        };
        let title = extract_title(page);
        Ok(
            self.request(
                Method::Post,
                join2(NOTION_API_BASE, "/pages"),
                Some(new_page(id.as_str(), title.as_str(), mirror_blocks(blocks))),
            ),
        )
    }
}

} // verus!
