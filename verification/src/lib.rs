//! The core of a command-line client for Notion.
//!
//! The library decides and formats; it never touches the network or the
//! terminal. It turns each operation into the request to send, says after
//! each answer whether to deliver, wait or fail, collects listings page by
//! page up to a limit, and lays out what came back as styled text.

pub mod cli;
pub mod client;
pub mod commands;
pub mod config;
pub mod error;
pub mod filter;
pub mod ident;
pub mod json;
pub mod output;
pub mod paginate;
pub mod payload;
pub mod render;
pub mod retry;
pub mod text;
