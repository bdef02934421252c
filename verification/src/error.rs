//! The failures that the client reports.

use vstd::prelude::*;
use vstd::string::StringExecFns;
use crate::config::MAX_RETRIES;
use crate::text::{decimal_digits, push_decimal};

verus! {

/// Why an operation failed.
#[derive(Debug, PartialEq, Eq)]
pub enum Error {
    /// The identifier does not hold exactly 32 hexadecimal digits.
    InvalidIdentifier { input: String, stripped_len: usize },
    /// The server answered with a status that is neither a success nor a
    /// throttling notice.
    ApiError { status: u16, body: String },
    /// The server kept throttling after the last permitted retry.
    RateLimitExhausted,
    /// No API key was found in any of the places that are searched. The
    /// path is that of the configuration file, for the message.
    MissingCredential { config_path: String },
    /// The heading level is not 1, 2 or 3.
    InvalidHeadingLevel { level: u8 },
    /// An update was asked for that changes neither the title nor the icon.
    ValidationError,
}

impl Error {
    /// The text of the message that describes the failure.
    pub open spec fn message_text(self) -> Seq<char> {
        match self {
            Error::InvalidIdentifier { input, stripped_len } => "Invalid page ID '"@ + input@
                + "': expected 32 hex characters, got "@ + decimal_digits(stripped_len as nat),
            Error::ApiError { status, body } => "Notion API returned an error: status "@
                + decimal_digits(status as nat) + ": "@ + body@,
            Error::RateLimitExhausted => "Rate limit exceeded after "@ + decimal_digits(
                MAX_RETRIES as nat,
            ) + " retries"@,
            Error::MissingCredential { config_path } => "Notion API key not found.\n\n"@
                + "Set it using one of these methods:\n"@ + "1. Run: notion-cli init\n"@
                + "2. Set env: export NOTION_API_KEY=secret_xxx\n"@ + "3. Add to "@
                + config_path@ + ": api_key = \"secret_xxx\"\n"@ + "4. Use --api-key option"@,
            Error::InvalidHeadingLevel { level } => "Invalid heading level "@ + decimal_digits(
                level as nat,
            ) + ": expected 1, 2 or 3"@,
            Error::ValidationError => "At least one of --title or --icon must be specified"@,
        }
    }

    /// A message for the operator.
    pub fn message(&self) -> (r: String)
        ensures
            r@ == self.message_text(),
    {
        match self {
            Error::InvalidIdentifier { input, stripped_len } => {
                let mut out = String::from_str("Invalid page ID '");
                out.append(input.as_str());
                out.append("': expected 32 hex characters, got ");
                push_decimal(&mut out, *stripped_len as u64);
                out
            },
            Error::ApiError { status, body } => {
                let mut out = String::from_str("Notion API returned an error: status ");
                push_decimal(&mut out, *status as u64);
                out.append(": ");
                out.append(body.as_str());
                out
            },
            Error::RateLimitExhausted => {
                let mut out = String::from_str("Rate limit exceeded after ");
                push_decimal(&mut out, MAX_RETRIES as u64);
                out.append(" retries");
                out
            },
            Error::MissingCredential { config_path } => {
                let mut out = String::from_str("Notion API key not found.\n\n");
                out.append("Set it using one of these methods:\n");
                out.append("1. Run: notion-cli init\n");
                out.append("2. Set env: export NOTION_API_KEY=secret_xxx\n");
                out.append("3. Add to ");
                out.append(config_path.as_str());
                out.append(": api_key = \"secret_xxx\"\n");
                out.append("4. Use --api-key option");
                out
            },
            Error::InvalidHeadingLevel { level } => {
                let mut out = String::from_str("Invalid heading level ");
                push_decimal(&mut out, *level as u64);
                out.append(": expected 1, 2 or 3");
                out
            },
            Error::ValidationError => String::from_str(
                "At least one of --title or --icon must be specified",
            ),
        }
    }
}

} // verus!
