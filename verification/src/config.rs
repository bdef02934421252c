//! Settings: where the service lives, the limits of a request, and where the
//! API key is taken from.

use vstd::prelude::*;
use vstd::string::StringExecFns;
use crate::error::Error;
use crate::text::{opt_str, opt_text};

verus! {

/// The address under which every endpoint of the service stands.
pub const NOTION_API_BASE: &'static str = "https://api.notion.com/v1";

/// The seconds after which a request is given up, unless told otherwise.
pub const DEFAULT_TIMEOUT_SECS: u64 = 30;

/// How often a throttled request is sent again.
pub const MAX_RETRIES: u32 = 3;

/// The seconds to wait before a retry where the service names none.
pub const DEFAULT_RETRY_DELAY_SECS: u64 = 1;

/// The place of the configuration file as it is shown where the system
/// names no configuration directory.
pub const DEFAULT_CONFIG_PATH: &'static str = "~/.config/notion-cli/config.toml";

/// The version of the API that is asked for, unless told otherwise.
pub const DEFAULT_API_VERSION: &'static str = "2025-09-03";

/// What the configuration file holds.
#[derive(Debug, PartialEq, Eq)]
pub struct Config {
    pub api_key: Option<String>,
    pub timeout: Option<u64>,
}

impl Default for Config {
    fn default() -> (r: Config)
        ensures
            r.api_key.is_none(),
            r.timeout.is_none(),
    {
        Config { api_key: None, timeout: None }
    }
}

/// The first of the four sources that holds a key: the command line, the
/// environment, the configuration file, the dotenv file.
pub open spec fn resolved_key(
    cli: Option<Seq<char>>,
    env: Option<Seq<char>>,
    file: Option<Seq<char>>,
    dotenv: Option<Seq<char>>,
) -> Option<Seq<char>> {
    match cli {
        Some(k) => Some(k),
        None => match env {
            Some(k) => Some(k),
            None => match file {
                Some(k) => Some(k),
                None => dotenv,
            },
        },
    }
}

/// The version of the API to ask for: the override, if there is one.
pub open spec fn api_version_of(over: Option<Seq<char>>) -> Seq<char> {
    match over {
        Some(v) => v,
        None => DEFAULT_API_VERSION@,
    }
}

/// The path of the configuration file as it is shown: the one found, or the
/// usual place.
pub open spec fn shown_config_path_of(found: Option<Seq<char>>) -> Seq<char> {
    match found {
        Some(p) => p,
        None => DEFAULT_CONFIG_PATH@,
    }
}

/// The path of the configuration file as it is shown to the operator.
pub fn shown_config_path(found: Option<&str>) -> (r: String)
    ensures
        r@ == shown_config_path_of(opt_str(found)),
{
    match found {
        Some(p) => p.to_owned(),
        None => String::from_str(DEFAULT_CONFIG_PATH),
    }
}

/// The API version to send.
pub fn get_api_version(over: Option<&str>) -> (r: String)
    ensures
        r@ == api_version_of(opt_str(over)),
{
    match over {
        Some(v) => v.to_owned(),
        None => String::from_str(DEFAULT_API_VERSION),
    }
}

/// Picks the API key.
///
/// The sources are asked in a fixed order, and the first that holds a key
/// wins: the command line, the environment, the configuration file, the
/// dotenv file. Keys are never merged. Where none holds a key, the failure
/// carries `config_path`, so that its message can say where the
/// configuration file is.
pub fn get_api_key(
    cli: Option<&str>,
    env: Option<&str>,
    config: &Config,
    dotenv: Option<&str>,
    config_path: &str,
) -> (r: Result<String, Error>)
    ensures
        match r {
            Ok(key) => resolved_key(
                opt_str(cli),
                opt_str(env),
                opt_text(config.api_key),
                opt_str(dotenv),
            ) == Some(key@),
            Err(e) => {
                &&& resolved_key(
                    opt_str(cli),
                    opt_str(env),
                    opt_text(config.api_key),
                    opt_str(dotenv),
                ).is_none()
                &&& e matches Error::MissingCredential { config_path: path }
                &&& path@ == config_path@
            },
        },
{
    if let Some(key) = cli {
        return Ok(key.to_owned());
    }
    if let Some(key) = env {
        return Ok(key.to_owned());
    }
    if let Some(key) = &config.api_key {
        return Ok(key.clone());
    }
    if let Some(key) = dotenv {
        return Ok(key.to_owned());
    }
    Err(Error::MissingCredential { config_path: config_path.to_owned() })
}

} // verus!
