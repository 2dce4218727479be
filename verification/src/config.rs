//! The configuration: API key, API URL and model, and what can go wrong
//! while it is located, read, parsed, serialised or written.

use vstd::prelude::*;
use crate::text::{is_blank, str_is_blank};

verus! {

/// The settings `shai` needs to reach a chat-completion service.
#[derive(Debug)]
pub struct Config {
    pub api_key: String,
    pub api_url: String,
    pub model: String,
}

impl Config {
    /// Whether an API key has been set: it is not blank. A configuration
    /// without one counts as no configuration at all.
    pub fn has_api_key(&self) -> (res: bool)
        ensures
            res == !is_blank(self.api_key@),
    {
        !str_is_blank(self.api_key.as_str())
    }
}

impl Default for Config {
    /// The configuration used when no file holds one: every field empty.
    fn default() -> (res: Self)
        ensures
            res.api_key@ == Seq::<char>::empty(),
            res.api_url@ == Seq::<char>::empty(),
            res.model@ == Seq::<char>::empty(),
    {
        Config { api_key: String::new(), api_url: String::new(), model: String::new() }
    }
}

impl Clone for Config {
    fn clone(&self) -> (res: Self)
        ensures
            res == *self,
    {
        Config {
            api_key: self.api_key.clone(),
            api_url: self.api_url.clone(),
            model: self.model.clone(),
        }
    }
}

/// Failures while loading or saving the configuration; each carries a
/// description of the cause.
#[derive(Debug, Clone, PartialEq, Eq)]
pub enum ConfigError {
    Path(String),
    Read(String),
    Write(String),
    Parse(String),
    Serialize(String),
}

/// The text shown for a configuration error.
pub open spec fn config_error_text(e: ConfigError) -> Seq<char> {
    match e {
        ConfigError::Path(d) => "Path error: "@ + d@,
        ConfigError::Read(d) => "Read error: "@ + d@,
        ConfigError::Write(d) => "Write error: "@ + d@,
        ConfigError::Parse(d) => "Parse error: "@ + d@,
        ConfigError::Serialize(d) => "Serialize error: "@ + d@,
    }
}

impl ConfigError {
    /// The text shown to the user for this error.
    pub fn message(&self) -> (res: String)
        ensures
            res@ == config_error_text(*self),
            *self matches ConfigError::Path(d) ==> res@ == "Path error: "@ + d@,
            *self matches ConfigError::Read(d) ==> res@ == "Read error: "@ + d@,
            *self matches ConfigError::Write(d) ==> res@ == "Write error: "@ + d@,
            *self matches ConfigError::Parse(d) ==> res@ == "Parse error: "@ + d@,
            *self matches ConfigError::Serialize(d) ==> res@ == "Serialize error: "@ + d@,
    {
        match self {
            ConfigError::Path(d) => String::from_str("Path error: ").concat(d.as_str()),
            ConfigError::Read(d) => String::from_str("Read error: ").concat(d.as_str()),
            ConfigError::Write(d) => String::from_str("Write error: ").concat(d.as_str()),
            ConfigError::Parse(d) => String::from_str("Parse error: ").concat(d.as_str()),
            ConfigError::Serialize(d) => String::from_str("Serialize error: ").concat(d.as_str()),
        }
    }
}

/// Where the configuration file lies, under the user's configuration
/// directory: its directory and its file name.
pub fn config_file_location() -> (res: (String, String))
    ensures
        res.0@ == "shai"@,
        res.1@ == "config.toml"@,
{
    (String::from_str("shai"), String::from_str("config.toml"))
}

/// The error when the user's configuration directory is unknown.
pub fn missing_config_dir() -> (res: ConfigError)
    ensures
        res matches ConfigError::Path(d) && d@ == "Could not find config directory"@,
{
    ConfigError::Path(String::from_str("Could not find config directory"))
}

} // verus!
