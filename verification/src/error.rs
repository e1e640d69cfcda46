//! The ways in which reading the configuration can fail.

use vstd::prelude::*;
use vstd::string::StringExecFns;

verus! {

/// A failure to obtain a setting from the configuration.
#[derive(Debug, PartialEq, Eq)]
pub enum ConfigError {
    /// The configuration file could not be read; the text is the platform's
    /// description of why.
    Io(String),
    /// The configuration is not JSON; the text is the parser's description
    /// of why.
    Parse(String),
    /// The configuration is JSON, but holds no string at `api.base_url`.
    MissingField,
}

/// A [`ConfigError`] as a mathematical value.
pub enum Failure {
    Io(Seq<char>),
    Parse(Seq<char>),
    MissingField,
}

/// The message of a missing `api.base_url`.
pub open spec fn missing_field_message() -> Seq<char> {
    "Missing 'api.base_url' setting"@
}

impl Failure {
    /// The message shown for this failure: the description it carries, or
    /// the fixed message of a missing field.
    pub open spec fn message(self) -> Seq<char> {
        match self {
            Failure::Io(reason) => reason,
            Failure::Parse(reason) => reason,
            Failure::MissingField => missing_field_message(),
        }
    }
}

impl View for ConfigError {
    type V = Failure;

    open spec fn view(&self) -> Failure {
        match self {
            ConfigError::Io(reason) => Failure::Io(reason@),
            ConfigError::Parse(reason) => Failure::Parse(reason@),
            ConfigError::MissingField => Failure::MissingField,
        }
    }
}

impl ConfigError {
    /// The message shown for this failure.
    pub fn message(&self) -> (text: String)
        ensures
            text@ == self@.message(),
    {
        match self {
            ConfigError::Io(reason) => reason.clone(),
            ConfigError::Parse(reason) => reason.clone(),
            ConfigError::MissingField => String::from_str("Missing 'api.base_url' setting"),
        }
    }
}

} // verus!
