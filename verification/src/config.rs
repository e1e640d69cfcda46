//! The configuration: where it is kept, and the API base URL in it.

use vstd::prelude::*;

use crate::error::{ConfigError, Failure};
use crate::json::{json_parse, json_strings, member, parse_json, strings_below};

verus! {

/// The name of the configuration file.
pub open spec fn config_file() -> Seq<char> {
    "config.json"@
}

/// The object keys that lead to the API base URL: `api`, then `base_url`.
pub open spec fn base_url_path() -> Seq<Seq<char>> {
    seq!["api"@, "base_url"@]
}

/// The API base URL of a document with the given strings: the string at
/// [`base_url_path`]. Where there is none, because a key is absent or because
/// something other than an object or a string stands in the way, the field is
/// missing.
pub open spec fn base_url_in(strings: Map<Seq<Seq<char>>, Seq<char>>) -> Result<
    Seq<char>,
    Failure,
> {
    if strings.contains_key(base_url_path()) {
        Ok(strings[base_url_path()])
    } else {
        Err(Failure::MissingField)
    }
}

/// The API base URL of a configuration text: that of the document the text
/// parses to, or the parser's complaint where it is not JSON.
pub open spec fn base_url_of_text(text: Seq<char>) -> Result<Seq<char>, Failure> {
    match json_parse(text) {
        Ok(strings) => base_url_in(strings),
        Err(reason) => Err(Failure::Parse(reason)),
    }
}

/// An outcome as a mathematical value.
pub open spec fn outcome(found: Result<String, ConfigError>) -> Result<Seq<char>, Failure> {
    match found {
        Ok(url) => Ok(url@),
        Err(e) => Err(e@),
    }
}

/// An outcome whose failure is told by its message alone.
pub open spec fn told(found: Result<Seq<char>, Failure>) -> Result<Seq<char>, Seq<char>> {
    match found {
        Ok(url) => Ok(url),
        Err(failure) => Err(failure.message()),
    }
}

/// The name of the configuration file, relative to the working directory.
pub fn config_file_name() -> (name: &'static str)
    ensures
        name@ == config_file(),
{
    "config.json"
}

/// Looks up the API base URL in a parsed document.
pub fn api_base_url(doc: &serde_json::Value) -> (found: Result<String, ConfigError>)
    ensures
        outcome(found) == base_url_in(json_strings(*doc)),
{
    let found = match member(doc, "api") {
        None => Err(ConfigError::MissingField),
        Some(api) => match member(api, "base_url") {
            None => Err(ConfigError::MissingField),
            Some(value) => match value.as_str() {
                None => Err(ConfigError::MissingField),
                Some(url) => Ok(url.to_owned()),
            },
        },
    };
    proof {
        lemma_two_steps(json_strings(*doc), "api"@, "base_url"@);
    }
    found
}

/// A string two object keys down is the string that the member under the
/// first key has under the second, and that the member under both has at
/// its root.
proof fn lemma_two_steps(strings: Map<Seq<Seq<char>>, Seq<char>>, first: Seq<char>, second: Seq<char>)
    ensures
        strings.contains_key(seq![first, second]) <==> strings_below(
            strings_below(strings, first),
            second,
        ).contains_key(Seq::empty()),
        strings.contains_key(seq![first, second]) <==> strings_below(strings, first).contains_key(
            seq![second],
        ),
        strings.contains_key(seq![first, second]) ==> strings[seq![first, second]]
            == strings_below(strings_below(strings, first), second)[Seq::empty()],
{
    assert(seq![first] + seq![second] =~= seq![first, second]);
    assert(seq![second] + Seq::<Seq<char>>::empty() =~= seq![second]);
}

/// Parses `config` as JSON and looks up the API base URL in it.
pub fn parse_api_base_url(config: &str) -> (found: Result<String, ConfigError>)
    ensures
        outcome(found) == base_url_of_text(config@),
{
    match parse_json(config) {
        Ok(doc) => api_base_url(&doc),
        Err(reason) => Err(ConfigError::Parse(reason)),
    }
}

/// The API base URL of the configuration text `config`, or the message of
/// the failure to find it.
pub fn get_api_base_url(config: String) -> (found: Result<String, String>)
    ensures
        match found {
            Ok(url) => told(base_url_of_text(config@)) == Ok::<Seq<char>, Seq<char>>(url@),
            Err(message) => told(base_url_of_text(config@)) == Err::<Seq<char>, Seq<char>>(
                message@,
            ),
        },
{
    match parse_api_base_url(config.as_str()) {
        Ok(url) => Ok(url),
        Err(e) => Err(e.message()),
    }
}

} // verus!
