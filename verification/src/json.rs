//! The JSON documents of `serde_json`, as far as the configuration lookup
//! reads them.
//!
//! A parsed document stays a `serde_json::Value`. Contracts speak of it
//! through [`json_strings`]: the strings that the document holds, each under
//! the object keys that lead to it from the root. Nothing in this module is
//! proved; each item says what it takes on trust from `serde_json`.

use vstd::prelude::*;

verus! {

/// `serde_json::Value`, a parsed JSON document. Its variants are not visible
/// to the verifier.
#[verifier::external_type_specification]
#[verifier::external_body]
pub struct ExJsonValue(serde_json::Value);

/// The strings in `doc` that can be reached through objects alone. The key of
/// an entry is the sequence of object keys from the root down to the string;
/// a document that is itself a string has the one entry under the empty
/// sequence. Strings inside arrays have no entry.
pub uninterp spec fn json_strings(doc: serde_json::Value) -> Map<Seq<Seq<char>>, Seq<char>>;

/// What `serde_json::from_str` makes of `text`: the strings of the document
/// it parses to, or the parser's description of why `text` is not JSON.
pub uninterp spec fn json_parse(text: Seq<char>) -> Result<
    Map<Seq<Seq<char>>, Seq<char>>,
    Seq<char>,
>;

/// The entries of `strings` whose keys begin with `key`, with that first step
/// taken off: the strings of the member `key`, where `strings` are those of
/// an object.
pub open spec fn strings_below(strings: Map<Seq<Seq<char>>, Seq<char>>, key: Seq<char>) -> Map<
    Seq<Seq<char>>,
    Seq<char>,
> {
    Map::new(
        |rest: Seq<Seq<char>>| strings.contains_key(seq![key] + rest),
        |rest: Seq<Seq<char>>| strings[seq![key] + rest],
    )
}

/// Calls `serde_json::from_str` for a `Value`, and `to_string` on its error.
/// Trusted: the outcome depends on `text` alone, so it is the one that
/// [`json_parse`] names.
#[verifier::external_body]
pub(crate) fn parse_json(text: &str) -> (parsed: Result<serde_json::Value, String>)
    ensures
        match parsed {
            Ok(doc) => json_parse(text@) == Ok::<Map<Seq<Seq<char>>, Seq<char>>, Seq<char>>(
                json_strings(doc),
            ),
            Err(reason) => json_parse(text@) == Err::<Map<Seq<Seq<char>>, Seq<char>>, Seq<char>>(
                reason@,
            ),
        },
{
    match serde_json::from_str::<serde_json::Value>(text) {
        Ok(doc) => Ok(doc),
        Err(e) => Err(e.to_string()),
    }
}

/// Calls `serde_json::Value::get` with a string key. Trusted: it returns the
/// member `key` of an object that has one, and `None` for an object without
/// that key and for anything that is not an object. So a member's strings are
/// those of `doc` below `key`, and where there is no member `doc` has no
/// string below `key`.
#[verifier::external_body]
pub(crate) fn member<'a>(doc: &'a serde_json::Value, key: &str) -> (found: Option<
    &'a serde_json::Value,
>)
    ensures
        match found {
            Some(inner) => json_strings(*inner) == strings_below(json_strings(*doc), key@),
            None => strings_below(json_strings(*doc), key@) == Map::<
                Seq<Seq<char>>,
                Seq<char>,
            >::empty(),
        },
{
    doc.get(key)
}

/// `serde_json::Value::as_str`. Trusted: it returns the text of a value that
/// is a string and `None` for every other value, and a value is a string
/// exactly when it has a string under the empty sequence of keys.
pub assume_specification<'a>[ serde_json::Value::as_str ](doc: &'a serde_json::Value) -> (text:
    Option<&'a str>)
    ensures
        match text {
            Some(s) => json_strings(*doc).contains_key(Seq::<Seq<char>>::empty())
                && json_strings(*doc)[Seq::<Seq<char>>::empty()] == s@,
            None => !json_strings(*doc).contains_key(Seq::<Seq<char>>::empty()),
        },
;

} // verus!
