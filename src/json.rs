//! What the library takes from serde_json: JSON documents are carried as text,
//! and each reading of one is a named result of the parser.

use vstd::prelude::*;

verus! {

/// Whether serde_json accepts a text as a JSON document.
pub uninterp spec fn json_valid(text: Seq<char>) -> bool;

/// What serde_json finds under `key` in the document `text`: `None` when the
/// text is no document or the key is not a member of it, `Some(None)` when the
/// member is not a string, `Some(Some(s))` when it is the string `s`.
pub uninterp spec fn json_field(text: Seq<char>, key: Seq<char>) -> Option<Option<Seq<char>>>;

/// The pretty-printed form of the document `text`.
pub uninterp spec fn json_pretty(text: Seq<char>) -> Seq<char>;

/// The pretty-printed form of the object with one string member.
pub uninterp spec fn json_pretty_pair(key: Seq<char>, value: Seq<char>) -> Seq<char>;

/// The spec value of a member lookup.
pub open spec fn field_view(f: Option<Option<String>>) -> Option<Option<Seq<char>>> {
    match f {
        None => None,
        Some(None) => Some(None),
        Some(Some(s)) => Some(Some(s@)),
    }
}

/// Relies on `serde_json::from_str` into a `serde_json::Value`: whether it
/// succeeds depends on the text alone.
#[verifier::external_body]
pub(crate) fn parses_as_json(text: &str) -> (r: bool)
    ensures
        r == json_valid(text@),
{
    serde_json::from_str::<serde_json::Value>(text).is_ok()
}

/// Relies on `serde_json::from_str`, `Value::get` with a `&str` key and
/// `Value::as_str`: the member under a key, and whether it is a string.
#[verifier::external_body]
pub(crate) fn json_member(text: &str, key: &str) -> (r: Option<Option<String>>)
    ensures
        field_view(r) == json_field(text@, key@),
        !json_valid(text@) ==> r is None,
{
    match serde_json::from_str::<serde_json::Value>(text) {
        Ok(v) => v.get(key).map(|m| m.as_str().map(|s| s.to_string())),
        Err(_) => None,
    }
}

/// Relies on `serde_json::from_str` and `serde_json::to_string_pretty`: the
/// document re-printed with indentation; `{}` where either fails.
#[verifier::external_body]
pub(crate) fn pretty_json(text: &str) -> (r: String)
    ensures
        r@ == json_pretty(text@),
{
    match serde_json::from_str::<serde_json::Value>(text) {
        Ok(v) => serde_json::to_string_pretty(&v).unwrap_or_else(|_| "{}".to_string()),
        Err(_) => "{}".to_string(),
    }
}

/// Relies on `serde_json::to_string_pretty` on an object built with
/// `serde_json::Map::insert`: the object `{key: value}` printed with
/// indentation.
#[verifier::external_body]
pub(crate) fn pretty_json_pair(key: &str, value: &str) -> (r: String)
    ensures
        r@ == json_pretty_pair(key@, value@),
{
    let mut m = serde_json::Map::new();
    m.insert(key.to_string(), serde_json::Value::String(value.to_string()));
    serde_json::to_string_pretty(&serde_json::Value::Object(m)).unwrap_or_else(|_| "{}".to_string())
}

} // verus!
