//! The calls this library makes into `serde_json`.
//!
//! What `serde_json` computes is named, not restated: each name below is a
//! function of its arguments alone, and the wrappers tie their results to it.
use vstd::prelude::*;

verus! {

/// What `serde_json::from_str::<Value>` reports for `text`: `None` when the
/// text is one JSON value, else the `Display` text of its error.
pub uninterp spec fn json_parse_error(text: Seq<char>) -> Option<Seq<char>>;

/// `serde_json::to_string_pretty` of the value that `text` parses to.
pub uninterp spec fn json_pretty_text(text: Seq<char>) -> Seq<char>;

/// `serde_json::to_string` of the value that `text` parses to: compact,
/// with the members of each object in the order `serde_json::Value` keeps.
pub uninterp spec fn json_compact_text(text: Seq<char>) -> Seq<char>;

/// `serde_json::to_string` of a string: its JSON string literal.
pub uninterp spec fn json_quoted(s: Seq<char>) -> Seq<char>;

/// The member `key` of the JSON value `text` parses to, when that value is
/// an object whose member `key` is a string (`Value::get` then
/// `Value::as_str`).
pub uninterp spec fn json_member_str(text: Seq<char>, key: Seq<char>) -> Option<Seq<char>>;

pub open spec fn opt_view(o: Option<String>) -> Option<Seq<char>> {
    match o {
        Some(s) => Some(s@),
        None => None,
    }
}

/// Calls `serde_json::from_str::<serde_json::Value>` and reports whether it
/// parsed; on failure, the error's `Display` text. The contract claims that
/// the outcome depends on the text alone.
#[verifier::external_body]
pub(crate) fn json_check(text: &str) -> (r: Result<(), String>)
    ensures
        match r {
            Ok(()) => json_parse_error(text@) is None,
            Err(e) => json_parse_error(text@) == Some(e@),
        },
{
    match serde_json::from_str::<serde_json::Value>(text) {
        Ok(_) => Ok(()),
        Err(e) => Err(e.to_string()),
    }
}

/// Calls `serde_json::from_str::<serde_json::Value>` and then
/// `serde_json::to_string_pretty` on the value. The contract claims that the
/// second call cannot fail on a parsed `Value` (its map keys are strings).
#[verifier::external_body]
pub(crate) fn json_pretty(text: &str) -> (r: Option<String>)
    ensures
        match r {
            Some(p) => json_parse_error(text@) is None && p@ == json_pretty_text(text@),
            None => json_parse_error(text@) is Some,
        },
{
    match serde_json::from_str::<serde_json::Value>(text) {
        Ok(v) => serde_json::to_string_pretty(&v).ok(),
        Err(_) => None,
    }
}

/// Calls `serde_json::from_str::<serde_json::Value>` and then
/// `serde_json::to_string` on the value; on a parse failure, the error's
/// `Display` text. The contract claims that the second call cannot fail on
/// a parsed `Value`.
#[verifier::external_body]
pub(crate) fn json_compact(text: &str) -> (r: Result<String, String>)
    ensures
        match r {
            Ok(c) => json_parse_error(text@) is None && c@ == json_compact_text(text@),
            Err(e) => json_parse_error(text@) == Some(e@),
        },
{
    match serde_json::from_str::<serde_json::Value>(text) {
        Ok(v) => serde_json::to_string(&v).map_err(|e| e.to_string()),
        Err(e) => Err(e.to_string()),
    }
}

/// Calls `serde_json::to_string` on a string slice, which gives its JSON
/// string literal. The contract claims that this call cannot fail.
#[verifier::external_body]
pub(crate) fn json_quote(s: &str) -> (r: String)
    ensures
        r@ == json_quoted(s@),
{
    match serde_json::to_string(s) {
        Ok(t) => t,
        Err(_) => String::new(),
    }
}

/// Calls `serde_json::from_str::<serde_json::Value>`, then `Value::get` and
/// `Value::as_str` for `key`: `None` when the text does not parse, else the
/// member as an owned string when it is one.
#[verifier::external_body]
pub(crate) fn json_str_member(text: &str, key: &str) -> (r: Option<Option<String>>)
    ensures
        match r {
            Some(m) => json_parse_error(text@) is None && opt_view(m) == json_member_str(
                text@,
                key@,
            ),
            None => json_parse_error(text@) is Some,
        },
{
    match serde_json::from_str::<serde_json::Value>(text) {
        Ok(v) => Some(v.get(key).and_then(serde_json::Value::as_str).map(str::to_string)),
        Err(_) => None,
    }
}

} // verus!
