//! The two calls into `serde_json` on which the wire format rests.
use vstd::prelude::*;

verus! {

/// The JSON string literal, quotes and escapes included, that `serde_json`
/// writes for a text.
pub uninterp spec fn json_quoted(value: Seq<char>) -> Seq<char>;

/// The text of the JSON string that a JSON pointer addresses in a document, as
/// `serde_json` reads it: `None` where the document is not JSON, where the
/// pointer addresses nothing, and where it addresses a value that is not a
/// string. Of a member that a record holds more than once, `serde_json` keeps
/// the last.
pub uninterp spec fn json_text_at(document: Seq<char>, pointer: Seq<char>) -> Option<Seq<char>>;

/// The view of an optional string.
pub open spec fn text_view(text: Option<String>) -> Option<Seq<char>> {
    match text {
        Some(s) => Some(s@),
        None => None,
    }
}

/// Calls `serde_json::to_string` on a text. Trusted: the call succeeds, and
/// its result is the JSON string literal for `value`, which `json_quoted`
/// names. It succeeds because the only failure that writing a text can
/// report is one of the writer, and the writer is a vector in memory.
#[verifier::external_body]
pub(crate) fn quote(value: &str) -> (r: Result<String, serde_json::Error>)
    ensures
        r is Ok,
        r matches Ok(s) ==> s@ == json_quoted(value@),
{
    serde_json::to_string(value)
}

/// Parses a document with `serde_json::from_str` into a `serde_json::Value`
/// and looks the pointer up with `Value::pointer`. Trusted: the result is the
/// text of the string that the pointer addresses, which `json_text_at` names,
/// and `None` where it names `None`.
#[verifier::external_body]
pub(crate) fn text_at(document: &str, pointer: &str) -> (r: Option<String>)
    ensures
        text_view(r) == json_text_at(document@, pointer@),
{
    match serde_json::from_str::<serde_json::Value>(document) {
        Ok(value) => match value.pointer(pointer) {
            Some(serde_json::Value::String(text)) => Some(text.clone()),
            _ => None,
        },
        Err(_) => None,
    }
}

} // verus!
