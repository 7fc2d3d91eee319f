//! Reading one string field out of a JSON document. Parsing is done by
//! serde_json; this module gives the parsed field a name that the
//! configuration contracts share.

use vstd::prelude::*;

verus! {

/// The string member named `key` at the top level of the JSON document
/// `text`, as serde_json reads it: `None` when `text` is not a valid JSON
/// document, when its top level has no such member, or when the member is
/// not a string. The parse depends on the text and the key alone, so the
/// result can carry a name that contracts share.
pub uninterp spec fn json_str_field_of(text: Seq<char>, key: Seq<char>) -> Option<Seq<char>>;

/// Relies on serde_json::from_str, serde_json::Value::get and
/// serde_json::Value::as_str: parses `text` and hands out its top-level
/// string member named `key`, a pure function of the two arguments.
#[verifier::external_body]
pub fn json_string_field(text: &str, key: &str) -> (r: Option<String>)
    ensures
        match r {
            Some(s) => json_str_field_of(text@, key@) == Some(s@),
            None => json_str_field_of(text@, key@) is None,
        },
{
    match serde_json::from_str::<serde_json::Value>(text) {
        Ok(document) => match document.get(key) {
            Some(member) => match member.as_str() {
                Some(s) => Some(s.to_string()),
                None => None,
            },
            None => None,
        },
        Err(_) => None,
    }
}

} // verus!
