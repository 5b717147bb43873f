//! The two JSON operations the handler needs, both performed by `serde_json`.

use vstd::prelude::*;

verus! {

/// How the member `key` of the top-level value of the JSON document `text`
/// stands, as `serde_json` reads it:
/// `None` when `text` is not one JSON document,
/// `Some(None)` when the top-level value has no member `key` (or is no object),
/// `Some(Some(None))` when the member is not a string,
/// `Some(Some(Some(s)))` when the member is the string `s`.
pub uninterp spec fn json_member(text: Seq<char>, key: Seq<char>) -> Option<Option<Option<Seq<char>>>>;

/// The JSON string literal that `serde_json` writes for the text `s`,
/// quotes included.
pub uninterp spec fn json_string_literal(s: Seq<char>) -> Seq<char>;

/// A character that a JSON string literal holds as it is: no quote, no
/// backslash, no control character.
pub open spec fn is_plain_json_char(c: char) -> bool {
    c != '"' && c != '\\' && c as u32 >= 0x20
}

/// A member of a JSON object, as far as the handler reads it.
#[derive(Debug, Clone)]
pub enum Field {
    Missing,
    NotText,
    Text(String),
}

impl View for Field {
    type V = Option<Option<Seq<char>>>;

    open spec fn view(&self) -> Option<Option<Seq<char>>> {
        match self {
            Field::Missing => None,
            Field::NotText => Some(None),
            Field::Text(s) => Some(Some(s@)),
        }
    }
}

/// The outcome of reading a member, in the terms of [`json_member`].
pub open spec fn member_outcome(r: Option<Field>) -> Option<Option<Option<Seq<char>>>> {
    match r {
        None => None,
        Some(f) => Some(f@),
    }
}

/// Relies on `serde_json::from_str` (into a `serde_json::Value`) and on
/// `Value::get`: `None` when `text` is not JSON, otherwise how the member `key`
/// of the top-level value stands.
#[verifier::external_body]
pub(crate) fn read_member(text: &str, key: &str) -> (r: Option<Field>)
    ensures
        member_outcome(r) == json_member(text@, key@),
{
    match serde_json::from_str::<serde_json::Value>(text) {
        Ok(value) => Some(match value.get(key) {
            None => Field::Missing,
            Some(serde_json::Value::String(s)) => Field::Text(s.clone()),
            Some(_) => Field::NotText,
        }),
        Err(_) => None,
    }
}

/// Relies on the `Display` of `serde_json::Value::String`: the compact JSON
/// string literal for `s`, which escapes only quotes, backslashes and control
/// characters.
#[verifier::external_body]
pub(crate) fn string_literal(s: &str) -> (r: String)
    ensures
        r@ == json_string_literal(s@),
        (forall|i: int| 0 <= i < s@.len() ==> is_plain_json_char(#[trigger] s@[i])) ==> r@
            == seq!['"'] + s@ + seq!['"'],
{
    serde_json::Value::String(s.to_string()).to_string()
}

} // verus!
