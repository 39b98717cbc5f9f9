//! Looking into a JSON document at a JSON Pointer, through `serde_json`.

use vstd::prelude::*;

verus! {

/// The error type of `serde_json`, carried through as it is.
#[verifier::external_type_specification]
#[verifier::external_body]
pub struct ExJsonError(serde_json::Error);

/// What stands at a place of a JSON document, as far as the library reads it.
pub struct JsonFound {
    /// The string there, when a string stands there.
    pub text: Option<String>,
    /// The number of items, when an array stands there.
    pub items: Option<usize>,
}

/// What `serde_json` finds in the text `text` at the JSON Pointer `pointer`:
/// `None` when `text` is no JSON document, and otherwise the string that
/// stands there (if a string does) and the length of the array that stands
/// there (if an array does).
pub uninterp spec fn json_lookup(text: Seq<char>, pointer: Seq<char>) -> Option<
    (Option<Seq<char>>, Option<nat>),
>;

/// Parses `text` with `serde_json::from_str` into a `serde_json::Value`, takes
/// `Value::pointer(pointer)`, and reads what it finds with `Value::as_str` and
/// `Value::as_array` (its length).
/// The contract claims only that the outcome is a function of the two texts,
/// named `json_lookup`: what JSON `serde_json` accepts and how it resolves a
/// pointer is left unsaid.
#[verifier::external_body]
pub(crate) fn json_at(text: &str, pointer: &str) -> (r: Result<JsonFound, serde_json::Error>)
    ensures
        r is Err <==> json_lookup(text@, pointer@) is None,
        r matches Ok(f) && f.text is None ==> (json_lookup(text@, pointer@) matches Some(l)
            && l.0 is None),
        r matches Ok(f) && f.text matches Some(s) ==> (json_lookup(text@, pointer@) matches Some(l)
            && l.0 == Some(s@)),
        r matches Ok(f) && f.items is None ==> (json_lookup(text@, pointer@) matches Some(l)
            && l.1 is None),
        r matches Ok(f) && f.items matches Some(n) ==> (json_lookup(text@, pointer@) matches Some(
            l,
        ) && l.1 == Some(n as nat)),
{
    let v: serde_json::Value = serde_json::from_str(text)?;
    let found = v.pointer(pointer);
    Ok(JsonFound {
        text: found.and_then(|x| x.as_str()).map(|s| s.to_string()),
        items: found.and_then(|x| x.as_array()).map(|a| a.len()),
    })
}

} // verus!
