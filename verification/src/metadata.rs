//! The non-secret description of a signature source, as JSON text.
//!
//! The text is written by the `serde_json` crate.

use vstd::prelude::*;

verus! {

/// The compact JSON text of an object with two members whose values are
/// strings, as `serde_json` writes it.
pub uninterp spec fn json_object_text(
    first_key: Seq<char>,
    first_value: Seq<char>,
    second_key: Seq<char>,
    second_value: Seq<char>,
) -> Seq<char>;

/// `Value::to_string` of `serde_json`, on an object built with `Map::insert`
/// from the two members in the order given.
#[verifier::external_body]
pub(crate) fn json_object(
    first_key: &str,
    first_value: &str,
    second_key: &str,
    second_value: &str,
) -> (text: String)
    ensures
        text@ == json_object_text(first_key@, first_value@, second_key@, second_value@),
{
    let mut members = serde_json::Map::new();
    members.insert(first_key.to_string(), serde_json::Value::String(first_value.to_string()));
    members.insert(second_key.to_string(), serde_json::Value::String(second_value.to_string()));
    serde_json::Value::Object(members).to_string()
}

} // verus!
