//! What the hub needs of JSON: reading a document, picking a member,
//! reading a string. The documents themselves stay opaque.

use vstd::prelude::*;

verus! {

/// `serde_json::Value`, a JSON document held in memory. Nothing of its
/// inside is visible to the proofs; a value is only carried and compared.
#[verifier::external_type_specification]
#[verifier::external_body]
pub struct ExJsonValue(serde_json::Value);

/// The document that `serde_json::from_str` reads from `text`, or `None`
/// where it reports an error.
pub uninterp spec fn json_of_text(text: Seq<char>) -> Option<serde_json::Value>;

/// What indexing `value` by the string `key` gives.
pub uninterp spec fn json_member(value: serde_json::Value, key: Seq<char>) -> serde_json::Value;

/// The characters of `value` where `serde_json::Value::as_str` gives a
/// string, `None` where it gives none.
pub uninterp spec fn json_string(value: serde_json::Value) -> Option<Seq<char>>;

/// Calls `serde_json::from_str` for a `serde_json::Value`. The contract is
/// trusted: it says that the outcome is decided by the text alone, and gives
/// that outcome a name, with the parser's error reduced to `None`.
#[verifier::external_body]
pub(crate) fn parse_json(text: &str) -> (r: Option<serde_json::Value>)
    ensures
        r == json_of_text(text@),
{
    serde_json::from_str::<serde_json::Value>(text).ok()
}

/// Indexes a `serde_json::Value` by a string, as `value[key]` does: the
/// member of that name where `value` is an object that has one, the null
/// value in every other case. The contract is trusted: it says that the
/// outcome is decided by the value and the key alone, and gives it a name.
#[verifier::external_body]
pub(crate) fn member<'a>(value: &'a serde_json::Value, key: &str) -> (r: &'a serde_json::Value)
    ensures
        *r == json_member(*value, key@),
{
    &value[key]
}

/// Calls `serde_json::Value::as_str`: the string's text where `value` is a
/// JSON string, `None` for every other kind of value. The contract is
/// trusted: it says that the outcome is decided by the value alone, and
/// gives it a name.
#[verifier::external_body]
pub(crate) fn as_text<'a>(value: &'a serde_json::Value) -> (r: Option<&'a str>)
    ensures
        match r {
            Some(text) => json_string(*value) == Some(text@),
            None => json_string(*value) == None::<Seq<char>>,
        },
{
    value.as_str()
}

/// `clone` on a `serde_json::Value`. The contract is trusted: it says that
/// the copy is the same document.
pub assume_specification[ <serde_json::Value as Clone>::clone ](
    value: &serde_json::Value,
) -> (r: serde_json::Value)
    ensures
        r == *value,
;

} // verus!
