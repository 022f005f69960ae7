//! The trusted boundary around serde_json.
//!
//! A parsed JSON document is carried as an opaque `serde_json::Value`. Its
//! mathematical model is the compact text that serde_json prints for it, so
//! every contract over a value speaks of that text.

use vstd::prelude::*;

verus! {

#[verifier::external_type_specification]
#[verifier::external_body]
pub struct ExValue(serde_json::Value);

/// The compact serialized text of a parsed JSON value: what serde_json
/// prints for it.
pub uninterp spec fn text_of(v: serde_json::Value) -> Seq<char>;

/// What parsing `s` as JSON and reprinting it compactly yields; `None`
/// exactly when `s` is not valid JSON.
pub uninterp spec fn json_canon(s: Seq<char>) -> Option<Seq<char>>;

/// The compact text of the member named `key` of the value whose compact
/// text is `text`: the text `null` when that value is not an object or has
/// no such member.
pub uninterp spec fn field_text_of(text: Seq<char>, key: Seq<char>) -> Seq<char>;

/// Relies on serde_json::from_str::<Value>: decodes a JSON document, and
/// fails exactly when the text is not valid JSON.
#[verifier::external_body]
pub(crate) fn parse_json(s: &str) -> (r: Option<serde_json::Value>)
    ensures
        r is Some <==> json_canon(s@) is Some,
        r matches Some(v) ==> json_canon(s@) == Some(text_of(v)),
{
    serde_json::from_str(s).ok()
}

/// Relies on serde_json's Display impl for Value: prints the value in
/// compact form, a function of the value alone.
#[verifier::external_body]
pub(crate) fn value_to_text(v: &serde_json::Value) -> (r: String)
    ensures
        r@ == text_of(*v),
{
    v.to_string()
}

/// Relies on serde_json's Index<&str> impl for Value: `v[key]` is the
/// object's member under that key, and Null when `v` is not an object or the
/// key is absent.
#[verifier::external_body]
pub(crate) fn index_field<'a>(v: &'a serde_json::Value, key: &str) -> (r: &'a serde_json::Value)
    ensures
        text_of(*r) == field_text_of(text_of(*v), key@),
{
    &v[key]
}

} // verus!
