//! The crate's trusted surface over serde_json: parsing a document and
//! reading a parsed value.  Every item here wraps one call into serde_json;
//! everything that interprets the outcome is verified code elsewhere in the
//! crate.
//!
//! A parsed `serde_json::Value` is opaque to the verifier, so its contents
//! are given names: `obj_entries`, `arr_elems`, `str_content` and
//! `is_null_value` project a value onto what the accessors return for it,
//! and `json_doc` names the value that a text parses to.  The accessors'
//! contracts say, over those names, exactly what the crate's source shows.

use vstd::prelude::*;

verus! {

#[verifier::external_type_specification]
#[verifier::external_body]
pub struct ExValue(serde_json::Value);

#[verifier::external_type_specification]
#[verifier::external_body]
pub struct ExJsonError(serde_json::Error);

/// Whether a text is a well-formed JSON document: exactly the inputs on
/// which `serde_json::from_str::<serde_json::Value>` succeeds.  The grammar
/// is serde_json's; nothing here restates it.
pub uninterp spec fn json_parses(s: Seq<char>) -> bool;

/// The value a well-formed JSON text parses to: what
/// `serde_json::from_str::<serde_json::Value>` returns, a function of the
/// text alone.
pub uninterp spec fn json_doc(s: Seq<char>) -> serde_json::Value;

/// What a parsed value holds when it is a JSON object: its entries, keyed
/// by field name.  `None` when the value is not an object.
pub uninterp spec fn obj_entries(v: serde_json::Value) -> Option<
    Map<Seq<char>, serde_json::Value>,
>;

/// What a parsed value holds when it is a JSON array: its elements in
/// order.  `None` when the value is not an array.
pub uninterp spec fn arr_elems(v: serde_json::Value) -> Option<Seq<serde_json::Value>>;

/// What a parsed value holds when it is a JSON string: its text.  `None`
/// when the value is not a string.
pub uninterp spec fn str_content(v: serde_json::Value) -> Option<Seq<char>>;

/// Whether a parsed value is JSON `null`.
pub uninterp spec fn is_null_value(v: serde_json::Value) -> bool;

/// The JSON string literal that serde_json renders for a text: the text
/// between double quotes, with the escapes its format prescribes.
pub uninterp spec fn json_string_of(s: Seq<char>) -> Seq<char>;

/// Relies on `serde_json::from_str::<serde_json::Value>`: it parses any
/// well-formed JSON document into a tree and fails on any other input, a
/// function of the text alone.
#[verifier::external_body]
pub(crate) fn parse_json(text: &str) -> (r: Result<serde_json::Value, serde_json::Error>)
    ensures
        r is Ok <==> json_parses(text@),
        r matches Ok(v) ==> v == json_doc(text@),
{
    serde_json::from_str::<serde_json::Value>(text)
}

/// Relies on `<serde_json::Error as std::fmt::Display>::fmt` for the
/// human-readable description of a parse failure.
#[verifier::external_body]
pub(crate) fn json_error_text(e: &serde_json::Error) -> String {
    format!("{}", e)
}

/// Relies on `serde_json::Value::get` with a string index: on an object it
/// looks the key up and returns the entry under it, on anything else it
/// returns `None`.
#[verifier::external_body]
pub(crate) fn json_get<'a>(v: &'a serde_json::Value, key: &str) -> (r: Option<
    &'a serde_json::Value,
>)
    ensures
        r matches Some(f) ==> (obj_entries(*v) matches Some(m) && m.dom().contains(key@) && *f
            == m[key@]),
        r is None ==> (obj_entries(*v) matches Some(m) ==> !m.dom().contains(key@)),
{
    v.get(key)
}

/// Relies on `serde_json::Value::as_str`: `Some` with the text exactly when
/// the value is a JSON string.
#[verifier::external_body]
pub(crate) fn json_as_str<'a>(v: &'a serde_json::Value) -> (r: Option<&'a str>)
    ensures
        r matches Some(s) ==> str_content(*v) == Some(s@),
        r is None ==> str_content(*v) is None,
{
    v.as_str()
}

/// Relies on `serde_json::Value::as_array`: `Some` with the elements in
/// order exactly when the value is a JSON array.
#[verifier::external_body]
pub(crate) fn json_as_array<'a>(v: &'a serde_json::Value) -> (r: Option<&'a Vec<serde_json::Value>>)
    ensures
        r matches Some(a) ==> arr_elems(*v) == Some(a@),
        r is None ==> arr_elems(*v) is None,
{
    v.as_array()
}

/// Relies on `serde_json::Value::is_null`: true exactly when the value is
/// JSON `null`.
#[verifier::external_body]
pub(crate) fn json_is_null(v: &serde_json::Value) -> (r: bool)
    ensures
        r == is_null_value(*v),
{
    v.is_null()
}

} // verus!
