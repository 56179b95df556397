//! The JSON values that requests and responses carry, and the few
//! serde_json operations the codec relies on.
//!
//! A `serde_json::Value` is opaque here: what the codec knows of one comes
//! from the names below, each the result of one serde_json operation.

use vstd::prelude::*;

verus! {

#[verifier::external_type_specification]
#[verifier::external_body]
pub struct ExJsonValue(serde_json::Value);

/// The value serde_json reads from a text, if the text is one JSON document.
pub uninterp spec fn json_parse(text: Seq<char>) -> Option<serde_json::Value>;

/// The compact JSON text serde_json writes for a value.
pub uninterp spec fn json_text(v: serde_json::Value) -> Seq<char>;

/// The member of an object under a key; none for a non-object or a missing key.
pub uninterp spec fn json_field(v: serde_json::Value, key: Seq<char>) -> Option<serde_json::Value>;

/// The contents of a JSON string; none for any other kind of value.
pub uninterp spec fn json_str(v: serde_json::Value) -> Option<Seq<char>>;

/// The JSON string holding the given characters.
pub uninterp spec fn json_string(s: Seq<char>) -> serde_json::Value;

/// The JSON object built from key/value entries.
pub uninterp spec fn json_object(entries: Seq<(Seq<char>, serde_json::Value)>) -> serde_json::Value;

/// The value of the first entry under `key`, if any.
pub open spec fn entry_lookup(entries: Seq<(Seq<char>, serde_json::Value)>, key: Seq<char>) -> Option<
    serde_json::Value,
>
    decreases entries.len(),
{
    if entries.len() == 0 {
        None
    } else if entries[0].0 == key {
        Some(entries[0].1)
    } else {
        entry_lookup(entries.drop_first(), key)
    }
}

/// No key occurs twice among the entries.
pub open spec fn distinct_keys(entries: Seq<(Seq<char>, serde_json::Value)>) -> bool {
    forall|i: int, j: int|
        0 <= i < j < entries.len() ==> #[trigger] entries[i].0 != #[trigger] entries[j].0
}

/// Relies on serde_json's derived `Clone` for `Value`: the copy is the same value.
pub assume_specification[ <serde_json::Value as Clone>::clone ](v: &serde_json::Value) -> (r: serde_json::Value)
    ensures
        r == *v,
;

/// Relies on `serde_json::Value::as_str`: the contents of a `Value::String`, else none.
pub assume_specification[ serde_json::Value::as_str ](v: &serde_json::Value) -> (r: Option<&str>)
    ensures
        r is Some <==> json_str(*v) is Some,
        r matches Some(s) ==> json_str(*v) == Some(s@),
;

/// Relies on `serde_json::from_str::<Value>`: reads one JSON document; the
/// error is dropped.
#[verifier::external_body]
pub(crate) fn parse_value(text: &str) -> (r: Option<serde_json::Value>)
    ensures
        r == json_parse(text@),
{
    serde_json::from_str::<serde_json::Value>(text).ok()
}

/// Relies on `Display for serde_json::Value`: the compact JSON text of a value.
#[verifier::external_body]
pub(crate) fn value_text(v: &serde_json::Value) -> (r: String)
    ensures
        r@ == json_text(*v),
{
    v.to_string()
}

/// Relies on `serde_json::Value::get` with a string key: the member of an
/// object under that key, none for other values.
#[verifier::external_body]
pub(crate) fn field<'a>(v: &'a serde_json::Value, key: &str) -> (r: Option<&'a serde_json::Value>)
    ensures
        r is Some <==> json_field(*v, key@) is Some,
        r matches Some(x) ==> json_field(*v, key@) == Some(*x),
{
    v.get(key)
}

/// Relies on `From<&str> for serde_json::Value`: a `Value::String`, whose
/// contents `as_str` gives back.
#[verifier::external_body]
pub(crate) fn string_value(s: &str) -> (r: serde_json::Value)
    ensures
        r == json_string(s@),
        json_str(r) == Some(s@),
{
    serde_json::Value::from(s)
}

/// Relies on `FromIterator<(K, V)> for serde_json::Value`: a `Value::Object`
/// whose members are the entries.
#[verifier::external_body]
pub(crate) fn object_value(entries: Vec<(String, serde_json::Value)>) -> (r: serde_json::Value)
    ensures
        r == json_object(entries@.map_values(|e: (String, serde_json::Value)| (e.0@, e.1))),
        distinct_keys(entries@.map_values(|e: (String, serde_json::Value)| (e.0@, e.1)))
            ==> forall|k: Seq<char>| #[trigger] json_field(r, k) == entry_lookup(
            entries@.map_values(|e: (String, serde_json::Value)| (e.0@, e.1)),
            k,
        ),
{
    serde_json::Value::from_iter(entries)
}

} // verus!
