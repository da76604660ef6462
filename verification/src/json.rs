//! What the library reads of a `serde_json::Value`.
//!
//! A JSON value is opaque to the verifier. `json_of` names the document that
//! a value holds, and each wrapper ties one accessor of `serde_json` to it.
//! The wrappers are not proved: they are what the rest of the crate takes on
//! trust.

use vstd::prelude::*;

verus! {

#[verifier::external_type_specification]
#[verifier::external_body]
pub struct ExJsonValue(serde_json::Value);

/// A JSON document as a mathematical value.
pub ghost enum Json {
    Null,
    Flag(bool),
    /// A number that is a non-negative integer within 64 bits.
    Count(u64),
    /// Any other number: a negative integer or a fraction.
    OtherNumber,
    Text(Seq<char>),
    List(Seq<Json>),
    Object(Map<Seq<char>, Json>),
}

/// The document that a value holds.
pub uninterp spec fn json_of(v: serde_json::Value) -> Json;

/// The documents that a list of values holds, in order.
pub open spec fn jsons(items: Seq<serde_json::Value>) -> Seq<Json> {
    Seq::new(items.len(), |i: int| json_of(items[i]))
}

/// The member of an object under `key`; `None` where the document is not
/// an object or has no member of that name.
pub open spec fn member_in(doc: Json, key: Seq<char>) -> Option<Json> {
    match doc {
        Json::Object(members) => if members.contains_key(key) {
            Some(members[key])
        } else {
            None
        },
        _ => None,
    }
}

/// The text of a string; `None` for any other document.
pub open spec fn text_in(doc: Json) -> Option<Seq<char>> {
    match doc {
        Json::Text(t) => Some(t),
        _ => None,
    }
}

/// The value of a non-negative integer within 64 bits; `None` for any other
/// document.
pub open spec fn count_in(doc: Json) -> Option<u64> {
    match doc {
        Json::Count(n) => Some(n),
        _ => None,
    }
}

/// The value of a boolean; `None` for any other document.
pub open spec fn flag_in(doc: Json) -> Option<bool> {
    match doc {
        Json::Flag(b) => Some(b),
        _ => None,
    }
}

/// The elements of an array; `None` for any other document.
pub open spec fn items_in(doc: Json) -> Option<Seq<Json>> {
    match doc {
        Json::List(items) => Some(items),
        _ => None,
    }
}

/// `serde_json::Value::get` with a string key. Trusted: where the value is
/// an object with a member of that name, the result is that member,
/// borrowed from `v`; otherwise there is none.
#[verifier::external_body]
pub(crate) fn member<'a>(v: &'a serde_json::Value, key: &str) -> (r: Option<&'a serde_json::Value>)
    ensures
        match r {
            Some(m) => member_in(json_of(*v), key@) == Some(json_of(*m)),
            None => member_in(json_of(*v), key@).is_none(),
        },
{
    v.get(key)
}

/// `serde_json::Value::as_str`. Trusted: the result is the text of a
/// string, and `None` for any other value.
#[verifier::external_body]
pub(crate) fn text_of<'a>(v: &'a serde_json::Value) -> (r: Option<&'a str>)
    ensures
        match r {
            Some(s) => text_in(json_of(*v)) == Some(s@),
            None => text_in(json_of(*v)).is_none(),
        },
{
    v.as_str()
}

/// `serde_json::Value::as_u64`. Trusted: the result is the value of a
/// non-negative integer within 64 bits, and `None` for any other value.
#[verifier::external_body]
pub(crate) fn number_of(v: &serde_json::Value) -> (r: Option<u64>)
    ensures
        r == count_in(json_of(*v)),
{
    v.as_u64()
}

/// `serde_json::Value::as_bool`. Trusted: the result is the value of a
/// boolean, and `None` for any other value.
#[verifier::external_body]
pub(crate) fn flag_of(v: &serde_json::Value) -> (r: Option<bool>)
    ensures
        r == flag_in(json_of(*v)),
{
    v.as_bool()
}

/// `serde_json::Value::as_array`. Trusted: the result holds the elements
/// of an array, in order, and is `None` for any other value.
#[verifier::external_body]
pub(crate) fn items_of<'a>(v: &'a serde_json::Value) -> (r: Option<&'a Vec<serde_json::Value>>)
    ensures
        match r {
            Some(items) => items_in(json_of(*v)) == Some(jsons(items@)),
            None => items_in(json_of(*v)).is_none(),
        },
{
    v.as_array()
}

} // verus!
