//! Trusted access to JSON values.
//!
//! Parsing is done by serde_json; its `Value` type is opaque here.  What
//! a value holds is given a name, `json_rep`, mapping it to the
//! mathematical JSON tree `JsonData`, and what parsing a text yields is
//! the name `spec_json_parse`; the wrappers below state what each
//! serde_json accessor returns in terms of those names, and the schema
//! decisions taken over the plain values handed out are verified in
//! `crate::compose`.

use vstd::prelude::*;

verus! {

/// The mathematical content of a JSON value: the tree of members,
/// elements and scalars.  A number is modelled by its `u64` reading
/// alone — `Some` exactly when the number is an integer representable
/// in `u64` (the one reading this crate's schema uses).
pub enum JsonData {
    Null,
    Bool(bool),
    Num(Option<u64>),
    Str(Seq<char>),
    Arr(Seq<JsonData>),
    Obj(Map<Seq<char>, JsonData>),
}

/// The member of an object under a key: `Some` exactly when the value
/// is an object with that member.
pub open spec fn spec_member(d: JsonData, key: Seq<char>) -> Option<JsonData> {
    match d {
        JsonData::Obj(m) => if m.dom().contains(key) {
            Some(m[key])
        } else {
            None
        },
        _ => None,
    }
}

#[verifier::external_type_specification]
#[verifier::external_body]
pub struct ExJsonValue(serde_json::Value);

/// What a JSON value holds, named but not written out: the abstraction
/// every wrapper below speaks of.
pub uninterp spec fn json_rep(v: serde_json::Value) -> JsonData;

/// What parsing a text yields: `Some` of the parsed tree exactly when
/// the parser accepts the text, `None` otherwise.  Parsing is a
/// function of the text alone.
pub uninterp spec fn spec_json_parse(s: Seq<char>) -> Option<JsonData>;

/// Relies on serde_json::from_str::<Value>: `Some` exactly for text
/// the parser accepts, holding the parsed tree.
#[verifier::external_body]
pub fn json_parse(s: &str) -> (r: Option<serde_json::Value>)
    ensures
        match r {
            Some(v) => spec_json_parse(s@) == Some(json_rep(v)),
            None => spec_json_parse(s@) is None,
        },
{
    serde_json::from_str(s).ok()
}

/// Relies on serde_json::Value::get: the member of a JSON object under
/// the given key, `None` for a missing member or a non-object.
#[verifier::external_body]
pub fn json_get<'a>(v: &'a serde_json::Value, key: &str) -> (r: Option<&'a serde_json::Value>)
    ensures
        match r {
            Some(x) => spec_member(json_rep(*v), key@) == Some(json_rep(*x)),
            None => spec_member(json_rep(*v), key@) is None,
        },
{
    v.get(key)
}

/// Relies on serde_json::Value::as_str: the content of a JSON string
/// value, `None` for any other kind of value.
#[verifier::external_body]
pub fn json_as_string(v: &serde_json::Value) -> (r: Option<String>)
    ensures
        match r {
            Some(s) => json_rep(*v) == JsonData::Str(s@),
            None => !(json_rep(*v) is Str),
        },
{
    match v.as_str() {
        Some(s) => Some(s.to_owned()),
        None => None,
    }
}

/// Relies on serde_json::Value::as_u64: the content of a JSON number
/// representable as `u64`, `None` otherwise.
#[verifier::external_body]
pub fn json_as_u64(v: &serde_json::Value) -> (r: Option<u64>)
    ensures
        match r {
            Some(u) => json_rep(*v) == JsonData::Num(Some(u)),
            None => !(json_rep(*v) matches JsonData::Num(Some(_))),
        },
{
    v.as_u64()
}

/// Relies on serde_json::Value::as_bool: the content of a JSON boolean,
/// `None` for any other kind of value.
#[verifier::external_body]
pub fn json_as_bool(v: &serde_json::Value) -> (r: Option<bool>)
    ensures
        match r {
            Some(b) => json_rep(*v) == JsonData::Bool(b),
            None => !(json_rep(*v) is Bool),
        },
{
    v.as_bool()
}

/// Relies on serde_json::Value::is_null.
#[verifier::external_body]
pub fn json_is_null(v: &serde_json::Value) -> (r: bool)
    ensures
        r == (json_rep(*v) is Null),
{
    v.is_null()
}

/// Relies on serde_json::Value::is_object.
#[verifier::external_body]
pub fn json_is_object(v: &serde_json::Value) -> (r: bool)
    ensures
        r == (json_rep(*v) is Obj),
{
    v.is_object()
}

/// Relies on serde_json::Value::as_array: the elements of a JSON array
/// in order, `None` for any other kind of value.
#[verifier::external_body]
pub fn json_as_array<'a>(v: &'a serde_json::Value) -> (r: Option<&'a Vec<serde_json::Value>>)
    ensures
        match r {
            Some(a) => json_rep(*v) matches JsonData::Arr(es) && a@.len() == es.len()
                && forall|i: int| 0 <= i < es.len() ==> json_rep(#[trigger] a@[i]) == es[i],
            None => !(json_rep(*v) is Arr),
        },
{
    v.as_array()
}

} // verus!
