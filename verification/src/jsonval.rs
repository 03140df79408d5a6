//! Access to the claims object a decoded token carries. The object itself
//! is an opaque outside value; what it holds is named by `claim_fields`,
//! and small trusted accessors read one typed field at a time.

use vstd::prelude::*;

verus! {

/// Declares serde_json's `Value` so claims objects can cross contracts;
/// the value stays opaque, and only `claim_fields` speaks of its contents.
#[verifier::external_type_specification]
#[verifier::external_body]
pub struct ExJsonValue(serde_json::Value);

/// The image of one top-level entry of a claims object: a string, an
/// unsigned integer, a boolean, or something the token layer has no use
/// for.
pub enum ClaimVal {
    Str(Seq<char>),
    Int(int),
    Bool(bool),
    Other,
}

/// What a decoded claims object holds: each top-level key mapped to its
/// value's image. A number counts as `Int` exactly when it is an integer
/// representable in a `u64`.
pub uninterp spec fn claim_fields(v: serde_json::Value) -> Map<Seq<char>, ClaimVal>;

/// Relies on `serde_json::Value::get` and `Value::as_str`: the string
/// under a top-level key of a JSON object, if that key holds a string.
#[verifier::external_body]
pub(crate) fn get_str_field(v: &serde_json::Value, k: &str) -> (r: Option<String>)
    ensures
        match r {
            Some(s) => claim_fields(*v).contains_key(k@) && claim_fields(*v)[k@] == ClaimVal::Str(
                s@,
            ),
            None => !(claim_fields(*v).contains_key(k@) && claim_fields(*v)[k@] is Str),
        },
{
    match v.get(k) {
        Some(x) => match x.as_str() {
            Some(s) => Some(s.to_string()),
            None => None,
        },
        None => None,
    }
}

/// Relies on `serde_json::Value::get` and `Value::as_u64`: the unsigned
/// integer under a top-level key, if that key holds one.
#[verifier::external_body]
pub(crate) fn get_u64_field(v: &serde_json::Value, k: &str) -> (r: Option<u64>)
    ensures
        match r {
            Some(n) => claim_fields(*v).contains_key(k@) && claim_fields(*v)[k@] == ClaimVal::Int(
                n as int,
            ),
            None => !(claim_fields(*v).contains_key(k@) && claim_fields(*v)[k@] is Int),
        },
{
    match v.get(k) {
        Some(x) => x.as_u64(),
        None => None,
    }
}

/// Relies on `serde_json::Value::get` and `Value::as_bool`: the boolean
/// under a top-level key, if that key holds one.
#[verifier::external_body]
pub(crate) fn get_bool_field(v: &serde_json::Value, k: &str) -> (r: Option<bool>)
    ensures
        match r {
            Some(b) => claim_fields(*v).contains_key(k@) && claim_fields(*v)[k@] == ClaimVal::Bool(
                b,
            ),
            None => !(claim_fields(*v).contains_key(k@) && claim_fields(*v)[k@] is Bool),
        },
{
    match v.get(k) {
        Some(x) => x.as_bool(),
        None => None,
    }
}

} // verus!
