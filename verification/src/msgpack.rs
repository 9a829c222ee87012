//! The boundary to the `rmpv` crate, which reads and writes MessagePack.
//!
//! Nothing here is proved. The two functions that the rest of the crate calls
//! are [`decode`] and [`encode`]; what they return is named by [`decoded`] and
//! [`encoded`], so that contracts elsewhere can speak of it.

use vstd::prelude::*;
use crate::value::Model;
use crate::value::Object;
use rmpv::Value;

verus! {

/// `rmpv::Value`, a MessagePack value as `rmpv` holds it. Opaque here.
#[verifier::external_type_specification]
#[verifier::external_body]
pub struct ExValue(rmpv::Value);

/// `rmpv::Integer`, the integer inside a `rmpv::Value`. Opaque here.
#[verifier::external_type_specification]
#[verifier::external_body]
pub struct ExInteger(rmpv::Integer);

/// `rmpv::Utf8String`, the string inside a `rmpv::Value`. Opaque here.
#[verifier::external_type_specification]
#[verifier::external_body]
pub struct ExUtf8String(rmpv::Utf8String);

/// The value that `rmpv::decode::read_value` reads from the front of
/// `bytes`, or `None` where it reports an error.
pub uninterp spec fn decoded(bytes: Seq<u8>) -> Option<Model>;

/// The bytes that `rmpv::encode::write_value` writes for the value
/// `object`.
pub uninterp spec fn encoded(object: Model) -> Seq<u8>;

/// An integer of `rmpv` as a value of this crate: `Integer::as_u64` answers
/// for every integer that is not negative, `Integer::as_i64` for the others.
#[verifier::external_body]
fn integer_from_outside(i: rmpv::Integer) -> Object {
    match i.as_u64() {
        Some(n) => Object::Unsigned(n),
        None => Object::Negative(i.as_i64().unwrap_or(i64::MIN)),
    }
}

/// A string of `rmpv` as a value of this crate: `Utf8String::as_str` answers
/// where the bytes are valid UTF-8, `Utf8String::into_bytes` gives them
/// otherwise.
#[verifier::external_body]
fn text_from_outside(s: rmpv::Utf8String) -> Object {
    match s.as_str() {
        Some(t) => Object::Text(t.to_string()),
        None => Object::RawText(s.into_bytes()),
    }
}

/// A key and its value, each through [`from_outside`].
#[verifier::external_body]
fn pair_from_outside(p: (rmpv::Value, rmpv::Value)) -> (Object, Object) {
    (from_outside(p.0), from_outside(p.1))
}

/// A `rmpv::Value` as a value of this crate, variant for variant. The two
/// floating-point variants are kept whole.
#[verifier::external_body]
fn from_outside(v: rmpv::Value) -> Object {
    match v {
        Value::Nil => Object::Nil,
        Value::Boolean(b) => Object::Boolean(b),
        Value::Integer(i) => integer_from_outside(i),
        Value::String(s) => text_from_outside(s),
        Value::Binary(b) => Object::Binary(b),
        Value::Array(a) => Object::Array(a.into_iter().map(from_outside).collect()),
        Value::Map(m) => Object::Dictionary(m.into_iter().map(pair_from_outside).collect()),
        Value::Ext(t, d) => Object::Ext(t, d),
        float => Object::Float(float),
    }
}

/// A key and its value, each through [`to_outside`].
#[verifier::external_body]
fn pair_to_outside(p: &(Object, Object)) -> (rmpv::Value, rmpv::Value) {
    (to_outside(&p.0), to_outside(&p.1))
}

/// A value of this crate as a `rmpv::Value`, variant for variant. Bytes that
/// are not valid UTF-8 become `Binary`, which is how `rmpv` writes them.
#[verifier::external_body]
fn to_outside(o: &Object) -> rmpv::Value {
    match o {
        Object::Nil => Value::Nil,
        Object::Boolean(b) => Value::Boolean(*b),
        Object::Unsigned(n) => Value::from(*n),
        Object::Negative(n) => Value::from(*n),
        Object::Float(x) => x.clone(),
        Object::Text(s) => Value::from(s.as_str()),
        Object::RawText(b) | Object::Binary(b) => Value::Binary(b.clone()),
        Object::Array(a) => Value::Array(a.iter().map(to_outside).collect()),
        Object::Dictionary(m) => Value::Map(m.iter().map(pair_to_outside).collect()),
        Object::Ext(t, d) => Value::Ext(*t, d.clone()),
    }
}

/// Calls `rmpv::decode::read_value` on `bytes`. The result is a function of
/// the bytes alone, which [`decoded`] names.
#[verifier::external_body]
pub(crate) fn decode(bytes: &[u8]) -> (r: Option<Object>)
    ensures
        r matches Some(object) ==> decoded(bytes@) == Some(object@),
        r is None ==> decoded(bytes@) is None,
{
    let mut rest: &[u8] = bytes;
    match rmpv::decode::read_value(&mut rest) {
        Ok(v) => Some(from_outside(v)),
        Err(_) => None,
    }
}

/// Calls `rmpv::encode::write_value` on `object`, into a fresh buffer. Writing
/// into a vector does not fail. The result is a function of the value alone,
/// which [`encoded`] names.
#[verifier::external_body]
pub(crate) fn encode(object: &Object) -> (r: Vec<u8>)
    ensures
        r@ == encoded(object@),
{
    let mut buffer = Vec::new();
    let _ = rmpv::encode::write_value(&mut buffer, &to_outside(object));
    buffer
}

} // verus!
