//! Decoded payloads: what is read of a `serde_json::Value`.

use vstd::prelude::*;

verus! {

#[verifier::external_type_specification]
#[verifier::external_body]
pub struct ExValue(serde_json::Value);

/// What a JSON value holds.
///
/// A number is its integer, where it is one, and the bits of the double that
/// stands for it. The members of an object have no order.
pub enum Json {
    Null,
    Bool(bool),
    Number { integer: Option<int>, float_bits: u64 },
    Text(Seq<char>),
    Array(Seq<Json>),
    Object(Map<Seq<char>, Json>),
}

/// The contents of a `serde_json::Value`.
pub uninterp spec fn json_of(value: serde_json::Value) -> Json;

/// The compact text that `serde_json` writes for a value with these contents.
pub uninterp spec fn json_text(contents: Json) -> Seq<char>;

impl Json {
    /// The member of an object under `key`.
    pub open spec fn member(self, key: Seq<char>) -> Option<Json> {
        match self {
            Json::Object(members) if members.dom().contains(key) => Some(members[key]),
            _ => None,
        }
    }

    /// The characters of a string.
    pub open spec fn as_text(self) -> Option<Seq<char>> {
        match self {
            Json::Text(s) => Some(s),
            _ => None,
        }
    }

    /// A number that is an integer in the range of `i64`.
    pub open spec fn as_integer(self) -> Option<i64> {
        match self {
            Json::Number { integer: Some(n), .. } if i64::MIN <= n <= i64::MAX => Some(n as i64),
            _ => None,
        }
    }

    /// The bits of the double that stands for a number.
    pub open spec fn as_bits(self) -> Option<u64> {
        match self {
            Json::Number { float_bits, .. } => Some(float_bits),
            _ => None,
        }
    }
}

/// `serde_json::Value::get` with a string index: the member of an object under
/// that key, and nothing for a missing key or a value that is no object.
#[verifier::external_body]
pub(crate) fn get<'a>(value: &'a serde_json::Value, key: &str) -> (r: Option<
    &'a serde_json::Value,
>)
    ensures
        match r {
            Some(member) => json_of(*value).member(key@) == Some(json_of(*member)),
            None => json_of(*value).member(key@) is None,
        },
{
    value.get(key)
}

/// `serde_json::Value::as_str`: the characters of a string, and nothing for any
/// other value.
#[verifier::external_body]
pub(crate) fn as_str(value: &serde_json::Value) -> (r: Option<&str>)
    ensures
        match r {
            Some(s) => json_of(*value).as_text() == Some(s@),
            None => json_of(*value).as_text() is None,
        },
{
    value.as_str()
}

/// `serde_json::Value::as_i64`: an integer in the range of `i64`, and nothing
/// for any other value, a number with a fraction or an exponent among them.
#[verifier::external_body]
pub(crate) fn as_i64(value: &serde_json::Value) -> (r: Option<i64>)
    ensures
        r == json_of(*value).as_integer(),
{
    value.as_i64()
}

/// `serde_json::Value::as_f64`, by the bits of the double that it returns: every
/// number has one, and no other value does.
#[verifier::external_body]
pub(crate) fn as_float_bits(value: &serde_json::Value) -> (r: Option<u64>)
    ensures
        r == json_of(*value).as_bits(),
{
    Some(value.as_f64()?.to_bits())
}

/// `serde_json::Value::to_string`: the compact text of a value, which depends on
/// its contents alone, since the members of an object are written in the order
/// of their keys.
#[verifier::external_body]
pub(crate) fn to_text(value: &serde_json::Value) -> (r: String)
    ensures
        r@ == json_text(json_of(*value)),
{
    value.to_string()
}

/// An object has the members that it holds and no others, and nothing else has
/// any.
pub proof fn law_members_are_those_of_the_object(
    members: Map<Seq<char>, Json>,
    key: Seq<char>,
    other: Json,
)
    requires
        !(other is Object),
    ensures
        members.contains_key(key) ==> Json::Object(members).member(key) == Some(members[key]),
        !members.contains_key(key) ==> Json::Object(members).member(key) is None,
        other.member(key) is None,
{
}

/// A number gives its double, whatever it is, and its integer, where that is one
/// that 64 bits can hold.
pub proof fn law_numbers_give_what_they_are(n: int, float_bits: u64)
    ensures
        (Json::Number { integer: Some(n), float_bits }).as_bits() == Some(float_bits),
        (Json::Number { integer: None, float_bits }).as_bits() == Some(float_bits),
        (Json::Number { integer: None, float_bits }).as_integer() is None,
        -0x8000_0000_0000_0000 <= n <= 0x7fff_ffff_ffff_ffff ==> ((Json::Number {
            integer: Some(n),
            float_bits,
        }).as_integer() matches Some(m) && m == n),
        n < -0x8000_0000_0000_0000 || 0x7fff_ffff_ffff_ffff < n ==> (Json::Number {
            integer: Some(n),
            float_bits,
        }).as_integer() is None,
{
}

/// Only a number is read as a number, and only a string as text, which is then
/// whole.
pub proof fn law_values_are_read_by_their_kind(value: Json, text: Seq<char>)
    ensures
        value.as_integer() is Some ==> value is Number,
        value.as_bits() is Some <==> value is Number,
        value.as_text() is Some <==> value is Text,
        Json::Text(text).as_text() == Some(text),
{
}

} // verus!
