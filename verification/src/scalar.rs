//! Typed column values and their text-format renderings, one per type
//! tag, together with the round-trip guarantee: a value written in text
//! format parses back to itself.
//!
//! Floating-point tags have no value class here: this crate holds no
//! floats, so their text forms pass through untyped.

use crate::codec::hex_decode;
use crate::codec::hex_encode;
use crate::codec::hex_of;
use crate::codec::encode_bool;
use crate::codec::format_i64;
use crate::codec::lemma_bool_round_trip;
use crate::codec::lemma_dec_int_round_trip;
use crate::codec::lemma_hex_round_trip;
use crate::codec::parse_bool;
use crate::codec::parse_i64;
use crate::codec::spec_dec_int;
use crate::codec::spec_encode_bool;
use crate::codec::spec_parse_bool;
use crate::codec::spec_parse_dec_int;
use crate::codec::spec_parse_hex;
use crate::kind::TypeTag;
use vstd::prelude::*;

verus! {

/// A plain value of one of the supported column classes.
pub enum ScalarValue {
    /// A boolean column value.
    Bool(bool),
    /// An integer column value of any of the integer tags.
    Int(i64),
    /// A textual column value: character, text, date/time, uuid, json and
    /// numeric types all cross the boundary as their text rendering.
    Text(String),
    /// A raw byte-array column value.
    Bytes(Vec<u8>),
}

/// Mathematical shape of a scalar value.
pub enum SpecScalar {
    Bool(bool),
    Int(int),
    Text(Seq<char>),
    Bytes(Seq<u8>),
}

/// The mathematical shape of a plain scalar value.
pub open spec fn scalar_view(v: ScalarValue) -> SpecScalar {
    match v {
        ScalarValue::Bool(b) => SpecScalar::Bool(b),
        ScalarValue::Int(i) => SpecScalar::Int(i as int),
        ScalarValue::Text(s) => SpecScalar::Text(s@),
        ScalarValue::Bytes(b) => SpecScalar::Bytes(b@),
    }
}

/// Whether a scalar value belongs to a tag's value class (and, for the
/// narrower integer tags, lies within the tag's range).
pub open spec fn spec_tag_fits(tag: TypeTag, v: SpecScalar) -> bool {
    match (tag, v) {
        (TypeTag::Bool, SpecScalar::Bool(_)) => true,
        (TypeTag::Int2, SpecScalar::Int(i)) => -32768 <= i <= 32767,
        (TypeTag::Int4, SpecScalar::Int(i)) => -2147483648 <= i <= 2147483647,
        (TypeTag::Int8, SpecScalar::Int(i)) => i64::MIN <= i <= i64::MAX,
        (TypeTag::Numeric, SpecScalar::Text(_)) => true,
        (TypeTag::Char, SpecScalar::Text(_)) => true,
        (TypeTag::Varchar, SpecScalar::Text(_)) => true,
        (TypeTag::Text, SpecScalar::Text(_)) => true,
        (TypeTag::Timestamp, SpecScalar::Text(_)) => true,
        (TypeTag::Timestamptz, SpecScalar::Text(_)) => true,
        (TypeTag::Date, SpecScalar::Text(_)) => true,
        (TypeTag::Time, SpecScalar::Text(_)) => true,
        (TypeTag::Uuid, SpecScalar::Text(_)) => true,
        (TypeTag::Json, SpecScalar::Text(_)) => true,
        (TypeTag::Jsonb, SpecScalar::Text(_)) => true,
        (TypeTag::Bytea, SpecScalar::Bytes(_)) => true,
        _ => false,
    }
}

/// Text-format rendering of a scalar value.
pub open spec fn spec_encode_scalar(v: SpecScalar) -> Seq<char> {
    match v {
        SpecScalar::Bool(b) => spec_encode_bool(b),
        SpecScalar::Int(i) => spec_dec_int(i),
        SpecScalar::Text(s) => s,
        SpecScalar::Bytes(b) => hex_of(b),
    }
}

/// The scalar a text-format string denotes under a tag, if any.
pub open spec fn spec_decode_scalar(tag: TypeTag, s: Seq<char>) -> Option<SpecScalar> {
    match tag {
        TypeTag::Bool => match spec_parse_bool(s) {
            Option::Some(b) => Option::Some(SpecScalar::Bool(b)),
            Option::None => Option::None,
        },
        TypeTag::Int2 => match spec_parse_dec_int(s) {
            Option::Some(i) => if -32768 <= i <= 32767 {
                Option::Some(SpecScalar::Int(i))
            } else {
                Option::None
            },
            Option::None => Option::None,
        },
        TypeTag::Int4 => match spec_parse_dec_int(s) {
            Option::Some(i) => if -2147483648 <= i <= 2147483647 {
                Option::Some(SpecScalar::Int(i))
            } else {
                Option::None
            },
            Option::None => Option::None,
        },
        TypeTag::Int8 => match spec_parse_dec_int(s) {
            Option::Some(i) => if i64::MIN <= i <= i64::MAX {
                Option::Some(SpecScalar::Int(i))
            } else {
                Option::None
            },
            Option::None => Option::None,
        },
        TypeTag::Float4 => Option::None,
        TypeTag::Float8 => Option::None,
        TypeTag::Bytea => match spec_parse_hex(s) {
            Option::Some(b) => Option::Some(SpecScalar::Bytes(b)),
            Option::None => Option::None,
        },
        _ => Option::Some(SpecScalar::Text(s)),
    }
}

/// Whether a scalar value belongs to a tag's value class.
pub fn value_fits(tag: TypeTag, v: &ScalarValue) -> (r: bool)
    ensures
        r == spec_tag_fits(tag, scalar_view(*v)),
{
    match (tag, v) {
        (TypeTag::Bool, ScalarValue::Bool(_)) => true,
        (TypeTag::Int2, ScalarValue::Int(i)) => -32768 <= *i && *i <= 32767,
        (TypeTag::Int4, ScalarValue::Int(i)) => -2147483648 <= *i && *i <= 2147483647,
        (TypeTag::Int8, ScalarValue::Int(_)) => true,
        (TypeTag::Numeric, ScalarValue::Text(_)) => true,
        (TypeTag::Char, ScalarValue::Text(_)) => true,
        (TypeTag::Varchar, ScalarValue::Text(_)) => true,
        (TypeTag::Text, ScalarValue::Text(_)) => true,
        (TypeTag::Timestamp, ScalarValue::Text(_)) => true,
        (TypeTag::Timestamptz, ScalarValue::Text(_)) => true,
        (TypeTag::Date, ScalarValue::Text(_)) => true,
        (TypeTag::Time, ScalarValue::Text(_)) => true,
        (TypeTag::Uuid, ScalarValue::Text(_)) => true,
        (TypeTag::Json, ScalarValue::Text(_)) => true,
        (TypeTag::Jsonb, ScalarValue::Text(_)) => true,
        (TypeTag::Bytea, ScalarValue::Bytes(_)) => true,
        _ => false,
    }
}

/// Renders a scalar value in the text format of a tag; `None` when the
/// value does not belong to the tag's class.
pub fn encode_value(tag: TypeTag, v: &ScalarValue) -> (r: Option<String>)
    ensures
        r is Some <==> spec_tag_fits(tag, scalar_view(*v)),
        r is Some ==> r->Some_0@ == spec_encode_scalar(scalar_view(*v)),
{
    if !value_fits(tag, v) {
        return Option::None;
    }
    match v {
        ScalarValue::Bool(b) => Option::Some(encode_bool(*b)),
        ScalarValue::Int(i) => Option::Some(format_i64(*i)),
        ScalarValue::Text(s) => Option::Some(s.clone()),
        ScalarValue::Bytes(b) => Option::Some(hex_encode(b)),
    }
}

/// Parses a text-format string under a tag into the scalar it denotes.
pub fn decode_value(tag: TypeTag, s: &str) -> (r: Option<ScalarValue>)
    ensures
        match r {
            Option::Some(v) => spec_decode_scalar(tag, s@) == Option::Some(scalar_view(v)),
            Option::None => spec_decode_scalar(tag, s@) is None,
        },
{
    match tag {
        TypeTag::Bool => match parse_bool(s) {
            Option::Some(b) => Option::Some(ScalarValue::Bool(b)),
            Option::None => Option::None,
        },
        TypeTag::Int2 => match parse_i64(s) {
            Option::Some(i) => if -32768 <= i && i <= 32767 {
                Option::Some(ScalarValue::Int(i))
            } else {
                Option::None
            },
            Option::None => Option::None,
        },
        TypeTag::Int4 => match parse_i64(s) {
            Option::Some(i) => if -2147483648 <= i && i <= 2147483647 {
                Option::Some(ScalarValue::Int(i))
            } else {
                Option::None
            },
            Option::None => Option::None,
        },
        TypeTag::Int8 => match parse_i64(s) {
            Option::Some(i) => Option::Some(ScalarValue::Int(i)),
            Option::None => Option::None,
        },
        TypeTag::Float4 => Option::None,
        TypeTag::Float8 => Option::None,
        TypeTag::Bytea => match hex_decode(s) {
            Option::Some(b) => Option::Some(ScalarValue::Bytes(b)),
            Option::None => Option::None,
        },
        _ => Option::Some(ScalarValue::Text(s.to_owned())),
    }
}

/// Round trip: a scalar value that belongs to a tag's class, rendered in
/// text format and parsed back under the same tag, yields itself.
pub proof fn lemma_scalar_round_trip(tag: TypeTag, v: SpecScalar)
    requires
        spec_tag_fits(tag, v),
    ensures
        spec_decode_scalar(tag, spec_encode_scalar(v)) == Option::Some(v),
{
    match (tag, v) {
        (TypeTag::Bool, SpecScalar::Bool(b)) => lemma_bool_round_trip(b),
        (TypeTag::Int2, SpecScalar::Int(i)) => lemma_dec_int_round_trip(i),
        (TypeTag::Int4, SpecScalar::Int(i)) => lemma_dec_int_round_trip(i),
        (TypeTag::Int8, SpecScalar::Int(i)) => lemma_dec_int_round_trip(i),
        (TypeTag::Bytea, SpecScalar::Bytes(b)) => lemma_hex_round_trip(b),
        _ => {},
    }
}

} // verus!
