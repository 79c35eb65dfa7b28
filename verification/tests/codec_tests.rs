//! Text-format codec behaviour: decimal, boolean and hex renderings and
//! their parsers, including the round trip for each supported type tag.

use sqlx4k::codec::encode_bool;
use sqlx4k::codec::format_i64;
use sqlx4k::codec::format_u64;
use sqlx4k::codec::hex_decode;
use sqlx4k::codec::hex_encode;
use sqlx4k::codec::parse_bool;
use sqlx4k::codec::parse_i64;
use sqlx4k::codec::parse_u64;
use sqlx4k::kind::TypeTag;
use sqlx4k::scalar::decode_value;
use sqlx4k::scalar::encode_value;
use sqlx4k::scalar::ScalarValue;

#[test]
fn format_small_numbers() {
    assert_eq!(format_u64(0), "0");
    assert_eq!(format_u64(7), "7");
    assert_eq!(format_u64(10), "10");
    assert_eq!(format_u64(1234567890), "1234567890");
    assert_eq!(format_u64(u64::MAX), "18446744073709551615");
}

#[test]
fn format_signed_numbers() {
    assert_eq!(format_i64(0), "0");
    assert_eq!(format_i64(-1), "-1");
    assert_eq!(format_i64(42), "42");
    assert_eq!(format_i64(i64::MIN), "-9223372036854775808");
    assert_eq!(format_i64(i64::MAX), "9223372036854775807");
}

#[test]
fn parse_unsigned_numbers() {
    assert_eq!(parse_u64("0"), Some(0));
    assert_eq!(parse_u64("007"), Some(7));
    assert_eq!(parse_u64("18446744073709551615"), Some(u64::MAX));
    assert_eq!(parse_u64("18446744073709551616"), None);
    assert_eq!(parse_u64(""), None);
    assert_eq!(parse_u64("12a"), None);
    assert_eq!(parse_u64("-3"), None);
}

#[test]
fn parse_signed_numbers() {
    assert_eq!(parse_i64("-9223372036854775808"), Some(i64::MIN));
    assert_eq!(parse_i64("9223372036854775807"), Some(i64::MAX));
    assert_eq!(parse_i64("-0"), Some(0));
    assert_eq!(parse_i64("-"), None);
    assert_eq!(parse_i64("9223372036854775808"), None);
    assert_eq!(parse_i64("-9223372036854775809"), None);
}

#[test]
fn booleans_round_trip() {
    assert_eq!(encode_bool(true), "t");
    assert_eq!(encode_bool(false), "f");
    assert_eq!(parse_bool("t"), Some(true));
    assert_eq!(parse_bool("f"), Some(false));
    assert_eq!(parse_bool("true"), None);
    assert_eq!(parse_bool(""), None);
}

#[test]
fn hex_encodes_lowercase_pairs() {
    assert_eq!(hex_encode(&vec![]), "");
    assert_eq!(hex_encode(&vec![0x00]), "00");
    assert_eq!(hex_encode(&vec![0x68, 0x69]), "6869");
    assert_eq!(hex_encode(&vec![0xde, 0xad, 0xbe, 0xef]), "deadbeef");
}

#[test]
fn hex_decodes_what_it_encodes() {
    let bytes = vec![0x00, 0x0f, 0xf0, 0xff, 0x42];
    let text = hex_encode(&bytes);
    assert_eq!(hex_decode(&text), Some(bytes));
}

#[test]
fn hex_rejects_bad_input() {
    assert_eq!(hex_decode("abc"), None);
    assert_eq!(hex_decode("zz"), None);
    assert_eq!(hex_decode("0G"), None);
    assert_eq!(hex_decode(""), Some(vec![]));
}

#[test]
fn round_trip_bool_tag() {
    let v = ScalarValue::Bool(true);
    let text = encode_value(TypeTag::Bool, &v).unwrap();
    assert_eq!(text, "t");
    match decode_value(TypeTag::Bool, &text) {
        Some(ScalarValue::Bool(b)) => assert!(b),
        other => panic!("unexpected decode: {:?}", other.is_some()),
    }
}

#[test]
fn round_trip_integer_tags() {
    for (tag, value) in [
        (TypeTag::Int2, -32768i64),
        (TypeTag::Int2, 32767),
        (TypeTag::Int4, -2147483648),
        (TypeTag::Int4, 2147483647),
        (TypeTag::Int8, i64::MIN),
        (TypeTag::Int8, i64::MAX),
    ] {
        let v = ScalarValue::Int(value);
        let text = encode_value(tag, &v).unwrap();
        match decode_value(tag, &text) {
            Some(ScalarValue::Int(back)) => assert_eq!(back, value),
            _ => panic!("integer did not round trip"),
        }
    }
}

#[test]
fn integer_tags_respect_ranges() {
    assert!(encode_value(TypeTag::Int2, &ScalarValue::Int(40000)).is_none());
    assert!(encode_value(TypeTag::Int4, &ScalarValue::Int(1 << 40)).is_none());
    assert!(decode_value(TypeTag::Int2, "40000").is_none());
    assert!(decode_value(TypeTag::Int4, "9999999999").is_none());
}

#[test]
fn round_trip_text_tags() {
    for tag in [
        TypeTag::Numeric,
        TypeTag::Char,
        TypeTag::Varchar,
        TypeTag::Text,
        TypeTag::Timestamp,
        TypeTag::Timestamptz,
        TypeTag::Date,
        TypeTag::Time,
        TypeTag::Uuid,
        TypeTag::Json,
        TypeTag::Jsonb,
    ] {
        let v = ScalarValue::Text(String::from("2024-05-17 12:34:56"));
        let text = encode_value(tag, &v).unwrap();
        assert_eq!(text, "2024-05-17 12:34:56");
        match decode_value(tag, &text) {
            Some(ScalarValue::Text(back)) => assert_eq!(back, "2024-05-17 12:34:56"),
            _ => panic!("text did not round trip"),
        }
    }
}

#[test]
fn round_trip_bytea_tag() {
    let v = ScalarValue::Bytes(vec![0x01, 0xab, 0xff]);
    let text = encode_value(TypeTag::Bytea, &v).unwrap();
    assert_eq!(text, "01abff");
    match decode_value(TypeTag::Bytea, &text) {
        Some(ScalarValue::Bytes(back)) => assert_eq!(back, vec![0x01, 0xab, 0xff]),
        _ => panic!("bytes did not round trip"),
    }
}

#[test]
fn float_tags_hold_no_value_class() {
    assert!(encode_value(TypeTag::Float4, &ScalarValue::Text(String::from("1.5"))).is_none());
    assert!(encode_value(TypeTag::Float8, &ScalarValue::Int(1)).is_none());
    assert!(decode_value(TypeTag::Float4, "1.5").is_none());
    assert!(decode_value(TypeTag::Float8, "2.5").is_none());
}

#[test]
fn mismatched_classes_are_rejected() {
    assert!(encode_value(TypeTag::Bool, &ScalarValue::Int(1)).is_none());
    assert!(encode_value(TypeTag::Text, &ScalarValue::Bool(true)).is_none());
    assert!(encode_value(TypeTag::Bytea, &ScalarValue::Text(String::from("x"))).is_none());
}
