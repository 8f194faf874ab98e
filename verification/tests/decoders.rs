use table_import::decode::{
    decode_bare_identity, decode_double, decode_identity, decode_optional_u32, decode_text,
    decode_timestamp, decode_u32, decode_u64, decode_wrapped_identity, parse_dbvector3,
};
use table_import::error::{Axis, Reason, VectorError};
use table_import::hex::{decode_hex, same_bytes};
use table_import::json::{Json, JsonNumber};
use table_import::records::{DbVector3, Identity, Timestamp};

fn unsigned(n: u64) -> Json {
    Json::Number(JsonNumber {
        unsigned: Some(n),
        signed: if n <= i64::MAX as u64 { Some(n as i64) } else { None },
        double_bits: Some((n as f64).to_bits()),
    })
}

fn negative(n: i64) -> Json {
    Json::Number(JsonNumber { unsigned: None, signed: Some(n), double_bits: Some((n as f64).to_bits()) })
}

fn float(f: f64) -> Json {
    Json::Number(JsonNumber { unsigned: None, signed: None, double_bits: Some(f.to_bits()) })
}

fn text(s: &str) -> Json {
    Json::Text(s.to_string())
}

fn object(members: Vec<(&str, Json)>) -> Json {
    Json::Object(members.into_iter().map(|(k, v)| (k.to_string(), v)).collect())
}

fn one_two_three() -> DbVector3 {
    DbVector3 { x: 1.0f64.to_bits(), y: 2.0f64.to_bits(), z: 3.0f64.to_bits() }
}

#[test]
fn vector3_object_and_array_forms_agree() {
    let from_object =
        parse_dbvector3(&object(vec![("x", unsigned(1)), ("y", unsigned(2)), ("z", unsigned(3))]));
    let from_array = parse_dbvector3(&Json::Array(vec![unsigned(1), unsigned(2), unsigned(3)]));
    assert_eq!(from_object, Ok(one_two_three()));
    assert_eq!(from_array, from_object);
}

#[test]
fn vector3_from_parsed_text_in_both_forms() {
    let from_object = parse_dbvector3(&Json::parse("{\"x\":1,\"y\":2,\"z\":3}").unwrap());
    let from_array = parse_dbvector3(&Json::parse("[1,2,3]").unwrap());
    assert_eq!(from_object, Ok(one_two_three()));
    assert_eq!(from_array, Ok(one_two_three()));
}

#[test]
fn vector3_array_of_two_fails() {
    let r = parse_dbvector3(&Json::Array(vec![unsigned(1), unsigned(2)]));
    assert_eq!(r, Err(VectorError::TooFewElements));
    assert_eq!(parse_dbvector3(&Json::parse("[1,2]").unwrap()), Err(VectorError::TooFewElements));
}

#[test]
fn vector3_array_ignores_further_elements() {
    let r = parse_dbvector3(&Json::Array(vec![unsigned(1), unsigned(2), unsigned(3), text("more")]));
    assert_eq!(r, Ok(one_two_three()));
}

#[test]
fn vector3_object_ignores_further_members() {
    let r = parse_dbvector3(&object(vec![
        ("w", text("extra")),
        ("z", unsigned(3)),
        ("y", unsigned(2)),
        ("x", unsigned(1)),
    ]));
    assert_eq!(r, Ok(one_two_three()));
}

#[test]
fn vector3_accepts_any_number() {
    let r = parse_dbvector3(&Json::Array(vec![float(1.5), negative(-2), unsigned(7)]));
    assert_eq!(
        r,
        Ok(DbVector3 { x: 1.5f64.to_bits(), y: (-2.0f64).to_bits(), z: 7.0f64.to_bits() })
    );
}

#[test]
fn vector3_object_missing_component() {
    let r = parse_dbvector3(&object(vec![("x", unsigned(1)), ("z", unsigned(3))]));
    assert_eq!(r, Err(VectorError::MissingComponent(Axis::Y)));
}

#[test]
fn vector3_object_component_not_a_number() {
    let r = parse_dbvector3(&object(vec![("x", text("1")), ("y", unsigned(2)), ("z", unsigned(3))]));
    assert_eq!(r, Err(VectorError::MissingComponent(Axis::X)));
}

#[test]
fn vector3_object_reports_first_failure_in_order() {
    let r = parse_dbvector3(&object(vec![("x", unsigned(1))]));
    assert_eq!(r, Err(VectorError::MissingComponent(Axis::Y)));
    let r = parse_dbvector3(&object(vec![]));
    assert_eq!(r, Err(VectorError::MissingComponent(Axis::X)));
}

#[test]
fn vector3_array_element_not_a_number() {
    let r = parse_dbvector3(&Json::Array(vec![unsigned(1), unsigned(2), Json::Null]));
    assert_eq!(r, Err(VectorError::BadElement(Axis::Z)));
    let r = parse_dbvector3(&Json::Array(vec![Json::Bool(true), text("a"), Json::Null]));
    assert_eq!(r, Err(VectorError::BadElement(Axis::X)));
}

#[test]
fn vector3_neither_object_nor_array() {
    assert_eq!(parse_dbvector3(&unsigned(1)), Err(VectorError::NotObjectOrArray));
    assert_eq!(parse_dbvector3(&text("[1,2,3]")), Err(VectorError::NotObjectOrArray));
    assert_eq!(parse_dbvector3(&Json::Null), Err(VectorError::NotObjectOrArray));
}

#[test]
fn vector3_object_uses_first_member_of_a_name() {
    let r = parse_dbvector3(&object(vec![
        ("x", unsigned(1)),
        ("x", unsigned(9)),
        ("y", unsigned(2)),
        ("z", unsigned(3)),
    ]));
    assert_eq!(r, Ok(one_two_three()));
}

#[test]
fn identity_accepts_bare_and_wrapped_forms() {
    let hex = "0123456789abcdef0123456789abcdef0123456789abcdef0123456789abcdab";
    let bare = decode_identity(&text(hex)).unwrap();
    let wrapped = decode_identity(&Json::Array(vec![text(hex)])).unwrap();
    assert_eq!(bare, wrapped);
    assert_eq!(bare.bytes.len(), 32);
    assert_eq!(bare.bytes[0], 0x01);
    assert_eq!(bare.bytes[1], 0x23);
    assert_eq!(bare.bytes[31], 0xab);
    assert_eq!(decode_wrapped_identity(&Json::Array(vec![text(hex)])), Ok(wrapped));
    assert_eq!(decode_bare_identity(&text(hex)), Ok(bare));
}

#[test]
fn identity_fails_on_empty_array() {
    assert_eq!(decode_identity(&Json::Array(vec![])), Err(Reason::EmptyArray));
    assert_eq!(decode_wrapped_identity(&Json::Array(vec![])), Err(Reason::EmptyArray));
}

#[test]
fn identity_fails_on_text_that_is_not_hex() {
    assert_eq!(decode_identity(&text("xyz!")), Err(Reason::InvalidHex));
    assert_eq!(decode_identity(&Json::Array(vec![text("zz")])), Err(Reason::InvalidHex));
    assert_eq!(decode_bare_identity(&text("abc")), Err(Reason::InvalidHex));
    assert_eq!(decode_bare_identity(&text("d\u{e9}ad")), Err(Reason::InvalidHex));
}

#[test]
fn identity_forms_are_kept_apart_per_decoder() {
    assert_eq!(decode_bare_identity(&Json::Array(vec![text("ab")])), Err(Reason::NotText));
    assert_eq!(decode_wrapped_identity(&text("ab")), Err(Reason::NotArray));
    assert_eq!(decode_wrapped_identity(&Json::Array(vec![unsigned(1)])), Err(Reason::NotText));
    assert_eq!(decode_identity(&unsigned(1)), Err(Reason::NotTextOrArray));
}

#[test]
fn identity_wrapped_ignores_further_elements() {
    let r = decode_wrapped_identity(&Json::Array(vec![text("ff00"), Json::Null]));
    assert_eq!(r, Ok(Identity { bytes: vec![0xff, 0x00] }));
}

#[test]
fn hex_decodes_both_cases_and_the_empty_text() {
    assert_eq!(decode_hex("deadBEEF"), Some(vec![0xde, 0xad, 0xbe, 0xef]));
    assert_eq!(decode_hex("0109aF"), Some(vec![0x01, 0x09, 0xaf]));
    assert_eq!(decode_hex(""), Some(vec![]));
}

#[test]
fn hex_refuses_odd_length_and_other_characters() {
    assert_eq!(decode_hex("abc"), None);
    assert_eq!(decode_hex("0g"), None);
    assert_eq!(decode_hex("0x12"), None);
    assert_eq!(decode_hex(" 12 "), None);
    assert_eq!(decode_hex("12/:"), None);
    assert_eq!(decode_hex("@G`g"), None);
    assert_eq!(decode_hex("\u{ff11}\u{ff12}"), None);
}

#[test]
fn same_bytes_compares_contents() {
    assert!(same_bytes(&vec![1, 2, 3], &vec![1, 2, 3]));
    assert!(!same_bytes(&vec![1, 2, 3], &vec![1, 2, 4]));
    assert!(!same_bytes(&vec![1, 2, 3], &vec![1, 2]));
    assert!(same_bytes(&vec![], &vec![]));
}

#[test]
fn timestamp_after_the_epoch() {
    let r = decode_timestamp(&Json::Array(vec![unsigned(1_700_000_000_000_000)]));
    assert_eq!(r, Ok(Timestamp { micros_since_unix_epoch: 1_700_000_000_000_000 }));
    let parsed = Json::parse("[1700000000000000]").unwrap();
    assert_eq!(
        decode_timestamp(&parsed),
        Ok(Timestamp { micros_since_unix_epoch: 1_700_000_000_000_000 })
    );
}

#[test]
fn timestamp_empty_array_fails() {
    assert_eq!(decode_timestamp(&Json::Array(vec![])), Err(Reason::EmptyArray));
    assert_eq!(decode_timestamp(&Json::parse("[]").unwrap()), Err(Reason::EmptyArray));
}

#[test]
fn timestamp_before_the_epoch() {
    let r = decode_timestamp(&Json::Array(vec![negative(-5)]));
    assert_eq!(r, Ok(Timestamp { micros_since_unix_epoch: -5 }));
    assert_eq!(
        decode_timestamp(&Json::parse("[-5]").unwrap()),
        Ok(Timestamp { micros_since_unix_epoch: -5 })
    );
}

#[test]
fn timestamp_other_shapes_fail() {
    assert_eq!(decode_timestamp(&unsigned(5)), Err(Reason::NotArray));
    assert_eq!(decode_timestamp(&Json::Array(vec![text("5")])), Err(Reason::NotInteger));
    assert_eq!(decode_timestamp(&Json::Array(vec![float(1.5)])), Err(Reason::NotInteger));
    assert_eq!(
        decode_timestamp(&Json::parse("[18446744073709551615]").unwrap()),
        Err(Reason::NotInteger)
    );
}

#[test]
fn optional_u32_null_is_absent() {
    assert_eq!(decode_optional_u32(&Json::Null), Ok(None));
}

#[test]
fn optional_u32_integer_is_present() {
    assert_eq!(decode_optional_u32(&unsigned(42)), Ok(Some(42)));
    assert_eq!(decode_optional_u32(&unsigned(0)), Ok(Some(0)));
    assert_eq!(decode_optional_u32(&unsigned(u32::MAX as u64)), Ok(Some(u32::MAX)));
}

#[test]
fn optional_u32_refuses_everything_else() {
    assert_eq!(decode_optional_u32(&text("x")), Err(Reason::NotUnsigned));
    assert_eq!(decode_optional_u32(&negative(-1)), Err(Reason::NotUnsigned));
    assert_eq!(decode_optional_u32(&float(1.5)), Err(Reason::NotUnsigned));
    assert_eq!(decode_optional_u32(&unsigned(u32::MAX as u64 + 1)), Err(Reason::TooLarge));
    assert_eq!(decode_optional_u32(&Json::Bool(false)), Err(Reason::NotUnsigned));
}

#[test]
fn u32_refuses_what_does_not_fit() {
    assert_eq!(decode_u32(&unsigned(7)), Ok(7));
    assert_eq!(decode_u32(&unsigned(4_294_967_295)), Ok(4_294_967_295));
    assert_eq!(decode_u32(&unsigned(4_294_967_296)), Err(Reason::TooLarge));
    assert_eq!(decode_u32(&unsigned(u64::MAX)), Err(Reason::TooLarge));
    assert_eq!(decode_u32(&negative(-7)), Err(Reason::NotUnsigned));
    assert_eq!(decode_u32(&text("7")), Err(Reason::NotUnsigned));
}

#[test]
fn u64_takes_the_whole_range() {
    assert_eq!(decode_u64(&unsigned(u64::MAX)), Ok(u64::MAX));
    assert_eq!(decode_u64(&float(2.0)), Err(Reason::NotUnsigned));
    assert_eq!(decode_u64(&Json::Null), Err(Reason::NotUnsigned));
}

#[test]
fn double_takes_any_number() {
    assert_eq!(decode_double(&float(0.25)), Ok(0.25f64.to_bits()));
    assert_eq!(decode_double(&unsigned(3)), Ok(3.0f64.to_bits()));
    assert_eq!(decode_double(&text("3")), Err(Reason::NotNumber));
}

#[test]
fn text_takes_strings_only() {
    assert_eq!(decode_text(&text("Alice")), Ok("Alice".to_string()));
    assert_eq!(decode_text(&text("")), Ok(String::new()));
    assert_eq!(decode_text(&unsigned(1)), Err(Reason::NotText));
}
