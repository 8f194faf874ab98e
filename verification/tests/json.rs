use table_import::json::{Json, JsonNumber};

#[test]
fn parse_reads_each_kind_of_value() {
    assert_eq!(format!("{:?}", Json::parse("null").unwrap()), "Null");
    assert!(matches!(Json::parse("true").unwrap(), Json::Bool(true)));
    assert!(matches!(Json::parse("\"hi\"").unwrap(), Json::Text(s) if s == "hi"));
    assert!(matches!(Json::parse("[]").unwrap(), Json::Array(items) if items.is_empty()));
    assert!(matches!(Json::parse("{}").unwrap(), Json::Object(members) if members.is_empty()));
}

#[test]
fn parse_keeps_the_three_readings_of_a_number() {
    assert_eq!(
        Json::parse("7").unwrap().as_number(),
        Some(JsonNumber { unsigned: Some(7), signed: Some(7), double_bits: Some(7.0f64.to_bits()) })
    );
    assert_eq!(
        Json::parse("-7").unwrap().as_number(),
        Some(JsonNumber { unsigned: None, signed: Some(-7), double_bits: Some((-7.0f64).to_bits()) })
    );
    assert_eq!(
        Json::parse("1.5").unwrap().as_number(),
        Some(JsonNumber { unsigned: None, signed: None, double_bits: Some(1.5f64.to_bits()) })
    );
    assert_eq!(
        Json::parse("18446744073709551615").unwrap().as_number(),
        Some(JsonNumber {
            unsigned: Some(u64::MAX),
            signed: None,
            double_bits: Some((u64::MAX as f64).to_bits()),
        })
    );
}

#[test]
fn parse_nests_arrays_and_objects() {
    let j = Json::parse("[{\"rows\": [[1, \"a\"], []], \"schema\": null}]").unwrap();
    let results = j.as_array().unwrap();
    assert_eq!(results.len(), 1);
    assert!(results[0].is_object());
    let rows = results[0].member("rows").unwrap().as_array().unwrap();
    assert_eq!(rows.len(), 2);
    let first = rows[0].as_array().unwrap();
    assert_eq!(first[0].as_u64(), Some(1));
    assert_eq!(first[1].as_text(), Some(&"a".to_string()));
    assert!(rows[1].as_array().unwrap().is_empty());
    assert!(results[0].member("schema").unwrap().is_null());
    assert!(results[0].member("other").is_none());
}

#[test]
fn parse_reports_malformed_text() {
    let e = Json::parse("[1, 2").unwrap_err();
    assert!(!e.is_empty());
    assert!(e.contains("line 1"));
    assert!(Json::parse("").is_err());
    assert!(Json::parse("{\"a\": }").is_err());
}

#[test]
fn accessors_answer_none_for_other_kinds() {
    let j = Json::Text("7".to_string());
    assert_eq!(j.as_u64(), None);
    assert_eq!(j.as_i64(), None);
    assert_eq!(j.as_double_bits(), None);
    assert_eq!(j.as_number(), None);
    assert!(j.as_array().is_none());
    assert!(j.member("x").is_none());
    assert!(!j.is_null());
    assert!(!j.is_object());
    assert!(Json::Null.as_text().is_none());
}

#[test]
fn member_finds_the_first_of_a_name() {
    let j = Json::Object(vec![
        ("a".to_string(), Json::Bool(false)),
        ("b".to_string(), Json::Null),
        ("a".to_string(), Json::Bool(true)),
    ]);
    assert!(matches!(j.member("a"), Some(Json::Bool(false))));
    assert!(matches!(j.member("b"), Some(Json::Null)));
    assert!(j.member("c").is_none());
    assert!(j.member("").is_none());
}
