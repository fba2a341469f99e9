use rls_oso::errors::CoerceError;
use rls_oso::timestamp::{int_string, TimestampTz};
use rls_oso::values::{coerce, project_row, CoercedValue, ColumnValue, PolicyValue, RawValue};

fn col(name: &str, value: RawValue) -> ColumnValue {
    ColumnValue { name: name.to_string(), value }
}

#[test]
fn coerce_text_null_gives_empty_string() {
    match coerce(&RawValue::TextNull) {
        Ok(CoercedValue::Value(PolicyValue::Text(s))) => assert_eq!(s, ""),
        other => panic!("unexpected coercion: {:?}", other),
    }
}

#[test]
fn coerce_text_is_identity() {
    match coerce(&RawValue::Text("alice".to_string())) {
        Ok(CoercedValue::Value(PolicyValue::Text(s))) => assert_eq!(s, "alice"),
        other => panic!("unexpected coercion: {:?}", other),
    }
}

#[test]
fn coerce_timestamp_null_is_omitted() {
    match coerce(&RawValue::TimestampTzNull) {
        Ok(CoercedValue::Omitted) => {}
        other => panic!("unexpected coercion: {:?}", other),
    }
}

#[test]
fn coerce_timestamp_gives_nonempty_canonical_text() {
    match coerce(&RawValue::TimestampTz(TimestampTz { micros: 1700000000000000 })) {
        Ok(CoercedValue::Value(PolicyValue::Text(s))) => {
            assert!(!s.is_empty());
            assert_eq!(s, "1700000000000000");
        }
        other => panic!("unexpected coercion: {:?}", other),
    }
}

#[test]
fn coerce_unsupported_reports_type_identifier() {
    let r = coerce(&RawValue::Unsupported(17));
    match r {
        Err(e) => assert_eq!(e, CoerceError::UnsupportedAttributeType(17)),
        Ok(v) => panic!("unexpected coercion: {:?}", v),
    }
}

#[test]
fn int_string_exact_values() {
    assert_eq!(int_string(0), "0");
    assert_eq!(int_string(7), "7");
    assert_eq!(int_string(12345), "12345");
    assert_eq!(int_string(-5), "-5");
    assert_eq!(int_string(i64::MAX), "9223372036854775807");
    assert_eq!(int_string(i64::MIN), "-9223372036854775808");
}

#[test]
fn timestamp_canonical_text_is_decimal_micros() {
    let t = TimestampTz { micros: -42 };
    assert_eq!(t.canonical_text(), "-42");
}

#[test]
fn project_row_keeps_supported_and_drops_the_rest() {
    let cols = vec![
        col("id", RawValue::Text("1".to_string())),
        col("note", RawValue::TextNull),
        col("created_at", RawValue::TimestampTz(TimestampTz { micros: 99 })),
        col("deleted_at", RawValue::TimestampTzNull),
        col("payload", RawValue::Unsupported(17)),
    ];
    let values = project_row(&cols);
    assert_eq!(values.len(), 3);
    let names: Vec<&str> = values.iter().map(|p| p.0.as_str()).collect();
    assert_eq!(names, vec!["id", "note", "created_at"]);
    match &values[0].1 {
        PolicyValue::Text(s) => assert_eq!(s, "1"),
        other => panic!("unexpected value: {:?}", other),
    }
    match &values[1].1 {
        PolicyValue::Text(s) => assert_eq!(s, ""),
        other => panic!("unexpected value: {:?}", other),
    }
    match &values[2].1 {
        PolicyValue::Text(s) => assert_eq!(s, "99"),
        other => panic!("unexpected value: {:?}", other),
    }
}
