use parquet_view::codec::{field_to_json, field_to_string, row_to_json};
use parquet_view::json::JsonValue;
use parquet_view::value::{FloatText, Value};

fn ft(display: &str, json: &str) -> FloatText {
    FloatText {
        display: display.to_string(),
        json: json.to_string(),
    }
}

#[test]
fn null_codec() {
    assert_eq!(field_to_json(&Value::Null), JsonValue::Null);
    assert_eq!(field_to_string(&Value::Null), "");
}

#[test]
fn bool_codec() {
    assert_eq!(field_to_json(&Value::Bool(true)), JsonValue::Bool(true));
    assert_eq!(field_to_string(&Value::Bool(false)), "false");
}

#[test]
fn integer_codec() {
    assert_eq!(field_to_json(&Value::Byte(-7)), JsonValue::IntNum(-7));
    assert_eq!(field_to_json(&Value::Short(300)), JsonValue::IntNum(300));
    assert_eq!(field_to_json(&Value::Int(-12345)), JsonValue::IntNum(-12345));
    assert_eq!(
        field_to_json(&Value::Long(i64::MIN)),
        JsonValue::IntNum(i64::MIN)
    );
    assert_eq!(field_to_json(&Value::UByte(255)), JsonValue::UIntNum(255));
    assert_eq!(
        field_to_json(&Value::ULong(u64::MAX)),
        JsonValue::UIntNum(u64::MAX)
    );
    assert_eq!(field_to_string(&Value::Int(-12345)), "-12345");
    assert_eq!(field_to_string(&Value::Long(i64::MIN)), "-9223372036854775808");
    assert_eq!(field_to_string(&Value::ULong(u64::MAX)), "18446744073709551615");
    assert_eq!(field_to_string(&Value::UByte(0)), "0");
}

#[test]
fn date_epoch_renders_iso() {
    assert_eq!(
        field_to_json(&Value::Date(0)),
        JsonValue::Str("1970-01-01".to_string())
    );
    assert_eq!(
        field_to_json(&Value::Date(1)),
        JsonValue::Str("1970-01-02".to_string())
    );
    assert_eq!(field_to_string(&Value::Date(-1)), "1969-12-31");
    assert_eq!(field_to_string(&Value::Date(19000)), "2022-01-08");
}

#[test]
fn date_out_of_range_falls_back_to_raw() {
    assert_eq!(
        field_to_json(&Value::Date(i32::MIN)),
        JsonValue::IntNum(i32::MIN as i64)
    );
    assert_eq!(
        field_to_string(&Value::Date(i32::MAX)),
        i32::MAX.to_string()
    );
}

#[test]
fn timestamp_millis_epoch() {
    assert_eq!(
        field_to_json(&Value::TimestampMillis(0)),
        JsonValue::Str("1970-01-01 00:00:00.000".to_string())
    );
}

#[test]
fn timestamp_renders_and_falls_back() {
    assert_eq!(
        field_to_string(&Value::TimestampMillis(1500)),
        "1970-01-01 00:00:01.500"
    );
    assert_eq!(
        field_to_string(&Value::TimestampMillis(-1000)),
        "1969-12-31 23:59:59.000"
    );
    // An instant just before the epoch keeps its sub-second part.
    assert_eq!(
        field_to_json(&Value::TimestampMillis(-1)),
        JsonValue::Str("1969-12-31 23:59:59.999".to_string())
    );
    // Far outside the calendar: raw integer fallback.
    assert_eq!(
        field_to_json(&Value::TimestampMillis(i64::MAX)),
        JsonValue::IntNum(i64::MAX)
    );
    assert_eq!(
        field_to_json(&Value::TimestampMillis(i64::MIN)),
        JsonValue::IntNum(i64::MIN)
    );
    assert_eq!(
        field_to_json(&Value::TimestampMicros(1)),
        JsonValue::Str("1970-01-01 00:00:00.000001".to_string())
    );
    assert_eq!(
        field_to_json(&Value::TimestampMicros(-1)),
        JsonValue::Str("1969-12-31 23:59:59.999999".to_string())
    );
    // Negative and whole seconds.
    assert_eq!(
        field_to_string(&Value::TimestampMicros(-1000000)),
        "1969-12-31 23:59:59.000000"
    );
}

#[test]
fn time_of_day_renders_and_falls_back() {
    assert_eq!(
        field_to_json(&Value::TimeMillis(0)),
        JsonValue::Str("00:00:00.000".to_string())
    );
    assert_eq!(
        field_to_string(&Value::TimeMillis(86399999)),
        "23:59:59.999"
    );
    assert_eq!(
        field_to_string(&Value::TimeMillis(3661001)),
        "01:01:01.001"
    );
    assert_eq!(field_to_json(&Value::TimeMillis(-5)), JsonValue::IntNum(-5));
    assert_eq!(
        field_to_json(&Value::TimeMillis(86400000)),
        JsonValue::IntNum(86400000)
    );
    assert_eq!(
        field_to_string(&Value::TimeMicros(86399999999)),
        "23:59:59.999999"
    );
    assert_eq!(
        field_to_json(&Value::TimeMicros(-1)),
        JsonValue::IntNum(-1)
    );
}

#[test]
fn float_texts_pass_through() {
    let v = 1.5f32;
    let cell = Value::Float {
        bits: v.to_bits(),
        text: ft(&v.to_string(), "1.5"),
    };
    assert_eq!(field_to_json(&cell), JsonValue::FloatNum("1.5".to_string()));
    assert_eq!(field_to_string(&cell), "1.5");
}

#[test]
fn non_finite_floats_become_zero_in_json() {
    let nan = f32::NAN;
    let cell = Value::Float {
        bits: nan.to_bits(),
        text: ft(&nan.to_string(), "0"),
    };
    assert_eq!(field_to_json(&cell), JsonValue::IntNum(0));
    // The flat text still shows the display form.
    assert_eq!(field_to_string(&cell), "NaN");

    let inf = f64::INFINITY;
    let dcell = Value::Double {
        bits: inf.to_bits(),
        text: ft(&inf.to_string(), "0"),
    };
    assert_eq!(field_to_json(&dcell), JsonValue::IntNum(0));

    let hnan = half::f16::NAN;
    let hcell = Value::Float16 {
        bits: hnan.to_bits(),
        text: ft(&hnan.to_f64().to_string(), "0"),
    };
    assert_eq!(field_to_json(&hcell), JsonValue::IntNum(0));
}

#[test]
fn finite_half_float_keeps_json_text() {
    let h = half::f16::from_f32(0.5);
    let cell = Value::Float16 {
        bits: h.to_bits(),
        text: ft(&h.to_f64().to_string(), "0.5"),
    };
    assert_eq!(field_to_json(&cell), JsonValue::FloatNum("0.5".to_string()));
}

#[test]
fn bytes_encode_as_base64() {
    let cell = Value::Bytes(b"hello".to_vec());
    assert_eq!(
        field_to_json(&cell),
        JsonValue::Str("aGVsbG8=".to_string())
    );
    assert_eq!(field_to_string(&cell), "aGVsbG8=");
    assert_eq!(field_to_string(&Value::Bytes(Vec::new())), "");
}

#[test]
fn decimal_and_string_pass_through() {
    assert_eq!(
        field_to_json(&Value::Decimal("12.34".to_string())),
        JsonValue::Str("12.34".to_string())
    );
    assert_eq!(field_to_string(&Value::Str("abc".to_string())), "abc");
}

#[test]
fn nested_structures_recurse_in_json() {
    let group = Value::Group(vec![
        ("a".to_string(), Value::Int(1)),
        ("b".to_string(), Value::Str("x".to_string())),
    ]);
    assert_eq!(
        field_to_json(&group),
        JsonValue::Obj(vec![
            ("a".to_string(), JsonValue::IntNum(1)),
            ("b".to_string(), JsonValue::Str("x".to_string())),
        ])
    );
    let list = Value::ListInternal(vec![Value::Int(1), Value::Null]);
    assert_eq!(
        field_to_json(&list),
        JsonValue::Arr(vec![JsonValue::IntNum(1), JsonValue::Null])
    );
}

#[test]
fn nested_structures_flatten_in_text() {
    let group = Value::Group(vec![("a".to_string(), Value::Int(1))]);
    assert_eq!(field_to_string(&group), "[GROUP]");
    assert_eq!(field_to_string(&Value::ListInternal(vec![])), "[LIST]");
    assert_eq!(field_to_string(&Value::MapInternal(vec![])), "[MAP]");
}

#[test]
fn map_keys_stringify_as_compact_json() {
    // A string key keeps its JSON quotes; an integer key is bare digits.
    let map = Value::MapInternal(vec![
        (Value::Str("k".to_string()), Value::Int(1)),
        (Value::Int(7), Value::Bool(true)),
    ]);
    assert_eq!(
        field_to_json(&map),
        JsonValue::Obj(vec![
            ("\"k\"".to_string(), JsonValue::IntNum(1)),
            ("7".to_string(), JsonValue::Bool(true)),
        ])
    );
}

#[test]
fn map_duplicate_key_text_overwrites_earlier() {
    let map = Value::MapInternal(vec![
        (Value::Str("k".to_string()), Value::Int(1)),
        (Value::Str("k".to_string()), Value::Int(2)),
    ]);
    assert_eq!(
        field_to_json(&map),
        JsonValue::Obj(vec![("\"k\"".to_string(), JsonValue::IntNum(2))])
    );
}

#[test]
fn row_to_json_keeps_column_order() {
    let row = vec![
        ("z".to_string(), Value::Int(1)),
        ("a".to_string(), Value::Int(2)),
    ];
    assert_eq!(
        row_to_json(&row),
        JsonValue::Obj(vec![
            ("z".to_string(), JsonValue::IntNum(1)),
            ("a".to_string(), JsonValue::IntNum(2)),
        ])
    );
}
