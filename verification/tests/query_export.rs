use parquet_view::export::{
    clamp_window, export_confirmation, parse_format, render_csv, render_export, render_json,
    ExportFormat,
};
use parquet_view::json::JsonValue;
use parquet_view::query::{build_count_query, build_read_query, interpret_count, CountCell};
use parquet_view::codec::row_to_json;
use parquet_view::value::Value;

#[test]
fn read_query_without_filter() {
    assert_eq!(
        build_read_query(&None, 3, 5),
        "SELECT * FROM t  LIMIT 3 OFFSET 5"
    );
}

#[test]
fn read_query_with_filter() {
    assert_eq!(
        build_read_query(&Some("col > 100".to_string()), 10, 0),
        "SELECT * FROM t WHERE col > 100 LIMIT 10 OFFSET 0"
    );
}

#[test]
fn whitespace_filter_is_omitted() {
    assert_eq!(
        build_read_query(&Some("   \t\n".to_string()), 1, 2),
        "SELECT * FROM t  LIMIT 1 OFFSET 2"
    );
    assert_eq!(
        build_count_query(&Some("".to_string())),
        "SELECT COUNT(*) FROM t "
    );
}

#[test]
fn count_query_with_filter() {
    assert_eq!(
        build_count_query(&Some("x = 1".to_string())),
        "SELECT COUNT(*) FROM t WHERE x = 1"
    );
    assert_eq!(build_count_query(&None), "SELECT COUNT(*) FROM t ");
}

#[test]
fn count_interpretation() {
    assert_eq!(interpret_count(CountCell::NoBatches), Ok(0));
    assert_eq!(interpret_count(CountCell::EmptyBatch), Ok(0));
    assert_eq!(interpret_count(CountCell::Value(42)), Ok(42));
    assert_eq!(
        interpret_count(CountCell::NotInt64),
        Err("Failed to downcast count result".to_string())
    );
}

#[test]
fn window_defaults_and_clamping() {
    assert_eq!(clamp_window(10, None, None), (0, 10));
    assert_eq!(clamp_window(10, Some(5), Some(3)), (5, 3));
    assert_eq!(clamp_window(10, Some(9), Some(5)), (9, 1));
    assert_eq!(clamp_window(10, Some(20), None), (20, 0));
    assert_eq!(clamp_window(10, Some(20), Some(3)), (20, 0));
    assert_eq!(clamp_window(0, None, Some(4)), (0, 0));
}

#[test]
fn format_names_are_case_insensitive() {
    assert_eq!(parse_format(&"csv".to_string()), Ok(ExportFormat::Csv));
    assert_eq!(parse_format(&"CSV".to_string()), Ok(ExportFormat::Csv));
    assert_eq!(parse_format(&"Json".to_string()), Ok(ExportFormat::Json));
    assert_eq!(parse_format(&"JSON".to_string()), Ok(ExportFormat::Json));
}

#[test]
fn xml_format_is_unsupported() {
    assert_eq!(
        parse_format(&"xml".to_string()),
        Err("Unsupported export format: xml".to_string())
    );
    let r = render_export(&"xml".to_string(), &Vec::new(), &Vec::new());
    assert_eq!(r, Err("Unsupported export format: xml".to_string()));
}

#[test]
fn csv_export_starts_with_bom_and_header() {
    let columns = vec!["a".to_string(), "b".to_string()];
    let rows = vec![
        vec![
            ("a".to_string(), Value::Int(1)),
            ("b".to_string(), Value::Str("x".to_string())),
        ],
        vec![("a".to_string(), Value::Int(2))],
    ];
    let bytes = render_csv(&columns, &rows);
    assert_eq!(&bytes[0..3], &[0xEFu8, 0xBB, 0xBF]);
    let text = String::from_utf8(bytes[3..].to_vec()).unwrap();
    // Header exactly matches schema column names; a column absent from a
    // row yields an empty cell.
    assert_eq!(text, "a,b\n1,x\n2,\n");
}

#[test]
fn csv_export_flattens_nested_values() {
    let columns = vec!["n".to_string()];
    let rows = vec![vec![(
        "n".to_string(),
        Value::Group(vec![("x".to_string(), Value::Int(1))]),
    )]];
    let bytes = render_csv(&columns, &rows);
    let text = String::from_utf8(bytes[3..].to_vec()).unwrap();
    assert_eq!(text, "n\n[GROUP]\n");
}

#[test]
fn csv_quotes_fields_that_need_it() {
    let columns = vec!["a".to_string()];
    let rows = vec![vec![("a".to_string(), Value::Str("x,y".to_string()))]];
    let bytes = render_csv(&columns, &rows);
    let text = String::from_utf8(bytes[3..].to_vec()).unwrap();
    assert_eq!(text, "a\n\"x,y\"\n");
}

fn to_serde(v: &JsonValue) -> serde_json::Value {
    match v {
        JsonValue::Null => serde_json::Value::Null,
        JsonValue::Bool(b) => serde_json::Value::Bool(*b),
        JsonValue::IntNum(i) => serde_json::Value::Number(serde_json::Number::from(*i)),
        JsonValue::UIntNum(u) => serde_json::Value::Number(serde_json::Number::from(*u)),
        JsonValue::FloatNum(t) => {
            let f: f64 = t.parse().unwrap();
            serde_json::Value::Number(serde_json::Number::from_f64(f).unwrap())
        }
        JsonValue::Str(s) => serde_json::Value::String(s.clone()),
        JsonValue::Arr(items) => serde_json::Value::Array(items.iter().map(to_serde).collect()),
        JsonValue::Obj(fields) => {
            let mut map = serde_json::Map::new();
            for (k, fv) in fields {
                map.insert(k.clone(), to_serde(fv));
            }
            serde_json::Value::Object(map)
        }
    }
}

#[test]
fn json_export_reparses_to_row_json() {
    let rows = vec![
        vec![
            ("a".to_string(), Value::Int(1)),
            (
                "nested".to_string(),
                Value::Group(vec![("x".to_string(), Value::Str("y".to_string()))]),
            ),
        ],
        vec![("a".to_string(), Value::Null)],
    ];
    let bytes = render_json(&rows);
    let reparsed: serde_json::Value = serde_json::from_slice(&bytes).unwrap();
    let expected = serde_json::Value::Array(
        rows.iter().map(|r| to_serde(&row_to_json(r))).collect(),
    );
    // The JSON export keeps nested structure, unlike the flat CSV form.
    assert_eq!(reparsed, expected);
}

#[test]
fn json_export_of_empty_window() {
    let bytes = render_json(&Vec::new());
    assert_eq!(String::from_utf8(bytes).unwrap(), "[]");
}

#[test]
fn confirmation_reports_row_count_and_path() {
    assert_eq!(
        export_confirmation(3, &"/tmp/out.csv".to_string()),
        "Successfully exported 3 rows to /tmp/out.csv"
    );
}

#[test]
fn string_escaping_in_json_export() {
    let rows = vec![vec![(
        "s".to_string(),
        Value::Str("a\"b\\c\nd\u{1}".to_string()),
    )]];
    let bytes = render_json(&rows);
    let text = String::from_utf8(bytes.clone()).unwrap();
    assert!(text.contains("a\\\"b\\\\c\\nd\\u0001"));
    let reparsed: serde_json::Value = serde_json::from_slice(&bytes).unwrap();
    assert_eq!(reparsed[0]["s"], serde_json::Value::String("a\"b\\c\nd\u{1}".to_string()));
}
