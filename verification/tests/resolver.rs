use parquet_view::cache::ParquetCache;
use parquet_view::models::path_is_parquet;
use parquet_view::schema::{build_metadata, resolve_column, RawColumn};
use parquet_view::tags::{ConvertedTag, LogicalTag, PhysicalTag, TimeUnitTag};

fn raw(
    name: &str,
    physical: PhysicalTag,
    logical: Option<LogicalTag>,
    converted: Option<ConvertedTag>,
) -> RawColumn {
    RawColumn {
        name: name.to_string(),
        physical,
        logical,
        converted,
    }
}

#[test]
fn logical_tag_wins() {
    let c = resolve_column(&raw(
        "s",
        PhysicalTag::ByteArray,
        Some(LogicalTag::LString),
        Some(ConvertedTag::CUtf8),
    ));
    assert_eq!(c.name, "s");
    assert_eq!(c.column_type, "STRING");
    assert_eq!(c.logical_type, Some("STRING".to_string()));
    assert_eq!(c.physical_type, "BYTE_ARRAY");
}

#[test]
fn decimal_label_carries_precision_and_scale() {
    let c = resolve_column(&raw(
        "d",
        PhysicalTag::FixedLenByteArray,
        Some(LogicalTag::LDecimal {
            precision: 10,
            scale: 2,
        }),
        None,
    ));
    assert_eq!(c.column_type, "DECIMAL(10,2)");
    assert_eq!(c.physical_type, "FIXED_LEN_BYTE_ARRAY");
}

#[test]
fn time_and_timestamp_labels() {
    let c = resolve_column(&raw(
        "t",
        PhysicalTag::Int32,
        Some(LogicalTag::LTime {
            unit: TimeUnitTag::Millis,
            utc: true,
        }),
        None,
    ));
    assert_eq!(c.column_type, "TIME(MILLIS, UTC:true)");
    let c = resolve_column(&raw(
        "ts",
        PhysicalTag::Int64,
        Some(LogicalTag::LTimestamp {
            unit: TimeUnitTag::Micros,
            utc: false,
        }),
        None,
    ));
    assert_eq!(c.column_type, "TIMESTAMP(MICROS, UTC:false)");
}

#[test]
fn integer_labels_carry_width_and_sign() {
    let c = resolve_column(&raw(
        "i",
        PhysicalTag::Int32,
        Some(LogicalTag::LInteger {
            bit_width: 8,
            signed: true,
        }),
        None,
    ));
    assert_eq!(c.column_type, "INT8");
    let c = resolve_column(&raw(
        "u",
        PhysicalTag::Int64,
        Some(LogicalTag::LInteger {
            bit_width: 64,
            signed: false,
        }),
        None,
    ));
    assert_eq!(c.column_type, "INT64_UNSIGNED");
}

#[test]
fn newer_tags_get_their_own_labels() {
    for (tag, label) in [
        (LogicalTag::LVariant, "VARIANT"),
        (LogicalTag::LGeometry, "GEOMETRY"),
        (LogicalTag::LGeography, "GEOGRAPHY"),
        (LogicalTag::LUuid, "UUID"),
        (LogicalTag::LFloat16, "FLOAT16"),
    ] {
        let c = resolve_column(&raw("x", PhysicalTag::ByteArray, Some(tag), None));
        assert_eq!(c.column_type, label);
    }
}

#[test]
fn unknown_future_tag_degrades_to_its_label() {
    let c = resolve_column(&raw(
        "x",
        PhysicalTag::ByteArray,
        Some(LogicalTag::LOther("SOMETHING_NEW".to_string())),
        None,
    ));
    assert_eq!(c.column_type, "SOMETHING_NEW");
    assert_eq!(c.logical_type, Some("SOMETHING_NEW".to_string()));
}

#[test]
fn converted_tag_used_when_no_logical_tag() {
    let c = resolve_column(&raw(
        "m",
        PhysicalTag::Int64,
        None,
        Some(ConvertedTag::CTimestampMillis),
    ));
    assert_eq!(c.column_type, "TIMESTAMP_MILLIS");
    assert_eq!(c.logical_type, Some("TIMESTAMP_MILLIS".to_string()));
}

#[test]
fn physical_type_is_last_resort() {
    let c = resolve_column(&raw("p", PhysicalTag::Double, None, None));
    assert_eq!(c.column_type, "DOUBLE");
    assert_eq!(c.logical_type, None);
    assert_eq!(c.physical_type, "DOUBLE");
}

#[test]
fn metadata_counts_columns_in_order() {
    let cols = vec![
        raw("a", PhysicalTag::Int32, None, None),
        raw("b", PhysicalTag::Boolean, None, Some(ConvertedTag::CInt8)),
    ];
    let m = build_metadata(42, &cols);
    assert_eq!(m.num_rows, 42);
    assert_eq!(m.num_columns, 2);
    assert_eq!(m.columns.len(), 2);
    assert_eq!(m.columns[0].name, "a");
    assert_eq!(m.columns[0].column_type, "INT32");
    assert_eq!(m.columns[1].name, "b");
    assert_eq!(m.columns[1].column_type, "INT8");
}

#[test]
fn metadata_cache_is_idempotent() {
    // One path, two get-or-create calls with different footer data: the
    // second call must return the first result untouched, byte for byte,
    // without consulting its own footer arguments.
    let mut cache: ParquetCache<u32> = ParquetCache::new();
    let path = "/data/a.parquet".to_string();
    let raw1 = vec![raw("a", PhysicalTag::Int32, None, None)];
    let raw2 = vec![raw("b", PhysicalTag::Double, None, None)];
    assert!(cache.lookup_metadata(&path).is_none());
    let m1 = cache.get_or_create_metadata(&path, 10, &raw1);
    // A caller checking the cache first sees the entry and reads nothing.
    assert_eq!(cache.lookup_metadata(&path), Some(&m1));
    let m2 = cache.get_or_create_metadata(&path, 99, &raw2);
    assert_eq!(m1, m2);
    assert_eq!(m2.num_rows, 10);
    assert_eq!(m2.columns[0].name, "a");
}

#[test]
fn eviction_forces_a_fresh_build() {
    let mut cache: ParquetCache<u32> = ParquetCache::new();
    let path = "/data/a.parquet".to_string();
    let raw1 = vec![raw("a", PhysicalTag::Int32, None, None)];
    let raw2 = vec![raw("b", PhysicalTag::Double, None, None)];
    let m1 = cache.get_or_create_metadata(&path, 10, &raw1);
    assert_eq!(m1.columns[0].name, "a");
    cache.evict(&path);
    let m2 = cache.get_or_create_metadata(&path, 99, &raw2);
    assert_eq!(m2.num_rows, 99);
    assert_eq!(m2.columns[0].name, "b");
}

#[test]
fn eviction_of_absent_path_is_a_no_op() {
    let mut cache: ParquetCache<u32> = ParquetCache::new();
    cache.evict(&"/nope".to_string());
    let m = cache.get_or_create_metadata(&"/nope".to_string(), 1, &Vec::new());
    assert_eq!(m.num_rows, 1);
}

#[test]
fn session_cache_returns_first_inserted() {
    let mut cache: ParquetCache<u32> = ParquetCache::new();
    let path = "/data/a.parquet".to_string();
    assert!(cache.lookup_session(&path).is_none());
    let s1 = *cache.get_or_create_session(&path, 7);
    assert_eq!(s1, 7);
    // A second handle for the same path loses to the cached one.
    let s2 = *cache.get_or_create_session(&path, 9);
    assert_eq!(s2, 7);
    assert_eq!(cache.lookup_session(&path), Some(&7));
    cache.evict(&path);
    assert!(cache.lookup_session(&path).is_none());
}

#[test]
fn parquet_paths_are_recognized() {
    assert!(path_is_parquet(&"/x/data.parquet".to_string(), false));
    assert!(!path_is_parquet(&"/x/data.parquet".to_string(), true));
    assert!(!path_is_parquet(&"/x/data.csv".to_string(), false));
    assert!(!path_is_parquet(&"x".to_string(), false));
    assert!(path_is_parquet(&".parquet".to_string(), false));
}
