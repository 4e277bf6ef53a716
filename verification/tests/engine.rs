//! Tests that run the library's query text and metadata resolution
//! against the real SQL engine and container format, on a 3-column,
//! 10-row fixture file.

use std::sync::Arc;

use arrow::array::{Array, Int64Array, StringArray};
use arrow::datatypes::{DataType, Field, Schema};
use arrow::record_batch::RecordBatch;
use parquet::arrow::ArrowWriter;
use parquet::file::reader::{FileReader, SerializedFileReader};

use parquet_view::query::{build_count_query, build_read_query, interpret_count, CountCell};
use parquet_view::schema::{build_metadata, RawColumn};
use parquet_view::tags::{ConvertedTag, LogicalTag, PhysicalTag, TimeUnitTag};

/// Writes the fixture file: columns `id` (0..10), `val` (id * 50) and
/// `name` ("row0".."row9"), in file order.
fn write_fixture() -> tempfile::NamedTempFile {
    let tmp = tempfile::Builder::new()
        .suffix(".parquet")
        .tempfile()
        .unwrap();
    let schema = Arc::new(Schema::new(vec![
        Field::new("id", DataType::Int64, false),
        Field::new("val", DataType::Int64, false),
        Field::new("name", DataType::Utf8, false),
    ]));
    let ids = Int64Array::from((0..10i64).collect::<Vec<_>>());
    let vals = Int64Array::from((0..10i64).map(|i| i * 50).collect::<Vec<_>>());
    let names = StringArray::from((0..10).map(|i| format!("row{}", i)).collect::<Vec<_>>());
    let batch = RecordBatch::try_new(
        schema.clone(),
        vec![Arc::new(ids), Arc::new(vals), Arc::new(names)],
    )
    .unwrap();
    let file = tmp.reopen().unwrap();
    let mut writer = ArrowWriter::try_new(file, schema, None).unwrap();
    writer.write(&batch).unwrap();
    writer.close().unwrap();
    tmp
}

fn run_query(path: &str, query: &str) -> Vec<RecordBatch> {
    let rt = tokio::runtime::Builder::new_current_thread()
        .enable_all()
        .build()
        .unwrap();
    rt.block_on(async {
        let ctx = datafusion::execution::context::SessionContext::new();
        let options = datafusion::prelude::ParquetReadOptions::default();
        ctx.register_parquet("t", path, options).await.unwrap();
        let df = ctx.sql(query).await.unwrap();
        df.collect().await.unwrap()
    })
}

fn id_column(batches: &[RecordBatch]) -> Vec<i64> {
    let mut out = Vec::new();
    for batch in batches {
        let ids = batch
            .column_by_name("id")
            .unwrap()
            .as_any()
            .downcast_ref::<Int64Array>()
            .unwrap();
        for i in 0..ids.len() {
            out.push(ids.value(i));
        }
    }
    out
}

fn total_rows(batches: &[RecordBatch]) -> usize {
    batches.iter().map(|b| b.num_rows()).sum()
}

#[test]
fn paginated_read_returns_the_requested_window() {
    let tmp = write_fixture();
    let path = tmp.path().to_str().unwrap();
    let q = build_read_query(&None, 3, 5);
    let batches = run_query(path, &q);
    assert_eq!(id_column(&batches), vec![5, 6, 7]);
}

#[test]
fn read_past_the_end_is_clamped_by_the_engine() {
    let tmp = write_fixture();
    let path = tmp.path().to_str().unwrap();
    let q = build_read_query(&None, 5, 9);
    let batches = run_query(path, &q);
    assert_eq!(id_column(&batches), vec![9]);
}

#[test]
fn count_matches_filtered_read_length() {
    let tmp = write_fixture();
    let path = tmp.path().to_str().unwrap();
    let filter = Some("val > 100".to_string());

    let count_q = build_count_query(&filter);
    let batches = run_query(path, &count_q);
    let cell = if batches.is_empty() {
        CountCell::NoBatches
    } else if batches[0].num_rows() == 0 {
        CountCell::EmptyBatch
    } else {
        match batches[0].column(0).as_any().downcast_ref::<Int64Array>() {
            Some(a) => CountCell::Value(a.value(0)),
            None => CountCell::NotInt64,
        }
    };
    let count = interpret_count(cell).unwrap();

    let read_q = build_read_query(&filter, 10, 0);
    let read_batches = run_query(path, &read_q);
    assert_eq!(count, total_rows(&read_batches));
    assert_eq!(count, 7);
}

/// The conversion a caller makes from the container's schema annotations
/// to the library's raw tags.
fn to_raw_columns(tmp: &tempfile::NamedTempFile) -> (i64, Vec<RawColumn>) {
    let file = tmp.reopen().unwrap();
    let reader = SerializedFileReader::new(file).unwrap();
    let metadata = reader.metadata();
    let num_rows = metadata.file_metadata().num_rows();
    let mut cols = Vec::new();
    for field in metadata.file_metadata().schema().get_fields() {
        let info = field.get_basic_info();
        let logical = info.logical_type().map(|lt| match lt {
            parquet::basic::LogicalType::String => LogicalTag::LString,
            parquet::basic::LogicalType::Map => LogicalTag::LMap,
            parquet::basic::LogicalType::List => LogicalTag::LList,
            parquet::basic::LogicalType::Enum => LogicalTag::LEnum,
            parquet::basic::LogicalType::Decimal(d) => LogicalTag::LDecimal {
                precision: d.precision,
                scale: d.scale,
            },
            parquet::basic::LogicalType::Date => LogicalTag::LDate,
            parquet::basic::LogicalType::Time(t) => LogicalTag::LTime {
                unit: to_unit(&t.unit),
                utc: t.is_adjusted_to_u_t_c,
            },
            parquet::basic::LogicalType::Timestamp(t) => LogicalTag::LTimestamp {
                unit: to_unit(&t.unit),
                utc: t.is_adjusted_to_u_t_c,
            },
            parquet::basic::LogicalType::Integer(i) => LogicalTag::LInteger {
                bit_width: i.bit_width,
                signed: i.is_signed,
            },
            parquet::basic::LogicalType::Unknown => LogicalTag::LUnknown,
            parquet::basic::LogicalType::Json => LogicalTag::LJson,
            parquet::basic::LogicalType::Bson => LogicalTag::LBson,
            parquet::basic::LogicalType::Uuid => LogicalTag::LUuid,
            parquet::basic::LogicalType::Float16 => LogicalTag::LFloat16,
            parquet::basic::LogicalType::Variant(_) => LogicalTag::LVariant,
            parquet::basic::LogicalType::Geometry(_) => LogicalTag::LGeometry,
            parquet::basic::LogicalType::Geography(_) => LogicalTag::LGeography,
            other => LogicalTag::LOther(format!("{:?}", other)),
        });
        let converted = match info.converted_type() {
            parquet::basic::ConvertedType::NONE => None,
            parquet::basic::ConvertedType::UTF8 => Some(ConvertedTag::CUtf8),
            parquet::basic::ConvertedType::MAP => Some(ConvertedTag::CMap),
            parquet::basic::ConvertedType::MAP_KEY_VALUE => Some(ConvertedTag::CMapKeyValue),
            parquet::basic::ConvertedType::LIST => Some(ConvertedTag::CList),
            parquet::basic::ConvertedType::ENUM => Some(ConvertedTag::CEnum),
            parquet::basic::ConvertedType::DECIMAL => Some(ConvertedTag::CDecimal),
            parquet::basic::ConvertedType::DATE => Some(ConvertedTag::CDate),
            parquet::basic::ConvertedType::TIME_MILLIS => Some(ConvertedTag::CTimeMillis),
            parquet::basic::ConvertedType::TIME_MICROS => Some(ConvertedTag::CTimeMicros),
            parquet::basic::ConvertedType::TIMESTAMP_MILLIS => {
                Some(ConvertedTag::CTimestampMillis)
            }
            parquet::basic::ConvertedType::TIMESTAMP_MICROS => {
                Some(ConvertedTag::CTimestampMicros)
            }
            parquet::basic::ConvertedType::UINT_8 => Some(ConvertedTag::CUint8),
            parquet::basic::ConvertedType::UINT_16 => Some(ConvertedTag::CUint16),
            parquet::basic::ConvertedType::UINT_32 => Some(ConvertedTag::CUint32),
            parquet::basic::ConvertedType::UINT_64 => Some(ConvertedTag::CUint64),
            parquet::basic::ConvertedType::INT_8 => Some(ConvertedTag::CInt8),
            parquet::basic::ConvertedType::INT_16 => Some(ConvertedTag::CInt16),
            parquet::basic::ConvertedType::INT_32 => Some(ConvertedTag::CInt32),
            parquet::basic::ConvertedType::INT_64 => Some(ConvertedTag::CInt64),
            parquet::basic::ConvertedType::JSON => Some(ConvertedTag::CJson),
            parquet::basic::ConvertedType::BSON => Some(ConvertedTag::CBson),
            parquet::basic::ConvertedType::INTERVAL => Some(ConvertedTag::CInterval),
        };
        let physical = match field.get_physical_type() {
            parquet::basic::Type::BOOLEAN => PhysicalTag::Boolean,
            parquet::basic::Type::INT32 => PhysicalTag::Int32,
            parquet::basic::Type::INT64 => PhysicalTag::Int64,
            parquet::basic::Type::INT96 => PhysicalTag::Int96,
            parquet::basic::Type::FLOAT => PhysicalTag::Float,
            parquet::basic::Type::DOUBLE => PhysicalTag::Double,
            parquet::basic::Type::BYTE_ARRAY => PhysicalTag::ByteArray,
            parquet::basic::Type::FIXED_LEN_BYTE_ARRAY => PhysicalTag::FixedLenByteArray,
        };
        cols.push(RawColumn {
            name: field.name().to_string(),
            physical,
            logical,
            converted,
        });
    }
    (num_rows, cols)
}

fn to_unit(u: &parquet::basic::TimeUnit) -> TimeUnitTag {
    match u {
        parquet::basic::TimeUnit::MILLIS => TimeUnitTag::Millis,
        parquet::basic::TimeUnit::MICROS => TimeUnitTag::Micros,
        parquet::basic::TimeUnit::NANOS => TimeUnitTag::Nanos,
    }
}

#[test]
fn metadata_resolves_real_footer() {
    let tmp = write_fixture();
    let (num_rows, raw) = to_raw_columns(&tmp);
    let meta = build_metadata(num_rows, &raw);
    assert_eq!(meta.num_rows, 10);
    assert_eq!(meta.num_columns, 3);
    assert_eq!(meta.columns[0].name, "id");
    assert_eq!(meta.columns[0].column_type, "INT64");
    assert_eq!(meta.columns[0].physical_type, "INT64");
    assert_eq!(meta.columns[2].name, "name");
    assert_eq!(meta.columns[2].column_type, "STRING");
    assert_eq!(meta.columns[2].physical_type, "BYTE_ARRAY");
}
