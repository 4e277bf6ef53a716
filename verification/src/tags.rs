//! The container's type annotations, modelled as plain tags, and the
//! normalized labels they resolve to.
//!
//! A column carries a mandatory physical storage type, and optionally either
//! a modern logical type tag or a legacy converted type tag. Resolution
//! prefers the logical tag, then the converted tag, then the physical type
//! name. The logical taxonomy is open: a tag unknown to this crate is
//! carried as `LOther` with its own label, and degrades to that label
//! instead of failing.

use vstd::prelude::*;

use crate::text::{bool_text, i64_dec, push_bool_text, push_i64_dec, push_str_chars};

verus! {

/// Unit of a time or timestamp logical tag.
#[derive(Clone, Copy, PartialEq, Eq, Structural, Debug)]
pub enum TimeUnitTag {
    Millis,
    Micros,
    Nanos,
}

/// The physical storage type of a column.
#[derive(Clone, Copy, PartialEq, Eq, Structural, Debug)]
pub enum PhysicalTag {
    Boolean,
    Int32,
    Int64,
    Int96,
    Float,
    Double,
    ByteArray,
    FixedLenByteArray,
}

/// A modern logical type tag. `LOther` carries the label of a tag this
/// crate does not know, so newer annotations degrade instead of failing.
#[derive(Clone, PartialEq, Eq, Debug)]
pub enum LogicalTag {
    LString,
    LMap,
    LList,
    LEnum,
    LDecimal { precision: i32, scale: i32 },
    LDate,
    LTime { unit: TimeUnitTag, utc: bool },
    LTimestamp { unit: TimeUnitTag, utc: bool },
    LInteger { bit_width: i8, signed: bool },
    LUnknown,
    LJson,
    LBson,
    LUuid,
    LFloat16,
    LVariant,
    LGeometry,
    LGeography,
    LOther(String),
}

/// A legacy converted type tag. Absence of a tag is modelled by
/// `Option<ConvertedTag>` being `None`.
#[derive(Clone, Copy, PartialEq, Eq, Structural, Debug)]
pub enum ConvertedTag {
    CUtf8,
    CMap,
    CMapKeyValue,
    CList,
    CEnum,
    CDecimal,
    CDate,
    CTimeMillis,
    CTimeMicros,
    CTimestampMillis,
    CTimestampMicros,
    CUint8,
    CUint16,
    CUint32,
    CUint64,
    CInt8,
    CInt16,
    CInt32,
    CInt64,
    CJson,
    CBson,
    CInterval,
}

/// Label of a time unit, as the storage format names it.
pub open spec fn unit_label(u: TimeUnitTag) -> Seq<char> {
    match u {
        TimeUnitTag::Millis => "MILLIS"@,
        TimeUnitTag::Micros => "MICROS"@,
        TimeUnitTag::Nanos => "NANOS"@,
    }
}

/// Name of a physical storage type.
pub open spec fn physical_label(t: PhysicalTag) -> Seq<char> {
    match t {
        PhysicalTag::Boolean => "BOOLEAN"@,
        PhysicalTag::Int32 => "INT32"@,
        PhysicalTag::Int64 => "INT64"@,
        PhysicalTag::Int96 => "INT96"@,
        PhysicalTag::Float => "FLOAT"@,
        PhysicalTag::Double => "DOUBLE"@,
        PhysicalTag::ByteArray => "BYTE_ARRAY"@,
        PhysicalTag::FixedLenByteArray => "FIXED_LEN_BYTE_ARRAY"@,
    }
}

/// Descriptive label of a logical type tag.
pub open spec fn logical_label(t: LogicalTag) -> Seq<char> {
    match t {
        LogicalTag::LString => "STRING"@,
        LogicalTag::LMap => "MAP"@,
        LogicalTag::LList => "LIST"@,
        LogicalTag::LEnum => "ENUM"@,
        LogicalTag::LDecimal { precision, scale } => "DECIMAL("@ + i64_dec(precision as int)
            + ","@ + i64_dec(scale as int) + ")"@,
        LogicalTag::LDate => "DATE"@,
        LogicalTag::LTime { unit, utc } => "TIME("@ + unit_label(unit) + ", UTC:"@ + bool_text(
            utc,
        ) + ")"@,
        LogicalTag::LTimestamp { unit, utc } => "TIMESTAMP("@ + unit_label(unit) + ", UTC:"@
            + bool_text(utc) + ")"@,
        LogicalTag::LInteger { bit_width, signed } => "INT"@ + i64_dec(bit_width as int) + (
        if signed {
            Seq::<char>::empty()
        } else {
            "_UNSIGNED"@
        }),
        LogicalTag::LUnknown => "UNKNOWN"@,
        LogicalTag::LJson => "JSON"@,
        LogicalTag::LBson => "BSON"@,
        LogicalTag::LUuid => "UUID"@,
        LogicalTag::LFloat16 => "FLOAT16"@,
        LogicalTag::LVariant => "VARIANT"@,
        LogicalTag::LGeometry => "GEOMETRY"@,
        LogicalTag::LGeography => "GEOGRAPHY"@,
        LogicalTag::LOther(s) => s@,
    }
}

/// Descriptive label of a legacy converted type tag.
pub open spec fn converted_label(t: ConvertedTag) -> Seq<char> {
    match t {
        ConvertedTag::CUtf8 => "STRING"@,
        ConvertedTag::CMap => "MAP"@,
        ConvertedTag::CMapKeyValue => "MAP_KEY_VALUE"@,
        ConvertedTag::CList => "LIST"@,
        ConvertedTag::CEnum => "ENUM"@,
        ConvertedTag::CDecimal => "DECIMAL"@,
        ConvertedTag::CDate => "DATE"@,
        ConvertedTag::CTimeMillis => "TIME_MILLIS"@,
        ConvertedTag::CTimeMicros => "TIME_MICROS"@,
        ConvertedTag::CTimestampMillis => "TIMESTAMP_MILLIS"@,
        ConvertedTag::CTimestampMicros => "TIMESTAMP_MICROS"@,
        ConvertedTag::CUint8 => "UINT8"@,
        ConvertedTag::CUint16 => "UINT16"@,
        ConvertedTag::CUint32 => "UINT32"@,
        ConvertedTag::CUint64 => "UINT64"@,
        ConvertedTag::CInt8 => "INT8"@,
        ConvertedTag::CInt16 => "INT16"@,
        ConvertedTag::CInt32 => "INT32"@,
        ConvertedTag::CInt64 => "INT64"@,
        ConvertedTag::CJson => "JSON"@,
        ConvertedTag::CBson => "BSON"@,
        ConvertedTag::CInterval => "INTERVAL"@,
    }
}

/// Appends the label of a time unit.
fn push_unit_label(u: &TimeUnitTag, out: &mut Vec<char>)
    ensures
        final(out)@ == old(out)@ + unit_label(*u),
{
    match u {
        TimeUnitTag::Millis => push_str_chars("MILLIS", out),
        TimeUnitTag::Micros => push_str_chars("MICROS", out),
        TimeUnitTag::Nanos => push_str_chars("NANOS", out),
    }
}

/// Appends the name of a physical storage type.
pub fn push_physical_label(t: &PhysicalTag, out: &mut Vec<char>)
    ensures
        final(out)@ == old(out)@ + physical_label(*t),
{
    match t {
        PhysicalTag::Boolean => push_str_chars("BOOLEAN", out),
        PhysicalTag::Int32 => push_str_chars("INT32", out),
        PhysicalTag::Int64 => push_str_chars("INT64", out),
        PhysicalTag::Int96 => push_str_chars("INT96", out),
        PhysicalTag::Float => push_str_chars("FLOAT", out),
        PhysicalTag::Double => push_str_chars("DOUBLE", out),
        PhysicalTag::ByteArray => push_str_chars("BYTE_ARRAY", out),
        PhysicalTag::FixedLenByteArray => push_str_chars("FIXED_LEN_BYTE_ARRAY", out),
    }
}

/// Appends the descriptive label of a logical type tag.
pub fn push_logical_label(t: &LogicalTag, out: &mut Vec<char>)
    ensures
        final(out)@ == old(out)@ + logical_label(*t),
{
    match t {
        LogicalTag::LString => push_str_chars("STRING", out),
        LogicalTag::LMap => push_str_chars("MAP", out),
        LogicalTag::LList => push_str_chars("LIST", out),
        LogicalTag::LEnum => push_str_chars("ENUM", out),
        LogicalTag::LDecimal { precision, scale } => {
            push_str_chars("DECIMAL(", out);
            push_i64_dec(*precision as i64, out);
            push_str_chars(",", out);
            push_i64_dec(*scale as i64, out);
            push_str_chars(")", out);
            assert(out@ =~= old(out)@ + logical_label(*t));
        },
        LogicalTag::LDate => push_str_chars("DATE", out),
        LogicalTag::LTime { unit, utc } => {
            push_str_chars("TIME(", out);
            push_unit_label(unit, out);
            push_str_chars(", UTC:", out);
            push_bool_text(*utc, out);
            push_str_chars(")", out);
            assert(out@ =~= old(out)@ + logical_label(*t));
        },
        LogicalTag::LTimestamp { unit, utc } => {
            push_str_chars("TIMESTAMP(", out);
            push_unit_label(unit, out);
            push_str_chars(", UTC:", out);
            push_bool_text(*utc, out);
            push_str_chars(")", out);
            assert(out@ =~= old(out)@ + logical_label(*t));
        },
        LogicalTag::LInteger { bit_width, signed } => {
            push_str_chars("INT", out);
            push_i64_dec(*bit_width as i64, out);
            if !*signed {
                push_str_chars("_UNSIGNED", out);
            }
            assert(out@ =~= old(out)@ + logical_label(*t));
        },
        LogicalTag::LUnknown => push_str_chars("UNKNOWN", out),
        LogicalTag::LJson => push_str_chars("JSON", out),
        LogicalTag::LBson => push_str_chars("BSON", out),
        LogicalTag::LUuid => push_str_chars("UUID", out),
        LogicalTag::LFloat16 => push_str_chars("FLOAT16", out),
        LogicalTag::LVariant => push_str_chars("VARIANT", out),
        LogicalTag::LGeometry => push_str_chars("GEOMETRY", out),
        LogicalTag::LGeography => push_str_chars("GEOGRAPHY", out),
        LogicalTag::LOther(s) => push_str_chars(s.as_str(), out),
    }
}

/// Appends the descriptive label of a legacy converted type tag.
pub fn push_converted_label(t: &ConvertedTag, out: &mut Vec<char>)
    ensures
        final(out)@ == old(out)@ + converted_label(*t),
{
    match t {
        ConvertedTag::CUtf8 => push_str_chars("STRING", out),
        ConvertedTag::CMap => push_str_chars("MAP", out),
        ConvertedTag::CMapKeyValue => push_str_chars("MAP_KEY_VALUE", out),
        ConvertedTag::CList => push_str_chars("LIST", out),
        ConvertedTag::CEnum => push_str_chars("ENUM", out),
        ConvertedTag::CDecimal => push_str_chars("DECIMAL", out),
        ConvertedTag::CDate => push_str_chars("DATE", out),
        ConvertedTag::CTimeMillis => push_str_chars("TIME_MILLIS", out),
        ConvertedTag::CTimeMicros => push_str_chars("TIME_MICROS", out),
        ConvertedTag::CTimestampMillis => push_str_chars("TIMESTAMP_MILLIS", out),
        ConvertedTag::CTimestampMicros => push_str_chars("TIMESTAMP_MICROS", out),
        ConvertedTag::CUint8 => push_str_chars("UINT8", out),
        ConvertedTag::CUint16 => push_str_chars("UINT16", out),
        ConvertedTag::CUint32 => push_str_chars("UINT32", out),
        ConvertedTag::CUint64 => push_str_chars("UINT64", out),
        ConvertedTag::CInt8 => push_str_chars("INT8", out),
        ConvertedTag::CInt16 => push_str_chars("INT16", out),
        ConvertedTag::CInt32 => push_str_chars("INT32", out),
        ConvertedTag::CInt64 => push_str_chars("INT64", out),
        ConvertedTag::CJson => push_str_chars("JSON", out),
        ConvertedTag::CBson => push_str_chars("BSON", out),
        ConvertedTag::CInterval => push_str_chars("INTERVAL", out),
    }
}

} // verus!
