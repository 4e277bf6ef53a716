//! The recursive value type of the container's rows.
//!
//! A cell is one of the scalar forms below or a nested record, list or
//! key-value mapping; the domain guarantees acyclicity, so the recursion is
//! structural. Floating-point cells are carried as their IEEE bit patterns:
//! the crate never computes with them, it only classifies and renders them
//! through named outside calls. A decimal is carried as the text it was
//! rendered to when the cell was decoded.

use vstd::prelude::*;

verus! {

/// The text forms of one floating-point cell, rendered when the cell was
/// decoded: `display` is the value's display text at its stored width
/// (16-bit values display at 64-bit width, as the source format's reader
/// widens them), and `json` is the JSON number text of the value widened
/// to 64 bits, meaningful only for finite values. This crate never
/// computes with floating point; it classifies the bit pattern and splices
/// these texts.
#[derive(Clone, PartialEq, Eq, Debug)]
pub struct FloatText {
    pub display: String,
    pub json: String,
}

/// One typed cell value.
#[derive(PartialEq, Eq, Debug)]
pub enum Value {
    /// Null value.
    Null,
    /// Boolean value.
    Bool(bool),
    /// Signed 8-bit integer.
    Byte(i8),
    /// Signed 16-bit integer.
    Short(i16),
    /// Signed 32-bit integer.
    Int(i32),
    /// Signed 64-bit integer.
    Long(i64),
    /// Unsigned 8-bit integer.
    UByte(u8),
    /// Unsigned 16-bit integer.
    UShort(u16),
    /// Unsigned 32-bit integer.
    UInt(u32),
    /// Unsigned 64-bit integer.
    ULong(u64),
    /// IEEE binary16 value: its bit pattern, and its texts as rendered at
    /// decode time.
    Float16 { bits: u16, text: FloatText },
    /// IEEE binary32 value: its bit pattern, and its texts as rendered at
    /// decode time.
    Float { bits: u32, text: FloatText },
    /// IEEE binary64 value: its bit pattern, and its texts as rendered at
    /// decode time.
    Double { bits: u64, text: FloatText },
    /// Fixed-point decimal, as its canonical text.
    Decimal(String),
    /// UTF-8 string.
    Str(String),
    /// Raw byte sequence.
    Bytes(Vec<u8>),
    /// Days since 1970-01-01.
    Date(i32),
    /// Milliseconds since midnight.
    TimeMillis(i32),
    /// Microseconds since midnight.
    TimeMicros(i64),
    /// Milliseconds since the Unix epoch, UTC.
    TimestampMillis(i64),
    /// Microseconds since the Unix epoch, UTC.
    TimestampMicros(i64),
    /// Nested record: ordered field name / value pairs.
    Group(Vec<(String, Value)>),
    /// Ordered list of values.
    ListInternal(Vec<Value>),
    /// Key-value mapping; keys are themselves values.
    MapInternal(Vec<(Value, Value)>),
}

/// Whether an IEEE binary64 bit pattern is finite (neither an infinity nor
/// a NaN): its exponent field is not all ones.
pub open spec fn f64_is_finite(bits: u64) -> bool {
    (bits >> 52) & 0x7ff != 0x7ff
}

/// Whether an IEEE binary32 bit pattern is finite.
pub open spec fn f32_is_finite(bits: u32) -> bool {
    (bits >> 23) & 0xff != 0xff
}

/// Whether an IEEE binary16 bit pattern is finite.
pub open spec fn f16_is_finite(bits: u16) -> bool {
    (bits >> 10) & 0x1f != 0x1f
}

/// Executable form of `f64_is_finite`.
pub fn f64_finite(bits: u64) -> (r: bool)
    ensures
        r == f64_is_finite(bits),
{
    (bits >> 52) & 0x7ff != 0x7ff
}

/// Executable form of `f32_is_finite`.
pub fn f32_finite(bits: u32) -> (r: bool)
    ensures
        r == f32_is_finite(bits),
{
    (bits >> 23) & 0xff != 0xff
}

/// Executable form of `f16_is_finite`.
pub fn f16_finite(bits: u16) -> (r: bool)
    ensures
        r == f16_is_finite(bits),
{
    (bits >> 10) & 0x1f != 0x1f
}

} // verus!
