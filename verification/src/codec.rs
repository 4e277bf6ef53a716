//! The value codec: typed cells to JSON-like values and to flat text.
//!
//! `ValModel` is the mathematical model of a `Value`. The JSON form is
//! total over every variant: non-finite floats fall back to the number
//! zero, and temporal values outside the renderable range fall back to
//! their raw integer encoding. The flat-text form renders scalars and
//! replaces nested structures with fixed placeholder tokens.

use vstd::prelude::*;

use crate::ext::{
    base64_text, chars_to_string, date_render, encode_base64, format_date, format_ts_micros,
    format_ts_millis, ts_micros_render, ts_millis_render,
};
use crate::json::{
    jobj_of, jtext, jval_of, jval_seq, obj_insert, obj_set, write_json, JVal, JsonValue,
};
use crate::text::{
    bool_text, i64_dec, pad2, pad3, pad6, push_bool_text, push_i64_dec, push_pad2, push_pad3,
    push_pad6, push_u64_dec, u64_dec,
};
use crate::value::{f16_finite, f16_is_finite, f32_finite, f32_is_finite, f64_finite, f64_is_finite, Value};

verus! {

/// The mathematical model of a cell value. Signed integer widths collapse
/// to one integer arm and unsigned widths to another; a float is its bit
/// pattern together with its rendered texts.
pub enum ValModel {
    MNull,
    MBool(bool),
    MInt(int),
    MUInt(int),
    MFloat16 { bits: u16, display: Seq<char>, json: Seq<char> },
    MFloat { bits: u32, display: Seq<char>, json: Seq<char> },
    MDouble { bits: u64, display: Seq<char>, json: Seq<char> },
    MDecimal(Seq<char>),
    MStr(Seq<char>),
    MBytes(Seq<u8>),
    MDate(i32),
    MTimeMillis(i32),
    MTimeMicros(i64),
    MTimestampMillis(i64),
    MTimestampMicros(i64),
    MGroup(Seq<(Seq<char>, ValModel)>),
    MList(Seq<ValModel>),
    MMap(Seq<(ValModel, ValModel)>),
}

/// The model of a cell value.
pub open spec fn vmodel(v: Value) -> ValModel
    decreases v,
    via vmodel_dec
{
    match v {
        Value::Null => ValModel::MNull,
        Value::Bool(b) => ValModel::MBool(b),
        Value::Byte(x) => ValModel::MInt(x as int),
        Value::Short(x) => ValModel::MInt(x as int),
        Value::Int(x) => ValModel::MInt(x as int),
        Value::Long(x) => ValModel::MInt(x as int),
        Value::UByte(x) => ValModel::MUInt(x as int),
        Value::UShort(x) => ValModel::MUInt(x as int),
        Value::UInt(x) => ValModel::MUInt(x as int),
        Value::ULong(x) => ValModel::MUInt(x as int),
        Value::Float16 { bits, text } => ValModel::MFloat16 {
            bits,
            display: text.display@,
            json: text.json@,
        },
        Value::Float { bits, text } => ValModel::MFloat {
            bits,
            display: text.display@,
            json: text.json@,
        },
        Value::Double { bits, text } => ValModel::MDouble {
            bits,
            display: text.display@,
            json: text.json@,
        },
        Value::Decimal(s) => ValModel::MDecimal(s@),
        Value::Str(s) => ValModel::MStr(s@),
        Value::Bytes(b) => ValModel::MBytes(b@),
        Value::Date(d) => ValModel::MDate(d),
        Value::TimeMillis(t) => ValModel::MTimeMillis(t),
        Value::TimeMicros(t) => ValModel::MTimeMicros(t),
        Value::TimestampMillis(t) => ValModel::MTimestampMillis(t),
        Value::TimestampMicros(t) => ValModel::MTimestampMicros(t),
        Value::Group(fields) => ValModel::MGroup(vgroup_model(fields@)),
        Value::ListInternal(items) => ValModel::MList(vlist_model(items@)),
        Value::MapInternal(entries) => ValModel::MMap(vmap_model(entries@)),
    }
}

#[via_fn]
proof fn vmodel_dec(v: Value) {
    match v {
        Value::Group(fields) => {
            assert(decreases_to!(v => fields));
            assert(decreases_to!(fields => fields@));
        },
        Value::ListInternal(items) => {
            assert(decreases_to!(v => items));
            assert(decreases_to!(items => items@));
        },
        Value::MapInternal(entries) => {
            assert(decreases_to!(v => entries));
            assert(decreases_to!(entries => entries@));
        },
        _ => {},
    }
}

/// The model of one named field.
pub open spec fn vfield_model(p: (String, Value)) -> (Seq<char>, ValModel)
    decreases p,
{
    (p.0@, vmodel(p.1))
}

/// The model of a record's fields. The range guard grounds the recursion.
pub open spec fn vgroup_model(s: Seq<(String, Value)>) -> Seq<(Seq<char>, ValModel)>
    decreases s,
{
    Seq::new(
        s.len(),
        |i: int|
            if 0 <= i < s.len() {
                vfield_model(s[i])
            } else {
                (Seq::<char>::empty(), ValModel::MNull)
            },
    )
}

/// The model of a list's items. The range guard grounds the recursion.
pub open spec fn vlist_model(s: Seq<Value>) -> Seq<ValModel>
    decreases s,
{
    Seq::new(
        s.len(),
        |i: int|
            if 0 <= i < s.len() {
                vmodel(s[i])
            } else {
                ValModel::MNull
            },
    )
}

/// The model of one map entry.
pub open spec fn ventry_model(p: (Value, Value)) -> (ValModel, ValModel)
    decreases p,
{
    (vmodel(p.0), vmodel(p.1))
}

/// The model of a map's entries. The range guard grounds the recursion.
pub open spec fn vmap_model(s: Seq<(Value, Value)>) -> Seq<(ValModel, ValModel)>
    decreases s,
{
    Seq::new(
        s.len(),
        |i: int|
            if 0 <= i < s.len() {
                ventry_model(s[i])
            } else {
                (ValModel::MNull, ValModel::MNull)
            },
    )
}

/// Machine bound under which a byte sequence can be base64-encoded
/// without the encoder's size computation overflowing.
pub open spec fn bytes_encodable(len: nat) -> bool {
    4 * ((len + 2) / 3) <= usize::MAX
}

/// Well-formedness of a value model: every byte-sequence node is small
/// enough to encode. Every value read from a real file satisfies this;
/// it is a machine limit, not a semantic restriction.
pub open spec fn value_wf(m: ValModel) -> bool
    decreases m,
{
    match m {
        ValModel::MBytes(b) => bytes_encodable(b.len()),
        ValModel::MGroup(fields) => forall|i: int|
            0 <= i < fields.len() ==> value_wf((#[trigger] fields[i]).1),
        ValModel::MList(items) => forall|i: int|
            0 <= i < items.len() ==> value_wf(#[trigger] items[i]),
        ValModel::MMap(entries) => forall|i: int|
            0 <= i < entries.len() ==> value_wf((#[trigger] entries[i]).0) && value_wf(
                entries[i].1,
            ),
        _ => true,
    }
}

/// The time-of-day text "HH:MM:SS.fff" of a millisecond count since
/// midnight (`0 <= t < 86400000`).
pub open spec fn time_millis_text(t: int) -> Seq<char> {
    pad2((t / 3600000) as nat) + seq![':'] + pad2(((t % 3600000) / 60000) as nat) + seq![':']
        + pad2(((t % 60000) / 1000) as nat) + seq!['.'] + pad3((t % 1000) as nat)
}

/// The time-of-day text "HH:MM:SS.ffffff" of a microsecond count since
/// midnight (`0 <= t < 86400000000`).
pub open spec fn time_micros_text(t: int) -> Seq<char> {
    pad2((t / 3600000000) as nat) + seq![':'] + pad2(((t % 3600000000) / 60000000) as nat)
        + seq![':'] + pad2(((t % 60000000) / 1000000) as nat) + seq!['.'] + pad6(
        (t % 1000000) as nat,
    )
}

/// The epoch second count and nanosecond remainder that a millisecond
/// timestamp splits into: the floor of the seconds, and a non-negative
/// fraction, so an instant before the epoch keeps its sub-second part.
/// Every timestamp splits; only the calendar can reject the split.
pub open spec fn ts_millis_split(t: int) -> (int, int) {
    (t / 1000, (t % 1000) * 1000000)
}

/// As `ts_millis_split`, for a microsecond timestamp.
pub open spec fn ts_micros_split(t: int) -> (int, int) {
    (t / 1000000, (t % 1000000) * 1000)
}

/// The rendered text of a millisecond timestamp, or `None` when the
/// instant lies outside the calendar's representable range.
pub open spec fn ts_millis_text(t: i64) -> Option<Seq<char>> {
    ts_millis_render(ts_millis_split(t as int).0 as i64, ts_millis_split(t as int).1 as u32)
}

/// The rendered text of a microsecond timestamp, or `None` when the
/// instant lies outside the calendar's representable range.
pub open spec fn ts_micros_text(t: i64) -> Option<Seq<char>> {
    ts_micros_render(ts_micros_split(t as int).0 as i64, ts_micros_split(t as int).1 as u32)
}

/// The JSON form of a value model.
pub open spec fn json_of(m: ValModel) -> JVal
    decreases m,
{
    match m {
        ValModel::MNull => JVal::JNull,
        ValModel::MBool(b) => JVal::JBool(b),
        ValModel::MInt(i) => JVal::JInt(i),
        ValModel::MUInt(u) => JVal::JInt(u),
        ValModel::MFloat16 { bits, json, .. } => if f16_is_finite(bits) {
            JVal::JFloat(json)
        } else {
            JVal::JInt(0)
        },
        ValModel::MFloat { bits, json, .. } => if f32_is_finite(bits) {
            JVal::JFloat(json)
        } else {
            JVal::JInt(0)
        },
        ValModel::MDouble { bits, json, .. } => if f64_is_finite(bits) {
            JVal::JFloat(json)
        } else {
            JVal::JInt(0)
        },
        ValModel::MDecimal(s) => JVal::JStr(s),
        ValModel::MStr(s) => JVal::JStr(s),
        ValModel::MBytes(b) => JVal::JStr(base64_text(b)),
        ValModel::MDate(d) => match date_render(d) {
            Some(t) => JVal::JStr(t),
            None => JVal::JInt(d as int),
        },
        ValModel::MTimeMillis(t) => if 0 <= t < 86400000 {
            JVal::JStr(time_millis_text(t as int))
        } else {
            JVal::JInt(t as int)
        },
        ValModel::MTimeMicros(t) => if 0 <= t < 86400000000 {
            JVal::JStr(time_micros_text(t as int))
        } else {
            JVal::JInt(t as int)
        },
        ValModel::MTimestampMillis(t) => match ts_millis_text(t) {
            Some(s) => JVal::JStr(s),
            None => JVal::JInt(t as int),
        },
        ValModel::MTimestampMicros(t) => match ts_micros_text(t) {
            Some(s) => JVal::JStr(s),
            None => JVal::JInt(t as int),
        },
        ValModel::MGroup(fields) => JVal::JObj(group_json(fields)),
        ValModel::MList(items) => JVal::JArr(list_json(items)),
        ValModel::MMap(entries) => JVal::JObj(map_json(entries)),
    }
}

/// The JSON object built from a record's fields, in order, with the
/// overwrite semantics of `obj_insert`.
pub open spec fn group_json(fields: Seq<(Seq<char>, ValModel)>) -> Seq<(Seq<char>, JVal)>
    decreases fields,
{
    if fields.len() == 0 {
        Seq::empty()
    } else {
        obj_insert(group_json(fields.drop_last()), fields.last().0, json_of(fields.last().1))
    }
}

/// The JSON array items built from a list's items.
pub open spec fn list_json(items: Seq<ValModel>) -> Seq<JVal>
    decreases items,
{
    Seq::new(
        items.len(),
        |i: int|
            if 0 <= i < items.len() {
                json_of(items[i])
            } else {
                JVal::JNull
            },
    )
}

/// The JSON object built from a map's entries, in order: each key is the
/// compact JSON text of the converted key, each value the converted
/// value; a later entry under an identical key text overwrites the
/// earlier one.
pub open spec fn map_json(entries: Seq<(ValModel, ValModel)>) -> Seq<(Seq<char>, JVal)>
    decreases entries,
{
    if entries.len() == 0 {
        Seq::empty()
    } else {
        obj_insert(
            map_json(entries.drop_last()),
            jtext(json_of(entries.last().0)),
            json_of(entries.last().1),
        )
    }
}

/// The flat text of a value model: scalars render as their natural text,
/// nested structures as fixed placeholder tokens, null as the empty
/// string.
pub open spec fn text_of(m: ValModel) -> Seq<char> {
    match m {
        ValModel::MNull => Seq::empty(),
        ValModel::MBool(b) => bool_text(b),
        ValModel::MInt(i) => i64_dec(i),
        ValModel::MUInt(u) => u64_dec(u as nat),
        ValModel::MFloat16 { display, .. } => display,
        ValModel::MFloat { display, .. } => display,
        ValModel::MDouble { display, .. } => display,
        ValModel::MDecimal(s) => s,
        ValModel::MStr(s) => s,
        ValModel::MBytes(b) => base64_text(b),
        ValModel::MDate(d) => match date_render(d) {
            Some(t) => t,
            None => i64_dec(d as int),
        },
        ValModel::MTimeMillis(t) => if 0 <= t < 86400000 {
            time_millis_text(t as int)
        } else {
            i64_dec(t as int)
        },
        ValModel::MTimeMicros(t) => if 0 <= t < 86400000000 {
            time_micros_text(t as int)
        } else {
            i64_dec(t as int)
        },
        ValModel::MTimestampMillis(t) => match ts_millis_text(t) {
            Some(s) => s,
            None => i64_dec(t as int),
        },
        ValModel::MTimestampMicros(t) => match ts_micros_text(t) {
            Some(s) => s,
            None => i64_dec(t as int),
        },
        ValModel::MGroup(_) => "[GROUP]"@,
        ValModel::MList(_) => "[LIST]"@,
        ValModel::MMap(_) => "[MAP]"@,
    }
}

} // verus!

verus! {

/// Appends the "HH:MM:SS.fff" text of an in-range millisecond count.
fn push_time_millis(t: i32, out: &mut Vec<char>)
    requires
        0 <= t < 86400000,
    ensures
        final(out)@ == old(out)@ + time_millis_text(t as int),
{
    let x = t as u64;
    assert(x / 3600000 < 24 && (x % 3600000) / 60000 < 60 && (x % 60000) / 1000 < 60 && x % 1000
        < 1000) by (nonlinear_arith)
        requires
            x < 86400000,
    ;
    push_pad2(x / 3600000, out);
    out.push(':');
    push_pad2((x % 3600000) / 60000, out);
    out.push(':');
    push_pad2((x % 60000) / 1000, out);
    out.push('.');
    push_pad3(x % 1000, out);
    assert(out@ =~= old(out)@ + time_millis_text(t as int));
}

/// Appends the "HH:MM:SS.ffffff" text of an in-range microsecond count.
fn push_time_micros(t: i64, out: &mut Vec<char>)
    requires
        0 <= t < 86400000000,
    ensures
        final(out)@ == old(out)@ + time_micros_text(t as int),
{
    let x = t as u64;
    assert(x / 3600000000 < 24 && (x % 3600000000) / 60000000 < 60 && (x % 60000000) / 1000000
        < 60 && x % 1000000 < 1000000) by (nonlinear_arith)
        requires
            x < 86400000000,
    ;
    push_pad2(x / 3600000000, out);
    out.push(':');
    push_pad2((x % 3600000000) / 60000000, out);
    out.push(':');
    push_pad2((x % 60000000) / 1000000, out);
    out.push('.');
    push_pad6(x % 1000000, out);
    assert(out@ =~= old(out)@ + time_micros_text(t as int));
}

/// Renders a millisecond timestamp through the calendar, or reports that
/// the instant lies outside its range. The split floors the second count,
/// so an instant before the epoch keeps a non-negative fraction.
fn ts_millis_opt(t: i64) -> (r: Option<String>)
    ensures
        (r is Some) == (ts_millis_text(t) is Some),
        r matches Some(s) ==> ts_millis_text(t) matches Some(u) && s@ == u,
{
    if t >= 0 {
        let x = t as u64;
        assert((x / 1000) as int == t as int / 1000 && (x % 1000) as int == t as int % 1000);
        format_ts_millis((x / 1000) as i64, ((x % 1000) * 1000000) as u32)
    } else {
        let m: u64 = if t == i64::MIN {
            9223372036854775808u64
        } else {
            (-t) as u64
        };
        assert(m as int == -(t as int));
        let q = m / 1000;
        let rem = m % 1000;
        if rem == 0 {
            assert(t as int % 1000 == 0 && t as int / 1000 == -(q as int)) by (nonlinear_arith)
                requires
                    m as int == -(t as int),
                    m % 1000 == 0,
                    q == m / 1000,
                    t < 0,
            ;
            format_ts_millis(-(q as i64), 0)
        } else {
            assert(t as int % 1000 == 1000 - rem && t as int / 1000 == -(q as int) - 1)
                by (nonlinear_arith)
                requires
                    m as int == -(t as int),
                    m % 1000 != 0,
                    q == m / 1000,
                    rem == m % 1000,
                    t < 0,
            ;
            let nanos: u32 = ((1000 - rem) * 1000000) as u32;
            assert(nanos as int == (t as int % 1000) * 1000000);
            format_ts_millis(-(q as i64) - 1, nanos)
        }
    }
}

/// Renders a microsecond timestamp through the calendar, or reports that
/// the instant lies outside its range. The split floors the second count,
/// so an instant before the epoch keeps a non-negative fraction.
fn ts_micros_opt(t: i64) -> (r: Option<String>)
    ensures
        (r is Some) == (ts_micros_text(t) is Some),
        r matches Some(s) ==> ts_micros_text(t) matches Some(u) && s@ == u,
{
    if t >= 0 {
        let x = t as u64;
        assert((x / 1000000) as int == t as int / 1000000 && (x % 1000000) as int == t as int
            % 1000000);
        format_ts_micros((x / 1000000) as i64, ((x % 1000000) * 1000) as u32)
    } else {
        let m: u64 = if t == i64::MIN {
            9223372036854775808u64
        } else {
            (-t) as u64
        };
        assert(m as int == -(t as int));
        let q = m / 1000000;
        let rem = m % 1000000;
        if rem == 0 {
            assert(t as int % 1000000 == 0 && t as int / 1000000 == -(q as int))
                by (nonlinear_arith)
                requires
                    m as int == -(t as int),
                    m % 1000000 == 0,
                    q == m / 1000000,
                    t < 0,
            ;
            format_ts_micros(-(q as i64), 0)
        } else {
            assert(t as int % 1000000 == 1000000 - rem && t as int / 1000000 == -(q as int) - 1)
                by (nonlinear_arith)
                requires
                    m as int == -(t as int),
                    m % 1000000 != 0,
                    q == m / 1000000,
                    rem == m % 1000000,
                    t < 0,
            ;
            let nanos: u32 = ((1000000 - rem) * 1000) as u32;
            assert(nanos as int == (t as int % 1000000) * 1000);
            format_ts_micros(-(q as i64) - 1, nanos)
        }
    }
}

/// Converts one cell to its flat text: scalars as their natural text,
/// nested structures as fixed placeholder tokens, null as the empty
/// string.
pub fn field_to_string(field: &Value) -> (r: String)
    requires
        value_wf(vmodel(*field)),
    ensures
        r@ == text_of(vmodel(*field)),
{
    match field {
        Value::Null => String::new(),
        Value::Bool(b) => {
            let mut buf: Vec<char> = Vec::new();
            push_bool_text(*b, &mut buf);
            chars_to_string(&buf)
        },
        Value::Byte(x) => {
            let mut buf: Vec<char> = Vec::new();
            push_i64_dec(*x as i64, &mut buf);
            chars_to_string(&buf)
        },
        Value::Short(x) => {
            let mut buf: Vec<char> = Vec::new();
            push_i64_dec(*x as i64, &mut buf);
            chars_to_string(&buf)
        },
        Value::Int(x) => {
            let mut buf: Vec<char> = Vec::new();
            push_i64_dec(*x as i64, &mut buf);
            chars_to_string(&buf)
        },
        Value::Long(x) => {
            let mut buf: Vec<char> = Vec::new();
            push_i64_dec(*x, &mut buf);
            chars_to_string(&buf)
        },
        Value::UByte(x) => {
            let mut buf: Vec<char> = Vec::new();
            push_u64_dec(*x as u64, &mut buf);
            chars_to_string(&buf)
        },
        Value::UShort(x) => {
            let mut buf: Vec<char> = Vec::new();
            push_u64_dec(*x as u64, &mut buf);
            chars_to_string(&buf)
        },
        Value::UInt(x) => {
            let mut buf: Vec<char> = Vec::new();
            push_u64_dec(*x as u64, &mut buf);
            chars_to_string(&buf)
        },
        Value::ULong(x) => {
            let mut buf: Vec<char> = Vec::new();
            push_u64_dec(*x, &mut buf);
            chars_to_string(&buf)
        },
        Value::Float16 { text, .. } => text.display.clone(),
        Value::Float { text, .. } => text.display.clone(),
        Value::Double { text, .. } => text.display.clone(),
        Value::Decimal(s) => s.clone(),
        Value::Str(s) => s.clone(),
        Value::Bytes(b) => encode_base64(b),
        Value::Date(d) => match format_date(*d) {
            Some(s) => s,
            None => {
                let mut buf: Vec<char> = Vec::new();
                push_i64_dec(*d as i64, &mut buf);
                chars_to_string(&buf)
            },
        },
        Value::TimeMillis(t) => {
            if 0 <= *t && *t < 86400000 {
                let mut buf: Vec<char> = Vec::new();
                push_time_millis(*t, &mut buf);
                chars_to_string(&buf)
            } else {
                let mut buf: Vec<char> = Vec::new();
                push_i64_dec(*t as i64, &mut buf);
                chars_to_string(&buf)
            }
        },
        Value::TimeMicros(t) => {
            if 0 <= *t && *t < 86400000000 {
                let mut buf: Vec<char> = Vec::new();
                push_time_micros(*t, &mut buf);
                chars_to_string(&buf)
            } else {
                let mut buf: Vec<char> = Vec::new();
                push_i64_dec(*t, &mut buf);
                chars_to_string(&buf)
            }
        },
        Value::TimestampMillis(t) => match ts_millis_opt(*t) {
            Some(s) => s,
            None => {
                let mut buf: Vec<char> = Vec::new();
                push_i64_dec(*t, &mut buf);
                chars_to_string(&buf)
            },
        },
        Value::TimestampMicros(t) => match ts_micros_opt(*t) {
            Some(s) => s,
            None => {
                let mut buf: Vec<char> = Vec::new();
                push_i64_dec(*t, &mut buf);
                chars_to_string(&buf)
            },
        },
        Value::Group(_) => String::from_str("[GROUP]"),
        Value::ListInternal(_) => String::from_str("[LIST]"),
        Value::MapInternal(_) => String::from_str("[MAP]"),
    }
}

} // verus!

verus! {

/// Well-formedness of a row's cells.
pub open spec fn row_wf(s: Seq<(String, Value)>) -> bool {
    forall|i: int| 0 <= i < s.len() ==> value_wf(vmodel((#[trigger] s[i]).1))
}

/// Converts one cell to its JSON form. Total over every variant:
/// non-finite floats become the number zero, out-of-range temporal values
/// their raw integer encoding.
#[verifier::loop_isolation(false)]
#[verifier::rlimit(100)]
pub fn field_to_json(field: &Value) -> (r: JsonValue)
    requires
        value_wf(vmodel(*field)),
    ensures
        jval_of(r) == json_of(vmodel(*field)),
    decreases *field,
{
    match field {
        Value::Null => JsonValue::Null,
        Value::Bool(b) => JsonValue::Bool(*b),
        Value::Byte(x) => JsonValue::IntNum(*x as i64),
        Value::Short(x) => JsonValue::IntNum(*x as i64),
        Value::Int(x) => JsonValue::IntNum(*x as i64),
        Value::Long(x) => JsonValue::IntNum(*x),
        Value::UByte(x) => JsonValue::UIntNum(*x as u64),
        Value::UShort(x) => JsonValue::UIntNum(*x as u64),
        Value::UInt(x) => JsonValue::UIntNum(*x as u64),
        Value::ULong(x) => JsonValue::UIntNum(*x),
        Value::Float16 { bits, text } => {
            if f16_finite(*bits) {
                JsonValue::FloatNum(text.json.clone())
            } else {
                JsonValue::IntNum(0)
            }
        },
        Value::Float { bits, text } => {
            if f32_finite(*bits) {
                JsonValue::FloatNum(text.json.clone())
            } else {
                JsonValue::IntNum(0)
            }
        },
        Value::Double { bits, text } => {
            if f64_finite(*bits) {
                JsonValue::FloatNum(text.json.clone())
            } else {
                JsonValue::IntNum(0)
            }
        },
        Value::Decimal(s) => JsonValue::Str(s.clone()),
        Value::Str(s) => JsonValue::Str(s.clone()),
        Value::Bytes(b) => JsonValue::Str(encode_base64(b)),
        Value::Date(d) => match format_date(*d) {
            Some(s) => JsonValue::Str(s),
            None => JsonValue::IntNum(*d as i64),
        },
        Value::TimeMillis(t) => {
            if 0 <= *t && *t < 86400000 {
                let mut buf: Vec<char> = Vec::new();
                push_time_millis(*t, &mut buf);
                JsonValue::Str(chars_to_string(&buf))
            } else {
                JsonValue::IntNum(*t as i64)
            }
        },
        Value::TimeMicros(t) => {
            if 0 <= *t && *t < 86400000000 {
                let mut buf: Vec<char> = Vec::new();
                push_time_micros(*t, &mut buf);
                JsonValue::Str(chars_to_string(&buf))
            } else {
                JsonValue::IntNum(*t)
            }
        },
        Value::TimestampMillis(t) => match ts_millis_opt(*t) {
            Some(s) => JsonValue::Str(s),
            None => JsonValue::IntNum(*t),
        },
        Value::TimestampMicros(t) => match ts_micros_opt(*t) {
            Some(s) => JsonValue::Str(s),
            None => JsonValue::IntNum(*t),
        },
        Value::Group(fields) => {
            proof {
                assert(decreases_to!(*field => *fields));
                assert(decreases_to!(*fields => fields@));
                assert forall|i: int|
                    0 <= i < fields@.len() implies value_wf(
                    vmodel((#[trigger] fields@[i]).1),
                ) by {
                    assert(value_wf(vgroup_model(fields@)[i].1));
                }
            }
            JsonValue::Obj(group_to_obj(fields))
        },
        Value::ListInternal(items) => {
            proof {
                assert(decreases_to!(*field => *items));
                assert(decreases_to!(*items => items@));
            }
            let ghost lm = vlist_model(items@);
            let mut arr: Vec<JsonValue> = Vec::new();
            let n = items.len();
            let mut i: usize = 0;
            while i < n
                invariant
                    i <= n,
                    jval_seq(arr@) == list_json(lm.take(i as int)),
                decreases n - i,
            {
                proof {
                    assert(decreases_to!(items@ => items@[i as int]));
                    assert(value_wf(vlist_model(items@)[i as int]));
                }
                let jv = field_to_json(&items[i]);
                let ghost arr0 = arr@;
                arr.push(jv);
                proof {
                    assert forall|j: int|
                        0 <= j < arr@.len() implies jval_seq(arr@)[j] == list_json(
                        lm.take((i + 1) as int),
                    )[j] by {
                        if j < i as int {
                            assert(arr@[j] == arr0[j]);
                            assert(jval_seq(arr0)[j] == list_json(lm.take(i as int))[j]);
                        } else {
                            assert(arr@[j] == jv);
                        }
                    }
                    assert(jval_seq(arr@) =~= list_json(lm.take((i + 1) as int)));
                }
                i = i + 1;
            }
            assert(lm.take(n as int) =~= lm);
            JsonValue::Arr(arr)
        },
        Value::MapInternal(entries) => {
            proof {
                assert(decreases_to!(*field => *entries));
                assert(decreases_to!(*entries => entries@));
            }
            let ghost mm = vmap_model(entries@);
            let mut obj: Vec<(String, JsonValue)> = Vec::new();
            let n = entries.len();
            let mut i: usize = 0;
            while i < n
                invariant
                    i <= n,
                    jobj_of(obj@) == map_json(mm.take(i as int)),
                decreases n - i,
            {
                proof {
                    assert(decreases_to!(entries@ => entries@[i as int]));
                    assert(decreases_to!(entries@[i as int] => entries@[i as int].0));
                    assert(decreases_to!(entries@[i as int] => entries@[i as int].1));
                    assert(value_wf(vmap_model(entries@)[i as int].0));
                    assert(value_wf(vmap_model(entries@)[i as int].1));
                }
                let kj = field_to_json(&entries[i].0);
                let mut kbuf: Vec<char> = Vec::new();
                write_json(&kj, &mut kbuf);
                let key = chars_to_string(&kbuf);
                let vj = field_to_json(&entries[i].1);
                obj_set(&mut obj, key, vj);
                proof {
                    let pre = mm.take((i + 1) as int);
                    assert(pre.drop_last() =~= mm.take(i as int));
                    assert(pre.last() == ventry_model(entries@[i as int]));
                    assert(jobj_of(obj@) =~= map_json(pre));
                }
                i = i + 1;
            }
            assert(mm.take(n as int) =~= mm);
            JsonValue::Obj(obj)
        },
    }
}

/// Converts a record's fields to an ordered JSON object, field by field,
/// in order, with overwrite-in-place on a repeated name.
#[verifier::loop_isolation(false)]
fn group_to_obj(fields: &Vec<(String, Value)>) -> (obj: Vec<(String, JsonValue)>)
    requires
        row_wf(fields@),
    ensures
        jobj_of(obj@) == group_json(vgroup_model(fields@)),
    decreases fields@,
{
    let ghost gm = vgroup_model(fields@);
    let mut obj: Vec<(String, JsonValue)> = Vec::new();
    let n = fields.len();
    let mut i: usize = 0;
    while i < n
        invariant
            i <= n,
            jobj_of(obj@) == group_json(gm.take(i as int)),
        decreases n - i,
    {
        proof {
            assert(decreases_to!(fields@ => fields@[i as int]));
            assert(decreases_to!(fields@[i as int] => fields@[i as int].1));
        }
        let jv = field_to_json(&fields[i].1);
        let key = fields[i].0.clone();
        obj_set(&mut obj, key, jv);
        proof {
            let pre = gm.take((i + 1) as int);
            assert(pre.drop_last() =~= gm.take(i as int));
            assert(pre.last() == vfield_model(fields@[i as int]));
            assert(jobj_of(obj@) =~= group_json(pre));
        }
        i = i + 1;
    }
    assert(gm.take(n as int) =~= gm);
    obj
}

/// Converts one row to a JSON object, applying the codec to every column
/// in order.
pub fn row_to_json(row: &Vec<(String, Value)>) -> (r: JsonValue)
    requires
        row_wf(row@),
    ensures
        jval_of(r) == JVal::JObj(group_json(vgroup_model(row@))),
{
    JsonValue::Obj(group_to_obj(row))
}

} // verus!
