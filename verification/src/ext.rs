//! Trusted declarations for the outside calls the library makes.
//!
//! Every function here is `external_body`: Verus believes the stated
//! contract and does not read the body. Each doc comment names the outside
//! function relied on. Results that depend on the arguments alone but are
//! too intricate to state are given names (`uninterp` spec functions); the
//! contracts of the wrappers speak of those names.

use base64::Engine;
use vstd::prelude::*;

verus! {

/// The standard padded base64 text of a byte sequence.
pub uninterp spec fn base64_text(b: Seq<u8>) -> Seq<char>;

/// The "YYYY-MM-DD" rendering of a day count since 1970-01-01, or `None`
/// when the day count falls outside the calendar's representable range.
pub uninterp spec fn date_render(days: i32) -> Option<Seq<char>>;

/// The "YYYY-MM-DD HH:MM:SS.fff" UTC rendering of an epoch second count
/// plus nanoseconds, or `None` when out of range.
pub uninterp spec fn ts_millis_render(secs: i64, nanos: u32) -> Option<Seq<char>>;

/// The "YYYY-MM-DD HH:MM:SS.ffffff" UTC rendering of an epoch second count
/// plus nanoseconds, or `None` when out of range.
pub uninterp spec fn ts_micros_render(secs: i64, nanos: u32) -> Option<Seq<char>>;

/// The encoding of one CSV record from its fields: each field quoted as
/// needed, fields joined by commas, a record terminator at the end.
pub uninterp spec fn csv_record_bytes(fields: Seq<Seq<char>>) -> Seq<u8>;

/// Relies on `FromIterator<&char> for String` (std): collecting characters
/// yields the string of exactly those characters.
#[verifier::external_body]
pub(crate) fn chars_to_string(v: &Vec<char>) -> (r: String)
    ensures
        r@ == v@,
{
    v.iter().collect()
}

/// Relies on `base64::engine::Engine::encode` with the
/// `general_purpose::STANDARD` engine: standard alphabet, padded, so the
/// output holds four characters for every three input bytes, rounded up.
/// The length bound keeps the engine's internal size computation from
/// overflowing, on which it panics.
#[verifier::external_body]
pub(crate) fn encode_base64(b: &Vec<u8>) -> (r: String)
    requires
        4 * ((b@.len() + 2) / 3) <= usize::MAX,
    ensures
        r@ == base64_text(b@),
        r@.len() == 4 * ((b@.len() + 2) / 3),
{
    base64::engine::general_purpose::STANDARD.encode(b.as_slice())
}

/// Relies on `chrono::NaiveDate::checked_add_signed` and the `%Y-%m-%d`
/// rendering of `chrono::NaiveDate::format`: 1970-01-01 plus the signed
/// day count, or `None` when the sum leaves chrono's calendar range.
#[verifier::external_body]
pub(crate) fn format_date(days: i32) -> (r: Option<String>)
    ensures
        (r is Some) == (date_render(days) is Some),
        r matches Some(s) ==> date_render(days) matches Some(t) && s@ == t,
{
    let epoch = chrono::NaiveDate::from_ymd_opt(1970, 1, 1)?;
    let date = epoch.checked_add_signed(chrono::TimeDelta::days(days as i64))?;
    Some(date.format("%Y-%m-%d").to_string())
}

/// Relies on `chrono::DateTime::from_timestamp` and the
/// `%Y-%m-%d %H:%M:%S%.3f` rendering of `chrono::DateTime::format`:
/// `None` exactly when chrono rejects the second/nanosecond pair.
#[verifier::external_body]
pub(crate) fn format_ts_millis(secs: i64, nanos: u32) -> (r: Option<String>)
    ensures
        (r is Some) == (ts_millis_render(secs, nanos) is Some),
        r matches Some(s) ==> ts_millis_render(secs, nanos) matches Some(t) && s@ == t,
{
    let dt = chrono::DateTime::from_timestamp(secs, nanos)?;
    Some(dt.format("%Y-%m-%d %H:%M:%S%.3f").to_string())
}

/// Relies on `chrono::DateTime::from_timestamp` and the
/// `%Y-%m-%d %H:%M:%S%.6f` rendering of `chrono::DateTime::format`:
/// `None` exactly when chrono rejects the second/nanosecond pair.
#[verifier::external_body]
pub(crate) fn format_ts_micros(secs: i64, nanos: u32) -> (r: Option<String>)
    ensures
        (r is Some) == (ts_micros_render(secs, nanos) is Some),
        r matches Some(s) ==> ts_micros_render(secs, nanos) matches Some(t) && s@ == t,
{
    let dt = chrono::DateTime::from_timestamp(secs, nanos)?;
    Some(dt.format("%Y-%m-%d %H:%M:%S%.6f").to_string())
}

/// Relies on `csv::Writer::write_record` over an in-memory buffer with the
/// default configuration: the buffer then holds exactly the encoded
/// record with its terminator. Writing one record to a fresh in-memory
/// writer cannot fail: its only error sources are the underlying writer
/// (a `Vec`, whose writes are infallible) and a field-count mismatch
/// with an earlier record (there is none).
#[verifier::external_body]
pub(crate) fn csv_record(fields: &Vec<String>) -> (r: Result<Vec<u8>, String>)
    ensures
        r is Ok,
        r matches Ok(b) ==> b@ == csv_record_bytes(fields.deep_view()),
{
    let mut w = csv::Writer::from_writer(Vec::new());
    if let Err(e) = w.write_record(fields.iter()) {
        return Err(e.to_string());
    }
    w.into_inner().map_err(|e| e.to_string())
}

} // verus!
