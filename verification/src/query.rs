//! SQL text for filtered, paginated reads and counts, and the
//! interpretation of a count result.
//!
//! The filter is caller-supplied boolean-expression text in the embedded
//! engine's dialect, passed through verbatim; an empty or all-whitespace
//! filter omits the `WHERE` clause. The registered table name is fixed.

use vstd::prelude::*;

use crate::ext::chars_to_string;
use crate::json::JsonValue;
use crate::text::{push_str_chars, push_u64_dec, u64_dec};

verus! {

/// A column of an ad-hoc query result: its name and the engine's label
/// for its data type.
#[derive(PartialEq, Eq, Debug)]
pub struct QueryColumn {
    pub name: String,
    pub data_type: String,
}

/// The result of an ad-hoc query: the result schema, the materialized
/// rows as JSON objects, and the wall-clock execution time in
/// milliseconds.
#[derive(Debug)]
pub struct QueryResult {
    pub columns: Vec<QueryColumn>,
    pub rows: Vec<JsonValue>,
    pub execution_time_ms: u128,
}

/// Whether `c` is a whitespace character, by the Unicode `White_Space`
/// property.
pub open spec fn is_space(c: char) -> bool {
    ||| c as u32 == 0x09
    ||| c as u32 == 0x0a
    ||| c as u32 == 0x0b
    ||| c as u32 == 0x0c
    ||| c as u32 == 0x0d
    ||| c as u32 == 0x20
    ||| c as u32 == 0x85
    ||| c as u32 == 0xa0
    ||| c as u32 == 0x1680
    ||| (0x2000 <= c as u32 && c as u32 <= 0x200a)
    ||| c as u32 == 0x2028
    ||| c as u32 == 0x2029
    ||| c as u32 == 0x202f
    ||| c as u32 == 0x205f
    ||| c as u32 == 0x3000
}

/// Whether every character of `s` is whitespace; true of the empty
/// string.
pub open spec fn all_space(s: Seq<char>) -> bool {
    forall|i: int| 0 <= i < s.len() ==> is_space(#[trigger] s[i])
}

/// The `WHERE` clause for a filter: empty when the filter is absent,
/// empty, or all whitespace; else the filter text after `WHERE `.
pub open spec fn where_text(filter: Option<Seq<char>>) -> Seq<char> {
    match filter {
        Some(f) => if all_space(f) {
            Seq::empty()
        } else {
            "WHERE "@ + f
        },
        None => Seq::empty(),
    }
}

/// The text of a filtered, paginated read over the registered table.
pub open spec fn read_query_text(filter: Option<Seq<char>>, limit: int, offset: int) -> Seq<
    char,
> {
    "SELECT * FROM t "@ + where_text(filter) + " LIMIT "@ + u64_dec(limit as nat) + " OFFSET "@
        + u64_dec(offset as nat)
}

/// The text of a filtered count over the registered table.
pub open spec fn count_query_text(filter: Option<Seq<char>>) -> Seq<char> {
    "SELECT COUNT(*) FROM t "@ + where_text(filter)
}

/// The view of an optional filter.
pub open spec fn filter_view(filter: Option<String>) -> Option<Seq<char>> {
    match filter {
        Some(f) => Some(f@),
        None => None,
    }
}

/// Whether `c` is a whitespace character.
fn is_space_char(c: char) -> (r: bool)
    ensures
        r == is_space(c),
{
    let u = c as u32;
    u == 0x09 || u == 0x0a || u == 0x0b || u == 0x0c || u == 0x0d || u == 0x20 || u == 0x85 || u
        == 0xa0 || u == 0x1680 || (0x2000 <= u && u <= 0x200a) || u == 0x2028 || u == 0x2029 || u
        == 0x202f || u == 0x205f || u == 0x3000
}

/// Whether every character of `s` is whitespace.
fn str_all_space(s: &str) -> (r: bool)
    ensures
        r == all_space(s@),
{
    let n = s.unicode_len();
    let mut i: usize = 0;
    while i < n
        invariant
            n == s@.len(),
            i <= n,
            forall|j: int| 0 <= j < i ==> is_space(#[trigger] s@[j]),
        decreases n - i,
    {
        let c = s.get_char(i);
        if !is_space_char(c) {
            return false;
        }
        i = i + 1;
    }
    true
}

/// Appends the `WHERE` clause for a filter, if one is called for.
fn push_where(filter: &Option<String>, out: &mut Vec<char>)
    ensures
        final(out)@ == old(out)@ + where_text(filter_view(*filter)),
{
    match filter {
        Some(f) => {
            if !str_all_space(f.as_str()) {
                push_str_chars("WHERE ", out);
                push_str_chars(f.as_str(), out);
                assert(out@ =~= old(out)@ + where_text(filter_view(*filter)));
            } else {
                assert(out@ =~= old(out)@ + where_text(filter_view(*filter)));
            }
        },
        None => {
            assert(out@ =~= old(out)@ + where_text(filter_view(*filter)));
        },
    }
}

/// Builds the SQL text of a filtered, paginated read: all columns of the
/// registered table, the filter as a `WHERE` clause when present and not
/// all whitespace, then `LIMIT` and `OFFSET`.
pub fn build_read_query(filter: &Option<String>, limit: usize, offset: usize) -> (q: String)
    ensures
        q@ == read_query_text(filter_view(*filter), limit as int, offset as int),
{
    let mut buf: Vec<char> = Vec::new();
    push_str_chars("SELECT * FROM t ", &mut buf);
    push_where(filter, &mut buf);
    push_str_chars(" LIMIT ", &mut buf);
    push_u64_dec(limit as u64, &mut buf);
    push_str_chars(" OFFSET ", &mut buf);
    push_u64_dec(offset as u64, &mut buf);
    assert(buf@ =~= read_query_text(filter_view(*filter), limit as int, offset as int));
    chars_to_string(&buf)
}

/// Builds the SQL text of a filtered count over the registered table.
pub fn build_count_query(filter: &Option<String>) -> (q: String)
    ensures
        q@ == count_query_text(filter_view(*filter)),
{
    let mut buf: Vec<char> = Vec::new();
    push_str_chars("SELECT COUNT(*) FROM t ", &mut buf);
    push_where(filter, &mut buf);
    assert(buf@ =~= count_query_text(filter_view(*filter)));
    chars_to_string(&buf)
}

/// What the first cell of a count result held: no batches at all, a first
/// batch with no rows, a first cell that was not a 64-bit integer, or the
/// count itself.
#[derive(Clone, Copy, PartialEq, Eq, Structural, Debug)]
pub enum CountCell {
    NoBatches,
    EmptyBatch,
    NotInt64,
    Value(i64),
}

/// Interprets a count result: no batches or an empty batch count as zero,
/// a first cell of the wrong type is a conversion error, and a counted
/// value is returned as is.
pub fn interpret_count(cell: CountCell) -> (r: Result<usize, String>)
    ensures
        cell == CountCell::NoBatches ==> r == Ok::<usize, String>(0usize),
        cell == CountCell::EmptyBatch ==> r == Ok::<usize, String>(0usize),
        cell == CountCell::NotInt64 ==> (r matches Err(e) && e@
            == "Failed to downcast count result"@),
        cell matches CountCell::Value(v) ==> (if v >= 0 {
            r matches Ok(c) && c == v as usize
        } else {
            r is Ok
        }),
{
    match cell {
        CountCell::NoBatches => Ok(0),
        CountCell::EmptyBatch => Ok(0),
        CountCell::NotInt64 => Err(String::from_str("Failed to downcast count result")),
        CountCell::Value(v) => Ok(#[verifier::truncate] (v as usize)),
    }
}

} // verus!
