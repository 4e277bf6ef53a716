//! One-shot export of a row window to CSV or JSON.
//!
//! The format name is matched case-insensitively; an unrecognized name
//! fails before anything is rendered, so a caller can refuse to touch the
//! destination path. The CSV form starts with the UTF-8 byte-order mark,
//! then a header record of the column names in schema order, then one
//! record per row where each cell is the flat text of the row's value for
//! that column name, or empty when the column is absent from the row. The
//! JSON form is a single pretty-printed array of the rows' JSON objects.

use vstd::prelude::*;
use vstd::utf8::encode_utf8;

use crate::codec::{
    field_to_string, group_json, row_to_json, row_wf, text_of, vgroup_model, ValModel,
};
use crate::ext::{chars_to_string, csv_record, csv_record_bytes};
use crate::json::{jpretty, jval_of, jval_seq, write_json_pretty, JVal, JsonValue};
use crate::text::{push_str_chars, push_u64_dec, u64_dec};
use crate::value::Value;

verus! {

/// A recognized export format.
#[derive(Clone, Copy, PartialEq, Eq, Structural, Debug)]
pub enum ExportFormat {
    Csv,
    Json,
}

/// Whether `c` matches the lowercase ASCII letter `l`, ignoring case.
pub open spec fn ci_eq(c: char, l: char) -> bool {
    c == l || c as u32 + 32 == l as u32
}

/// Whether `s` matches the lowercase ASCII name `lower`, ignoring ASCII
/// case.
pub open spec fn matches_ci(s: Seq<char>, lower: Seq<char>) -> bool {
    s.len() == lower.len() && forall|i: int| 0 <= i < s.len() ==> ci_eq(#[trigger] s[i], lower[i])
}

/// The lowercase name of the CSV format.
pub open spec fn csv_name() -> Seq<char> {
    seq!['c', 's', 'v']
}

/// The lowercase name of the JSON format.
pub open spec fn json_name() -> Seq<char> {
    seq!['j', 's', 'o', 'n']
}

/// Whether `c` matches the lowercase ASCII letter `l`, ignoring case.
fn ci_eq_char(c: char, l: char) -> (r: bool)
    requires
        l as u32 >= 32,
    ensures
        r == ci_eq(c, l),
{
    if c == l {
        true
    } else {
        let u = c as u32;
        u < 0xffffffe0 && u + 32 == l as u32
    }
}

/// Matches `s` against a lowercase ASCII name, ignoring ASCII case.
fn str_matches_ci(s: &str, lower: &[char]) -> (r: bool)
    requires
        forall|i: int| 0 <= i < lower@.len() ==> (#[trigger] lower@[i]) as u32 >= 32,
    ensures
        r == matches_ci(s@, lower@),
{
    let n = s.unicode_len();
    if n != lower.len() {
        return false;
    }
    let mut i: usize = 0;
    while i < n
        invariant
            s@.len() == n,
            lower@.len() == n,
            i <= n,
            forall|j: int| 0 <= j < i ==> ci_eq(#[trigger] s@[j], lower@[j]),
            forall|j: int| 0 <= j < lower@.len() ==> (#[trigger] lower@[j]) as u32 >= 32,
        decreases n - i,
    {
        let c = s.get_char(i);
        if !ci_eq_char(c, lower[i]) {
            return false;
        }
        i = i + 1;
    }
    true
}

/// Recognizes an export format name, ignoring ASCII case. Any other name
/// is an unsupported-format error naming the offending format, and
/// nothing is rendered or written for it.
pub fn parse_format(format: &String) -> (r: Result<ExportFormat, String>)
    ensures
        matches_ci(format@, csv_name()) ==> r == Ok::<ExportFormat, String>(ExportFormat::Csv),
        matches_ci(format@, json_name()) ==> r == Ok::<ExportFormat, String>(ExportFormat::Json),
        !matches_ci(format@, csv_name()) && !matches_ci(format@, json_name()) ==> (r matches Err(e)
            && e@ == "Unsupported export format: "@ + format@),
    {
    let csv_chars: [char; 3] = ['c', 's', 'v'];
    let json_chars: [char; 4] = ['j', 's', 'o', 'n'];
    assert(csv_chars@ =~= csv_name());
    assert(json_chars@ =~= json_name());
    if str_matches_ci(format.as_str(), csv_chars.as_slice()) {
        Ok(ExportFormat::Csv)
    } else if str_matches_ci(format.as_str(), json_chars.as_slice()) {
        Ok(ExportFormat::Json)
    } else {
        let mut buf: Vec<char> = Vec::new();
        push_str_chars("Unsupported export format: ", &mut buf);
        push_str_chars(format.as_str(), &mut buf);
        Err(chars_to_string(&buf))
    }
}

/// The first row of the export window: the given offset, or zero.
pub open spec fn window_start(offset: Option<usize>) -> int {
    match offset {
        Some(o) => o as int,
        None => 0,
    }
}

/// How many rows the export window holds: the requested limit, or all
/// rows from the start of the window, clamped to the rows the file has
/// past that start.
pub open spec fn window_count(total: int, offset: Option<usize>, limit: Option<usize>) -> int {
    let avail = if window_start(offset) <= total {
        total - window_start(offset)
    } else {
        0
    };
    match limit {
        Some(l) => if l as int <= avail {
            l as int
        } else {
            avail
        },
        None => avail,
    }
}

/// Computes the export window over a file of `total_rows` rows: the row
/// to start at, and how many rows to take, clamped to the file.
pub fn clamp_window(total_rows: usize, offset: Option<usize>, limit: Option<usize>) -> (r: (
    usize,
    usize,
))
    ensures
        r.0 as int == window_start(offset),
        r.1 as int == window_count(total_rows as int, offset, limit),
{
    let start: usize = match offset {
        Some(o) => o,
        None => 0,
    };
    let avail: usize = if start <= total_rows {
        total_rows - start
    } else {
        0
    };
    let count: usize = match limit {
        Some(l) => if l <= avail {
            l
        } else {
            avail
        },
        None => avail,
    };
    (start, count)
}

/// The flat text of the first value under `name` in a row, or the empty
/// string when the row has no such column.
pub open spec fn row_cell(rm: Seq<(Seq<char>, ValModel)>, name: Seq<char>) -> Seq<char>
    decreases rm.len(),
{
    if rm.len() == 0 {
        Seq::empty()
    } else if rm[0].0 == name {
        text_of(rm[0].1)
    } else {
        row_cell(rm.drop_first(), name)
    }
}

/// The CSV cells of one row, one per column name, in schema order.
pub open spec fn row_record(rm: Seq<(Seq<char>, ValModel)>, cols: Seq<Seq<char>>) -> Seq<
    Seq<char>,
> {
    Seq::new(cols.len(), |i: int| row_cell(rm, cols[i]))
}

/// The UTF-8 byte-order mark.
pub open spec fn bom() -> Seq<u8> {
    seq![0xefu8, 0xbbu8, 0xbfu8]
}

/// The models of a sequence of rows.
pub open spec fn rows_models(rows: Seq<Vec<(String, Value)>>) -> Seq<
    Seq<(Seq<char>, ValModel)>,
> {
    Seq::new(rows.len(), |i: int| vgroup_model(rows[i]@))
}

/// Well-formedness of a sequence of rows.
pub open spec fn rows_wf(rows: Seq<Vec<(String, Value)>>) -> bool {
    forall|i: int| 0 <= i < rows.len() ==> row_wf((#[trigger] rows[i])@)
}

/// The encoded records of the data rows, in order.
pub open spec fn csv_rows(cols: Seq<Seq<char>>, rms: Seq<Seq<(Seq<char>, ValModel)>>) -> Seq<
    u8,
>
    decreases rms.len(),
{
    if rms.len() == 0 {
        Seq::empty()
    } else {
        csv_rows(cols, rms.drop_last()) + csv_record_bytes(row_record(rms.last(), cols))
    }
}

/// The whole CSV document: byte-order mark, header record of the column
/// names, then one record per row.
pub open spec fn csv_doc(cols: Seq<Seq<char>>, rms: Seq<Seq<(Seq<char>, ValModel)>>) -> Seq<
    u8,
> {
    bom() + csv_record_bytes(cols) + csv_rows(cols, rms)
}

/// The JSON objects of the export rows.
pub open spec fn rows_jarr(rows: Seq<Vec<(String, Value)>>) -> Seq<JVal> {
    Seq::new(rows.len(), |i: int| JVal::JObj(group_json(vgroup_model(rows[i]@))))
}

/// The whole JSON document: the pretty text of the array of row objects,
/// UTF-8 encoded.
pub open spec fn json_doc(rows: Seq<Vec<(String, Value)>>) -> Seq<u8> {
    encode_utf8(jpretty(JVal::JArr(rows_jarr(rows)), Seq::<char>::empty()))
}

proof fn lemma_row_cell_skip(rm: Seq<(Seq<char>, ValModel)>, name: Seq<char>, i: int)
    requires
        0 <= i <= rm.len(),
        forall|j: int| 0 <= j < i ==> (#[trigger] rm[j]).0 != name,
    ensures
        row_cell(rm, name) == row_cell(rm.skip(i), name),
    decreases i,
{
    if i > 0 {
        assert(rm.len() > 0);
        assert(rm[0].0 != name);
        assert(forall|j: int|
            0 <= j < i - 1 ==> (#[trigger] rm.drop_first()[j]).0 == rm[j + 1].0);
        lemma_row_cell_skip(rm.drop_first(), name, i - 1);
        assert(rm.drop_first().skip(i - 1) =~= rm.skip(i));
        assert(row_cell(rm, name) == row_cell(rm.drop_first(), name));
    } else {
        assert(rm.skip(0) =~= rm);
    }
}

/// The flat text of the first value under `name` in `row`, or the empty
/// string.
#[verifier::loop_isolation(false)]
fn cell_for(row: &Vec<(String, Value)>, name: &String) -> (r: String)
    requires
        row_wf(row@),
    ensures
        r@ == row_cell(vgroup_model(row@), name@),
{
    let ghost rm = vgroup_model(row@);
    let n = row.len();
    let mut i: usize = 0;
    while i < n
        invariant
            i <= n,
            forall|j: int| 0 <= j < i ==> (#[trigger] rm[j]).0 != name@,
        decreases n - i,
    {
        if row[i].0 == *name {
            proof {
                lemma_row_cell_skip(rm, name@, i as int);
                assert(rm.skip(i as int)[0] == rm[i as int]);
            }
            return field_to_string(&row[i].1);
        }
        i = i + 1;
    }
    proof {
        lemma_row_cell_skip(rm, name@, n as int);
        assert(rm.skip(n as int).len() == 0);
    }
    String::new()
}

/// Appends every byte of `src` to `out`.
fn push_bytes(src: &Vec<u8>, out: &mut Vec<u8>)
    ensures
        final(out)@ == old(out)@ + src@,
{
    let n = src.len();
    let mut i: usize = 0;
    while i < n
        invariant
            n == src@.len(),
            i <= n,
            out@ == old(out)@ + src@.subrange(0, i as int),
        decreases n - i,
    {
        out.push(src[i]);
        assert(out@ =~= old(out)@ + src@.subrange(0, (i + 1) as int));
        i = i + 1;
    }
    assert(src@.subrange(0, n as int) =~= src@);
}

/// Renders the CSV document for a row window: byte-order mark, header
/// record of column names, one record per row.
#[verifier::loop_isolation(false)]
pub fn render_csv(columns: &Vec<String>, rows: &Vec<Vec<(String, Value)>>) -> (r: Vec<u8>)
    requires
        rows_wf(rows@),
    ensures
        r@ == csv_doc(columns.deep_view(), rows_models(rows@)),
{
    let ghost cols = columns.deep_view();
    let ghost rms = rows_models(rows@);
    let mut out: Vec<u8> = Vec::new();
    out.push(0xef);
    out.push(0xbb);
    out.push(0xbf);
    assert(out@ =~= bom());
    let header = match csv_record(columns) {
        Ok(b) => b,
        Err(_) => unreached(),
    };
    push_bytes(&header, &mut out);
    let n = rows.len();
    let mut i: usize = 0;
    while i < n
        invariant
            i <= n,
            out@ == bom() + csv_record_bytes(cols) + csv_rows(cols, rms.take(i as int)),
        decreases n - i,
    {
        let m = columns.len();
        let mut record: Vec<String> = Vec::new();
        let mut j: usize = 0;
        while j < m
            invariant
                i < n,
                j <= m,
                record@.len() == j,
                forall|k: int|
                    0 <= k < j ==> (#[trigger] record@[k])@ == row_cell(
                        vgroup_model(rows@[i as int]@),
                        cols[k],
                    ),
            decreases m - j,
        {
            let cell = cell_for(&rows[i], &columns[j]);
            record.push(cell);
            j = j + 1;
        }
        assert(record.deep_view() =~= row_record(vgroup_model(rows@[i as int]@), cols));
        let enc = match csv_record(&record) {
            Ok(b) => b,
            Err(_) => unreached(),
        };
        push_bytes(&enc, &mut out);
        proof {
            let pre = rms.take((i + 1) as int);
            assert(pre.drop_last() =~= rms.take(i as int));
            assert(pre.last() == vgroup_model(rows@[i as int]@));
            assert(out@ =~= bom() + csv_record_bytes(cols) + csv_rows(cols, pre));
        }
        i = i + 1;
    }
    assert(rms.take(n as int) =~= rms);
    out
}

/// Renders the JSON document for a row window: a single pretty-printed
/// array of the rows' JSON objects.
#[verifier::loop_isolation(false)]
pub fn render_json(rows: &Vec<Vec<(String, Value)>>) -> (r: Vec<u8>)
    requires
        rows_wf(rows@),
    ensures
        r@ == json_doc(rows@),
{
    let ghost ja = rows_jarr(rows@);
    let mut arr: Vec<JsonValue> = Vec::new();
    let n = rows.len();
    let mut i: usize = 0;
    while i < n
        invariant
            i <= n,
            arr@.len() == i,
            forall|k: int| 0 <= k < i ==> jval_of(#[trigger] arr@[k]) == ja[k],
        decreases n - i,
    {
        let obj = row_to_json(&rows[i]);
        arr.push(obj);
        i = i + 1;
    }
    let jv = JsonValue::Arr(arr);
    assert(jval_of(jv) == JVal::JArr(ja)) by {
        assert(jval_seq(arr@) =~= ja);
    }
    let ind: Vec<char> = Vec::new();
    let mut buf: Vec<char> = Vec::new();
    write_json_pretty(&jv, &ind, &mut buf);
    let s = chars_to_string(&buf);
    let b = s.as_str().as_bytes_vec();
    proof {
        assert(ind@ =~= Seq::<char>::empty());
    }
    b
}

/// The confirmation text for a finished export, naming the number of
/// rows written and the destination path.
pub fn export_confirmation(count: usize, export_path: &String) -> (r: String)
    ensures
        r@ == "Successfully exported "@ + u64_dec(count as nat) + " rows to "@ + export_path@,
{
    let mut buf: Vec<char> = Vec::new();
    push_str_chars("Successfully exported ", &mut buf);
    push_u64_dec(count as u64, &mut buf);
    push_str_chars(" rows to ", &mut buf);
    push_str_chars(export_path.as_str(), &mut buf);
    assert(buf@ =~= "Successfully exported "@ + u64_dec(count as nat) + " rows to "@
        + export_path@);
    chars_to_string(&buf)
}

/// Renders the export document for a row window in the named format. An
/// unrecognized format name fails without rendering anything, so the
/// caller can leave the destination path untouched.
pub fn render_export(format: &String, columns: &Vec<String>, rows: &Vec<Vec<(String, Value)>>)
    -> (r: Result<Vec<u8>, String>)
    requires
        rows_wf(rows@),
    ensures
        matches_ci(format@, csv_name()) ==> (r matches Ok(b) && b@ == csv_doc(
            columns.deep_view(),
            rows_models(rows@),
        )),
        matches_ci(format@, json_name()) ==> (r matches Ok(b) && b@ == json_doc(rows@)),
        !matches_ci(format@, csv_name()) && !matches_ci(format@, json_name()) ==> (r matches Err(
            e,
        ) && e@ == "Unsupported export format: "@ + format@),
{
    match parse_format(format) {
        Ok(ExportFormat::Csv) => Ok(render_csv(columns, rows)),
        Ok(ExportFormat::Json) => Ok(render_json(rows)),
        Err(e) => Err(e),
    }
}

} // verus!

verus! {

/// A CSV export begins with the UTF-8 byte-order mark, immediately
/// followed by the encoded header record of the column names in schema
/// order.
pub proof fn lemma_csv_doc_layout(cols: Seq<Seq<char>>, rms: Seq<Seq<(Seq<char>, ValModel)>>)
    ensures
        csv_doc(cols, rms).len() >= 3 + csv_record_bytes(cols).len(),
        csv_doc(cols, rms).subrange(0, 3) == bom(),
        csv_doc(cols, rms).subrange(3, 3 + csv_record_bytes(cols).len() as int)
            == csv_record_bytes(cols),
{
    assert(csv_doc(cols, rms).subrange(0, 3) =~= bom());
    assert(csv_doc(cols, rms).subrange(3, 3 + csv_record_bytes(cols).len() as int)
        =~= csv_record_bytes(cols));
}

/// The name "xml" is not a recognized export format, under any ASCII
/// casing: an export so named fails before anything is rendered.
pub proof fn lemma_xml_format_rejected(s: Seq<char>)
    requires
        matches_ci(s, seq!['x', 'm', 'l']),
    ensures
        !matches_ci(s, csv_name()),
        !matches_ci(s, json_name()),
{
    assert(ci_eq(s[0], 'x'));
    assert(!ci_eq(s[0], 'c'));
}

/// An unrecognized export format name fails, whatever the window holds:
/// every outcome `render_export` can produce for a name that matches
/// neither recognized format is the unsupported-format error, naming that
/// format. A caller that creates or truncates the destination only on
/// `Ok` therefore leaves it untouched.
pub proof fn lemma_unsupported_format_export(
    format: String,
    columns: Vec<String>,
    rows: Vec<Vec<(String, Value)>>,
    r: Result<Vec<u8>, String>,
)
    requires
        !matches_ci(format@, csv_name()),
        !matches_ci(format@, json_name()),
        call_ensures(render_export, (&format, &columns, &rows), r),
    ensures
        r matches Err(e) && e@ == "Unsupported export format: "@ + format@,
{
}

/// Each row object of the JSON export document is exactly the JSON form
/// that `row_to_json` gives the same row; the flat CSV cells instead
/// replace nested record, list and map values by fixed placeholder
/// tokens.
pub proof fn lemma_json_export_matches_row_json(rows: Seq<Vec<(String, Value)>>, i: int)
    requires
        0 <= i < rows.len(),
    ensures
        rows_jarr(rows)[i] == JVal::JObj(group_json(vgroup_model(rows[i]@))),
        forall|m: ValModel| (m is MGroup) ==> text_of(m) == "[GROUP]"@,
        forall|m: ValModel| (m is MList) ==> text_of(m) == "[LIST]"@,
        forall|m: ValModel| (m is MMap) ==> text_of(m) == "[MAP]"@,
{
}

} // verus!
