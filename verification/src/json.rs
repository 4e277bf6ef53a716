//! JSON-like values and their text forms.
//!
//! `JsonValue` is the executable result of the value codec; `JVal` is its
//! mathematical model. Objects keep insertion order; inserting under an
//! existing key overwrites that entry's value in place, which is how
//! key collisions in converted maps behave. The compact and pretty text
//! forms are specified exactly, including string escaping.

use vstd::prelude::*;

use crate::text::{bool_text, i64_dec, push_bool_text, push_i64_dec, push_str_chars, push_u64_dec};

verus! {

/// A JSON-like value. Numbers keep the arm they were produced from; a
/// float is carried as its already-rendered JSON number text.
#[derive(PartialEq, Eq, Debug)]
pub enum JsonValue {
    Null,
    Bool(bool),
    IntNum(i64),
    UIntNum(u64),
    FloatNum(String),
    Str(String),
    Arr(Vec<JsonValue>),
    Obj(Vec<(String, JsonValue)>),
}

/// The mathematical model of a JSON value. Integer arms collapse to one
/// unbounded integer; a float is its JSON number text.
pub enum JVal {
    JNull,
    JBool(bool),
    JInt(int),
    JFloat(Seq<char>),
    JStr(Seq<char>),
    JArr(Seq<JVal>),
    JObj(Seq<(Seq<char>, JVal)>),
}

/// The model of an executable JSON value.
pub open spec fn jval_of(j: JsonValue) -> JVal
    decreases j,
    via jval_of_dec
{
    match j {
        JsonValue::Null => JVal::JNull,
        JsonValue::Bool(b) => JVal::JBool(b),
        JsonValue::IntNum(i) => JVal::JInt(i as int),
        JsonValue::UIntNum(u) => JVal::JInt(u as int),
        JsonValue::FloatNum(t) => JVal::JFloat(t@),
        JsonValue::Str(s) => JVal::JStr(s@),
        JsonValue::Arr(a) => JVal::JArr(jval_seq(a@)),
        JsonValue::Obj(o) => JVal::JObj(jobj_of(o@)),
    }
}

#[via_fn]
proof fn jval_of_dec(j: JsonValue) {
    match j {
        JsonValue::Arr(a) => {
            assert(decreases_to!(j => a));
            assert(decreases_to!(a => a@));
        },
        JsonValue::Obj(o) => {
            assert(decreases_to!(j => o));
            assert(decreases_to!(o => o@));
        },
        _ => {},
    }
}

/// The model of a sequence of JSON values. The range guard grounds the
/// recursion; out-of-range indices are never evaluated.
pub open spec fn jval_seq(a: Seq<JsonValue>) -> Seq<JVal>
    decreases a,
{
    Seq::new(
        a.len(),
        |i: int|
            if 0 <= i < a.len() {
                jval_of(a[i])
            } else {
                JVal::JNull
            },
    )
}

/// The model of one name/value pair.
pub open spec fn jpair_of(p: (String, JsonValue)) -> (Seq<char>, JVal)
    decreases p,
{
    (p.0@, jval_of(p.1))
}

/// The model of a sequence of name/value pairs. The range guard grounds
/// the recursion; out-of-range indices are never evaluated.
pub open spec fn jobj_of(o: Seq<(String, JsonValue)>) -> Seq<(Seq<char>, JVal)>
    decreases o,
{
    Seq::new(
        o.len(),
        |i: int|
            if 0 <= i < o.len() {
                jpair_of(o[i])
            } else {
                (Seq::<char>::empty(), JVal::JNull)
            },
    )
}

/// Insertion into an ordered object: an existing entry under the same key
/// has its value overwritten in place, otherwise the pair is appended.
pub open spec fn obj_insert(fields: Seq<(Seq<char>, JVal)>, k: Seq<char>, v: JVal) -> Seq<
    (Seq<char>, JVal),
>
    decreases fields.len(),
{
    if fields.len() == 0 {
        seq![(k, v)]
    } else if fields[0].0 == k {
        seq![(k, v)] + fields.drop_first()
    } else {
        seq![fields[0]] + obj_insert(fields.drop_first(), k, v)
    }
}

proof fn lemma_obj_insert_found(fields: Seq<(Seq<char>, JVal)>, k: Seq<char>, v: JVal, i: int)
    requires
        0 <= i < fields.len(),
        fields[i].0 == k,
        forall|j: int| 0 <= j < i ==> (#[trigger] fields[j]).0 != k,
    ensures
        obj_insert(fields, k, v) == fields.update(i, (k, v)),
    decreases i,
{
    if i == 0 {
        assert(obj_insert(fields, k, v) =~= fields.update(0, (k, v)));
    } else {
        assert(fields.drop_first()[i - 1].0 == k);
        assert(forall|j: int|
            0 <= j < i - 1 ==> (#[trigger] fields.drop_first()[j]).0 == fields[j + 1].0);
        lemma_obj_insert_found(fields.drop_first(), k, v, i - 1);
        assert(obj_insert(fields, k, v) =~= fields.update(i, (k, v)));
    }
}

proof fn lemma_obj_insert_missing(fields: Seq<(Seq<char>, JVal)>, k: Seq<char>, v: JVal)
    requires
        forall|j: int| 0 <= j < fields.len() ==> (#[trigger] fields[j]).0 != k,
    ensures
        obj_insert(fields, k, v) == fields.push((k, v)),
    decreases fields.len(),
{
    if fields.len() == 0 {
        assert(obj_insert(fields, k, v) =~= fields.push((k, v)));
    } else {
        assert(forall|j: int|
            0 <= j < fields.drop_first().len() ==> (#[trigger] fields.drop_first()[j]).0
                == fields[j + 1].0);
        lemma_obj_insert_missing(fields.drop_first(), k, v);
        assert(obj_insert(fields, k, v) =~= fields.push((k, v)));
    }
}

/// Inserts a pair into an executable object with the overwrite-in-place
/// semantics of `obj_insert`.
pub fn obj_set(obj: &mut Vec<(String, JsonValue)>, key: String, val: JsonValue)
    ensures
        jobj_of(final(obj)@) == obj_insert(jobj_of(old(obj)@), key@, jval_of(val)),
{
    let n = obj.len();
    let mut i: usize = 0;
    while i < n
        invariant
            n == obj@.len(),
            i <= n,
            obj@ == old(obj)@,
            forall|j: int| 0 <= j < i ==> (#[trigger] jobj_of(obj@)[j]).0 != key@,
        decreases n - i,
    {
        if obj[i].0 == key {
            assert(jobj_of(obj@)[i as int].0 == key@);
            obj.set(i, (key, val));
            proof {
                lemma_obj_insert_found(jobj_of(old(obj)@), key@, jval_of(val), i as int);
                assert(jobj_of(final(obj)@) =~= jobj_of(old(obj)@).update(
                    i as int,
                    (key@, jval_of(val)),
                ));
            }
            return ;
        }
        assert(jobj_of(obj@)[i as int].0 != key@);
        i = i + 1;
    }
    obj.push((key, val));
    proof {
        lemma_obj_insert_missing(jobj_of(old(obj)@), key@, jval_of(val));
        assert(jobj_of(final(obj)@) =~= jobj_of(old(obj)@).push((key@, jval_of(val))));
    }
}

/// The lowercase hexadecimal digit for `n` (`n < 16`).
pub open spec fn hex_digit(n: nat) -> char {
    if n < 10 {
        crate::text::dec_digit(n)
    } else if n == 10 {
        'a'
    } else if n == 11 {
        'b'
    } else if n == 12 {
        'c'
    } else if n == 13 {
        'd'
    } else if n == 14 {
        'e'
    } else {
        'f'
    }
}

/// The escaped form of one character inside a JSON string: quote and
/// backslash escape themselves, the named control characters use their
/// short escapes, other control characters use a `\u00..` escape, and
/// everything else stands as itself.
pub open spec fn esc_char(c: char) -> Seq<char> {
    if c == '"' {
        seq!['\\', '"']
    } else if c == '\\' {
        seq!['\\', '\\']
    } else if c == '\u{08}' {
        seq!['\\', 'b']
    } else if c == '\t' {
        seq!['\\', 't']
    } else if c == '\n' {
        seq!['\\', 'n']
    } else if c == '\u{0c}' {
        seq!['\\', 'f']
    } else if c == '\r' {
        seq!['\\', 'r']
    } else if (c as u32) < 0x20 {
        seq!['\\', 'u', '0', '0', hex_digit(((c as u32) >> 4) as nat), hex_digit(
            ((c as u32) & 0xf) as nat,
        )]
    } else {
        seq![c]
    }
}

/// The escaped form of a string's characters.
pub open spec fn esc(s: Seq<char>) -> Seq<char>
    decreases s.len(),
{
    if s.len() == 0 {
        Seq::empty()
    } else {
        esc(s.drop_last()) + esc_char(s.last())
    }
}

/// The compact text of a JSON value, as a default serializer writes it.
pub open spec fn jtext(v: JVal) -> Seq<char>
    decreases v,
{
    match v {
        JVal::JNull => "null"@,
        JVal::JBool(b) => bool_text(b),
        JVal::JInt(i) => i64_dec(i),
        JVal::JFloat(t) => t,
        JVal::JStr(s) => seq!['"'] + esc(s) + seq!['"'],
        JVal::JArr(items) => seq!['['] + jtext_items(items) + seq![']'],
        JVal::JObj(fields) => seq!['{'] + jtext_fields(fields) + seq!['}'],
    }
}

/// The compact text of array items, joined by commas.
pub open spec fn jtext_items(items: Seq<JVal>) -> Seq<char>
    decreases items,
{
    if items.len() == 0 {
        Seq::empty()
    } else {
        jtext_items(items.drop_last()) + (if items.len() > 1 {
            seq![',']
        } else {
            Seq::<char>::empty()
        }) + jtext(items.last())
    }
}

/// The compact text of object fields, joined by commas.
pub open spec fn jtext_fields(fields: Seq<(Seq<char>, JVal)>) -> Seq<char>
    decreases fields,
{
    if fields.len() == 0 {
        Seq::empty()
    } else {
        jtext_fields(fields.drop_last()) + (if fields.len() > 1 {
            seq![',']
        } else {
            Seq::<char>::empty()
        }) + seq!['"'] + esc(fields.last().0) + seq!['"', ':'] + jtext(fields.last().1)
    }
}

/// The pretty text of a JSON value: two-space indentation, one item per
/// line, `": "` after object keys. `ind` is the current line indentation.
pub open spec fn jpretty(v: JVal, ind: Seq<char>) -> Seq<char>
    decreases v,
{
    match v {
        JVal::JArr(items) => if items.len() == 0 {
            seq!['[', ']']
        } else {
            seq!['['] + jpretty_items(items, ind + seq![' ', ' ']) + seq!['\n'] + ind + seq![']']
        },
        JVal::JObj(fields) => if fields.len() == 0 {
            seq!['{', '}']
        } else {
            seq!['{'] + jpretty_fields(fields, ind + seq![' ', ' ']) + seq!['\n'] + ind + seq!['}']
        },
        _ => jtext(v),
    }
}

/// The pretty text of array items: each on its own indented line, joined
/// by commas.
pub open spec fn jpretty_items(items: Seq<JVal>, ind: Seq<char>) -> Seq<char>
    decreases items,
{
    if items.len() == 0 {
        Seq::empty()
    } else {
        jpretty_items(items.drop_last(), ind) + (if items.len() > 1 {
            seq![',']
        } else {
            Seq::<char>::empty()
        }) + seq!['\n'] + ind + jpretty(items.last(), ind)
    }
}

/// The pretty text of object fields: each on its own indented line as
/// `"key": value`, joined by commas.
pub open spec fn jpretty_fields(fields: Seq<(Seq<char>, JVal)>, ind: Seq<char>) -> Seq<char>
    decreases fields,
{
    if fields.len() == 0 {
        Seq::empty()
    } else {
        jpretty_fields(fields.drop_last(), ind) + (if fields.len() > 1 {
            seq![',']
        } else {
            Seq::<char>::empty()
        }) + seq!['\n'] + ind + seq!['"'] + esc(fields.last().0) + seq!['"', ':', ' '] + jpretty(
            fields.last().1,
            ind,
        )
    }
}

/// The lowercase hexadecimal digit character for `n`.
fn hex_digit_char(n: u32) -> (c: char)
    requires
        n < 16,
    ensures
        c == hex_digit(n as nat),
{
    if n == 0 {
        '0'
    } else if n == 1 {
        '1'
    } else if n == 2 {
        '2'
    } else if n == 3 {
        '3'
    } else if n == 4 {
        '4'
    } else if n == 5 {
        '5'
    } else if n == 6 {
        '6'
    } else if n == 7 {
        '7'
    } else if n == 8 {
        '8'
    } else if n == 9 {
        '9'
    } else if n == 10 {
        'a'
    } else if n == 11 {
        'b'
    } else if n == 12 {
        'c'
    } else if n == 13 {
        'd'
    } else if n == 14 {
        'e'
    } else {
        'f'
    }
}

/// Appends the escaped form of one character.
fn push_esc_char(c: char, out: &mut Vec<char>)
    ensures
        final(out)@ == old(out)@ + esc_char(c),
{
    if c == '"' {
        out.push('\\');
        out.push('"');
    } else if c == '\\' {
        out.push('\\');
        out.push('\\');
    } else if c == '\u{08}' {
        out.push('\\');
        out.push('b');
    } else if c == '\t' {
        out.push('\\');
        out.push('t');
    } else if c == '\n' {
        out.push('\\');
        out.push('n');
    } else if c == '\u{0c}' {
        out.push('\\');
        out.push('f');
    } else if c == '\r' {
        out.push('\\');
        out.push('r');
    } else {
        let u = c as u32;
        if u < 0x20 {
            assert((u >> 4) < 16 && (u & 0xf) < 16) by (bit_vector)
                requires
                    u < 0x20,
            ;
            out.push('\\');
            out.push('u');
            out.push('0');
            out.push('0');
            let hi = hex_digit_char(u >> 4);
            out.push(hi);
            let lo = hex_digit_char(u & 0xf);
            out.push(lo);
        } else {
            out.push(c);
        }
    }
    assert(out@ =~= old(out)@ + esc_char(c));
}

/// Appends every character of `src` to `out`.
fn push_char_seq(src: &Vec<char>, out: &mut Vec<char>)
    ensures
        final(out)@ == old(out)@ + src@,
{
    let n = src.len();
    let mut i: usize = 0;
    while i < n
        invariant
            n == src@.len(),
            i <= n,
            out@ == old(out)@ + src@.subrange(0, i as int),
        decreases n - i,
    {
        out.push(src[i]);
        assert(out@ =~= old(out)@ + src@.subrange(0, (i + 1) as int));
        i = i + 1;
    }
    assert(src@.subrange(0, n as int) =~= src@);
}

/// Appends the escaped form of a string.
pub fn push_escaped(s: &str, out: &mut Vec<char>)
    ensures
        final(out)@ == old(out)@ + esc(s@),
{
    let n = s.unicode_len();
    let mut i: usize = 0;
    while i < n
        invariant
            n == s@.len(),
            i <= n,
            out@ == old(out)@ + esc(s@.subrange(0, i as int)),
        decreases n - i,
    {
        let c = s.get_char(i);
        push_esc_char(c, out);
        proof {
            let pre = s@.subrange(0, (i + 1) as int);
            assert(pre.drop_last() =~= s@.subrange(0, i as int));
            assert(pre.last() == s@[i as int]);
            assert(out@ =~= old(out)@ + esc(pre));
        }
        i = i + 1;
    }
    assert(s@.subrange(0, n as int) =~= s@);
}

} // verus!

verus! {

/// Appends the compact text of a JSON value.
#[verifier::loop_isolation(false)]
#[verifier::rlimit(100)]
pub fn write_json(v: &JsonValue, out: &mut Vec<char>)
    ensures
        final(out)@ == old(out)@ + jtext(jval_of(*v)),
    decreases *v,
{
    match v {
        JsonValue::Null => push_str_chars("null", out),
        JsonValue::Bool(b) => push_bool_text(*b, out),
        JsonValue::IntNum(i) => push_i64_dec(*i, out),
        JsonValue::UIntNum(u) => {
            push_u64_dec(*u, out);
        },
        JsonValue::FloatNum(t) => push_str_chars(t.as_str(), out),
        JsonValue::Str(s) => {
            out.push('"');
            push_escaped(s.as_str(), out);
            out.push('"');
            assert(out@ =~= old(out)@ + jtext(jval_of(*v)));
        },
        JsonValue::Arr(items) => {
            proof {
                assert(decreases_to!(*v => *items));
                assert(decreases_to!(*items => items@));
            }
            out.push('[');
            let ghost m = jval_seq(items@);
            let n = items.len();
            let mut i: usize = 0;
            while i < n
                invariant
                    i <= n,
                    out@ == old(out)@ + seq!['['] + jtext_items(m.take(i as int)),
                decreases n - i,
            {
                if i > 0 {
                    out.push(',');
                }
                proof {
                    assert(decreases_to!(items@ => items@[i as int]));
                }
                write_json(&items[i], out);
                proof {
                    let pre = m.take((i + 1) as int);
                    assert(pre.drop_last() =~= m.take(i as int));
                    assert(pre.last() == jval_of(items@[i as int]));
                    assert(out@ =~= old(out)@ + seq!['['] + jtext_items(pre));
                }
                i = i + 1;
            }
            assert(m.take(n as int) =~= m);
            out.push(']');
            assert(out@ =~= old(out)@ + jtext(jval_of(*v)));
        },
        JsonValue::Obj(fields) => {
            proof {
                assert(decreases_to!(*v => *fields));
                assert(decreases_to!(*fields => fields@));
            }
            out.push('{');
            let ghost m = jobj_of(fields@);
            let n = fields.len();
            let mut i: usize = 0;
            while i < n
                invariant
                    i <= n,
                    out@ == old(out)@ + seq!['{'] + jtext_fields(m.take(i as int)),
                decreases n - i,
            {
                if i > 0 {
                    out.push(',');
                }
                out.push('"');
                push_escaped(fields[i].0.as_str(), out);
                out.push('"');
                out.push(':');
                proof {
                    assert(decreases_to!(fields@ => fields@[i as int]));
                    assert(decreases_to!(fields@[i as int] => fields@[i as int].1));
                }
                write_json(&fields[i].1, out);
                proof {
                    let pre = m.take((i + 1) as int);
                    assert(pre.drop_last() =~= m.take(i as int));
                    assert(pre.last() == jpair_of(fields@[i as int]));
                    assert(out@ =~= old(out)@ + seq!['{'] + jtext_fields(pre));
                }
                i = i + 1;
            }
            assert(m.take(n as int) =~= m);
            out.push('}');
            assert(out@ =~= old(out)@ + jtext(jval_of(*v)));
        },
    }
}

/// Appends the pretty text of a JSON value, with `ind` as the current
/// line indentation.
#[verifier::loop_isolation(false)]
#[verifier::rlimit(100)]
pub fn write_json_pretty(v: &JsonValue, ind: &Vec<char>, out: &mut Vec<char>)
    ensures
        final(out)@ == old(out)@ + jpretty(jval_of(*v), ind@),
    decreases *v,
{
    match v {
        JsonValue::Arr(items) => {
            proof {
                assert(decreases_to!(*v => *items));
                assert(decreases_to!(*items => items@));
            }
            write_pretty_arr(items, ind, out);
        },
        JsonValue::Obj(fields) => {
            proof {
                assert(decreases_to!(*v => *fields));
                assert(decreases_to!(*fields => fields@));
            }
            write_pretty_obj(fields, ind, out);
        },
        _ => {
            write_json(v, out);
            assert(jpretty(jval_of(*v), ind@) == jtext(jval_of(*v)));
        },
    }
}

/// Appends the pretty text of a JSON array.
#[verifier::loop_isolation(false)]
#[verifier::rlimit(100)]
fn write_pretty_arr(items: &Vec<JsonValue>, ind: &Vec<char>, out: &mut Vec<char>)
    ensures
        final(out)@ == old(out)@ + jpretty(JVal::JArr(jval_seq(items@)), ind@),
    decreases items@,
{
    if items.len() == 0 {
        out.push('[');
        out.push(']');
        assert(out@ =~= old(out)@ + jpretty(JVal::JArr(jval_seq(items@)), ind@));
    } else {
        let mut child = ind.clone();
        assert(child@ =~= ind@);
        child.push(' ');
        child.push(' ');
        assert(child@ =~= ind@ + seq![' ', ' ']);
        out.push('[');
        let ghost m = jval_seq(items@);
        let n = items.len();
        let mut i: usize = 0;
        while i < n
            invariant
                i <= n,
                child@ == ind@ + seq![' ', ' '],
                out@ == old(out)@ + seq!['['] + jpretty_items(m.take(i as int), child@),
            decreases n - i,
        {
            if i > 0 {
                out.push(',');
            }
            out.push('\n');
            push_char_seq(&child, out);
            proof {
                assert(decreases_to!(items@ => items@[i as int]));
            }
            write_json_pretty(&items[i], &child, out);
            proof {
                let pre = m.take((i + 1) as int);
                assert(pre.drop_last() =~= m.take(i as int));
                assert(pre.last() == jval_of(items@[i as int]));
                assert(out@ =~= old(out)@ + seq!['['] + jpretty_items(pre, child@));
            }
            i = i + 1;
        }
        assert(m.take(n as int) =~= m);
        out.push('\n');
        push_char_seq(ind, out);
        out.push(']');
        assert(out@ =~= old(out)@ + jpretty(JVal::JArr(jval_seq(items@)), ind@));
    }
}

/// Appends the pretty text of a JSON object.
#[verifier::loop_isolation(false)]
#[verifier::rlimit(100)]
fn write_pretty_obj(fields: &Vec<(String, JsonValue)>, ind: &Vec<char>, out: &mut Vec<char>)
    ensures
        final(out)@ == old(out)@ + jpretty(JVal::JObj(jobj_of(fields@)), ind@),
    decreases fields@,
{
    if fields.len() == 0 {
        out.push('{');
        out.push('}');
        assert(out@ =~= old(out)@ + jpretty(JVal::JObj(jobj_of(fields@)), ind@));
    } else {
        let mut child = ind.clone();
        assert(child@ =~= ind@);
        child.push(' ');
        child.push(' ');
        assert(child@ =~= ind@ + seq![' ', ' ']);
        out.push('{');
        let ghost m = jobj_of(fields@);
        let n = fields.len();
        let mut i: usize = 0;
        while i < n
            invariant
                i <= n,
                child@ == ind@ + seq![' ', ' '],
                out@ == old(out)@ + seq!['{'] + jpretty_fields(m.take(i as int), child@),
            decreases n - i,
        {
            if i > 0 {
                out.push(',');
            }
            out.push('\n');
            push_char_seq(&child, out);
            out.push('"');
            push_escaped(fields[i].0.as_str(), out);
            out.push('"');
            out.push(':');
            out.push(' ');
            proof {
                assert(decreases_to!(fields@ => fields@[i as int]));
                assert(decreases_to!(fields@[i as int] => fields@[i as int].1));
            }
            write_json_pretty(&fields[i].1, &child, out);
            proof {
                let pre = m.take((i + 1) as int);
                assert(pre.drop_last() =~= m.take(i as int));
                assert(pre.last() == jpair_of(fields@[i as int]));
                assert(out@ =~= old(out)@ + seq!['{'] + jpretty_fields(pre, child@));
            }
            i = i + 1;
        }
        assert(m.take(n as int) =~= m);
        out.push('\n');
        push_char_seq(ind, out);
        out.push('}');
        assert(out@ =~= old(out)@ + jpretty(JVal::JObj(jobj_of(fields@)), ind@));
    }
}

} // verus!
