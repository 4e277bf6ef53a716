//! Decimal text for integers, with the zero-padded forms used by
//! time-of-day rendering.

use vstd::prelude::*;

verus! {

/// The decimal digit character for `d` (`d < 10`).
pub open spec fn dec_digit(d: nat) -> char {
    if d == 0 {
        '0'
    } else if d == 1 {
        '1'
    } else if d == 2 {
        '2'
    } else if d == 3 {
        '3'
    } else if d == 4 {
        '4'
    } else if d == 5 {
        '5'
    } else if d == 6 {
        '6'
    } else if d == 7 {
        '7'
    } else if d == 8 {
        '8'
    } else {
        '9'
    }
}

/// Decimal text of a non-negative integer, most significant digit first.
pub open spec fn u64_dec(n: nat) -> Seq<char>
    decreases n,
{
    if n < 10 {
        seq![dec_digit(n)]
    } else {
        u64_dec(n / 10).push(dec_digit(n % 10))
    }
}

/// Decimal text of a signed integer: a minus sign before the magnitude.
pub open spec fn i64_dec(n: int) -> Seq<char> {
    if n < 0 {
        seq!['-'] + u64_dec((-n) as nat)
    } else {
        u64_dec(n as nat)
    }
}

/// `n` zero-padded to at least two digits (`n < 100`).
pub open spec fn pad2(n: nat) -> Seq<char> {
    if n < 10 {
        seq!['0'] + u64_dec(n)
    } else {
        u64_dec(n)
    }
}

/// `n` zero-padded to at least three digits (`n < 1000`).
pub open spec fn pad3(n: nat) -> Seq<char> {
    if n < 10 {
        seq!['0', '0'] + u64_dec(n)
    } else if n < 100 {
        seq!['0'] + u64_dec(n)
    } else {
        u64_dec(n)
    }
}

/// `n` zero-padded to at least six digits (`n < 1000000`).
pub open spec fn pad6(n: nat) -> Seq<char> {
    if n < 10 {
        seq!['0', '0', '0', '0', '0'] + u64_dec(n)
    } else if n < 100 {
        seq!['0', '0', '0', '0'] + u64_dec(n)
    } else if n < 1000 {
        seq!['0', '0', '0'] + u64_dec(n)
    } else if n < 10000 {
        seq!['0', '0'] + u64_dec(n)
    } else if n < 100000 {
        seq!['0'] + u64_dec(n)
    } else {
        u64_dec(n)
    }
}

/// Text of a boolean, as it prints.
pub open spec fn bool_text(b: bool) -> Seq<char> {
    if b {
        "true"@
    } else {
        "false"@
    }
}

/// Appends the text of a boolean.
pub fn push_bool_text(b: bool, out: &mut Vec<char>)
    ensures
        final(out)@ == old(out)@ + bool_text(b),
{
    if b {
        push_str_chars("true", out);
    } else {
        push_str_chars("false", out);
    }
}

/// The character for one digit.
fn digit_char(d: u64) -> (c: char)
    requires
        d < 10,
    ensures
        c == dec_digit(d as nat),
{
    if d == 0 {
        '0'
    } else if d == 1 {
        '1'
    } else if d == 2 {
        '2'
    } else if d == 3 {
        '3'
    } else if d == 4 {
        '4'
    } else if d == 5 {
        '5'
    } else if d == 6 {
        '6'
    } else if d == 7 {
        '7'
    } else if d == 8 {
        '8'
    } else {
        '9'
    }
}

/// Appends the decimal text of `n` to `out`.
pub fn push_u64_dec(n: u64, out: &mut Vec<char>)
    ensures
        final(out)@ == old(out)@ + u64_dec(n as nat),
    decreases n,
{
    if n < 10 {
        let c = digit_char(n);
        out.push(c);
        assert(out@ =~= old(out)@ + u64_dec(n as nat));
    } else {
        push_u64_dec(n / 10, out);
        let c = digit_char(n % 10);
        out.push(c);
        assert(out@ =~= old(out)@ + u64_dec(n as nat));
    }
}

/// Appends the decimal text of a signed integer to `out`.
pub fn push_i64_dec(n: i64, out: &mut Vec<char>)
    ensures
        final(out)@ == old(out)@ + i64_dec(n as int),
{
    if n < 0 {
        out.push('-');
        let m: u64 = if n == i64::MIN {
            9223372036854775808u64
        } else {
            (-n) as u64
        };
        assert(m as nat == (-(n as int)) as nat);
        push_u64_dec(m, out);
        assert(out@ =~= old(out)@ + i64_dec(n as int));
    } else {
        push_u64_dec(n as u64, out);
        assert(out@ =~= old(out)@ + i64_dec(n as int));
    }
}

/// Appends `n` zero-padded to two digits.
pub fn push_pad2(n: u64, out: &mut Vec<char>)
    requires
        n < 100,
    ensures
        final(out)@ == old(out)@ + pad2(n as nat),
{
    if n < 10 {
        out.push('0');
    }
    push_u64_dec(n, out);
    assert(out@ =~= old(out)@ + pad2(n as nat));
}

/// Appends `n` zero-padded to three digits.
pub fn push_pad3(n: u64, out: &mut Vec<char>)
    requires
        n < 1000,
    ensures
        final(out)@ == old(out)@ + pad3(n as nat),
{
    if n < 10 {
        out.push('0');
        out.push('0');
    } else if n < 100 {
        out.push('0');
    }
    push_u64_dec(n, out);
    assert(out@ =~= old(out)@ + pad3(n as nat));
}

/// Appends `n` zero-padded to six digits.
pub fn push_pad6(n: u64, out: &mut Vec<char>)
    requires
        n < 1000000,
    ensures
        final(out)@ == old(out)@ + pad6(n as nat),
{
    if n < 10 {
        out.push('0');
        out.push('0');
        out.push('0');
        out.push('0');
        out.push('0');
    } else if n < 100 {
        out.push('0');
        out.push('0');
        out.push('0');
        out.push('0');
    } else if n < 1000 {
        out.push('0');
        out.push('0');
        out.push('0');
    } else if n < 10000 {
        out.push('0');
        out.push('0');
    } else if n < 100000 {
        out.push('0');
    }
    push_u64_dec(n, out);
    assert(out@ =~= old(out)@ + pad6(n as nat));
}

/// Appends every character of `s` to `out`.
pub fn push_str_chars(s: &str, out: &mut Vec<char>)
    ensures
        final(out)@ == old(out)@ + s@,
{
    let n = s.unicode_len();
    let mut i: usize = 0;
    while i < n
        invariant
            n == s@.len(),
            i <= n,
            out@ == old(out)@ + s@.subrange(0, i as int),
        decreases n - i,
    {
        let c = s.get_char(i);
        out.push(c);
        assert(out@ =~= old(out)@ + s@.subrange(0, (i + 1) as int));
        i = i + 1;
    }
    assert(s@.subrange(0, n as int) =~= s@);
}

} // verus!
