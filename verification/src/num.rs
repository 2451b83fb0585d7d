//! Exact decimal rendering of integers.
//!
//! Identifiers of the service are 63-bit integers; they must render without
//! any loss of precision, so the crate carries its own verified decimal
//! formatter instead of going through floating point.

use vstd::prelude::*;

verus! {

/// Relies on `String::push`: appends exactly one character.
#[verifier::external_body]
pub fn push_char(s: &mut String, c: char)
    ensures
        final(s)@ == old(s)@.push(c),
{
    s.push(c);
}

pub open spec fn spec_digit(d: nat) -> char {
    if d == 0 {
        '0'
    } else if d == 1 {
        '1'
    } else if d == 2 {
        '2'
    } else if d == 3 {
        '3'
    } else if d == 4 {
        '4'
    } else if d == 5 {
        '5'
    } else if d == 6 {
        '6'
    } else if d == 7 {
        '7'
    } else if d == 8 {
        '8'
    } else {
        '9'
    }
}

/// The decimal digits of `n`, most significant first, no leading zero.
pub open spec fn dec_u64(n: nat) -> Seq<char>
    decreases n,
{
    if n < 10 {
        seq![spec_digit(n)]
    } else {
        dec_u64(n / 10).push(spec_digit(n % 10))
    }
}

/// The canonical decimal text of `i`: a minus sign for negative values,
/// then the digits of the magnitude.
pub open spec fn dec_i64(i: int) -> Seq<char> {
    if i < 0 {
        seq!['-'] + dec_u64((-i) as nat)
    } else {
        dec_u64(i as nat)
    }
}

fn digit_char(d: u64) -> (c: char)
    requires
        d < 10,
    ensures
        c == spec_digit(d as nat),
{
    if d == 0 {
        '0'
    } else if d == 1 {
        '1'
    } else if d == 2 {
        '2'
    } else if d == 3 {
        '3'
    } else if d == 4 {
        '4'
    } else if d == 5 {
        '5'
    } else if d == 6 {
        '6'
    } else if d == 7 {
        '7'
    } else if d == 8 {
        '8'
    } else {
        '9'
    }
}

pub fn append_u64(out: &mut String, n: u64)
    ensures
        final(out)@ == old(out)@ + dec_u64(n as nat),
    decreases n,
{
    if n >= 10 {
        append_u64(out, n / 10);
        push_char(out, digit_char(n % 10));
        assert(out@ =~= old(out)@ + dec_u64(n as nat));
    } else {
        push_char(out, digit_char(n));
        assert(out@ =~= old(out)@ + dec_u64(n as nat));
    }
}

pub fn append_i64(out: &mut String, i: i64)
    ensures
        final(out)@ == old(out)@ + dec_i64(i as int),
{
    if i < 0 {
        push_char(out, '-');
        let m: u64 = if i == i64::MIN {
            9223372036854775808u64
        } else {
            (-i) as u64
        };
        assert(m as nat == (-(i as int)) as nat);
        append_u64(out, m);
        assert(out@ =~= old(out)@ + dec_i64(i as int));
    } else {
        append_u64(out, i as u64);
    }
}

/// The canonical decimal text of `i` as an owned string.
pub fn i64_text(i: i64) -> (r: String)
    ensures
        r@ == dec_i64(i as int),
{
    let mut s = String::new();
    append_i64(&mut s, i);
    assert(s@ =~= dec_i64(i as int));
    s
}

} // verus!
