use vstd::prelude::*;

verus! {

/// Relies on `String::push`: appends the given character to the end of
/// the string. `vstd` gives this method no specification.
pub assume_specification[ String::push ](s: &mut String, ch: char)
    ensures
        final(s)@ == old(s)@ + seq![ch],
;

/// The character for one decimal digit.
pub open spec fn digit_char(d: int) -> char {
    if d == 0 {
        '0'
    } else if d == 1 {
        '1'
    } else if d == 2 {
        '2'
    } else if d == 3 {
        '3'
    } else if d == 4 {
        '4'
    } else if d == 5 {
        '5'
    } else if d == 6 {
        '6'
    } else if d == 7 {
        '7'
    } else if d == 8 {
        '8'
    } else {
        '9'
    }
}

/// The decimal rendering of a non-negative integer, most significant
/// digit first, without leading zeros (except for zero itself).
pub open spec fn dec_digits(n: nat) -> Seq<char>
    decreases n,
{
    if n < 10 {
        seq![digit_char(n as int)]
    } else {
        dec_digits(n / 10) + seq![digit_char((n % 10) as int)]
    }
}

/// The decimal rendering of an integer: a minus sign for negative
/// values, then the digits of the magnitude.
pub open spec fn int_text(v: int) -> Seq<char> {
    if v < 0 {
        "-"@ + dec_digits((-v) as nat)
    } else {
        dec_digits(v as nat)
    }
}

/// The rendering of a boolean.
pub open spec fn bool_text(b: bool) -> Seq<char> {
    if b {
        "true"@
    } else {
        "false"@
    }
}

fn digit_of(d: u64) -> (c: char)
    requires
        d < 10,
    ensures
        c == digit_char(d as int),
{
    if d == 0 {
        '0'
    } else if d == 1 {
        '1'
    } else if d == 2 {
        '2'
    } else if d == 3 {
        '3'
    } else if d == 4 {
        '4'
    } else if d == 5 {
        '5'
    } else if d == 6 {
        '6'
    } else if d == 7 {
        '7'
    } else if d == 8 {
        '8'
    } else {
        '9'
    }
}

/// Appends the decimal rendering of `n`.
pub fn push_u64(out: &mut String, n: u64)
    ensures
        final(out)@ == old(out)@ + dec_digits(n as nat),
    decreases n,
{
    if n < 10 {
        let c = digit_of(n);
        out.push(c);
    } else {
        push_u64(out, n / 10);
        let c = digit_of(n % 10);
        out.push(c);
    }
}

/// Appends the decimal rendering of `v`, sign included.
pub fn push_i64(out: &mut String, v: i64)
    ensures
        final(out)@ == old(out)@ + int_text(v as int),
{
    if v < 0 {
        out.append("-");
        let m: i128 = -(v as i128);
        assert(0 < m <= u64::MAX);
        push_u64(out, m as u64);
    } else {
        push_u64(out, v as u64);
    }
}

/// Appends the rendering of `b`.
pub fn push_bool(out: &mut String, b: bool)
    ensures
        final(out)@ == old(out)@ + bool_text(b),
{
    if b {
        out.append("true");
    } else {
        out.append("false");
    }
}

} // verus!
