//! Numbers as text: decimal, and lower-case hexadecimal padded with zeros.

use vstd::prelude::*;
use vstd::string::*;

verus! {

/// `String::push` of std appends one character to the end of the string.
pub assume_specification[ String::push ](s: &mut String, ch: char)
    ensures
        final(s)@ == old(s)@.push(ch),
;

/// The character of a digit below sixteen; digits above nine are lower-case
/// letters.
pub open spec fn digit_char(d: int) -> char {
    if d == 0 {
        '0'
    } else if d == 1 {
        '1'
    } else if d == 2 {
        '2'
    } else if d == 3 {
        '3'
    } else if d == 4 {
        '4'
    } else if d == 5 {
        '5'
    } else if d == 6 {
        '6'
    } else if d == 7 {
        '7'
    } else if d == 8 {
        '8'
    } else if d == 9 {
        '9'
    } else if d == 10 {
        'a'
    } else if d == 11 {
        'b'
    } else if d == 12 {
        'c'
    } else if d == 13 {
        'd'
    } else if d == 14 {
        'e'
    } else {
        'f'
    }
}

/// `n` in decimal, most significant digit first, without leading zeros;
/// zero is the single digit 0.
pub open spec fn decimal(n: nat) -> Seq<char>
    decreases n,
{
    if n < 10 {
        seq![digit_char(n as int)]
    } else {
        decimal(n / 10).push(digit_char((n % 10) as int))
    }
}

/// `n` in lower-case hexadecimal, most significant digit first, without
/// leading zeros.
pub open spec fn hex_digits(n: nat) -> Seq<char>
    decreases n,
{
    if n < 16 {
        seq![digit_char(n as int)]
    } else {
        hex_digits(n / 16).push(digit_char((n % 16) as int))
    }
}

/// `count` zeros; none where `count` is not positive.
pub open spec fn zeros(count: int) -> Seq<char> {
    Seq::new(
        if count > 0 {
            count as nat
        } else {
            0
        },
        |i: int| '0',
    )
}

/// `n` in lower-case hexadecimal, with zeros in front where it has fewer
/// than `width` digits.
pub open spec fn hex_padded(n: nat, width: nat) -> Seq<char> {
    zeros(width - hex_digits(n).len()) + hex_digits(n)
}

/// The character of the digit `d`.
fn digit(d: usize) -> (c: char)
    requires
        d < 16,
    ensures
        c == digit_char(d as int),
{
    match d {
        0 => '0',
        1 => '1',
        2 => '2',
        3 => '3',
        4 => '4',
        5 => '5',
        6 => '6',
        7 => '7',
        8 => '8',
        9 => '9',
        10 => 'a',
        11 => 'b',
        12 => 'c',
        13 => 'd',
        14 => 'e',
        _ => 'f',
    }
}

/// Appends `n` in decimal to `out`.
pub fn push_decimal(out: &mut String, n: usize)
    ensures
        final(out)@ == old(out)@ + decimal(n as nat),
    decreases n,
{
    if n < 10 {
        out.push(digit(n));
        assert(old(out)@.push(digit_char(n as int)) =~= old(out)@ + decimal(n as nat));
    } else {
        push_decimal(out, n / 10);
        out.push(digit(n % 10));
        assert((old(out)@ + decimal((n / 10) as nat)).push(digit_char((n % 10) as int))
            =~= old(out)@ + decimal(n as nat));
    }
}

/// Appends `n` in lower-case hexadecimal to `out`, without leading zeros.
pub fn push_hex_digits(out: &mut String, n: usize)
    ensures
        final(out)@ == old(out)@ + hex_digits(n as nat),
    decreases n,
{
    if n < 16 {
        out.push(digit(n));
        assert(old(out)@.push(digit_char(n as int)) =~= old(out)@ + hex_digits(n as nat));
    } else {
        push_hex_digits(out, n / 16);
        out.push(digit(n % 16));
        assert((old(out)@ + hex_digits((n / 16) as nat)).push(digit_char((n % 16) as int))
            =~= old(out)@ + hex_digits(n as nat));
    }
}

/// Appends `n` in lower-case hexadecimal to `out`, with zeros in front where
/// it has fewer than `width` digits.
pub fn push_hex(out: &mut String, n: usize, width: usize)
    ensures
        final(out)@ == old(out)@ + hex_padded(n as nat, width as nat),
{
    let mut body = String::new();
    push_hex_digits(&mut body, n);
    assert(body@ =~= hex_digits(n as nat));
    let count: usize = body.as_str().unicode_len();
    let mut pad: usize = 0;
    while pad < width && width - pad > count
        invariant
            out@ == old(out)@ + zeros(pad as int),
            pad == 0 || pad + count <= width,
        decreases width - pad,
    {
        out.push('0');
        assert(out@ =~= old(out)@ + zeros(pad + 1));
        pad += 1;
    }
    assert(zeros(pad as int) =~= zeros(width - count));
    out.append(body.as_str());
    assert(out@ =~= old(out)@ + hex_padded(n as nat, width as nat));
}

} // verus!
