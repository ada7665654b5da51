//! Verified text building: pushing single characters, upper-case hexadecimal
//! and decimal renderings, and escaping for the structured-text encoding.

use vstd::prelude::*;

verus! {

/// Relies on String::push: appends the one character to the end of the string.
#[verifier::external_body]
pub(crate) fn push_char(s: &mut String, c: char)
    ensures
        final(s)@ == old(s)@ + seq![c],
{
    s.push(c);
}

/// Upper-case hexadecimal digit for a value below 16; the first ten double as
/// the decimal digits.
pub open spec fn hex_char(d: nat) -> char {
    if d == 0 {
        '0'
    } else if d == 1 {
        '1'
    } else if d == 2 {
        '2'
    } else if d == 3 {
        '3'
    } else if d == 4 {
        '4'
    } else if d == 5 {
        '5'
    } else if d == 6 {
        '6'
    } else if d == 7 {
        '7'
    } else if d == 8 {
        '8'
    } else if d == 9 {
        '9'
    } else if d == 10 {
        'A'
    } else if d == 11 {
        'B'
    } else if d == 12 {
        'C'
    } else if d == 13 {
        'D'
    } else if d == 14 {
        'E'
    } else {
        'F'
    }
}

/// Two hexadecimal digits of a byte, high nibble first.
pub open spec fn hex2(b: u8) -> Seq<char> {
    seq![hex_char((b / 16) as nat), hex_char((b % 16) as nat)]
}

/// Four hexadecimal digits of a 16-bit value, high nibble first.
pub open spec fn hex4(x: u16) -> Seq<char> {
    seq![
        hex_char((x / 4096 % 16) as nat),
        hex_char((x / 256 % 16) as nat),
        hex_char((x / 16 % 16) as nat),
        hex_char((x % 16) as nat),
    ]
}

/// Decimal rendering of a natural number, no sign, no leading zeros (a lone
/// zero for 0).
pub open spec fn dec_str(n: nat) -> Seq<char>
    decreases n,
{
    if n < 10 {
        seq![hex_char(n)]
    } else {
        dec_str(n / 10) + seq![hex_char(n % 10)]
    }
}

/// One character of a quoted string in the encoding: quote and backslash get
/// a backslash before them, everything else stands as itself.
pub open spec fn escape_char(c: char) -> Seq<char> {
    if c == '"' {
        seq!['\\', '"']
    } else if c == '\\' {
        seq!['\\', '\\']
    } else {
        seq![c]
    }
}

/// A whole string with each character escaped.
pub open spec fn escape_str(s: Seq<char>) -> Seq<char>
    decreases s.len(),
{
    if s.len() == 0 {
        Seq::empty()
    } else {
        escape_str(s.drop_last()) + escape_char(s.last())
    }
}

fn hex_digit(d: u8) -> (c: char)
    requires
        d < 16,
    ensures
        c == hex_char(d as nat),
{
    if d == 0 {
        '0'
    } else if d == 1 {
        '1'
    } else if d == 2 {
        '2'
    } else if d == 3 {
        '3'
    } else if d == 4 {
        '4'
    } else if d == 5 {
        '5'
    } else if d == 6 {
        '6'
    } else if d == 7 {
        '7'
    } else if d == 8 {
        '8'
    } else if d == 9 {
        '9'
    } else if d == 10 {
        'A'
    } else if d == 11 {
        'B'
    } else if d == 12 {
        'C'
    } else if d == 13 {
        'D'
    } else if d == 14 {
        'E'
    } else {
        'F'
    }
}

/// Appends the two hexadecimal digits of a byte.
pub fn push_hex2(s: &mut String, b: u8)
    ensures
        final(s)@ == old(s)@ + hex2(b),
{
    push_char(s, hex_digit(b / 16));
    push_char(s, hex_digit(b % 16));
    assert(final(s)@ =~= old(s)@ + hex2(b));
}

/// Appends the four hexadecimal digits of a 16-bit value.
pub fn push_hex4(s: &mut String, x: u16)
    ensures
        final(s)@ == old(s)@ + hex4(x),
{
    push_char(s, hex_digit((x / 4096 % 16) as u8));
    push_char(s, hex_digit((x / 256 % 16) as u8));
    push_char(s, hex_digit((x / 16 % 16) as u8));
    push_char(s, hex_digit((x % 16) as u8));
    assert(final(s)@ =~= old(s)@ + hex4(x));
}

/// Appends the decimal rendering of a 64-bit value.
pub fn push_dec(s: &mut String, n: u64)
    ensures
        final(s)@ == old(s)@ + dec_str(n as nat),
    decreases n,
{
    if n >= 10 {
        push_dec(s, n / 10);
    }
    push_char(s, hex_digit((n % 10) as u8));
    assert(final(s)@ =~= old(s)@ + dec_str(n as nat));
}

/// Appends the string with quote and backslash escaped.
pub fn push_escaped(s: &mut String, t: &str)
    ensures
        final(s)@ == old(s)@ + escape_str(t@),
{
    let len: usize = t.unicode_len();
    let mut i: usize = 0;
    while i < len
        invariant
            i <= len,
            len == t@.len(),
            s@ == old(s)@ + escape_str(t@.take(i as int)),
        decreases len - i,
    {
        let c = t.get_char(i);
        if c == '"' {
            push_char(s, '\\');
            push_char(s, '"');
        } else if c == '\\' {
            push_char(s, '\\');
            push_char(s, '\\');
        } else {
            push_char(s, c);
        }
        proof {
            assert(t@.take((i + 1) as int).drop_last() =~= t@.take(i as int));
            assert(t@.take((i + 1) as int).last() == t@[i as int]);
            assert(s@ =~= old(s)@ + escape_str(t@.take((i + 1) as int)));
        }
        i = i + 1;
    }
    assert(t@.take(len as int) =~= t@);
}

} // verus!
