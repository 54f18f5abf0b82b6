//! Verified construction of the decimal and hexadecimal renderings used
//! throughout the crash reports and stack traces.

use vstd::prelude::*;

verus! {

/// The decimal digit character for a value in 0..=9.
pub open spec fn dec_digit(d: int) -> char {
    if d == 0 {
        '0'
    } else if d == 1 {
        '1'
    } else if d == 2 {
        '2'
    } else if d == 3 {
        '3'
    } else if d == 4 {
        '4'
    } else if d == 5 {
        '5'
    } else if d == 6 {
        '6'
    } else if d == 7 {
        '7'
    } else if d == 8 {
        '8'
    } else {
        '9'
    }
}

/// The uppercase hexadecimal digit character for a value in 0..=15.
pub open spec fn hex_digit_upper(d: int) -> char {
    if d < 10 {
        dec_digit(d)
    } else if d == 10 {
        'A'
    } else if d == 11 {
        'B'
    } else if d == 12 {
        'C'
    } else if d == 13 {
        'D'
    } else if d == 14 {
        'E'
    } else {
        'F'
    }
}

/// The lowercase hexadecimal digit character for a value in 0..=15.
pub open spec fn hex_digit_lower(d: int) -> char {
    if d < 10 {
        dec_digit(d)
    } else if d == 10 {
        'a'
    } else if d == 11 {
        'b'
    } else if d == 12 {
        'c'
    } else if d == 13 {
        'd'
    } else if d == 14 {
        'e'
    } else {
        'f'
    }
}

/// Decimal rendering of a non-negative integer, most significant digit first.
pub open spec fn spec_dec(n: int) -> Seq<char>
    decreases n,
{
    if n < 10 {
        seq![dec_digit(n)]
    } else {
        spec_dec(n / 10).push(dec_digit(n % 10))
    }
}

/// Uppercase hexadecimal rendering without leading zeroes.
pub open spec fn spec_hex(n: int) -> Seq<char>
    decreases n,
{
    if n < 16 {
        seq![hex_digit_upper(n)]
    } else {
        spec_hex(n / 16).push(hex_digit_upper(n % 16))
    }
}

/// Uppercase hexadecimal rendering of the lowest `width` digits,
/// zero-padded on the left.
pub open spec fn spec_hex_pad(n: int, width: nat) -> Seq<char>
    decreases width,
{
    if width == 0 {
        Seq::empty()
    } else {
        spec_hex_pad(n / 16, (width - 1) as nat).push(hex_digit_upper(n % 16))
    }
}

/// Relies on String::push: appends exactly the one character to the string.
#[verifier::external_body]
pub fn push_char(s: &mut String, c: char)
    ensures
        final(s)@ == old(s)@.push(c),
{
    s.push(c);
}

/// The decimal digit character of a value below ten.
pub fn dec_digit_char(d: u8) -> (c: char)
    requires
        d < 10,
    ensures
        c == dec_digit(d as int),
{
    if d == 0 {
        '0'
    } else if d == 1 {
        '1'
    } else if d == 2 {
        '2'
    } else if d == 3 {
        '3'
    } else if d == 4 {
        '4'
    } else if d == 5 {
        '5'
    } else if d == 6 {
        '6'
    } else if d == 7 {
        '7'
    } else if d == 8 {
        '8'
    } else {
        '9'
    }
}

/// The uppercase hexadecimal digit character of a value below sixteen.
pub fn hex_digit_char_upper(d: u8) -> (c: char)
    requires
        d < 16,
    ensures
        c == hex_digit_upper(d as int),
{
    if d < 10 {
        dec_digit_char(d)
    } else if d == 10 {
        'A'
    } else if d == 11 {
        'B'
    } else if d == 12 {
        'C'
    } else if d == 13 {
        'D'
    } else if d == 14 {
        'E'
    } else {
        'F'
    }
}

/// The lowercase hexadecimal digit character of a value below sixteen.
pub fn hex_digit_char_lower(d: u8) -> (c: char)
    requires
        d < 16,
    ensures
        c == hex_digit_lower(d as int),
{
    if d < 10 {
        dec_digit_char(d)
    } else if d == 10 {
        'a'
    } else if d == 11 {
        'b'
    } else if d == 12 {
        'c'
    } else if d == 13 {
        'd'
    } else if d == 14 {
        'e'
    } else {
        'f'
    }
}

/// Appends the decimal rendering of `n`.
pub fn append_dec_u64(s: &mut String, n: u64)
    ensures
        final(s)@ == old(s)@ + spec_dec(n as int),
    decreases n,
{
    if n < 10 {
        push_char(s, dec_digit_char(n as u8));
        assert(final(s)@ =~= old(s)@ + spec_dec(n as int));
    } else {
        append_dec_u64(s, n / 10);
        push_char(s, dec_digit_char((n % 10) as u8));
        assert(final(s)@ =~= old(s)@ + spec_dec(n as int));
    }
}

/// Appends the uppercase hexadecimal rendering of `n` without padding.
pub fn append_hex_u64(s: &mut String, n: u64)
    ensures
        final(s)@ == old(s)@ + spec_hex(n as int),
    decreases n,
{
    if n < 16 {
        push_char(s, hex_digit_char_upper(n as u8));
        assert(final(s)@ =~= old(s)@ + spec_hex(n as int));
    } else {
        append_hex_u64(s, n / 16);
        push_char(s, hex_digit_char_upper((n % 16) as u8));
        assert(final(s)@ =~= old(s)@ + spec_hex(n as int));
    }
}

/// Appends the lowest `width` uppercase hexadecimal digits of `n`,
/// zero-padded on the left.
pub fn append_hex_pad(s: &mut String, n: u64, width: usize)
    ensures
        final(s)@ == old(s)@ + spec_hex_pad(n as int, width as nat),
    decreases width,
{
    if width > 0 {
        append_hex_pad(s, n / 16, width - 1);
        push_char(s, hex_digit_char_upper((n % 16) as u8));
        assert(final(s)@ =~= old(s)@ + spec_hex_pad(n as int, width as nat));
    } else {
        assert(final(s)@ =~= old(s)@ + spec_hex_pad(n as int, width as nat));
    }
}

/// Rendering of a boolean as JSON/text.
pub open spec fn spec_bool(b: bool) -> Seq<char> {
    if b {
        "true"@
    } else {
        "false"@
    }
}

/// Appends `true` or `false`.
pub fn append_bool(s: &mut String, b: bool)
    ensures
        final(s)@ == old(s)@ + spec_bool(b),
{
    if b {
        s.append("true");
    } else {
        s.append("false");
    }
}

} // verus!
