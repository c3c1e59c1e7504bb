//! Character-level helpers for the token forms: case folding, token comparison, hexadecimal
//! and decimal digits.
use vstd::prelude::*;

verus! {

/// The lowercase form of a string, as Unicode case folding of `str::to_lowercase` gives it.
pub uninterp spec fn lower_of(s: Seq<char>) -> Seq<char>;

/// Relies on `str::to_lowercase`: the result is a function of the characters alone.
#[verifier::external_body]
pub(crate) fn lowercase(s: &str) -> (r: String)
    ensures
        r@ == lower_of(s@),
{
    s.to_lowercase()
}

/// Whether `s` holds exactly the characters of `token`.
pub(crate) fn is_token(s: &String, token: &str) -> (r: bool)
    ensures
        r == (s@ == token@),
{
    let t = String::from_str(token);
    *s == t
}

/// An ASCII hexadecimal digit, in either case.
pub open spec fn is_hex_digit(c: char) -> bool {
    ('0' <= c && c <= '9') || ('a' <= c && c <= 'f') || ('A' <= c && c <= 'F')
}

/// Every character of `s` is an ASCII hexadecimal digit.
pub open spec fn all_hex_digits(s: Seq<char>) -> bool {
    forall|i: int| 0 <= i < s.len() ==> is_hex_digit(#[trigger] s[i])
}

/// The value of one hexadecimal digit.
pub open spec fn hex_value(c: char) -> u8
    recommends
        is_hex_digit(c),
{
    if '0' <= c && c <= '9' {
        (c as u32 - '0' as u32) as u8
    } else if 'a' <= c && c <= 'f' {
        (c as u32 - 'a' as u32 + 10) as u8
    } else {
        (c as u32 - 'A' as u32 + 10) as u8
    }
}

/// The lowercase hexadecimal digit for a value below 16.
pub open spec fn hex_char(n: u8) -> char
    recommends
        n < 16,
{
    if n < 10 {
        (('0' as u32) + n as u32) as char
    } else {
        (('a' as u32) + n as u32 - 10) as char
    }
}

/// A byte as two lowercase hexadecimal digits, high nibble first.
pub open spec fn hex_byte(b: u8) -> Seq<char> {
    seq![hex_char(b / 16), hex_char(b % 16)]
}

/// The decimal digit for a value below 10.
pub open spec fn digit_char(n: nat) -> char
    recommends
        n < 10,
{
    (('0' as u32) + n as u32) as char
}

/// The decimal form of a natural number, without leading zeros.
pub open spec fn decimal(n: nat) -> Seq<char>
    decreases n,
{
    if n < 10 {
        seq![digit_char(n)]
    } else {
        decimal(n / 10).push(digit_char(n % 10))
    }
}

pub(crate) fn hex_value_of(c: char) -> (r: u8)
    requires
        is_hex_digit(c),
    ensures
        r == hex_value(c),
        r < 16,
{
    if '0' <= c && c <= '9' {
        (c as u32 - '0' as u32) as u8
    } else if 'a' <= c && c <= 'f' {
        (c as u32 - 'a' as u32 + 10) as u8
    } else {
        (c as u32 - 'A' as u32 + 10) as u8
    }
}

pub(crate) fn is_hex_digit_char(c: char) -> (r: bool)
    ensures
        r == is_hex_digit(c),
{
    ('0' <= c && c <= '9') || ('a' <= c && c <= 'f') || ('A' <= c && c <= 'F')
}

/// Appends the lowercase hexadecimal digit of `n` to `s`.
pub(crate) fn push_hex_digit(s: &mut String, n: u8)
    requires
        n < 16,
    ensures
        final(s)@ == old(s)@.push(hex_char(n)),
{
    let digits = "0123456789abcdef";
    proof {
        reveal_strlit("0123456789abcdef");
    }
    let d = digits.substring_ascii(n as usize, n as usize + 1);
    s.append(d);
    assert(d@ =~= seq![hex_char(n)]);
    assert(final(s)@ =~= old(s)@.push(hex_char(n)));
}

/// Appends `b` to `s` as two lowercase hexadecimal digits.
pub(crate) fn push_hex_byte(s: &mut String, b: u8)
    ensures
        final(s)@ == old(s)@ + hex_byte(b),
{
    push_hex_digit(s, b / 16);
    push_hex_digit(s, b % 16);
    assert(final(s)@ =~= old(s)@ + hex_byte(b));
}

/// Appends the decimal form of `n` to `s`.
pub(crate) fn push_decimal(s: &mut String, n: u16)
    ensures
        final(s)@ == old(s)@ + decimal(n as nat),
    decreases n,
{
    if n >= 10 {
        push_decimal(s, n / 10);
    }
    let digits = "0123456789";
    proof {
        reveal_strlit("0123456789");
    }
    let d = digits.substring_ascii((n % 10) as usize, (n % 10) as usize + 1);
    s.append(d);
    assert(d@ =~= seq![digit_char((n % 10) as nat)]);
    assert(final(s)@ =~= old(s)@ + decimal(n as nat));
}

} // verus!
