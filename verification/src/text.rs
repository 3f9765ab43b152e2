//! Decimal rendering of integers and small string helpers.

use vstd::prelude::*;

verus! {

/// The ASCII digits of `n` in base ten, most significant first, without
/// leading zeros (a single `0` for zero).
pub open spec fn decimal_ascii(n: nat) -> Seq<u8>
    decreases n,
{
    if n < 10 {
        seq![(n + 48) as u8]
    } else {
        decimal_ascii(n / 10).push(((n % 10) + 48) as u8)
    }
}

/// The characters of a sequence of ASCII bytes.
pub open spec fn ascii_chars(s: Seq<u8>) -> Seq<char> {
    s.map_values(|b: u8| b as char)
}

/// `n` written in base ten.
pub open spec fn decimal(n: nat) -> Seq<char> {
    ascii_chars(decimal_ascii(n))
}

/// `x` written in base ten, with a leading `-` when negative.
pub open spec fn signed_decimal(x: int) -> Seq<char> {
    if x < 0 {
        seq!['-'] + decimal((-x) as nat)
    } else {
        decimal(x as nat)
    }
}

/// The ASCII digits of `n` in base ten.
pub fn u64_decimal_ascii(n: u64) -> (r: Vec<u8>)
    ensures
        r@ == decimal_ascii(n as nat),
    decreases n,
{
    if n < 10 {
        let mut v: Vec<u8> = Vec::new();
        v.push((n as u8) + 48);
        v
    } else {
        let mut v = u64_decimal_ascii(n / 10);
        v.push(((n % 10) as u8) + 48);
        v
    }
}

/// Appends one character to a string with `String::push`.
#[verifier::external_body]
pub(crate) fn push_char(s: &mut String, c: char)
    ensures
        final(s)@ == old(s)@.push(c),
{
    s.push(c)
}

/// Appends a string slice to a string with `String::push_str`.
#[verifier::external_body]
pub(crate) fn push_str(s: &mut String, t: &str)
    ensures
        final(s)@ == old(s)@ + t@,
{
    s.push_str(t)
}

/// A new string holding a copy of `t`.
pub(crate) fn string_of(t: &str) -> (r: String)
    ensures
        r@ == t@,
{
    let mut r = String::new();
    push_str(&mut r, t);
    assert(r@ =~= t@);
    r
}

/// Appends the characters of ASCII bytes to a string.
pub(crate) fn push_ascii(s: &mut String, bytes: &Vec<u8>)
    ensures
        final(s)@ == old(s)@ + ascii_chars(bytes@),
{
    let ghost start = s@;
    let mut i: usize = 0;
    while i < bytes.len()
        invariant
            i <= bytes@.len(),
            s@ == start + ascii_chars(bytes@.take(i as int)),
        decreases bytes.len() - i,
    {
        let b = bytes[i];
        push_char(s, b as char);
        assert(ascii_chars(bytes@.take(i + 1)) =~= ascii_chars(bytes@.take(i as int)).push(b as char));
        i = i + 1;
    }
    assert(bytes@.take(i as int) =~= bytes@);
}

/// `n` written in base ten.
pub fn u64_to_decimal(n: u64) -> (r: String)
    ensures
        r@ == decimal(n as nat),
{
    let digits = u64_decimal_ascii(n);
    let mut r = String::new();
    push_ascii(&mut r, &digits);
    assert(r@ =~= decimal(n as nat));
    r
}

/// `x` written in base ten, with a leading `-` when negative.
pub fn i64_to_decimal(x: i64) -> (r: String)
    ensures
        r@ == signed_decimal(x as int),
{
    if x < 0 {
        let magnitude: u64 = if x == i64::MIN {
            9223372036854775808u64
        } else {
            (-x) as u64
        };
        let digits = u64_decimal_ascii(magnitude);
        let mut r = String::new();
        push_char(&mut r, '-');
        push_ascii(&mut r, &digits);
        assert(r@ =~= signed_decimal(x as int));
        r
    } else {
        u64_to_decimal(x as u64)
    }
}

} // verus!
