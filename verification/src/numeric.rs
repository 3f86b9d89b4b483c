//! Decimal text of integers, as amounts and timestamps are written in atoms
//! and molecules.

use vstd::prelude::*;

verus! {

/// The character of a decimal digit.
pub open spec fn digit_char(d: nat) -> char {
    if d == 0 { '0' }
    else if d == 1 { '1' }
    else if d == 2 { '2' }
    else if d == 3 { '3' }
    else if d == 4 { '4' }
    else if d == 5 { '5' }
    else if d == 6 { '6' }
    else if d == 7 { '7' }
    else if d == 8 { '8' }
    else { '9' }
}

/// The decimal digits of a natural number, most significant first, without
/// leading zeros ("0" for zero).
pub open spec fn nat_digits(n: nat) -> Seq<char>
    decreases n,
{
    if n < 10 {
        seq![digit_char(n)]
    } else {
        nat_digits(n / 10).push(digit_char(n % 10))
    }
}

/// The decimal text of an integer: a minus sign before the digits of a
/// negative one.
pub open spec fn int_text(n: int) -> Seq<char> {
    if n < 0 {
        seq!['-'] + nat_digits((-n) as nat)
    } else {
        nat_digits(n as nat)
    }
}

/// Append one character to a string (`String::push` of std).
#[verifier::external_body]
pub(crate) fn string_push(s: &mut String, c: char)
    ensures
        final(s)@ == old(s)@.push(c),
{
    s.push(c);
}

fn digit(d: u64) -> (c: char)
    requires
        d < 10,
    ensures
        c == digit_char(d as nat),
{
    if d == 0 { '0' }
    else if d == 1 { '1' }
    else if d == 2 { '2' }
    else if d == 3 { '3' }
    else if d == 4 { '4' }
    else if d == 5 { '5' }
    else if d == 6 { '6' }
    else if d == 7 { '7' }
    else if d == 8 { '8' }
    else { '9' }
}

/// The decimal text of an unsigned integer.
pub fn u64_text(n: u64) -> (s: String)
    ensures
        s@ == nat_digits(n as nat),
    decreases n,
{
    if n < 10 {
        let mut s = String::new();
        string_push(&mut s, digit(n));
        assert(s@ =~= seq![digit_char(n as nat)]);
        s
    } else {
        let mut s = u64_text(n / 10);
        string_push(&mut s, digit(n % 10));
        s
    }
}

/// The decimal text of an unsigned 128-bit integer.
pub fn u128_text(n: u128) -> (s: String)
    ensures
        s@ == nat_digits(n as nat),
    decreases n,
{
    if n < 10 {
        let mut s = String::new();
        string_push(&mut s, digit(n as u64));
        assert(s@ =~= seq![digit_char(n as nat)]);
        s
    } else {
        let mut s = u128_text(n / 10);
        string_push(&mut s, digit((n % 10) as u64));
        s
    }
}

/// The decimal text of a signed 128-bit integer whose magnitude fits in 127 bits.
pub fn i128_text(n: i128) -> (s: String)
    requires
        n > i128::MIN,
    ensures
        s@ == int_text(n as int),
{
    if n < 0 {
        let digits = u128_text((-n) as u128);
        let mut s = String::new();
        string_push(&mut s, '-');
        let s = s.concat(digits.as_str());
        assert(s@ =~= seq!['-'] + nat_digits((-(n as int)) as nat));
        s
    } else {
        u128_text(n as u128)
    }
}

/// The decimal text of a signed integer.
pub fn i64_text(n: i64) -> (s: String)
    ensures
        s@ == int_text(n as int),
{
    if n < 0 {
        let magnitude: u64 = if n == i64::MIN { 9223372036854775808u64 } else { (-n) as u64 };
        let digits = u64_text(magnitude);
        let mut s = String::new();
        string_push(&mut s, '-');
        let s = s.concat(digits.as_str());
        assert(s@ =~= seq!['-'] + nat_digits((-(n as int)) as nat));
        s
    } else {
        u64_text(n as u64)
    }
}

} // verus!
