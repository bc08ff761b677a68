//! Building text: decimal and fixed-point rendering, substring tests.
use crate::hex::hex_char;
use vstd::prelude::*;

verus! {

/// Number of units in one whole: amounts, prices and percentages are counted in millionths.
pub const SCALE: u64 = 1_000_000;

/// The decimal digit character for `d` (`d < 10`).
pub open spec fn digit_char(d: nat) -> char {
    if d == 0 { '0' }
    else if d == 1 { '1' }
    else if d == 2 { '2' }
    else if d == 3 { '3' }
    else if d == 4 { '4' }
    else if d == 5 { '5' }
    else if d == 6 { '6' }
    else if d == 7 { '7' }
    else if d == 8 { '8' }
    else { '9' }
}

/// Decimal notation of `n`: most significant digit first, no leading zeros.
pub open spec fn decimal_text(n: nat) -> Seq<char>
    decreases n,
{
    if n < 10 {
        seq![digit_char(n)]
    } else {
        decimal_text(n / 10).push(digit_char(n % 10))
    }
}

/// A value counted in millionths, written with its whole part and two decimals (truncated).
pub open spec fn fixed2_text(v: nat) -> Seq<char> {
    let frac = (v % (SCALE as nat)) / 10_000;
    decimal_text(v / (SCALE as nat)).push('.').push(digit_char(frac / 10)).push(digit_char(frac % 10))
}

/// `pat` occurs in `s` as a contiguous run of characters.
pub open spec fn has_substring(s: Seq<char>, pat: Seq<char>) -> bool {
    exists|i: int| 0 <= i && i + pat.len() <= s.len() && #[trigger] s.subrange(i, i + pat.len()) == pat
}

/// Relies on String::push_str: appends the characters of `t`.
#[verifier::external_body]
pub(crate) fn push_text(s: &mut String, t: &str)
    ensures
        final(s)@ == old(s)@ + t@,
{
    s.push_str(t)
}

/// Relies on String::push: appends one character.
#[verifier::external_body]
pub(crate) fn push_char(s: &mut String, c: char)
    ensures
        final(s)@ == old(s)@.push(c),
{
    s.push(c)
}

/// Relies on str::contains with a `&str` pattern: whether `pat` occurs in `s`.
#[verifier::external_body]
pub(crate) fn contains_text(s: &str, pat: &str) -> (r: bool)
    ensures
        r == has_substring(s@, pat@),
{
    s.contains(pat)
}

/// A fresh string holding the characters of `t`.
pub fn text_of(t: &str) -> (r: String)
    ensures
        r@ == t@,
{
    t.to_owned()
}

pub(crate) fn digit(d: u64) -> (c: char)
    requires
        d < 16,
    ensures
        c == hex_char(d as nat),
{
    if d == 0 { '0' }
    else if d == 1 { '1' }
    else if d == 2 { '2' }
    else if d == 3 { '3' }
    else if d == 4 { '4' }
    else if d == 5 { '5' }
    else if d == 6 { '6' }
    else if d == 7 { '7' }
    else if d == 8 { '8' }
    else if d == 9 { '9' }
    else if d == 10 { 'a' }
    else if d == 11 { 'b' }
    else if d == 12 { 'c' }
    else if d == 13 { 'd' }
    else if d == 14 { 'e' }
    else { 'f' }
}

/// Appends the decimal notation of `n`.
pub fn push_decimal(out: &mut String, n: u64)
    ensures
        final(out)@ == old(out)@ + decimal_text(n as nat),
    decreases n,
{
    if n >= 10 {
        push_decimal(out, n / 10);
    }
    push_char(out, digit(n % 10));
    proof {
        if n >= 10 {
            assert(old(out)@ + decimal_text(n as nat) == (old(out)@ + decimal_text(
                (n / 10) as nat,
            )).push(digit_char((n % 10) as nat)));
        } else {
            assert(decimal_text(n as nat) == seq![digit_char(n as nat)]);
        }
    }
}

/// Appends a value counted in millionths with two decimals (truncated).
pub fn push_fixed2(out: &mut String, v: u64)
    ensures
        final(out)@ == old(out)@ + fixed2_text(v as nat),
{
    let frac = (v % SCALE) / 10_000;
    push_decimal(out, v / SCALE);
    push_char(out, '.');
    push_char(out, digit(frac / 10));
    push_char(out, digit(frac % 10));
    assert(old(out)@ + fixed2_text(v as nat) =~= final(out)@);
}

} // verus!
