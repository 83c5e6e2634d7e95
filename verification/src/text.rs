//! Text helpers: decimal numerals and comparison of string slices.
use vstd::prelude::*;

verus! {

/// The character of a decimal digit.
pub open spec fn digit_char(d: nat) -> char {
    (d + 48) as char
}

/// The decimal digits of a natural number, most significant first, no leading zeros.
pub open spec fn digits(n: nat) -> Seq<char>
    decreases n,
{
    if n < 10 {
        seq![digit_char(n)]
    } else {
        digits(n / 10).push(digit_char(n % 10))
    }
}

/// The decimal numeral of an integer: digits, with a leading '-' when negative.
#[verifier::opaque]
pub open spec fn decimal(n: int) -> Seq<char> {
    if n < 0 {
        seq!['-'] + digits((-n) as nat)
    } else {
        digits(n as nat)
    }
}

/// Formats an integer in decimal.
///
/// Trusted: calls `ToString::to_string` on `i64`, whose `Display` impl writes the
/// number in base ten with a leading '-' for negative values and no padding.
#[verifier::external_body]
pub(crate) fn decimal_text(n: i64) -> (s: String)
    ensures
        s@ == decimal(n as int),
{
    n.to_string()
}

/// Compares two string slices by their characters.
///
/// Trusted: calls `PartialEq::eq` on `str`, which is equal exactly when the
/// two slices hold the same characters.
#[verifier::external_body]
pub(crate) fn same_text(a: &str, b: &str) -> (eq: bool)
    ensures
        eq == (a@ == b@),
{
    a == b
}

/// `prefix`, the decimal numeral of `n`, then `suffix`.
pub open spec fn with_number(prefix: Seq<char>, n: int, suffix: Seq<char>) -> Seq<char> {
    prefix + decimal(n) + suffix
}

/// Builds `prefix`, the decimal numeral of `n`, then `suffix`.
pub fn number_line(prefix: &str, n: i64, suffix: &str) -> (s: String)
    ensures
        s@ == with_number(prefix@, n as int, suffix@),
{
    let mut s = prefix.to_owned();
    let num = decimal_text(n);
    s.append(num.as_str());
    s.append(suffix);
    s
}

} // verus!
