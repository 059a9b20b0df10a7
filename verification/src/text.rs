//! What the library needs of the standard library's string functions:
//! lower-casing, trimming, and the reading of a decimal number.

use vstd::prelude::*;

verus! {

/// The text with every character replaced by its Unicode lower case.
pub uninterp spec fn lowercase(text: Seq<char>) -> Seq<char>;

/// The text without its leading and trailing Unicode white space.
pub uninterp spec fn trimmed(text: Seq<char>) -> Seq<char>;

/// Whether `c` is one of the ten decimal digits.
pub open spec fn is_digit(c: char) -> bool {
    '0' <= c && c <= '9'
}

/// Whether the text is made of decimal digits alone.
pub open spec fn all_digits(digits: Seq<char>) -> bool {
    forall|i: int| 0 <= i < digits.len() ==> is_digit(#[trigger] digits[i])
}

/// The number that a row of decimal digits writes.
pub open spec fn digits_value(digits: Seq<char>) -> int
    decreases digits.len(),
{
    if digits.len() == 0 {
        0
    } else {
        10 * digits_value(digits.drop_last()) + (digits.last() as int - '0' as int)
    }
}

/// The number that `text` writes in decimal, where it is one sign at most,
/// `+` or `-`, followed by at least one digit and nothing else, and the
/// number fits in 64 bits.
pub open spec fn decimal(text: Seq<char>) -> Option<int> {
    let signed = text.len() > 0 && (text[0] == '-' || text[0] == '+');
    let digits = if signed {
        text.subrange(1, text.len() as int)
    } else {
        text
    };
    let value = if signed && text[0] == '-' {
        -digits_value(digits)
    } else {
        digits_value(digits)
    };
    if digits.len() > 0 && all_digits(digits) && i64::MIN <= value <= i64::MAX {
        Some(value)
    } else {
        None
    }
}

/// Calls `str::to_lowercase`. Trusted: the result is the lower-cased text.
#[verifier::external_body]
pub(crate) fn to_lowercase(text: &str) -> (lower: String)
    ensures
        lower@ == lowercase(text@),
{
    text.to_lowercase()
}

/// Calls `str::trim`. Trusted: the result is the trimmed text.
#[verifier::external_body]
pub(crate) fn trim(text: &str) -> (inner: &str)
    ensures
        inner@ == trimmed(text@),
{
    text.trim()
}

/// Calls `str::parse` for `i64`. Trusted: the text is accepted exactly when
/// it is an optional sign followed by digits alone that write a number of
/// 64 bits, and the result is that number.
#[verifier::external_body]
pub(crate) fn parse_i64(text: &str) -> (number: Option<i64>)
    ensures
        match number {
            Some(n) => decimal(text@) == Some(n as int),
            None => decimal(text@) is None,
        },
{
    text.parse::<i64>().ok()
}

/// Whether two texts are the same.
pub fn same_text(left: &str, right: &str) -> (same: bool)
    ensures
        same == (left@ == right@),
{
    let left: String = left.to_owned();
    let right: String = right.to_owned();
    left == right
}

} // verus!
