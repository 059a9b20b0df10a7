//! The values of the `Range` and `Authorization` headers.

use vstd::prelude::*;
use vstd::string::StrSliceExecFns;
use crate::text::{all_digits, digits_value, same_text, trim, trimmed};
use crate::tokens::BearerToken;

verus! {

/// Why the value of a `Range` header was not accepted.
#[derive(Clone, Copy, Debug, PartialEq, Eq, Structural)]
pub enum RangeError {
    /// The value does not start with `bytes=`.
    Prefix,
    /// What follows `bytes=` is not two parts with one dash between them.
    Format,
    /// A part is not a number, or not one that fits the machine's word.
    Number,
}

/// The position of the first dash at or after `from`, or the length of the
/// text where there is none.
pub open spec fn dash_from(text: Seq<char>, from: int) -> int
    decreases text.len() - from,
{
    if from < 0 || from >= text.len() {
        text.len() as int
    } else if text[from] == '-' {
        from
    } else {
        dash_from(text, from + 1)
    }
}

/// The number that `text` writes in decimal, where it is at most a `+`
/// followed by at least one digit and nothing else, and the number fits the
/// machine's word.
pub open spec fn unsigned(text: Seq<char>) -> Option<int> {
    let signed = text.len() > 0 && text[0] == '+';
    let digits = if signed {
        text.subrange(1, text.len() as int)
    } else {
        text
    };
    if digits.len() > 0 && all_digits(digits) && digits_value(digits) <= usize::MAX {
        Some(digits_value(digits))
    } else {
        None
    }
}

/// The first and last byte that the value of a `Range` header asks for:
/// the value is `bytes=`, a number, one dash and a number.
pub open spec fn range_of(value: Seq<char>) -> Result<(int, int), RangeError> {
    if !(value.len() >= 6 && value.subrange(0, 6) == "bytes="@) {
        Err(RangeError::Prefix)
    } else {
        let rest = value.subrange(6, value.len() as int);
        let dash = dash_from(rest, 0);
        if dash >= rest.len() || dash_from(rest, dash + 1) < rest.len() {
            Err(RangeError::Format)
        } else {
            match unsigned(rest.subrange(0, dash)) {
                Some(start) => match unsigned(rest.subrange(dash + 1, rest.len() as int)) {
                    Some(end) => Ok((start, end)),
                    None => Err(RangeError::Number),
                },
                None => Err(RangeError::Number),
            }
        }
    }
}

/// The token that the value of an `Authorization` header carries: what
/// follows `Bearer `, trimmed, where that is not empty.
pub open spec fn bearer_of(value: Seq<char>) -> Option<Seq<char>> {
    if value.len() >= 7 && value.subrange(0, 7) == "Bearer "@ && trimmed(
        value.subrange(7, value.len() as int),
    ).len() > 0 {
        Some(trimmed(value.subrange(7, value.len() as int)))
    } else {
        None
    }
}

/// Calls `str::parse` for `usize`. Trusted: the text is accepted exactly
/// when it is at most a `+` followed by digits alone that write a number of
/// the machine's word, and the result is that number.
#[verifier::external_body]
fn parse_usize(text: &str) -> (number: Option<usize>)
    ensures
        match number {
            Some(n) => unsigned(text@) == Some(n as int),
            None => unsigned(text@) is None,
        },
{
    text.parse::<usize>().ok()
}

/// The position of the first dash at or after `from`.
fn find_dash(text: &str, from: usize, len: usize) -> (at: usize)
    requires
        from <= len,
        len == text@.len(),
    ensures
        at == dash_from(text@, from as int),
        from <= at <= len,
{
    let mut at: usize = from;
    while at < len && text.get_char(at) != '-'
        invariant
            from <= at <= len,
            len == text@.len(),
            dash_from(text@, at as int) == dash_from(text@, from as int),
        decreases len - at,
    {
        at = at + 1;
    }
    at
}

impl RangeError {
    /// What to tell the client.
    pub fn message(self) -> (text: &'static str)
        ensures
            text@ == (match self {
                RangeError::Prefix => "Range header doesn't start with 'bytes='"@,
                RangeError::Format => "Range header has an invalid format"@,
                RangeError::Number => "Range header has an invalid number"@,
            }),
    {
        match self {
            RangeError::Prefix => "Range header doesn't start with 'bytes='",
            RangeError::Format => "Range header has an invalid format",
            RangeError::Number => "Range header has an invalid number",
        }
    }
}

/// Reads the value of a `Range` header: the first and the last byte asked
/// for.
///
/// Fails with `Prefix` when the value does not start with `bytes=`, with
/// `Format` when what follows does not hold exactly one dash, and with
/// `Number` when what stands before or behind the dash is not a number.
pub fn get_range(range_header: &str) -> (range: Result<(usize, usize), RangeError>)
    ensures
        match range {
            Ok((start, end)) => range_of(range_header@) == Ok::<(int, int), RangeError>(
                (start as int, end as int),
            ),
            Err(e) => range_of(range_header@) == Err::<(int, int), RangeError>(e),
        },
{
    proof {
        reveal_strlit("bytes=");
    }
    let len = range_header.unicode_len();
    if len < 6 || !same_text(range_header.substring_char(0, 6), "bytes=") {
        return Err(RangeError::Prefix);
    }
    let rest = range_header.substring_char(6, len);
    let rest_len = len - 6;
    let dash = find_dash(rest, 0, rest_len);
    if dash >= rest_len {
        return Err(RangeError::Format);
    }
    if find_dash(rest, dash + 1, rest_len) < rest_len {
        return Err(RangeError::Format);
    }
    let start = match parse_usize(rest.substring_char(0, dash)) {
        Some(start) => start,
        None => {
            return Err(RangeError::Number);
        },
    };
    let end = match parse_usize(rest.substring_char(dash + 1, rest_len)) {
        Some(end) => end,
        None => {
            return Err(RangeError::Number);
        },
    };
    Ok((start, end))
}

/// Reads the token out of the value of an `Authorization` header.
pub fn extract_bearer_token(auth_header: &str) -> (token: Option<String>)
    ensures
        match token {
            Some(text) => bearer_of(auth_header@) == Some(text@),
            None => bearer_of(auth_header@) is None,
        },
{
    proof {
        reveal_strlit("Bearer ");
    }
    let len = auth_header.unicode_len();
    if len < 7 || !same_text(auth_header.substring_char(0, 7), "Bearer ") {
        return None;
    }
    let token = trim(auth_header.substring_char(7, len));
    if token.is_empty() {
        None
    } else {
        Some(token.to_owned())
    }
}

/// The bearer token that a request presents, given the value of its
/// `Authorization` header, where it has one that can be read as text.
pub fn get_bearer_token(authorization: Option<&str>) -> (token: Option<BearerToken>)
    ensures
        match token {
            Some(bearer) => authorization matches Some(value) && bearer_of(value@) == Some(
                bearer.0@,
            ),
            None => match authorization {
                Some(value) => bearer_of(value@) is None,
                None => true,
            },
        },
{
    match authorization {
        Some(value) => match extract_bearer_token(value) {
            Some(token) => Some(BearerToken::new(token.as_str())),
            None => None,
        },
        None => None,
    }
}

} // verus!
