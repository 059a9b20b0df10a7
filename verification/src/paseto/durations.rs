//! How long a token lives.
//!
//! A lifetime is configured as two protected fields: a count, and the name
//! of the span of time that is counted. Each is read as its plain content:
//! as it stands in a record that has been opened, and opened under the
//! master key where the record is still sealed.

use vstd::prelude::*;
use crate::ciphers::cipher::{plain_text, Cipher, CipherView};
use crate::ciphers::fields::{field_view, or_empty};
use crate::clock::{in_common_range, shift, Timestamp, NANOS_PER_SECOND};
use crate::keystore::{Keystore, Role};
use crate::text::{decimal, lowercase, parse_i64, same_text, to_lowercase};

verus! {

/// A span of time that lifetimes are counted in.
#[derive(Clone, Copy, Debug, PartialEq, Eq, Structural)]
pub enum Span {
    Minutes,
    Hours,
    Days,
    Weeks,
    /// Thirty days.
    Months,
}

/// A lifetime: `amount` times `span`.
#[derive(Clone, Copy, Debug, PartialEq, Eq, Structural)]
pub struct Duration {
    pub amount: i64,
    pub span: Span,
}

impl Span {
    /// Seconds in one span.
    pub open spec fn seconds(self) -> int {
        match self {
            Span::Minutes => 60,
            Span::Hours => 3_600,
            Span::Days => 86_400,
            Span::Weeks => 604_800,
            Span::Months => 2_592_000,
        }
    }

    /// The span that a lower-case word names; any word that names none
    /// stands for minutes.
    pub open spec fn of_word(word: Seq<char>) -> Span {
        if word == "hours"@ {
            Span::Hours
        } else if word == "days"@ {
            Span::Days
        } else if word == "weeks"@ {
            Span::Weeks
        } else if word == "months"@ {
            Span::Months
        } else {
            Span::Minutes
        }
    }

    /// Seconds in one span.
    pub fn in_seconds(self) -> (seconds: i64)
        ensures
            seconds == self.seconds(),
    {
        match self {
            Span::Minutes => 60,
            Span::Hours => 3_600,
            Span::Days => 86_400,
            Span::Weeks => 604_800,
            Span::Months => 2_592_000,
        }
    }

    /// The span that the lower-case `word` names: `minutes`, `hours`,
    /// `days`, `weeks` or `months`, and minutes for any other word.
    pub fn named(word: &str) -> (span: Span)
        ensures
            span == Span::of_word(word@),
    {
        if same_text(word, "hours") {
            Span::Hours
        } else if same_text(word, "days") {
            Span::Days
        } else if same_text(word, "weeks") {
            Span::Weeks
        } else if same_text(word, "months") {
            Span::Months
        } else {
            Span::Minutes
        }
    }
}

/// The count that a lifetime is configured with: the number that `unit`
/// writes, or, where it writes none, `min` or zero, whichever is larger.
pub open spec fn amount_of(unit: Option<int>, min: i64) -> i64 {
    match unit {
        Some(n) => n as i64,
        None => if min < 0 {
            0
        } else {
            min
        },
    }
}

impl Duration {
    /// The lifetime in seconds.
    pub open spec fn seconds(self) -> int {
        self.amount * self.span.seconds()
    }

    /// The lifetime that the texts `unit` and `time` configure.
    pub open spec fn of_text(unit: Seq<char>, time: Seq<char>, min: i64) -> Duration {
        Duration { amount: amount_of(decimal(unit), min), span: Span::of_word(lowercase(time)) }
    }

    /// The lifetime of `amount` spans named by the lower-case `word`, where
    /// an absent amount stands for `min` or zero, whichever is larger.
    pub fn counted(amount: Option<i64>, word: &str, min: i64) -> (duration: Duration)
        ensures
            duration.amount == (match amount {
                Some(n) => n,
                None => if min < 0 {
                    0
                } else {
                    min
                },
            }),
            duration.span == Span::of_word(word@),
    {
        let amount = match amount {
            Some(n) => n,
            None => if min < 0 {
                0
            } else {
                min
            },
        };
        Duration { amount, span: Span::named(word) }
    }

    /// The lifetime that the texts `unit` and `time` configure: `unit` is
    /// read as a decimal number, and `time`, in any mix of upper and lower
    /// case, as the name of a span. A `unit` that is no number stands for
    /// `min`, or for zero where `min` is negative.
    pub fn from_text(unit: &str, time: &str, min: i64) -> (duration: Duration)
        ensures
            duration == Duration::of_text(unit@, time@, min),
    {
        let amount = parse_i64(unit);
        let word = to_lowercase(time);
        Duration::counted(amount, word.as_str(), min)
    }

    /// The lifetime in seconds, where it fits in 64 bits.
    pub fn in_seconds(&self) -> (seconds: Option<i64>)
        ensures
            match seconds {
                Some(s) => s == self.seconds(),
                None => self.seconds() < i64::MIN || self.seconds() > i64::MAX,
            },
    {
        self.amount.checked_mul(self.span.in_seconds())
    }
}

/// What a lifetime field reads as: its plain content, which is what the
/// envelope holds where the field is sealed and opens under the key, and the
/// stored content otherwise. A field that is absent reads as empty.
pub open spec fn field_text(field: Option<CipherView>, key: Option<Seq<u8>>) -> Seq<char> {
    plain_text(or_empty(field), key)
}

/// The instant at which a token issued at `now` with the lifetime
/// `duration` expires: `now` plus the lifetime, or the start of 1970 where
/// that is out of range.
pub open spec fn expiration(now: Timestamp, duration: Duration) -> Timestamp {
    if i64::MIN <= duration.seconds() <= i64::MAX {
        now.plus(duration.seconds())
    } else {
        Timestamp::epoch()
    }
}

/// Reads a lifetime field: its plain content, opened under the master key
/// where the field is still sealed.
pub fn read_field(field: &Option<Cipher>, keys: &Keystore) -> (text: String)
    ensures
        text@ == field_text(field_view(*field), keys.key(Role::Master)),
{
    match field {
        Some(cipher) => cipher.get_string_from_master(keys),
        None => Cipher::default().get_string_from_master(keys),
    }
}

/// The expiry of a token issued at `now` with the lifetime `duration`.
pub fn expiration_from(now: Timestamp, duration: &Duration) -> (expiry: Timestamp)
    ensures
        expiry == expiration(now, *duration),
        now.nanos < NANOS_PER_SECOND && expiry != Timestamp::epoch() ==> expiry.seconds
            == now.seconds + duration.seconds() && expiry.nanos == now.nanos,
        now.nanos < NANOS_PER_SECOND && in_common_range(now.seconds as int) && in_common_range(
            now.seconds + duration.seconds(),
        ) ==> expiry.seconds == now.seconds + duration.seconds() && expiry.nanos == now.nanos,
{
    match duration.in_seconds() {
        Some(seconds) => match shift(now, seconds) {
            Some(expiry) => expiry,
            None => Timestamp::default(),
        },
        None => Timestamp::default(),
    }
}

} // verus!
