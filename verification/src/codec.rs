//! Text encodings at the edge of the cipher: unpadded base64url, which
//! carries every key and ciphertext, and the lossy reading of bytes as UTF-8.

use vstd::prelude::*;
use vstd::utf8::{decode_utf8, valid_utf8};

verus! {

/// The unpadded base64url text of `bytes`.
pub uninterp spec fn base64url_text(bytes: Seq<u8>) -> Seq<char>;

/// The bytes that `text` stands for as unpadded base64url, where it is well
/// formed.
pub uninterp spec fn base64url_bytes(text: Seq<char>) -> Option<Seq<u8>>;

/// What a lossy UTF-8 reading makes of bytes that are not valid UTF-8.
pub uninterp spec fn utf8_repaired(bytes: Seq<u8>) -> Seq<char>;

/// Number of characters in the unpadded base64url text of `n` bytes: four
/// for every full group of three bytes, two or three for a last group of one
/// or two.
pub open spec fn base64url_len(n: nat) -> nat {
    (4 * n + 2) / 3
}

/// Whether `c` is a character of the URL-safe base64 alphabet: a letter, a
/// digit, `-` or `_`. The padding character `=` is none of them.
pub open spec fn is_base64url_char(c: char) -> bool {
    ('A' <= c && c <= 'Z') || ('a' <= c && c <= 'z') || ('0' <= c && c <= '9') || c == '-' || c
        == '_'
}

/// Whether `text` is made of characters of the URL-safe base64 alphabet
/// alone, and so carries no padding.
pub open spec fn is_unpadded(text: Seq<char>) -> bool {
    forall|i: int| 0 <= i < text.len() ==> is_base64url_char(#[trigger] text[i])
}

/// The text that bytes are read as: their decoding where they are valid
/// UTF-8, and otherwise the decoding with every malformed part replaced.
pub open spec fn lossy_text(bytes: Seq<u8>) -> Seq<char> {
    if valid_utf8(bytes) {
        decode_utf8(bytes)
    } else {
        utf8_repaired(bytes)
    }
}

/// Calls `base64_url::encode`, which encodes with the URL-safe alphabet and
/// no `=` padding. Trusted: the result is the encoding, it is made of the
/// alphabet's characters alone, it has the length that the four-for-three
/// grouping gives, and decoding it gives the bytes back.
#[verifier::external_body]
pub(crate) fn encode(bytes: &[u8]) -> (text: String)
    ensures
        text@ == base64url_text(bytes@),
        text@.len() == base64url_len(bytes@.len()),
        is_unpadded(text@),
        base64url_bytes(text@) == Some(bytes@),
{
    base64_url::encode(bytes)
}

/// Calls `base64_url::decode`, which accepts only the URL-safe alphabet
/// without padding. Trusted: the result is the decoding, and `None` stands
/// for every decoding error.
#[verifier::external_body]
pub(crate) fn decode(text: &str) -> (bytes: Option<Vec<u8>>)
    ensures
        match bytes {
            Some(b) => base64url_bytes(text@) == Some(b@),
            None => base64url_bytes(text@) is None,
        },
{
    base64_url::decode(text).ok()
}

/// Calls `String::from_utf8_lossy`. Trusted: valid UTF-8 is decoded as it
/// stands, and anything else is decoded with replacement characters.
#[verifier::external_body]
pub(crate) fn read_lossy(bytes: &[u8]) -> (text: String)
    ensures
        text@ == (if valid_utf8(bytes@) {
            decode_utf8(bytes@)
        } else {
            utf8_repaired(bytes@)
        }),
{
    String::from_utf8_lossy(bytes).into_owned()
}

} // verus!
