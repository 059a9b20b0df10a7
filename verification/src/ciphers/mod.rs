//! Sealing and opening of single values under a role key.
//!
//! A sealed value is the unpadded base64url text of a 24-byte nonce followed
//! by the tagged ciphertext. Every sealing draws a nonce of its own.

pub mod action;
pub mod cipher;
pub mod fields;

pub use action::Action;
pub use cipher::Cipher;

use vstd::prelude::*;
use vstd::utf8::encode_utf8;
use crate::codec::{base64url_bytes, base64url_len, base64url_text, is_unpadded, lossy_text};
use crate::codec::{decode, encode, read_lossy};
use crate::errors::ErrorKind;
use crate::keystore::{Keystore, Role};
use crate::secretbox::{opened_box, sealed_box, KEY_LENGTH, KEY_TEXT_LENGTH, NONCE_LENGTH};
use crate::secretbox::TAG_LENGTH;
use crate::secretbox::{fresh_key, fresh_nonce, open, seal};

verus! {

/// The sealed text of `message` under `key` and `nonce`.
pub open spec fn sealed_text(key: Seq<u8>, nonce: Seq<u8>, message: Seq<u8>) -> Result<
    Seq<char>,
    ErrorKind,
> {
    if key.len() != KEY_LENGTH {
        Err(ErrorKind::KeyUnavailable)
    } else if nonce.len() != NONCE_LENGTH {
        Err(ErrorKind::CipherFailure)
    } else {
        Ok(base64url_text(nonce + sealed_box(key, nonce, message)))
    }
}

/// The message that the sealed `text` holds for the holder of `key`.
pub open spec fn opened_text(key: Seq<u8>, text: Seq<char>) -> Result<Seq<u8>, ErrorKind> {
    if key.len() != KEY_LENGTH {
        Err(ErrorKind::KeyUnavailable)
    } else {
        match base64url_bytes(text) {
            Some(raw) => if raw.len() <= NONCE_LENGTH {
                Err(ErrorKind::CipherFailure)
            } else {
                match opened_box(
                    key,
                    raw.subrange(0, NONCE_LENGTH as int),
                    raw.subrange(NONCE_LENGTH as int, raw.len() as int),
                ) {
                    Some(message) => Ok(message),
                    None => Err(ErrorKind::CipherFailure),
                }
            },
            None => Err(ErrorKind::CipherFailure),
        }
    }
}

/// The number of bytes that the sealed text of a message of `n` bytes
/// decodes to: the nonce, the tag and the message.
pub open spec fn sealed_len(n: nat) -> nat {
    (NONCE_LENGTH + TAG_LENGTH + n) as nat
}

/// `text` is unpadded base64url of `n` bytes: it is made of the alphabet's
/// characters alone, decodes to that many bytes, and has the length that
/// their encoding has.
pub open spec fn holds_bytes(text: Seq<char>, n: nat) -> bool {
    is_unpadded(text) && text.len() == base64url_len(n) && (match base64url_bytes(text) {
        Some(raw) => raw.len() == n,
        None => false,
    })
}

/// The UTF-8 form of a text has at least one byte for each character.
pub proof fn lemma_utf8_is_no_shorter(chars: Seq<char>)
    ensures
        encode_utf8(chars).len() >= chars.len(),
    decreases chars.len(),
{
    if chars.len() > 0 {
        lemma_utf8_is_no_shorter(chars.drop_first());
        assert(vstd::utf8::encode_scalar(chars[0] as u32).len() >= 1);
    }
}

/// The sealed `text` decodes to bytes that begin with `nonce`.
pub open spec fn starts_with_nonce(text: Seq<char>, nonce: Seq<u8>) -> bool {
    match base64url_bytes(text) {
        Some(raw) => nonce.len() <= raw.len() && raw.subrange(0, nonce.len() as int) == nonce,
        None => false,
    }
}

/// Two sealed texts that begin with different nonces differ, whatever they
/// hold: as long as no nonce is drawn twice, no sealed text is seen twice.
pub proof fn lemma_distinct_nonces_distinct_texts(
    first: Seq<char>,
    first_nonce: Seq<u8>,
    second: Seq<char>,
    second_nonce: Seq<u8>,
)
    requires
        starts_with_nonce(first, first_nonce),
        starts_with_nonce(second, second_nonce),
        first_nonce.len() == second_nonce.len(),
        first_nonce != second_nonce,
    ensures
        first != second,
{
}

/// What `encrypt` may return for `content` under the key `key`: the sealed
/// text for some nonce.
pub open spec fn encrypted(content: Seq<char>, key: Seq<u8>, text: Seq<char>) -> bool {
    exists|nonce: Seq<u8>|
        nonce.len() == NONCE_LENGTH && #[trigger] sealed_text(key, nonce, encode_utf8(content))
            == Ok::<Seq<char>, ErrorKind>(text)
}

/// What `decrypt` returns for `content` under the key `key`.
pub open spec fn decrypted(content: Seq<char>, key: Option<Seq<u8>>) -> Result<
    Seq<char>,
    ErrorKind,
> {
    match key {
        Some(k) => match opened_text(k, content) {
            Ok(message) => Ok(lossy_text(message)),
            Err(e) => Err(e),
        },
        None => Err(ErrorKind::KeyUnavailable),
    }
}

/// A text, or the failure in its place, as a mathematical value.
pub open spec fn text_outcome(outcome: Result<String, ErrorKind>) -> Result<Seq<char>, ErrorKind> {
    match outcome {
        Ok(text) => Ok(text@),
        Err(e) => Err(e),
    }
}

/// Bytes, or the failure in their place, as a mathematical value.
pub open spec fn bytes_outcome(outcome: Result<Vec<u8>, ErrorKind>) -> Result<
    Seq<u8>,
    ErrorKind,
> {
    match outcome {
        Ok(bytes) => Ok(bytes@),
        Err(e) => Err(e),
    }
}

/// A fresh random key in its text form.
pub fn generate() -> (text: String)
    ensures
        text@.len() == KEY_TEXT_LENGTH,
        is_unpadded(text@),
        base64url_bytes(text@) matches Some(key) && key.len() == KEY_LENGTH && text@
            == base64url_text(key),
{
    let key = fresh_key();
    encode(key.as_slice())
}

/// Seals `message` under `key` with the given nonce.
///
/// Fails with `KeyUnavailable` when the key is not 32 bytes long and with
/// `CipherFailure` when the nonce is not 24 bytes long, and never otherwise.
/// The sealed text is not empty, and `open_text` recovers the message from
/// it under the same key.
pub fn seal_text(key: &[u8], nonce: &[u8], message: &[u8]) -> (text: Result<String, ErrorKind>)
    ensures
        text_outcome(text) == sealed_text(key@, nonce@, message@),
        text matches Ok(t) ==> {
            &&& opened_text(key@, t@) == Ok::<Seq<u8>, ErrorKind>(message@)
            &&& starts_with_nonce(t@, nonce@)
            &&& holds_bytes(t@, sealed_len(message@.len()))
            &&& t@.len() > message@.len()
        },
{
    if key.len() != KEY_LENGTH {
        return Err(ErrorKind::KeyUnavailable);
    }
    if nonce.len() != NONCE_LENGTH {
        return Err(ErrorKind::CipherFailure);
    }
    match seal(key, nonce, message) {
        Some(boxed) => {
            let mut raw: Vec<u8> = Vec::new();
            raw.extend_from_slice(nonce);
            raw.extend_from_slice(boxed.as_slice());
            proof {
                assert(raw@ =~= nonce@ + boxed@);
                assert(raw@.subrange(0, NONCE_LENGTH as int) =~= nonce@);
                assert(raw@.subrange(NONCE_LENGTH as int, raw@.len() as int) =~= boxed@);
            }
            Ok(encode(raw.as_slice()))
        },
        None => Err(ErrorKind::CipherFailure),
    }
}

/// Opens the sealed `text` under `key`.
///
/// Fails with `KeyUnavailable` when the key is not 32 bytes long, and with
/// `CipherFailure` when the text is not base64url, is too short to hold a
/// nonce and a ciphertext, or does not authenticate under the key.
pub fn open_text(key: &[u8], text: &str) -> (message: Result<Vec<u8>, ErrorKind>)
    ensures
        bytes_outcome(message) == opened_text(key@, text@),
{
    if key.len() != KEY_LENGTH {
        return Err(ErrorKind::KeyUnavailable);
    }
    let raw = match decode(text) {
        Some(raw) => raw,
        None => {
            return Err(ErrorKind::CipherFailure);
        },
    };
    if raw.len() <= NONCE_LENGTH {
        return Err(ErrorKind::CipherFailure);
    }
    let (nonce, boxed) = raw.as_slice().split_at(NONCE_LENGTH);
    match open(key, nonce, boxed) {
        Some(message) => Ok(message),
        None => Err(ErrorKind::CipherFailure),
    }
}

/// Seals `content` under the key of `role`, with a fresh nonce and without
/// an envelope.
///
/// Fails, with `KeyUnavailable`, exactly when the keystore has no usable key
/// for the role. What it returns is a sealed text of the content: unpadded
/// base64url of a nonce, a tag and the bytes of the content, longer than
/// the content, and `decrypt` under the same role gives the content back.
pub fn encrypt(content: &str, role: Role, keys: &Keystore) -> (text: Result<String, ErrorKind>)
    ensures
        match text {
            Ok(t) => {
                &&& keys.key(role) matches Some(k) && encrypted(content@, k, t@)
                &&& decrypted(t@, keys.key(role)) == Ok::<Seq<char>, ErrorKind>(content@)
                &&& holds_bytes(t@, sealed_len(encode_utf8(content@).len()))
                &&& t@.len() > content@.len()
            },
            Err(e) => e == ErrorKind::KeyUnavailable && keys.key(role) is None,
        },
{
    let key = match keys.resolve(role) {
        Ok(key) => key,
        Err(e) => {
            return Err(e);
        },
    };
    let nonce = fresh_nonce();
    let text = seal_text(key.as_slice(), nonce.as_slice(), content.as_bytes());
    proof {
        vstd::utf8::encode_utf8_valid_utf8(content@);
        vstd::utf8::encode_utf8_decode_utf8(content@);
        lemma_utf8_is_no_shorter(content@);
    }
    text
}

/// Opens the sealed text `content` under the key of `role` and reads the
/// message as UTF-8, replacing what is malformed.
///
/// Fails with `KeyUnavailable` when the keystore has no usable key for the
/// role, and with `CipherFailure` when the text does not open under it.
pub fn decrypt(content: &str, role: Role, keys: &Keystore) -> (text: Result<String, ErrorKind>)
    ensures
        text_outcome(text) == decrypted(content@, keys.key(role)),
{
    let key = match keys.resolve(role) {
        Ok(key) => key,
        Err(e) => {
            return Err(e);
        },
    };
    match open_text(key.as_slice(), content) {
        Ok(message) => Ok(read_lossy(message.as_slice())),
        Err(e) => Err(e),
    }
}

} // verus!
