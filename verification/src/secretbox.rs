//! The authenticated cipher under the envelope: XSalsa20 with a Poly1305
//! tag, keyed by 32 bytes and a 24-byte nonce that is never reused.

use vstd::prelude::*;
use rand::Rng;
use xsalsa20poly1305::aead::generic_array::GenericArray;
use xsalsa20poly1305::aead::{Aead, KeyInit};
use xsalsa20poly1305::XSalsa20Poly1305;

verus! {

/// Length of a key, in bytes.
pub const KEY_LENGTH: usize = 32;

/// Length of a key in its text form, unpadded base64url, in characters.
pub const KEY_TEXT_LENGTH: usize = 43;

/// Length of a nonce, in bytes.
pub const NONCE_LENGTH: usize = 24;

/// Length of the authentication tag that sealing adds, in bytes.
pub const TAG_LENGTH: usize = 16;

/// The tagged ciphertext of `message` under `key` and `nonce`.
pub uninterp spec fn sealed_box(key: Seq<u8>, nonce: Seq<u8>, message: Seq<u8>) -> Seq<u8>;

/// The message inside `boxed`, where its tag is authentic under `key` and
/// `nonce`.
pub uninterp spec fn opened_box(key: Seq<u8>, nonce: Seq<u8>, boxed: Seq<u8>) -> Option<
    Seq<u8>,
>;

/// Calls `XSalsa20Poly1305::encrypt` with no associated data. Trusted: the
/// result is the tagged ciphertext, sixteen bytes longer than the message,
/// and opening it under the same key and nonce gives the message back. With
/// a growable buffer and no associated data the cipher has no failing path,
/// so the result is always present.
#[verifier::external_body]
pub(crate) fn seal(key: &[u8], nonce: &[u8], message: &[u8]) -> (boxed: Option<Vec<u8>>)
    requires
        key@.len() == KEY_LENGTH,
        nonce@.len() == NONCE_LENGTH,
    ensures
        match boxed {
            Some(b) => b@ == sealed_box(key@, nonce@, message@) && b@.len() == message@.len()
                + TAG_LENGTH && opened_box(key@, nonce@, b@) == Some(message@),
            None => false,
        },
{
    XSalsa20Poly1305::new(GenericArray::from_slice(key))
        .encrypt(GenericArray::from_slice(nonce), message)
        .ok()
}

/// Calls `XSalsa20Poly1305::decrypt` with no associated data. Trusted: the
/// result is the message where the tag is authentic, sixteen bytes shorter
/// than the box, and `None` stands for every failure.
#[verifier::external_body]
pub(crate) fn open(key: &[u8], nonce: &[u8], boxed: &[u8]) -> (message: Option<Vec<u8>>)
    requires
        key@.len() == KEY_LENGTH,
        nonce@.len() == NONCE_LENGTH,
    ensures
        match message {
            Some(m) => opened_box(key@, nonce@, boxed@) == Some(m@) && m@.len() + TAG_LENGTH
                == boxed@.len(),
            None => opened_box(key@, nonce@, boxed@) is None,
        },
{
    XSalsa20Poly1305::new(GenericArray::from_slice(key))
        .decrypt(GenericArray::from_slice(nonce), boxed)
        .ok()
}

/// Draws a key from `rand::thread_rng`. Trusted: it has the length of a
/// key; nothing is claimed of its bytes.
#[verifier::external_body]
pub(crate) fn fresh_key() -> (key: Vec<u8>)
    ensures
        key@.len() == KEY_LENGTH,
{
    rand::thread_rng().gen::<[u8; 32]>().to_vec()
}

/// Calls `XSalsa20Poly1305::generate_nonce` on the operating system's
/// generator. Trusted: the result has the length of a nonce; nothing is
/// claimed of its bytes.
#[verifier::external_body]
pub(crate) fn fresh_nonce() -> (nonce: Vec<u8>)
    ensures
        nonce@.len() == NONCE_LENGTH,
{
    XSalsa20Poly1305::generate_nonce(&mut rand::rngs::OsRng).to_vec()
}

} // verus!
