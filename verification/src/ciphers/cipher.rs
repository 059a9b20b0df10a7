//! The protected field: one string that is either plain or sealed in an
//! envelope.
//!
//! Sealing draws a data key for the field alone, seals the content under the
//! data key and the data key under a role key. The field then holds the
//! sealed content, the wrapped data key (its `hash`) and the mark
//! `is_encrypted`. Opening reverses the two steps and leaves a plain field
//! without a wrapped key. A field is never left
//! half sealed: an operation that fails returns an error and the field it
//! was given is unchanged.

use vstd::prelude::*;
use vstd::utf8::encode_utf8;
use crate::ciphers::action::Action;
use crate::ciphers::{generate, open_text, opened_text, seal_text, sealed_text};
use crate::ciphers::{holds_bytes, lemma_utf8_is_no_shorter, sealed_len, starts_with_nonce};
use crate::codec::{decode, lossy_text, read_lossy};
use crate::errors::ErrorKind;
use crate::keystore::{Keystore, Role};
use crate::secretbox::{fresh_nonce, KEY_LENGTH, NONCE_LENGTH};
use crate::traits::IsEmpty;

verus! {

/// A string value at rest, with the wrapped data key that seals it and the
/// mark that says whether it is sealed.
#[derive(Debug, PartialEq)]
pub struct Cipher {
    pub content: Option<String>,
    pub hash: Option<String>,
    pub is_encrypted: Option<bool>,
}

/// A protected field as a mathematical value.
pub struct CipherView {
    pub content: Option<Seq<char>>,
    pub hash: Option<Seq<char>>,
    pub is_encrypted: Option<bool>,
}

/// The characters of an optional string.
pub open spec fn chars_of(field: Option<String>) -> Option<Seq<char>> {
    match field {
        Some(text) => Some(text@),
        None => None,
    }
}

/// The text that an attribute holds, where an absent one counts as empty.
pub open spec fn text_of(field: Option<Seq<char>>) -> Seq<char> {
    match field {
        Some(text) => text,
        None => Seq::empty(),
    }
}

impl View for Cipher {
    type V = CipherView;

    open spec fn view(&self) -> CipherView {
        CipherView {
            content: chars_of(self.content),
            hash: chars_of(self.hash),
            is_encrypted: self.is_encrypted,
        }
    }
}

impl CipherView {
    /// The field with no attribute set.
    pub open spec fn empty() -> CipherView {
        CipherView { content: None, hash: None, is_encrypted: None }
    }

    /// Whether `action` can be applied: a field can be sealed when it is not
    /// marked as sealed and has content, and opened when it is marked as
    /// sealed and has both content and a wrapped key.
    pub open spec fn is_ready(self, action: Action) -> bool {
        match action {
            Action::Encrypt => self.is_encrypted != Some(true) && text_of(self.content).len() > 0,
            Action::Decrypt => self.is_encrypted == Some(true) && text_of(self.content).len() > 0
                && text_of(self.hash).len() > 0,
        }
    }
}

/// The envelope of `plain`: its content sealed under `data_key`, and
/// `data_key` sealed under the role key, each with a nonce of its own.
pub open spec fn envelope(
    plain: CipherView,
    role_key: Option<Seq<u8>>,
    data_key: Seq<u8>,
    content_nonce: Seq<u8>,
    hash_nonce: Seq<u8>,
) -> Result<CipherView, ErrorKind> {
    if !plain.is_ready(Action::Encrypt) {
        Err(ErrorKind::NotReady)
    } else {
        match sealed_text(data_key, content_nonce, encode_utf8(text_of(plain.content))) {
            Ok(content) => match role_key {
                Some(key) => match sealed_text(key, hash_nonce, data_key) {
                    Ok(hash) => Ok(
                        CipherView {
                            content: Some(content),
                            hash: Some(hash),
                            is_encrypted: Some(true),
                        },
                    ),
                    Err(_) => Err(ErrorKind::CipherFailure),
                },
                None => Err(ErrorKind::KeyUnavailable),
            },
            Err(_) => Err(ErrorKind::CipherFailure),
        }
    }
}

/// What opening the envelope `sealed` with the role key gives.
pub open spec fn unsealed(sealed: CipherView, role_key: Option<Seq<u8>>) -> Result<
    CipherView,
    ErrorKind,
> {
    if !sealed.is_ready(Action::Decrypt) {
        Err(ErrorKind::NotReady)
    } else {
        match role_key {
            Some(key) => match opened_text(key, text_of(sealed.hash)) {
                Ok(data_key) => match opened_text(data_key, text_of(sealed.content)) {
                    Ok(message) => Ok(
                        CipherView {
                            content: Some(lossy_text(message)),
                            hash: None,
                            is_encrypted: Some(false),
                        },
                    ),
                    Err(_) => Err(ErrorKind::CipherFailure),
                },
                Err(e) => Err(e),
            },
            None => Err(ErrorKind::KeyUnavailable),
        }
    }
}

/// `sealed` is an envelope of `plain` under `key`, for some data key and
/// nonces.
pub open spec fn is_envelope(sealed: CipherView, plain: CipherView, key: Seq<u8>) -> bool {
    exists|data_key: Seq<u8>, content_nonce: Seq<u8>, hash_nonce: Seq<u8>|
        data_key.len() == KEY_LENGTH && content_nonce.len() == NONCE_LENGTH && hash_nonce.len()
            == NONCE_LENGTH && #[trigger] envelope(
            plain,
            Some(key),
            data_key,
            content_nonce,
            hash_nonce,
        ) == Ok::<CipherView, ErrorKind>(sealed)
}

/// The envelope `sealed` has the sizes of an envelope of `plain`: its
/// content is unpadded base64url of a nonce, a tag and the bytes of the plain
/// content, and is longer than the plain content; its wrapped key is
/// unpadded base64url of a nonce, a tag and the 32 bytes of the data key.
pub open spec fn is_sized(sealed: CipherView, plain: CipherView) -> bool {
    &&& holds_bytes(text_of(sealed.content), sealed_len(encode_utf8(text_of(plain.content)).len()))
    &&& holds_bytes(text_of(sealed.hash), sealed_len(KEY_LENGTH as nat))
    &&& text_of(sealed.content).len() > text_of(plain.content).len()
    &&& sealed.content != plain.content
}

/// `outcome` is what sealing `plain` under the role key may come to: it
/// fails with `NotReady` exactly when the field cannot be sealed, and with
/// `KeyUnavailable` exactly when it can but there is no key; otherwise it is
/// an envelope of the field, of an envelope's sizes, that opens to it again
/// under the same key.
pub open spec fn is_sealing(
    plain: CipherView,
    role_key: Option<Seq<u8>>,
    outcome: Result<CipherView, ErrorKind>,
) -> bool {
    if !plain.is_ready(Action::Encrypt) {
        outcome == Err::<CipherView, ErrorKind>(ErrorKind::NotReady)
    } else {
        match role_key {
            Some(key) => match outcome {
                Ok(sealed) => {
                    &&& is_envelope(sealed, plain, key)
                    &&& unsealed(sealed, Some(key)) == Ok::<CipherView, ErrorKind>(restored(plain))
                    &&& is_sized(sealed, plain)
                },
                Err(_) => false,
            },
            None => outcome == Err::<CipherView, ErrorKind>(ErrorKind::KeyUnavailable),
        }
    }
}

/// A field, or the failure in its place, as a mathematical value.
pub open spec fn outcome_view(outcome: Result<Cipher, ErrorKind>) -> Result<
    CipherView,
    ErrorKind,
> {
    match outcome {
        Ok(cipher) => Ok(cipher@),
        Err(e) => Err(e),
    }
}

/// The field that opening an envelope of `plain` gives back: the content of
/// `plain`, no wrapped key, and the mark cleared.
pub open spec fn restored(plain: CipherView) -> CipherView {
    CipherView { content: plain.content, hash: None, is_encrypted: Some(false) }
}

/// The content that a reader with the role key sees: what the envelope holds
/// where it opens, and the stored content where it does not.
pub open spec fn plain_text(field: CipherView, role_key: Option<Seq<u8>>) -> Seq<char> {
    match unsealed(field, role_key) {
        Ok(opened) => text_of(opened.content),
        Err(_) => text_of(field.content),
    }
}

/// Sealing and then opening under the same key gives the content back:
/// whatever sealing a field came to, if it came to an envelope then the
/// envelope opens, to the content of the field, with no wrapped key and
/// marked as not encrypted.
pub proof fn lemma_sealing_round_trips(plain: CipherView, key: Seq<u8>, sealed: CipherView)
    requires
        is_sealing(plain, Some(key), Ok(sealed)),
    ensures
        sealed.is_encrypted == Some(true),
        unsealed(sealed, Some(key)) matches Ok(opened) && opened.content == plain.content
            && opened.hash is None && opened.is_encrypted == Some(false),
        text_of(plain.content).len() > 0,
{
}

/// A sealed field cannot be sealed again: whatever the key and the random
/// material, sealing an envelope fails with `NotReady`.
pub proof fn lemma_envelope_is_not_sealed_again(
    plain: CipherView,
    role_key: Option<Seq<u8>>,
    data_key: Seq<u8>,
    content_nonce: Seq<u8>,
    hash_nonce: Seq<u8>,
    other_role_key: Option<Seq<u8>>,
    other_data_key: Seq<u8>,
    other_content_nonce: Seq<u8>,
    other_hash_nonce: Seq<u8>,
)
    ensures
        envelope(plain, role_key, data_key, content_nonce, hash_nonce) matches Ok(sealed)
            ==> envelope(
            sealed,
            other_role_key,
            other_data_key,
            other_content_nonce,
            other_hash_nonce,
        ) == Err::<CipherView, ErrorKind>(ErrorKind::NotReady),
{
}

/// A plain field cannot be opened, and an opened field cannot be opened
/// again: both fail with `NotReady`, whatever the key.
pub proof fn lemma_plain_is_not_opened(
    field: CipherView,
    role_key: Option<Seq<u8>>,
    other_role_key: Option<Seq<u8>>,
)
    ensures
        field.is_encrypted != Some(true) ==> unsealed(field, role_key) == Err::<
            CipherView,
            ErrorKind,
        >(ErrorKind::NotReady),
        unsealed(field, role_key) matches Ok(opened) ==> unsealed(opened, other_role_key)
            == Err::<CipherView, ErrorKind>(ErrorKind::NotReady),
{
}

/// An envelope that opens under one key fails under any other key of the
/// right length only as a cipher failure: it is never reported as not
/// ready, nor the key as unavailable.
pub proof fn lemma_other_key_fails_as_cipher_failure(
    sealed: CipherView,
    key: Seq<u8>,
    other: Seq<u8>,
)
    requires
        unsealed(sealed, Some(key)) is Ok,
        other.len() == KEY_LENGTH,
    ensures
        unsealed(sealed, Some(other)) matches Err(e) ==> e == ErrorKind::CipherFailure,
{
}

fn copy_text(field: &Option<String>) -> (copy: Option<String>)
    ensures
        copy == *field,
{
    match field {
        Some(text) => Some(text.clone()),
        None => None,
    }
}

fn is_blank(field: &Option<String>) -> (blank: bool)
    ensures
        blank == (text_of(chars_of(*field)).len() == 0),
{
    match field {
        Some(text) => text.as_str().is_empty(),
        None => true,
    }
}

impl Clone for Cipher {
    fn clone(&self) -> (copy: Cipher)
        ensures
            copy == *self,
    {
        Cipher {
            content: copy_text(&self.content),
            hash: copy_text(&self.hash),
            is_encrypted: self.is_encrypted,
        }
    }
}

impl Default for Cipher {
    fn default() -> (cipher: Cipher)
        ensures
            cipher@ == CipherView::empty(),
    {
        Cipher { content: None, hash: None, is_encrypted: None }
    }
}

impl IsEmpty for Cipher {
    /// Whether no attribute of the field is set.
    fn is_empty(&self) -> (empty: bool)
        ensures
            empty == (self@ == CipherView::empty()),
    {
        self.content.is_none() && self.hash.is_none() && self.is_encrypted.is_none()
    }
}

impl Cipher {
    /// A plain field that holds `content`.
    pub fn new(content: &str) -> (cipher: Cipher)
        ensures
            cipher@ == (CipherView { content: Some(content@), hash: None, is_encrypted: None }),
    {
        Cipher { content: Some(content.to_owned()), hash: None, is_encrypted: None }
    }

    /// The content of the field, or the empty string where it has none.
    pub fn to_string(&self) -> (text: String)
        ensures
            text@ == text_of(self@.content),
    {
        match &self.content {
            Some(text) => text.clone(),
            None => String::new(),
        }
    }

    /// Whether `action` can be applied to the field.
    pub fn is_ready(&self, action: Action) -> (ready: bool)
        ensures
            ready == self@.is_ready(action),
    {
        let is_encrypted = match self.is_encrypted {
            Some(mark) => mark,
            None => false,
        };
        let is_empty_content = is_blank(&self.content);
        let is_empty_hash = is_blank(&self.hash);
        match action {
            Action::Encrypt => !is_encrypted && !is_empty_content,
            Action::Decrypt => is_encrypted && !is_empty_content && !is_empty_hash,
        }
    }

    /// Seals the field in an envelope made of the given data key and nonces.
    ///
    /// Fails with `NotReady` when the field cannot be sealed, with
    /// `KeyUnavailable` when the keystore has no usable key for `role`, and
    /// with `CipherFailure` when the data key is not 32 bytes or a nonce is
    /// not 24 bytes long. Otherwise the result is the envelope, and opening
    /// it under the same role restores the content.
    pub fn seal(
        &self,
        role: Role,
        keys: &Keystore,
        data_key: &[u8],
        content_nonce: &[u8],
        hash_nonce: &[u8],
    ) -> (sealed: Result<Cipher, ErrorKind>)
        ensures
            outcome_view(sealed) == envelope(
                self@,
                keys.key(role),
                data_key@,
                content_nonce@,
                hash_nonce@,
            ),
            sealed matches Ok(c) ==> {
                &&& unsealed(c@, keys.key(role)) == Ok::<CipherView, ErrorKind>(restored(self@))
                &&& starts_with_nonce(text_of(c@.content), content_nonce@)
                &&& starts_with_nonce(text_of(c@.hash), hash_nonce@)
                &&& is_sized(c@, self@)
            },
    {
        if !self.is_ready(Action::Encrypt) {
            return Err(ErrorKind::NotReady);
        }
        let plain = self.to_string();
        let content = match seal_text(data_key, content_nonce, plain.as_str().as_bytes()) {
            Ok(content) => content,
            Err(_) => {
                return Err(ErrorKind::CipherFailure);
            },
        };
        let key = match keys.resolve(role) {
            Ok(key) => key,
            Err(e) => {
                return Err(e);
            },
        };
        let hash = match seal_text(key.as_slice(), hash_nonce, data_key) {
            Ok(hash) => hash,
            Err(_) => {
                return Err(ErrorKind::CipherFailure);
            },
        };
        proof {
            vstd::utf8::encode_utf8_valid_utf8(plain@);
            vstd::utf8::encode_utf8_decode_utf8(plain@);
            lemma_utf8_is_no_shorter(plain@);
        }
        Ok(Cipher { content: Some(content), hash: Some(hash), is_encrypted: Some(true) })
    }

    /// Seals the field under the key of `role`, with a fresh data key and
    /// fresh nonces.
    ///
    /// Fails with `NotReady` exactly when the field cannot be sealed, and
    /// with `KeyUnavailable` exactly when it can but the keystore has no
    /// usable key for `role`. Otherwise the result is an envelope of the
    /// field, and `decrypt` under the same role restores the content.
    pub fn encrypt(&self, role: Role, keys: &Keystore) -> (sealed: Result<Cipher, ErrorKind>)
        ensures
            is_sealing(self@, keys.key(role), outcome_view(sealed)),
    {
        if !self.is_ready(Action::Encrypt) {
            return Err(ErrorKind::NotReady);
        }
        let data_key = match decode(generate().as_str()) {
            Some(data_key) => data_key,
            None => {
                return Err(ErrorKind::CipherFailure);
            },
        };
        let content_nonce = fresh_nonce();
        let hash_nonce = fresh_nonce();
        self.seal(role, keys, data_key.as_slice(), content_nonce.as_slice(), hash_nonce.as_slice())
    }

    /// Opens the envelope under the key of `role`.
    ///
    /// Fails with `NotReady` when the field is not a sealed one, with
    /// `KeyUnavailable` when the keystore has no usable key for `role`, and
    /// with `CipherFailure` when the wrapped key or the content does not
    /// open. On success the content is the plain text, the wrapped key is
    /// gone and the mark is cleared.
    pub fn decrypt(&self, role: Role, keys: &Keystore) -> (opened: Result<Cipher, ErrorKind>)
        ensures
            outcome_view(opened) == unsealed(self@, keys.key(role)),
    {
        if !self.is_ready(Action::Decrypt) {
            return Err(ErrorKind::NotReady);
        }
        let key = match keys.resolve(role) {
            Ok(key) => key,
            Err(e) => {
                return Err(e);
            },
        };
        let hash = match &self.hash {
            Some(hash) => hash.as_str(),
            None => "",
        };
        let data_key = match open_text(key.as_slice(), hash) {
            Ok(data_key) => data_key,
            Err(e) => {
                return Err(e);
            },
        };
        let content = match &self.content {
            Some(content) => content.as_str(),
            None => "",
        };
        let message = match open_text(data_key.as_slice(), content) {
            Ok(message) => message,
            Err(_) => {
                return Err(ErrorKind::CipherFailure);
            },
        };
        Ok(
            Cipher {
                content: Some(read_lossy(message.as_slice())),
                hash: None,
                is_encrypted: Some(false),
            },
        )
    }

    /// Seals the field under the master key.
    pub fn encrypt_master(&self, keys: &Keystore) -> (sealed: Result<Cipher, ErrorKind>)
        ensures
            is_sealing(self@, keys.key(Role::Master), outcome_view(sealed)),
    {
        self.encrypt(Role::Master, keys)
    }

    /// Seals the field under the web key.
    pub fn encrypt_web(&self, keys: &Keystore) -> (sealed: Result<Cipher, ErrorKind>)
        ensures
            is_sealing(self@, keys.key(Role::Web), outcome_view(sealed)),
    {
        self.encrypt(Role::Web, keys)
    }

    /// Opens the envelope under the master key.
    pub fn decrypt_master(&self, keys: &Keystore) -> (opened: Result<Cipher, ErrorKind>)
        ensures
            outcome_view(opened) == unsealed(self@, keys.key(Role::Master)),
    {
        self.decrypt(Role::Master, keys)
    }

    /// Opens the envelope under the web key.
    pub fn decrypt_web(&self, keys: &Keystore) -> (opened: Result<Cipher, ErrorKind>)
        ensures
            outcome_view(opened) == unsealed(self@, keys.key(Role::Web)),
    {
        self.decrypt(Role::Web, keys)
    }

    /// The plain content as far as `role` can tell it: the opened content
    /// where the envelope opens, and the stored content where it does not.
    pub fn get_string(&self, role: Role, keys: &Keystore) -> (text: String)
        ensures
            text@ == plain_text(self@, keys.key(role)),
    {
        match self.decrypt(role, keys) {
            Ok(value) => value.to_string(),
            Err(_) => self.to_string(),
        }
    }

    /// The plain content as far as the master key can tell it.
    pub fn get_string_from_master(&self, keys: &Keystore) -> (text: String)
        ensures
            text@ == plain_text(self@, keys.key(Role::Master)),
    {
        self.get_string(Role::Master, keys)
    }

    /// The plain content as far as the web key can tell it.
    pub fn get_string_from_web(&self, keys: &Keystore) -> (text: String)
        ensures
            text@ == plain_text(self@, keys.key(Role::Web)),
    {
        self.get_string(Role::Web, keys)
    }
}

} // verus!
