//! Lifetimes, issuing and validation of tokens.
//!
//! Access and refresh tokens are local tokens: the claims, the subject and
//! the expiry, encrypted under the signing key of their kind and bound to
//! the footer `key-id:` followed by the application's name. The web token
//! is the claims sealed under the web key, without an expiry.

use vstd::prelude::*;
use vstd::string::{StringExecFns, StringSliceAdditionalSpecFns};
use vstd::utf8::encode_utf8;
use crate::ciphers::cipher::{text_of, Cipher, CipherView};
use crate::ciphers::fields::{field_view, or_empty};
use crate::ciphers::{decrypt, decrypted, encrypt, encrypted, text_outcome};
use crate::ciphers::{holds_bytes, sealed_len};
use crate::clock::{now, Timestamp, NANOS_PER_SECOND};
use crate::codec::{base64url_bytes, decode};
use crate::errors::{ErrorKind, IssueError, TokenKind};
use crate::keystore::{key_of, Keystore, Role};
use crate::paseto::durations::{expiration, expiration_from, field_text, read_field, Duration};
use crate::paseto::wire::{body_len, build_local, has_body, is_json, judge, verify_local};
use crate::paseto::wire::{is_local_token, well_formed_json, BODY_FLOOR, DATA_CLAIM};
use crate::paseto::wire::{TokenCheck, TokenCheckView, TokenRequest, TokenRequestView};
use crate::paseto::{Paseto, PasetoView};
use crate::secretbox::KEY_LENGTH;
use crate::text::{trim, trimmed};
use crate::tokens::Token;

verus! {

/// The lifetime of an access token whose count cannot be read, in spans.
pub const ACCESS_MINIMUM: i64 = 5;

/// The lifetime of a refresh token whose count cannot be read, in spans.
pub const REFRESH_MINIMUM: i64 = 30;

/// The content that a field holds as it stands, sealed or not.
pub open spec fn stored_text(field: Option<CipherView>) -> Seq<char> {
    text_of(or_empty(field).content)
}

/// The signing key that a field holds: the decoding of its content, where
/// the field is set and that is 32 bytes long.
pub open spec fn signing_key(field: Option<CipherView>) -> Option<Seq<u8>> {
    match field {
        Some(_) => key_of(Some(stored_text(field))),
        None => None,
    }
}

/// The footer that binds a token to the application named by the field.
pub open spec fn footer_of(app_name: Option<CipherView>) -> Seq<char> {
    "key-id:"@ + stored_text(app_name)
}

/// What is handed to the builder for a token issued at an instant with the
/// expiry `expiry`: the signing key that the field `signing` holds, the
/// subject, the footer for the application, and the claims. Without a
/// usable signing key there is nothing to hand over.
pub open spec fn request_of(
    signing: Option<CipherView>,
    app_name: Option<CipherView>,
    expiry: Timestamp,
    aid: Seq<char>,
    claims: Seq<char>,
) -> Result<TokenRequestView, ErrorKind> {
    match signing_key(signing) {
        Some(key) => Ok(
            TokenRequestView {
                key,
                expiry,
                subject: aid,
                footer: footer_of(app_name),
                claims,
            },
        ),
        None => Err(ErrorKind::KeyUnavailable),
    }
}

/// What a presented access token is verified against. There is nothing to
/// verify it against, and the token is invalid, where the record has no
/// signing key or no application name, or the body of the token is too
/// short to hold a nonce; a signing key that is not base64url is
/// unavailable.
pub open spec fn access_check_of(record: PasetoView, token: Seq<u8>) -> Result<
    TokenCheckView,
    ErrorKind,
> {
    match record.access_token_key_signing {
        Some(_) => match base64url_bytes(stored_text(record.access_token_key_signing)) {
            Some(key) => if record.app_name is None || body_len(token) < BODY_FLOOR {
                Err(ErrorKind::TokenInvalid)
            } else {
                Ok(TokenCheckView { key, footer: footer_of(record.app_name) })
            },
            None => Err(ErrorKind::KeyUnavailable),
        },
        None => Err(ErrorKind::TokenInvalid),
    }
}

/// What a presented refresh token is verified against. There is nothing to
/// verify it against, and the token is invalid, where the record has no
/// signing key or no application name, the signing key is not base64url, or
/// the body of the token is too short to hold a nonce.
pub open spec fn refresh_check_of(record: PasetoView, token: Seq<u8>) -> Result<
    TokenCheckView,
    ErrorKind,
> {
    if record.refresh_token_key_signing is None || record.app_name is None {
        Err(ErrorKind::TokenInvalid)
    } else {
        match base64url_bytes(stored_text(record.refresh_token_key_signing)) {
            Some(key) => if body_len(token) < BODY_FLOOR {
                Err(ErrorKind::TokenInvalid)
            } else {
                Ok(TokenCheckView { key, footer: footer_of(record.app_name) })
            },
            None => Err(ErrorKind::TokenInvalid),
        }
    }
}

impl PasetoView {
    /// The lifetime of access tokens, as `key` lets it be read.
    pub open spec fn access_duration(self, key: Option<Seq<u8>>) -> Duration {
        Duration::of_text(
            field_text(self.access_token_key_unit, key),
            field_text(self.access_token_key_time, key),
            ACCESS_MINIMUM,
        )
    }

    /// The lifetime of refresh tokens, as `key` lets it be read.
    pub open spec fn refresh_duration(self, key: Option<Seq<u8>>) -> Duration {
        Duration::of_text(
            field_text(self.refresh_token_key_unit, key),
            field_text(self.refresh_token_key_time, key),
            REFRESH_MINIMUM,
        )
    }
}

/// The failure to make the token `token`, for the reason `kind`.
pub open spec fn failed(token: Option<TokenKind>, kind: ErrorKind) -> IssueError {
    IssueError { token, kind }
}

/// Whether a validation ended as a verification can: with claims, with
/// `TokenExpired` or with `TokenInvalid`.
pub open spec fn is_verdict(claims: Result<String, ErrorKind>) -> bool {
    match claims {
        Ok(_) => true,
        Err(e) => e == ErrorKind::TokenExpired || e == ErrorKind::TokenInvalid,
    }
}

/// A request, or the failure in its place, as a mathematical value.
pub open spec fn request_view(request: Result<TokenRequest, ErrorKind>) -> Result<
    TokenRequestView,
    ErrorKind,
> {
    match request {
        Ok(r) => Ok(r@),
        Err(e) => Err(e),
    }
}

/// A check, or the failure in its place, as a mathematical value.
pub open spec fn check_view(check: Result<TokenCheck, ErrorKind>) -> Result<
    TokenCheckView,
    ErrorKind,
> {
    match check {
        Ok(c) => Ok(c@),
        Err(e) => Err(e),
    }
}

/// The content of a field as it stands.
fn stored(field: &Option<Cipher>) -> (text: String)
    ensures
        text@ == stored_text(field_view(*field)),
{
    match field {
        Some(cipher) => cipher.to_string(),
        None => String::new(),
    }
}

/// The footer for the application named by `app_name`.
fn footer(app_name: &Option<Cipher>) -> (text: String)
    ensures
        text@ == footer_of(field_view(*app_name)),
{
    let name = stored(app_name);
    String::from_str("key-id:").concat(name.as_str())
}

/// The signing key that `field` holds, or `KeyUnavailable`.
fn signing(field: &Option<Cipher>) -> (key: Result<Vec<u8>, ErrorKind>)
    ensures
        match key {
            Ok(k) => signing_key(field_view(*field)) == Some(k@),
            Err(e) => e == ErrorKind::KeyUnavailable && signing_key(field_view(*field)) is None,
        },
{
    if field.is_none() {
        return Err(ErrorKind::KeyUnavailable);
    }
    let text = stored(field);
    match decode(text.as_str()) {
        Some(key) => if key.len() == KEY_LENGTH {
            Ok(key)
        } else {
            Err(ErrorKind::KeyUnavailable)
        },
        None => Err(ErrorKind::KeyUnavailable),
    }
}

impl Paseto {
    /// The lifetime that the fields `unit` and `time` configure, each read
    /// as its plain content. A count that is no number stands for `min`, or
    /// for zero where `min` is negative; a span that names none stands for
    /// minutes.
    pub fn get_duration(
        unit: &Option<Cipher>,
        time: &Option<Cipher>,
        min: i64,
        keys: &Keystore,
    ) -> (duration: Duration)
        ensures
            duration == Duration::of_text(
                field_text(field_view(*unit), keys.key(Role::Master)),
                field_text(field_view(*time), keys.key(Role::Master)),
                min,
            ),
    {
        let unit = read_field(unit, keys);
        let time = read_field(time, keys);
        Duration::from_text(unit.as_str(), time.as_str(), min)
    }

    /// The instant that lies `duration` after the present, or the start of
    /// 1970 where that is out of range.
    pub fn get_expiration_date(duration: &Duration) -> (expiry: Timestamp)
        ensures
            exists|at: Timestamp| at.nanos < NANOS_PER_SECOND && expiry == #[trigger] expiration(
                at,
                *duration,
            ),
    {
        expiration_from(now(), duration)
    }

    /// What is handed to the builder for an access token issued at `at`.
    /// Fails, with `KeyUnavailable`, exactly when the record holds no usable
    /// signing key for access tokens.
    pub fn access_request(
        &self,
        at: Timestamp,
        aid: &str,
        claims: &str,
        keys: &Keystore,
    ) -> (request: Result<TokenRequest, ErrorKind>)
        ensures
            request_view(request) == request_of(
                self@.access_token_key_signing,
                self@.app_name,
                expiration(at, self@.access_duration(keys.key(Role::Master))),
                aid@,
                claims@,
            ),
    {
        let duration = Self::get_duration(
            &self.access_token_key_unit,
            &self.access_token_key_time,
            ACCESS_MINIMUM,
            keys,
        );
        let key = match signing(&self.access_token_key_signing) {
            Ok(key) => key,
            Err(e) => {
                return Err(e);
            },
        };
        Ok(
            TokenRequest {
                key,
                expiry: expiration_from(at, &duration),
                subject: aid.to_owned(),
                footer: footer(&self.app_name),
                claims: claims.to_owned(),
            },
        )
    }

    /// What is handed to the builder for a refresh token issued at `at`.
    /// Fails, with `KeyUnavailable`, exactly when the record holds no usable
    /// signing key for refresh tokens.
    pub fn refresh_request(
        &self,
        at: Timestamp,
        aid: &str,
        claims: &str,
        keys: &Keystore,
    ) -> (request: Result<TokenRequest, ErrorKind>)
        ensures
            request_view(request) == request_of(
                self@.refresh_token_key_signing,
                self@.app_name,
                expiration(at, self@.refresh_duration(keys.key(Role::Master))),
                aid@,
                claims@,
            ),
    {
        let duration = Self::get_duration(
            &self.refresh_token_key_unit,
            &self.refresh_token_key_time,
            REFRESH_MINIMUM,
            keys,
        );
        let key = match signing(&self.refresh_token_key_signing) {
            Ok(key) => key,
            Err(e) => {
                return Err(e);
            },
        };
        Ok(
            TokenRequest {
                key,
                expiry: expiration_from(at, &duration),
                subject: aid.to_owned(),
                footer: footer(&self.app_name),
                claims: claims.to_owned(),
            },
        )
    }

    /// Issues the three tokens for the subject `aid` with the claims
    /// `claims`, a JSON document.
    ///
    /// All three tokens are issued, or none, and the error names the first
    /// token that could not be made. The call fails with
    /// `ClaimsShapeMismatch` when the claims are no JSON document, with
    /// `KeyUnavailable` when a signing key or the web key is unusable, and
    /// with `CipherFailure` when a token cannot be built. The access and
    /// the refresh token have the form of a local token bound to the
    /// application's footer, so that, where the record names the
    /// application, each is verified when it is presented again. The web
    /// token is the trimmed claims sealed under the web key.
    pub fn generate_tokens(&self, aid: &str, claims: &str, keys: &Keystore) -> (tokens: Result<
        Token,
        IssueError,
    >)
        ensures
            match tokens {
                Ok(t) => {
                    &&& well_formed_json(claims@)
                    &&& signing_key(self@.access_token_key_signing) is Some
                    &&& signing_key(self@.refresh_token_key_signing) is Some
                    &&& is_local_token(t.access@, encode_utf8(footer_of(self@.app_name)))
                    &&& is_local_token(t.refresh@, encode_utf8(footer_of(self@.app_name)))
                    &&& self.app_name is Some ==> access_check_of(self@, encode_utf8(t.access@))
                        is Ok && refresh_check_of(self@, encode_utf8(t.refresh@)) is Ok
                    &&& match keys.key(Role::Web) {
                        Some(k) => encrypted(trimmed(claims@), k, t.web@) && decrypted(
                            t.web@,
                            Some(k),
                        ) == Ok::<Seq<char>, ErrorKind>(trimmed(claims@)),
                        None => false,
                    }
                    &&& holds_bytes(t.web@, sealed_len(encode_utf8(trimmed(claims@)).len()))
                    &&& t.web@.len() > 0
                },
                Err(e) => if !well_formed_json(claims@) {
                    e == failed(None, ErrorKind::ClaimsShapeMismatch)
                } else if signing_key(self@.access_token_key_signing) is None {
                    e == failed(Some(TokenKind::Access), ErrorKind::KeyUnavailable)
                } else if e.token == Some(TokenKind::Access) {
                    e.kind == ErrorKind::CipherFailure
                } else if signing_key(self@.refresh_token_key_signing) is None {
                    e == failed(Some(TokenKind::Refresh), ErrorKind::KeyUnavailable)
                } else if e.token == Some(TokenKind::Refresh) {
                    e.kind == ErrorKind::CipherFailure
                } else {
                    e == failed(Some(TokenKind::Web), ErrorKind::KeyUnavailable) && keys.key(
                        Role::Web,
                    ) is None
                },
            },
    {
        if !is_json(claims) {
            return Err(IssueError { token: None, kind: ErrorKind::ClaimsShapeMismatch });
        }
        let access = Some(TokenKind::Access);
        let access_request = match self.access_request(now(), aid, claims, keys) {
            Ok(request) => request,
            Err(kind) => {
                return Err(IssueError { token: access, kind });
            },
        };
        let access_token = match build_local(&access_request, DATA_CLAIM) {
            Some(token) => token,
            None => {
                return Err(IssueError { token: access, kind: ErrorKind::CipherFailure });
            },
        };

        let refresh = Some(TokenKind::Refresh);
        let refresh_request = match self.refresh_request(now(), aid, claims, keys) {
            Ok(request) => request,
            Err(kind) => {
                return Err(IssueError { token: refresh, kind });
            },
        };
        let refresh_token = match build_local(&refresh_request, DATA_CLAIM) {
            Some(token) => token,
            None => {
                return Err(IssueError { token: refresh, kind: ErrorKind::CipherFailure });
            },
        };

        let encrypted = match encrypt(trim(claims), Role::Web, keys) {
            Ok(text) => text,
            Err(kind) => {
                return Err(IssueError { token: Some(TokenKind::Web), kind });
            },
        };

        Ok(Token { access: access_token, refresh: refresh_token, web: encrypted })
    }

    /// What the access token `token` is verified against, or why it is not
    /// verified at all.
    pub fn access_check(&self, token: &str) -> (check: Result<TokenCheck, ErrorKind>)
        ensures
            check_view(check) == access_check_of(self@, token.spec_bytes()),
    {
        let access_token_key_signing = match &self.access_token_key_signing {
            Some(value) => value.to_string(),
            None => {
                return Err(ErrorKind::TokenInvalid);
            },
        };
        let access_token_signing = match decode(access_token_key_signing.as_str()) {
            Some(value) => value,
            None => {
                return Err(ErrorKind::KeyUnavailable);
            },
        };
        if self.app_name.is_none() || !has_body(token) {
            return Err(ErrorKind::TokenInvalid);
        }
        Ok(TokenCheck { key: access_token_signing, footer: footer(&self.app_name) })
    }

    /// What the refresh token `token` is verified against, or why it is not
    /// verified at all.
    pub fn refresh_check(&self, token: &str) -> (check: Result<TokenCheck, ErrorKind>)
        ensures
            check_view(check) == refresh_check_of(self@, token.spec_bytes()),
    {
        if self.refresh_token_key_signing.is_none() || self.app_name.is_none() {
            return Err(ErrorKind::TokenInvalid);
        }
        let refresh_token_key_signing = stored(&self.refresh_token_key_signing);
        let refresh_token_signing = match decode(refresh_token_key_signing.as_str()) {
            Some(value) => value,
            None => {
                return Err(ErrorKind::TokenInvalid);
            },
        };
        if !has_body(token) {
            return Err(ErrorKind::TokenInvalid);
        }
        Ok(TokenCheck { key: refresh_token_signing, footer: footer(&self.app_name) })
    }

    /// Validates an access token and hands back its `data` claim as JSON
    /// text.
    ///
    /// Where there is nothing to verify the token against, the call fails
    /// as `access_check` does. Otherwise the token is verified against the
    /// signing key and the footer, and the result is the verdict on what
    /// came of it: the claims, `TokenExpired` or `TokenInvalid`.
    pub fn validate_access_token(&self, token: &str) -> (claims: Result<String, ErrorKind>)
        ensures
            match access_check_of(self@, token.spec_bytes()) {
                Ok(_) => is_verdict(claims),
                Err(e) => claims == Err::<String, ErrorKind>(e),
            },
    {
        match self.access_check(token) {
            Ok(check) => judge(verify_local(token, &check, DATA_CLAIM)),
            Err(e) => Err(e),
        }
    }

    /// Validates a refresh token and hands back its `data` claim as JSON
    /// text.
    ///
    /// Where there is nothing to verify the token against, the call fails
    /// as `refresh_check` does. Otherwise the token is verified against the
    /// signing key and the footer, and the result is the verdict on what
    /// came of it: the claims, `TokenExpired` or `TokenInvalid`.
    pub fn validate_refresh_token(&self, token: &str) -> (claims: Result<String, ErrorKind>)
        ensures
            match refresh_check_of(self@, token.spec_bytes()) {
                Ok(_) => is_verdict(claims),
                Err(e) => claims == Err::<String, ErrorKind>(e),
            },
    {
        match self.refresh_check(token) {
            Ok(check) => judge(verify_local(token, &check, DATA_CLAIM)),
            Err(e) => Err(e),
        }
    }

    /// Validates a web token and hands back the claims sealed in it.
    ///
    /// Fails with `KeyUnavailable` when the keystore has no usable web key,
    /// and with `TokenInvalid` when the token does not open under it.
    pub fn validate_web_token(&self, token: &str, keys: &Keystore) -> (claims: Result<
        String,
        ErrorKind,
    >)
        ensures
            text_outcome(claims) == (match decrypted(token@, keys.key(Role::Web)) {
                Ok(text) => Ok(text),
                Err(ErrorKind::KeyUnavailable) => Err(ErrorKind::KeyUnavailable),
                Err(_) => Err(ErrorKind::TokenInvalid),
            }),
    {
        match decrypt(token, Role::Web, keys) {
            Ok(text) => Ok(text),
            Err(ErrorKind::KeyUnavailable) => Err(ErrorKind::KeyUnavailable),
            Err(_) => Err(ErrorKind::TokenInvalid),
        }
    }

    /// When an access token issued now would expire.
    pub fn get_access_token_expiry(&self, keys: &Keystore) -> (expiry: Timestamp)
        ensures
            exists|at: Timestamp|
                at.nanos < NANOS_PER_SECOND && expiry == #[trigger] expiration(
                    at,
                    self@.access_duration(keys.key(Role::Master)),
                ),
    {
        let duration = Self::get_duration(
            &self.access_token_key_unit,
            &self.access_token_key_time,
            ACCESS_MINIMUM,
            keys,
        );
        Self::get_expiration_date(&duration)
    }

    /// When a refresh token issued now would expire.
    pub fn get_refresh_token_expiry(&self, keys: &Keystore) -> (expiry: Timestamp)
        ensures
            exists|at: Timestamp|
                at.nanos < NANOS_PER_SECOND && expiry == #[trigger] expiration(
                    at,
                    self@.refresh_duration(keys.key(Role::Master)),
                ),
    {
        let duration = Self::get_duration(
            &self.refresh_token_key_unit,
            &self.refresh_token_key_time,
            REFRESH_MINIMUM,
            keys,
        );
        Self::get_expiration_date(&duration)
    }
}

} // verus!
