//! Local tokens on the wire: building one, verifying one, and the checks on
//! a token's text that come before verification.
//!
//! A local token is the text `v2.local.`, the base64url body, and, after
//! one more dot, the base64url footer. The body holds a 24-byte nonce and
//! the ciphertext of the claims.

use vstd::prelude::*;
use vstd::string::StringSliceAdditionalSpecFns;
use vstd::utf8::encode_utf8;
use chrono::DateTime;
use ::paseto::tokens::{validate_local_token, PasetoBuilder, TimeBackend};
use crate::ciphers::text_outcome;
use crate::clock::Timestamp;
use crate::codec::base64url_text;
use crate::errors::ErrorKind;
use crate::text::{lowercase, same_text, to_lowercase};

verus! {

/// The byte that parts of a token are separated by.
pub const DOT: u8 = 0x2e;

/// The least number of characters of a body that is certain to hold a
/// nonce: 36 characters decode to 24 bytes or more, with or without padding.
pub const BODY_FLOOR: usize = 36;

/// The least number of characters of the body of a token that was built: a
/// nonce and a tag are 40 bytes, which take 54 characters.
pub const BODY_LEAST: usize = 54;

/// The name under which a token carries its claims.
pub const DATA_CLAIM: &'static str = "data";

/// What goes into a local token.
#[derive(Debug, PartialEq)]
pub struct TokenRequest {
    /// The signing key.
    pub key: Vec<u8>,
    /// The instant after which the token is no longer valid.
    pub expiry: Timestamp,
    /// Whom the token is issued to.
    pub subject: String,
    /// What the token is bound to.
    pub footer: String,
    /// The claims, as JSON text.
    pub claims: String,
}

/// A token request as a mathematical value.
pub struct TokenRequestView {
    pub key: Seq<u8>,
    pub expiry: Timestamp,
    pub subject: Seq<char>,
    pub footer: Seq<char>,
    pub claims: Seq<char>,
}

impl View for TokenRequest {
    type V = TokenRequestView;

    open spec fn view(&self) -> TokenRequestView {
        TokenRequestView {
            key: self.key@,
            expiry: self.expiry,
            subject: self.subject@,
            footer: self.footer@,
            claims: self.claims@,
        }
    }
}

/// What a presented token is verified against.
#[derive(Debug, PartialEq)]
pub struct TokenCheck {
    /// The signing key.
    pub key: Vec<u8>,
    /// What the token has to be bound to.
    pub footer: String,
}

/// A token check as a mathematical value.
pub struct TokenCheckView {
    pub key: Seq<u8>,
    pub footer: Seq<char>,
}

impl View for TokenCheck {
    type V = TokenCheckView;

    open spec fn view(&self) -> TokenCheckView {
        TokenCheckView { key: self.key@, footer: self.footer@ }
    }
}

/// Whether `text` is a JSON document.
pub uninterp spec fn well_formed_json(text: Seq<char>) -> bool;

/// The position of the first dot at or after `from`, or the length of the
/// text where there is none.
pub open spec fn dot_from(bytes: Seq<u8>, from: int) -> int
    decreases bytes.len() - from,
{
    if from < 0 || from >= bytes.len() {
        bytes.len() as int
    } else if bytes[from] == DOT {
        from
    } else {
        dot_from(bytes, from + 1)
    }
}

/// Where the body of a token starts: behind its second dot.
pub open spec fn body_start(bytes: Seq<u8>) -> int {
    dot_from(bytes, dot_from(bytes, 0) + 1) + 1
}

/// The length of a token's body: what stands between the second dot and the
/// third, or the end. A text with fewer than two dots has no body.
pub open spec fn body_len(bytes: Seq<u8>) -> int {
    if body_start(bytes) > bytes.len() {
        0
    } else {
        dot_from(bytes, body_start(bytes)) - body_start(bytes)
    }
}

/// What follows the body of a token bound to `footer`: nothing where the
/// footer is empty, and otherwise a dot and the footer in unpadded
/// base64url.
pub open spec fn footer_tail(footer: Seq<u8>) -> Seq<char> {
    if footer.len() == 0 {
        Seq::empty()
    } else {
        "."@ + base64url_text(footer)
    }
}

/// `token` has the form of a local token bound to `footer`: it starts with
/// `v2.local.`, its body has at least 54 characters, and it ends with what
/// follows the body for that footer.
pub open spec fn is_local_token(token: Seq<char>, footer: Seq<u8>) -> bool {
    &&& token.len() >= 9 + BODY_LEAST + footer_tail(footer).len()
    &&& token.subrange(0, 9) == "v2.local."@
    &&& token.subrange(token.len() - footer_tail(footer).len(), token.len() as int)
        == footer_tail(footer)
    &&& body_len(encode_utf8(token)) >= BODY_LEAST
}

/// What verification of a token came to: the `data` claim of an authentic
/// token, `TokenExpired` where the verifier's message, in lower case, is
/// its notice of expiry, and `TokenInvalid` for everything else, an
/// authentic token without a `data` claim included.
pub open spec fn verdict(outcome: Result<Option<Seq<char>>, Seq<char>>) -> Result<
    Seq<char>,
    ErrorKind,
> {
    match outcome {
        Ok(Some(data)) => Ok(data),
        Ok(None) => Err(ErrorKind::TokenInvalid),
        Err(message) => if lowercase(message) == "this token is expired (exp claim)."@ {
            Err(ErrorKind::TokenExpired)
        } else {
            Err(ErrorKind::TokenInvalid)
        },
    }
}

/// Calls `serde_json::from_str`. Trusted: it accepts JSON documents and
/// nothing else.
#[verifier::external_body]
pub(crate) fn is_json(text: &str) -> (accepted: bool)
    ensures
        accepted == well_formed_json(text@),
{
    serde_json::from_str::<serde_json::Value>(text).is_ok()
}

/// Builds a local token with `paseto::tokens::PasetoBuilder`: the expiry,
/// the subject and, under the name `claim`, the claims, encrypted under the
/// key and bound to the footer. `None` stands for every failure, an expiry
/// that the calendar cannot express included. The token depends on a nonce
/// drawn inside, so only its form is claimed: the header, a body that holds
/// at least a nonce and a tag, and the footer in unpadded base64url.
#[verifier::external_body]
pub(crate) fn build_local(request: &TokenRequest, claim: &str) -> (token: Option<String>)
    ensures
        match token {
            Some(t) => is_local_token(t@, encode_utf8(request.footer@)),
            None => true,
        },
{
    let data = serde_json::from_str::<serde_json::Value>(&request.claims).ok()?;
    let expiry = DateTime::from_timestamp(request.expiry.seconds, request.expiry.nanos)?;
    PasetoBuilder::new()
        .set_encryption_key(&request.key)
        .set_expiration(&expiry)
        .set_subject(&request.subject)
        .set_footer(&request.footer)
        .set_claim(claim, data)
        .build()
        .ok()
}

/// Calls `paseto::tokens::validate_local_token`, which reads the clock.
/// Hands back the claim named `claim` of an authentic token as JSON text,
/// where it has one, or the verifier's message. Nothing is claimed of the
/// outcome. The verifier splits the decoded body after 24 bytes without
/// looking at its length, so the body must be long enough.
#[verifier::external_body]
pub(crate) fn verify_local(token: &str, check: &TokenCheck, claim: &str) -> (outcome: Result<
    Option<String>,
    String,
>)
    requires
        body_len(token.spec_bytes()) >= BODY_FLOOR,
{
    match validate_local_token(token, Some(&check.footer), &check.key, &TimeBackend::Chrono) {
        Ok(claims) => match claims.get(claim) {
            Some(data) => Ok(Some(data.to_string())),
            None => Ok(None),
        },
        Err(error) => Err(error.to_string()),
    }
}

/// The position of the first dot at or after `from`.
fn find_dot(bytes: &[u8], from: usize) -> (at: usize)
    requires
        from <= bytes@.len(),
    ensures
        at == dot_from(bytes@, from as int),
        from <= at <= bytes@.len(),
{
    let mut at: usize = from;
    while at < bytes.len() && bytes[at] != DOT
        invariant
            from <= at <= bytes@.len(),
            dot_from(bytes@, at as int) == dot_from(bytes@, from as int),
        decreases bytes@.len() - at,
    {
        at = at + 1;
    }
    at
}

/// Whether the body of `token` is long enough to hold a nonce.
pub fn has_body(token: &str) -> (long: bool)
    ensures
        long == (body_len(token.spec_bytes()) >= BODY_FLOOR),
{
    let bytes = token.as_bytes();
    let first = find_dot(bytes, 0);
    if first >= bytes.len() {
        return false;
    }
    let second = find_dot(bytes, first + 1);
    if second >= bytes.len() {
        return false;
    }
    let start = second + 1;
    let end = find_dot(bytes, start);
    end - start >= BODY_FLOOR
}

/// Whether the lower-case `message` is the verifier's notice of expiry.
pub fn is_expiry_notice(message: &str) -> (expired: bool)
    ensures
        expired == (message@ == "this token is expired (exp claim)."@),
{
    same_text(message, "this token is expired (exp claim).")
}

/// What verification came to, as a mathematical value.
pub open spec fn outcome_view(outcome: Result<Option<String>, String>) -> Result<
    Option<Seq<char>>,
    Seq<char>,
> {
    match outcome {
        Ok(Some(data)) => Ok(Some(data@)),
        Ok(None) => Ok(None),
        Err(message) => Err(message@),
    }
}

/// The result of a validation, given what verification came to: the
/// verdict on it.
pub fn judge(outcome: Result<Option<String>, String>) -> (claims: Result<String, ErrorKind>)
    ensures
        text_outcome(claims) == verdict(outcome_view(outcome)),
{
    match outcome {
        Ok(Some(data)) => Ok(data),
        Ok(None) => Err(ErrorKind::TokenInvalid),
        Err(message) => {
            let lower = to_lowercase(message.as_str());
            if is_expiry_notice(lower.as_str()) {
                Err(ErrorKind::TokenExpired)
            } else {
                Err(ErrorKind::TokenInvalid)
            }
        },
    }
}

} // verus!
