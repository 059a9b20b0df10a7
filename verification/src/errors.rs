//! The ways in which sealing, opening, issuing and validating can fail.

use vstd::prelude::*;
use vstd::string::StringExecFns;

verus! {

/// Why an operation of this library failed.
///
/// Cryptographic failures carry no cause: whatever went wrong inside the
/// cipher, the caller learns only that it did.
#[derive(Clone, Copy, Debug, PartialEq, Eq, Structural)]
pub enum ErrorKind {
    /// A role key or signing key is missing, or is not the base64url text of
    /// a 32-byte key.
    KeyUnavailable,
    /// The field is already in the requested state, or lacks a part that the
    /// operation needs.
    NotReady,
    /// Authenticated encryption or decryption failed.
    CipherFailure,
    /// The token was well formed and authentic, but its expiry has passed.
    TokenExpired,
    /// The token is malformed, forged, bound to another footer or signed
    /// with another key.
    TokenInvalid,
    /// The token was authentic but its claims do not have the expected shape.
    ClaimsShapeMismatch,
}

/// The three kinds of token.
#[derive(Clone, Copy, Debug, PartialEq, Eq, Structural)]
pub enum TokenKind {
    Access,
    Refresh,
    Web,
}

/// Why no tokens were issued: the token that could not be made, and why.
/// Where the claims themselves are refused, no token is named.
#[derive(Clone, Copy, Debug, PartialEq, Eq)]
pub struct IssueError {
    pub token: Option<TokenKind>,
    pub kind: ErrorKind,
}

impl IssueError {
    /// What the caller is told.
    pub open spec fn notice_text(self) -> Seq<char> {
        match self.token {
            Some(TokenKind::Access) => "Unable to generate access token"@,
            Some(TokenKind::Refresh) => "Unable to generate refresh token"@,
            Some(TokenKind::Web) => "Unable to generate web token"@,
            None => "Unable to generate tokens"@,
        }
    }

    /// What the caller is told: which token could not be generated, and
    /// nothing of the cause.
    pub fn notice(self) -> (text: &'static str)
        ensures
            text@ == self.notice_text(),
    {
        match self.token {
            Some(TokenKind::Access) => "Unable to generate access token",
            Some(TokenKind::Refresh) => "Unable to generate refresh token",
            Some(TokenKind::Web) => "Unable to generate web token",
            None => "Unable to generate tokens",
        }
    }
}

impl ErrorKind {
    /// What the holder of a token of the kind `kind` is told when its
    /// validation fails: that it has expired, for an access or refresh
    /// token that has; that decryption failed, for a web token that does
    /// not open; and otherwise only that it is invalid.
    pub open spec fn notice_text(self, kind: TokenKind) -> Seq<char> {
        match kind {
            TokenKind::Access => if self == ErrorKind::TokenExpired {
                "Your authentication token has expired"@
            } else {
                "Invalid authentication token"@
            },
            TokenKind::Refresh => if self == ErrorKind::TokenExpired {
                "Your refresh token has expired"@
            } else {
                "Invalid refresh token"@
            },
            TokenKind::Web => if self == ErrorKind::KeyUnavailable || self
                == ErrorKind::CipherFailure {
                "Decryption failed"@
            } else {
                "Invalid authentication token"@
            },
        }
    }

    /// What the holder of a token of the kind `kind` is told when its
    /// validation fails with this error.
    pub fn notice(self, kind: TokenKind) -> (text: &'static str)
        ensures
            text@ == self.notice_text(kind),
    {
        match kind {
            TokenKind::Access => match self {
                ErrorKind::TokenExpired => "Your authentication token has expired",
                _ => "Invalid authentication token",
            },
            TokenKind::Refresh => match self {
                ErrorKind::TokenExpired => "Your refresh token has expired",
                _ => "Invalid refresh token",
            },
            TokenKind::Web => match self {
                ErrorKind::KeyUnavailable => "Decryption failed",
                ErrorKind::CipherFailure => "Decryption failed",
                _ => "Invalid authentication token",
            },
        }
    }

    /// The kind that callers outside the library are shown: a shape mismatch
    /// is reported as an invalid token, every other kind as itself.
    pub fn at_boundary(self) -> (shown: ErrorKind)
        ensures
            shown == (if self == ErrorKind::ClaimsShapeMismatch {
                ErrorKind::TokenInvalid
            } else {
                self
            }),
    {
        match self {
            ErrorKind::ClaimsShapeMismatch => ErrorKind::TokenInvalid,
            other => other,
        }
    }
}

/// An error as the query interface reports it.
#[derive(Debug)]
pub enum Errors {
    BadRequest,
    Unauthorized,
    PaymentRequired,
    Forbidden,
    NotFound,
    /// With the reason, which may be empty.
    InternalServerError(String),
    ErrorWithoutExtensions,
}

impl Errors {
    /// The status code that the error is reported with, if it has one.
    pub open spec fn status(self) -> Option<u16> {
        match self {
            Errors::BadRequest => Some(400u16),
            Errors::Unauthorized => Some(401u16),
            Errors::PaymentRequired => Some(402u16),
            Errors::Forbidden => Some(403u16),
            Errors::NotFound => Some(404u16),
            Errors::InternalServerError(_) => Some(500u16),
            Errors::ErrorWithoutExtensions => None,
        }
    }

    /// The text that the error is reported with.
    pub open spec fn text(self) -> Seq<char> {
        match self {
            Errors::BadRequest => "Bad Request"@,
            Errors::Unauthorized => "Unauthorized"@,
            Errors::PaymentRequired => "Payment Required"@,
            Errors::Forbidden => "Forbidden"@,
            Errors::NotFound => "Resource Not Found"@,
            Errors::InternalServerError(_) => "Internal Server Error"@,
            Errors::ErrorWithoutExtensions => "No Extensions"@,
        }
    }

    /// The status code that the error is reported with, if it has one.
    pub fn code(&self) -> (code: Option<u16>)
        ensures
            code == self.status(),
    {
        match self {
            Errors::BadRequest => Some(400),
            Errors::Unauthorized => Some(401),
            Errors::PaymentRequired => Some(402),
            Errors::Forbidden => Some(403),
            Errors::NotFound => Some(404),
            Errors::InternalServerError(_) => Some(500),
            Errors::ErrorWithoutExtensions => None,
        }
    }

    /// The reason to report beside the code: that of an internal server
    /// error, where it is not empty.
    pub fn reason(&self) -> (reason: Option<String>)
        ensures
            match reason {
                Some(text) => *self matches Errors::InternalServerError(r) && r@ == text@
                    && text@.len() > 0,
                None => match *self {
                    Errors::InternalServerError(r) => r@.len() == 0,
                    _ => true,
                },
            },
    {
        match self {
            Errors::InternalServerError(reason) => if reason.as_str().is_empty() {
                None
            } else {
                Some(reason.clone())
            },
            _ => None,
        }
    }

    /// The text that the error is reported with.
    pub fn to_string(&self) -> (text: String)
        ensures
            text@ == self.text(),
    {
        match self {
            Errors::BadRequest => String::from_str("Bad Request"),
            Errors::Unauthorized => String::from_str("Unauthorized"),
            Errors::PaymentRequired => String::from_str("Payment Required"),
            Errors::Forbidden => String::from_str("Forbidden"),
            Errors::NotFound => String::from_str("Resource Not Found"),
            Errors::InternalServerError(_) => String::from_str("Internal Server Error"),
            Errors::ErrorWithoutExtensions => String::from_str("No Extensions"),
        }
    }
}

} // verus!
