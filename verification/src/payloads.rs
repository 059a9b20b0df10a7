//! The body of a response, and the status it is sent with.

use vstd::prelude::*;
use crate::errors::{ErrorKind, TokenKind};
use crate::text::{lowercase, same_text, to_lowercase};

verus! {

/// What a response says: a code, and a message, data or errors. Data and
/// errors are carried as JSON text.
#[derive(Debug, PartialEq)]
pub struct Payload {
    pub code: Option<u16>,
    pub challenge: Option<String>,
    pub message: Option<String>,
    pub data: Option<String>,
    pub error: Option<String>,
    pub errors: Option<String>,
}

/// The code of an error with the lower-case message `word`: 401 for the
/// notice that an access token has expired, which asks the client to
/// refresh it, and 400 for every other.
pub open spec fn error_code(word: Seq<char>) -> u16 {
    if word == "your authentication token has expired"@ {
        401
    } else {
        400
    }
}

/// The status that a response with the code `code` is answered with: the
/// code where it is one of those in use, and 400 for any other.
pub open spec fn answered(code: int) -> u16 {
    if code == 200 || code == 401 || code == 404 || code == 500 {
        code as u16
    } else {
        400
    }
}

/// The status that an error with the code `code` is answered with: the code
/// where it is one of those in use, and 400 for any other.
pub open spec fn refused(code: int) -> u16 {
    if code == 200 || code == 401 || code == 403 || code == 404 || code == 405 || code == 500 {
        code as u16
    } else {
        400
    }
}

impl Payload {
    /// The code that the payload answers with: its own, or 200 where it has
    /// none but carries a challenge, or 400.
    pub open spec fn effective_code(self) -> int {
        match self.code {
            Some(code) => code as int,
            None => match self.challenge {
                Some(challenge) => if challenge@.len() > 0 {
                    200
                } else {
                    400
                },
                None => 400,
            },
        }
    }

    /// The status of the payload as an error: its code where that is one of
    /// 200, 400, 401, 403, 404 and 405, and 500 otherwise.
    pub open spec fn error_status(self) -> u16 {
        match self.code {
            Some(code) => if code == 200 || code == 400 || code == 401 || code == 403 || code
                == 404 || code == 405 {
                code
            } else {
                500
            },
            None => 500,
        }
    }

    fn blank() -> (payload: Payload)
        ensures
            payload.code is None,
            payload.challenge is None,
            payload.message is None,
            payload.data is None,
            payload.error is None,
            payload.errors is None,
    {
        Payload {
            code: None,
            challenge: None,
            message: None,
            data: None,
            error: None,
            errors: None,
        }
    }

    /// A payload that carries `data`, JSON text, under the code `code`,
    /// which is cut to 16 bits.
    pub fn data(code: usize, data: String) -> (payload: Payload)
        ensures
            payload.code == Some((code % 0x1_0000) as u16),
            payload.data == Some(data),
            payload.challenge is None && payload.message is None && payload.error is None
                && payload.errors is None,
    {
        let mut payload = Payload::blank();
        payload.code = Some((code % 0x1_0000) as u16);
        payload.data = Some(data);
        payload
    }

    /// A payload for an error with the lower-case form `word` of its
    /// message `error`.
    pub fn failure(word: &str, error: &str) -> (payload: Payload)
        ensures
            payload.code == Some(error_code(word@)),
            payload.error matches Some(text) && text@ == error@,
            payload.challenge is None && payload.message is None && payload.data is None
                && payload.errors is None,
    {
        let code: u16 = if same_text(word, "your authentication token has expired") {
            401
        } else {
            400
        };
        let mut payload = Payload::blank();
        payload.code = Some(code);
        payload.error = Some(error.to_owned());
        payload
    }

    /// A payload for the error `error`: code 401 where the message, in any
    /// mix of upper and lower case, is the notice that an access token has
    /// expired, and code 400 otherwise.
    pub fn error(error: &str) -> (payload: Payload)
        ensures
            payload.code == Some(error_code(lowercase(error@))),
            payload.error matches Some(text) && text@ == error@,
            payload.challenge is None && payload.message is None && payload.data is None
                && payload.errors is None,
    {
        let word = to_lowercase(error);
        Payload::failure(word.as_str(), error)
    }

    /// A payload for the failed validation of a token of the kind `kind`:
    /// the notice for the error, with code 401 where an access token has
    /// expired, so that the client refreshes it, and code 400 otherwise.
    pub fn rejection(kind: TokenKind, error: ErrorKind) -> (payload: Payload)
        ensures
            payload.code == Some(
                if kind == TokenKind::Access && error == ErrorKind::TokenExpired {
                    401u16
                } else {
                    400u16
                },
            ),
            payload.error matches Some(text) && text@ == error.notice_text(kind),
            payload.challenge is None && payload.message is None && payload.data is None
                && payload.errors is None,
    {
        let expired = match (kind, error) {
            (TokenKind::Access, ErrorKind::TokenExpired) => true,
            _ => false,
        };
        let mut payload = Payload::blank();
        payload.code = Some(if expired {
            401
        } else {
            400
        });
        payload.error = Some(error.notice(kind).to_owned());
        payload
    }

    /// A payload for several errors, JSON text, with code 400.
    pub fn errors(errors: String) -> (payload: Payload)
        ensures
            payload.code == Some(400u16),
            payload.errors == Some(errors),
            payload.challenge is None && payload.message is None && payload.data is None
                && payload.error is None,
    {
        let mut payload = Payload::blank();
        payload.code = Some(400);
        payload.errors = Some(errors);
        payload
    }

    /// A payload for a success with the message `message` and code 200.
    pub fn success(message: &str) -> (payload: Payload)
        ensures
            payload.code == Some(200u16),
            payload.message matches Some(text) && text@ == message@,
            payload.challenge is None && payload.data is None && payload.error is None
                && payload.errors is None,
    {
        let mut payload = Payload::blank();
        payload.code = Some(200);
        payload.message = Some(message.to_owned());
        payload
    }

    /// The payload that says that nothing was found: code 404.
    pub fn not_found() -> (payload: Payload)
        ensures
            payload.code == Some(404u16),
            payload.error matches Some(text) && text@ == "Not Found"@,
            payload.challenge is None && payload.message is None && payload.data is None
                && payload.errors is None,
    {
        let mut payload = Payload::blank();
        payload.code = Some(404);
        payload.error = Some("Not Found".to_owned());
        payload
    }

    fn answering_code(&self) -> (code: u16)
        ensures
            code == self.effective_code(),
    {
        match self.code {
            Some(code) => code,
            None => match &self.challenge {
                Some(challenge) => if challenge.as_str().is_empty() {
                    400
                } else {
                    200
                },
                None => 400,
            },
        }
    }

    /// The status with which the payload is sent as a response.
    pub fn respond_status(&self) -> (status: u16)
        ensures
            status == answered(self.effective_code()),
    {
        let code = self.answering_code();
        if code == 200 || code == 401 || code == 404 || code == 500 {
            code
        } else {
            400
        }
    }

    /// The status with which the payload is sent as an error response.
    pub fn error_response_status(&self) -> (status: u16)
        ensures
            status == refused(self.effective_code()),
    {
        let code = self.answering_code();
        if code == 200 || code == 401 || code == 403 || code == 404 || code == 405 || code == 500 {
            code
        } else {
            400
        }
    }

    /// The status of the payload as an error.
    pub fn status_code(&self) -> (status: u16)
        ensures
            status == self.error_status(),
    {
        match self.code {
            Some(200) => 200,
            Some(400) => 400,
            Some(401) => 401,
            Some(403) => 403,
            Some(404) => 404,
            Some(405) => 405,
            _ => 500,
        }
    }
}

} // verus!
