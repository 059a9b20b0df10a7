//! The tokens that are handed out, and the bearer token that comes back.

use vstd::prelude::*;

verus! {

/// The token that a request presents.
#[derive(Debug, PartialEq)]
pub struct BearerToken(pub String);

impl BearerToken {
    /// The bearer token with the given text.
    pub fn new(token: &str) -> (bearer: BearerToken)
        ensures
            bearer.0@ == token@,
    {
        BearerToken(token.to_owned())
    }

    /// The text of the token.
    pub fn to_string(&self) -> (text: String)
        ensures
            text@ == self.0@,
    {
        self.0.clone()
    }
}

impl Clone for BearerToken {
    fn clone(&self) -> (copy: BearerToken)
        ensures
            copy == *self,
    {
        BearerToken(self.0.clone())
    }
}

impl Default for BearerToken {
    fn default() -> (bearer: BearerToken)
        ensures
            bearer.0@.len() == 0,
    {
        BearerToken(String::new())
    }
}

/// The three tokens of one issuance.
#[derive(Debug, PartialEq)]
pub struct Token {
    pub access: String,
    pub refresh: String,
    pub web: String,
}

impl Token {
    /// Three empty tokens.
    pub fn new() -> (token: Token)
        ensures
            token.access@.len() == 0,
            token.refresh@.len() == 0,
            token.web@.len() == 0,
    {
        Token { access: String::new(), refresh: String::new(), web: String::new() }
    }
}

impl Clone for Token {
    fn clone(&self) -> (copy: Token)
        ensures
            copy == *self,
    {
        Token {
            access: self.access.clone(),
            refresh: self.refresh.clone(),
            web: self.web.clone(),
        }
    }
}

impl Default for Token {
    fn default() -> (token: Token)
        ensures
            token.access@.len() == 0,
            token.refresh@.len() == 0,
            token.web@.len() == 0,
    {
        Token::new()
    }
}

} // verus!
