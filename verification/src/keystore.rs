//! The two role keys under which everything is sealed.
//!
//! A keystore holds each key as the text it is configured with: the unpadded
//! base64url form of 32 bytes. The text is decoded on every use, so a key
//! that is missing or malformed is reported by the operation that needs it.

use vstd::prelude::*;
use crate::codec::{base64url_bytes, decode};
use crate::errors::ErrorKind;
use crate::secretbox::KEY_LENGTH;

verus! {

/// Which of the two role keys an operation uses.
#[derive(Clone, Copy, Debug, PartialEq, Eq, Structural)]
pub enum Role {
    /// Secrets that never leave the server.
    Master,
    /// Secrets that are handed to clients.
    Web,
}

impl Role {
    /// Name of the environment variable that configures this role's key.
    pub fn variable(self) -> (name: &'static str)
        ensures
            name@ == (match self {
                Role::Master => "MASTER_KEY"@,
                Role::Web => "WEB_KEY"@,
            }),
    {
        match self {
            Role::Master => "MASTER_KEY",
            Role::Web => "WEB_KEY",
        }
    }
}

/// The key that a configured text stands for: its base64url decoding, where
/// that is 32 bytes long.
pub open spec fn key_of(text: Option<Seq<char>>) -> Option<Seq<u8>> {
    match text {
        Some(t) => match base64url_bytes(t) {
            Some(key) => if key.len() == KEY_LENGTH {
                Some(key)
            } else {
                None
            },
            None => None,
        },
        None => None,
    }
}

/// The configured text of each role key, where one is configured.
#[derive(Debug)]
pub struct Keystore {
    pub master: Option<String>,
    pub web: Option<String>,
}

impl Clone for Keystore {
    fn clone(&self) -> (copy: Keystore)
        ensures
            copy == *self,
    {
        Keystore {
            master: match &self.master {
                Some(text) => Some(text.clone()),
                None => None,
            },
            web: match &self.web {
                Some(text) => Some(text.clone()),
                None => None,
            },
        }
    }
}

impl Keystore {
    /// A keystore with the given texts for the master and the web key.
    pub fn new(master: Option<String>, web: Option<String>) -> (keys: Keystore)
        ensures
            keys.master == master,
            keys.web == web,
    {
        Keystore { master, web }
    }

    /// The text configured for `role`.
    pub open spec fn text(&self, role: Role) -> Option<Seq<char>> {
        match role {
            Role::Master => match self.master {
                Some(t) => Some(t@),
                None => None,
            },
            Role::Web => match self.web {
                Some(t) => Some(t@),
                None => None,
            },
        }
    }

    /// The key of `role`, where it is configured and well formed.
    pub open spec fn key(&self, role: Role) -> Option<Seq<u8>> {
        key_of(self.text(role))
    }

    /// Decodes the key of `role`. Fails with `KeyUnavailable` exactly when
    /// no text is configured for the role, or the text is not the base64url
    /// form of 32 bytes.
    pub fn resolve(&self, role: Role) -> (key: Result<Vec<u8>, ErrorKind>)
        ensures
            match key {
                Ok(k) => self.key(role) == Some(k@),
                Err(e) => e == ErrorKind::KeyUnavailable && self.key(role) is None,
            },
    {
        let text = match role {
            Role::Master => &self.master,
            Role::Web => &self.web,
        };
        match text {
            Some(t) => match decode(t.as_str()) {
                Some(k) => if k.len() == KEY_LENGTH {
                    Ok(k)
                } else {
                    Err(ErrorKind::KeyUnavailable)
                },
                None => Err(ErrorKind::KeyUnavailable),
            },
            None => Err(ErrorKind::KeyUnavailable),
        }
    }
}

} // verus!
