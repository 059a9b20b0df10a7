//! Envelope encryption for configuration secrets kept in a shared settings
//! store, and the issuing and validation of the tokens signed with them.
//!
//! A secret is held in a [`Cipher`], a protected field that is either plain
//! or sealed: sealed under a data key of its own, which in turn is sealed
//! under one of two role keys, the master key or the web key. Configuration
//! records such as [`Base`], [`Mailer`], [`Paseto`] and [`S3`] are sets of
//! protected fields that are sealed before they are stored and opened after
//! they are loaded. [`Paseto`] also issues and validates access, refresh
//! and web tokens with the signing keys it holds.
//!
//! The library does no input or output. The role keys are handed to it in a
//! [`Keystore`]; the cipher, the encodings, the token format, the clock and
//! the random generator are reached through a few functions whose contracts
//! are assumed, each marked as such where it stands.

pub mod ciphers;
pub mod clock;
pub mod codec;
pub mod configs;
pub mod errors;
pub mod keystore;
pub mod mailers;
pub mod parsers;
pub mod paseto;
pub mod payloads;
pub mod paypal;
pub mod placeholders;
pub mod s3;
pub mod secretbox;
pub mod text;
pub mod tokens;
pub mod traits;
pub mod validators;

pub use ciphers::Cipher;
pub use configs::Base;
pub use errors::{ErrorKind, Errors, IssueError, TokenKind};
pub use keystore::{Keystore, Role};
pub use mailers::{Mailer, MailerAttachment};
pub use paseto::Paseto;
pub use payloads::Payload;
pub use s3::S3;
pub use tokens::{BearerToken, Token};
