//! Values that stand in for a choice among a few named kinds.

pub mod accounts;

pub use accounts::Account;
