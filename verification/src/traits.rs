//! What configuration records have in common.

use vstd::prelude::*;
use crate::keystore::Keystore;

verus! {

/// A record whose protected fields can be opened together.
pub trait Decrypt {
    /// The record with every field opened that opens under the master key,
    /// or `None` where the record has nothing in it.
    fn decrypt(&self, keys: &Keystore) -> Option<Self> where Self: Sized;
}

/// A collection that can drop its repeated items. The library holds no
/// such collection of its own; the trait is there for the types of its
/// users.
pub trait Dedup {
    fn dedup(&self) -> Self where Self: Sized;
}

/// A record whose protected fields can be sealed together.
pub trait Encrypt {
    /// The record with every field sealed that can be sealed under the
    /// master key, or `None` where the record has nothing in it.
    fn encrypt(&self, keys: &Keystore) -> Option<Self> where Self: Sized;
}

/// A value that may hold nothing.
pub trait IsEmpty {
    fn is_empty(&self) -> bool;
}

} // verus!
