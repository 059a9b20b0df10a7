//! The two transitions of a protected field.

use vstd::prelude::*;

verus! {

/// What is about to be done to a protected field.
#[derive(Clone, Copy, Debug, PartialEq, Eq, Structural)]
pub enum Action {
    Encrypt,
    Decrypt,
}

} // verus!
