//! The error kinds of key construction and signing.

use vstd::prelude::*;

verus! {

/// Why an operation on a key failed. Every failure is final for the attempted
/// operation: nothing is retried and no partial result is handed out.
#[derive(Clone, Copy, Debug, PartialEq, Eq, Structural)]
pub enum KeyPairError {
    /// The input is not a scalar in `[1, n - 1]`: wrong length, text that is
    /// not hex, zero, or a value at or above the group order.
    InvalidSecretKey,
    /// The signing engine could not produce a signature.
    SigningError,
}

} // verus!
