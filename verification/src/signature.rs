//! Recoverable ECDSA signatures: `r`, `s` and a recovery identifier.

use vstd::prelude::*;
use crate::engine::scalar_in_range;
use crate::error::KeyPairError;
use crate::scalar::is_valid_scalar;

verus! {

/// Number of bytes of an encoded recoverable signature.
pub const SIGNATURE_LEN: usize = 65;

/// The largest recovery identifier.
pub const MAX_RECOVERY_ID: u8 = 3;

/// What a signature is: the big-endian bytes of `r` and of `s`, and the
/// recovery identifier.
pub struct SignatureView {
    pub r: Seq<u8>,
    pub s: Seq<u8>,
    pub recovery_id: u8,
}

impl SignatureView {
    /// `r` and `s` are nonzero and below the group order, and the recovery
    /// identifier is one of 0, 1, 2, 3.
    pub open spec fn is_well_formed(self) -> bool {
        &&& is_valid_scalar(self.r)
        &&& is_valid_scalar(self.s)
        &&& self.recovery_id <= MAX_RECOVERY_ID
    }

    /// The 65-byte encoding: `r`, then `s`, then the recovery identifier.
    pub open spec fn encoding(self) -> Seq<u8> {
        (self.r + self.s).push(self.recovery_id)
    }
}

/// The signature that an engine outcome stands for. A fault of the engine,
/// or an outcome that is no well-formed signature, is a signing error; no
/// other value is ever put in its place.
pub open spec fn signature_of_outcome(outcome: Option<([u8; 32], [u8; 32], u8)>) -> Result<
    SignatureView,
    KeyPairError,
> {
    match outcome {
        Some((r, s, recovery_id)) => {
            let parts = SignatureView { r: r@, s: s@, recovery_id };
            if parts.is_well_formed() {
                Ok(parts)
            } else {
                Err(KeyPairError::SigningError)
            }
        },
        None => Err(KeyPairError::SigningError),
    }
}

/// A recoverable signature. It is made from what the signing engine hands
/// back, after that was checked, and never changes.
#[derive(Clone, Copy, Debug, PartialEq, Eq)]
pub struct Signature {
    r: [u8; 32],
    s: [u8; 32],
    recovery_id: u8,
}

impl View for Signature {
    type V = SignatureView;

    closed spec fn view(&self) -> SignatureView {
        SignatureView { r: self.r@, s: self.s@, recovery_id: self.recovery_id }
    }
}

/// A `Result` with a signature in it, seen through the signature's view.
pub open spec fn signature_result_view(result: Result<Signature, KeyPairError>) -> Result<
    SignatureView,
    KeyPairError,
> {
    match result {
        Ok(signature) => Ok(signature@),
        Err(e) => Err(e),
    }
}

impl Signature {
    #[verifier::type_invariant]
    spec fn well_formed(self) -> bool {
        self@.is_well_formed()
    }

    /// Turns what the signing engine handed back into a signature, after
    /// checking that it is one.
    pub fn from_engine_outcome(outcome: Option<([u8; 32], [u8; 32], u8)>) -> (result: Result<
        Signature,
        KeyPairError,
    >)
        ensures
            signature_result_view(result) == signature_of_outcome(outcome),
    {
        match outcome {
            Some((r, s, recovery_id)) => {
                if recovery_id <= MAX_RECOVERY_ID && scalar_in_range(r.as_slice())
                    && scalar_in_range(s.as_slice()) {
                    Ok(Signature { r, s, recovery_id })
                } else {
                    Err(KeyPairError::SigningError)
                }
            },
            None => Err(KeyPairError::SigningError),
        }
    }

    /// The big-endian bytes of `r`.
    pub fn r(&self) -> (r: [u8; 32])
        ensures
            r@ == self@.r,
            self@.is_well_formed(),
    {
        proof {
            use_type_invariant(self);
        }
        self.r
    }

    /// The big-endian bytes of `s`.
    pub fn s(&self) -> (s: [u8; 32])
        ensures
            s@ == self@.s,
            self@.is_well_formed(),
    {
        proof {
            use_type_invariant(self);
        }
        self.s
    }

    /// The recovery identifier, one of 0, 1, 2, 3.
    pub fn recovery_id(&self) -> (id: u8)
        ensures
            id == self@.recovery_id,
            id <= MAX_RECOVERY_ID,
    {
        proof {
            use_type_invariant(self);
        }
        self.recovery_id
    }

    /// The 65-byte encoding: `r`, then `s`, then the recovery identifier.
    pub fn to_bytes(&self) -> (bytes: Vec<u8>)
        ensures
            bytes@ == self@.encoding(),
            bytes@.len() == SIGNATURE_LEN,
    {
        let mut bytes: Vec<u8> = Vec::with_capacity(SIGNATURE_LEN);
        bytes.extend_from_slice(self.r.as_slice());
        bytes.extend_from_slice(self.s.as_slice());
        bytes.push(self.recovery_id);
        bytes
    }
}

} // verus!
