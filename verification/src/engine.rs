//! The curve engine: what this library takes from the P-256 implementation.
//! Nothing here is proved; each contract states what the engine's source
//! shows of the call.

use vstd::prelude::*;
use p256::ecdsa::SigningKey;
use p256::SecretKey;
use crate::scalar::{is_valid_scalar, SCALAR_LEN};

verus! {

/// The compressed SEC1 encoding of the point `d * G`, for the scalar `d`
/// that `secret` encodes.
pub uninterp spec fn public_point(secret: Seq<u8>) -> Seq<u8>;

/// The outcome of deterministic recoverable ECDSA signing of `digest` with
/// the scalar that `secret` encodes: `r`, `s` and the recovery identifier,
/// or `None` where the engine reports a fault.
pub uninterp spec fn recoverable_signature(secret: Seq<u8>, digest: Seq<u8>) -> Option<
    ([u8; 32], [u8; 32], u8),
>;

/// `SecretKey::from_slice`, asked only whether it accepts: 32 bytes are
/// accepted exactly when their big-endian value is nonzero and below the
/// group order. Of other lengths nothing is claimed: the engine pads some
/// shorter inputs with zeros, which this library never lets through.
#[verifier::external_body]
pub(crate) fn scalar_in_range(bytes: &[u8]) -> (accepted: bool)
    ensures
        bytes@.len() == SCALAR_LEN ==> accepted == is_valid_scalar(bytes@),
{
    SecretKey::from_slice(bytes).is_ok()
}

/// `SigningKey::verifying_key` and `VerifyingKey::to_encoded_point` with
/// compression: the point depends on the scalar alone, and its compressed
/// encoding is one tag byte and the 32 bytes of a coordinate. The engine's
/// key, made from the scalar for this one call, erases itself on release.
#[verifier::external_body]
pub(crate) fn derive_public_point(secret: &[u8]) -> (point: Vec<u8>)
    requires
        is_valid_scalar(secret@),
    ensures
        point@ == public_point(secret@),
        point@.len() == 33,
{
    let key = SigningKey::from_slice(secret).unwrap();
    key.verifying_key().to_encoded_point(true).as_bytes().to_vec()
}

/// `SigningKey::sign_prehash_recoverable`: the nonce is derived from the
/// scalar and the digest, so the outcome depends on those two alone. Nothing
/// more is claimed of it: whether it is a signature is checked by the caller.
#[verifier::external_body]
pub(crate) fn sign_prehash_recoverable(secret: &[u8], digest: &[u8; 32]) -> (outcome: Option<
    ([u8; 32], [u8; 32], u8),
>)
    requires
        is_valid_scalar(secret@),
    ensures
        outcome == recoverable_signature(secret@, digest@),
{
    let key = SigningKey::from_slice(secret).unwrap();
    match key.sign_prehash_recoverable(digest) {
        Ok((signature, recovery_id)) => {
            let (r, s) = signature.split_bytes();
            Some((r.into(), s.into(), recovery_id.to_byte()))
        },
        Err(_) => None,
    }
}

} // verus!
