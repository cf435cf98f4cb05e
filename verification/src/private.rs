//! Private keys: a validated secret scalar that signs, derives its public
//! key, and leaves only in an erasable buffer.

use vstd::prelude::*;
use vstd::string::StringSliceAdditionalSpecFns;
use crate::engine::{
    derive_public_point,
    public_point,
    recoverable_signature,
    scalar_in_range,
    sign_prehash_recoverable,
};
use crate::erasable::ErasableBytes;
use crate::error::KeyPairError;
use crate::hex::{decode, decode_hex};
use crate::public::PublicKey;
use crate::scalar::{is_valid_scalar, SCALAR_LEN};
use crate::signature::{
    signature_of_outcome,
    signature_result_view,
    Signature,
    SignatureView,
};

verus! {

/// What construction from raw bytes yields: the scalar itself where the
/// bytes are a valid scalar, and `InvalidSecretKey` where they are not.
pub open spec fn key_from_bytes(data: Seq<u8>) -> Result<Seq<u8>, KeyPairError> {
    if is_valid_scalar(data) {
        Ok(data)
    } else {
        Err(KeyPairError::InvalidSecretKey)
    }
}

/// What construction from hex text yields: that of the decoded bytes, and
/// `InvalidSecretKey` where the text does not decode.
pub open spec fn key_from_hex(text: Seq<u8>) -> Result<Seq<u8>, KeyPairError> {
    match decode_hex(text) {
        Some(data) => key_from_bytes(data),
        None => Err(KeyPairError::InvalidSecretKey),
    }
}

/// What signing yields: the signature that the engine's outcome for this
/// scalar and digest stands for, or `SigningError`.
pub open spec fn signing_result(secret: Seq<u8>, digest: Seq<u8>) -> Result<
    SignatureView,
    KeyPairError,
> {
    signature_of_outcome(recoverable_signature(secret, digest))
}

/// A private key of the P-256 curve. It owns one secret scalar `d` with
/// `1 <= d < n`, which is erased when the key is released. A key cannot be
/// copied, compared or printed.
pub struct PrivateKey {
    secret: ErasableBytes,
}

impl View for PrivateKey {
    type V = Seq<u8>;

    closed spec fn view(&self) -> Seq<u8> {
        self.secret@
    }
}

/// A `Result` with a key in it, seen through the key's view.
pub open spec fn key_result_view(result: Result<PrivateKey, KeyPairError>) -> Result<
    Seq<u8>,
    KeyPairError,
> {
    match result {
        Ok(key) => Ok(key@),
        Err(e) => Err(e),
    }
}

impl PrivateKey {
    #[verifier::type_invariant]
    spec fn well_formed(self) -> bool {
        is_valid_scalar(self.secret@)
    }

    /// Makes a key from raw bytes. They are accepted exactly when they are
    /// 32 bytes whose big-endian value is in `[1, n - 1]`.
    pub fn from_bytes(data: &[u8]) -> (result: Result<PrivateKey, KeyPairError>)
        ensures
            key_result_view(result) == key_from_bytes(data@),
    {
        if data.len() != SCALAR_LEN {
            return Err(KeyPairError::InvalidSecretKey);
        }
        if !scalar_in_range(data) {
            return Err(KeyPairError::InvalidSecretKey);
        }
        Ok(PrivateKey { secret: ErasableBytes::from_slice(data) })
    }

    /// Makes a key from hex text, in either case. The decoded bytes live in
    /// an erasable buffer on every path, failure included.
    pub fn from_hex(hex: &str) -> (result: Result<PrivateKey, KeyPairError>)
        ensures
            key_result_view(result) == key_from_hex(hex.spec_bytes()),
    {
        match decode(hex) {
            Some(bytes) => PrivateKey::from_bytes(bytes.as_slice()),
            None => Err(KeyPairError::InvalidSecretKey),
        }
    }

    /// The public key `d * G` of this key. It always exists.
    pub fn public(&self) -> (key: PublicKey)
        ensures
            key@ == public_point(self@),
            is_valid_scalar(self@),
    {
        proof {
            use_type_invariant(self);
        }
        PublicKey::new(derive_public_point(self.secret.as_slice()))
    }

    /// Signs a 32-byte digest. The digest is taken as it is; nothing is
    /// hashed here. The result depends on the key and the digest alone. A
    /// fault of the engine is reported, never retried, and an outcome that
    /// is no well-formed signature is reported as a fault too.
    pub fn sign(&self, message: [u8; 32]) -> (result: Result<Signature, KeyPairError>)
        ensures
            signature_result_view(result) == signing_result(self@, message@),
            result matches Ok(signature) ==> signature@.is_well_formed(),
            result matches Err(e) ==> e == KeyPairError::SigningError,
            is_valid_scalar(self@),
    {
        proof {
            use_type_invariant(self);
        }
        Signature::from_engine_outcome(sign_prehash_recoverable(self.secret.as_slice(), &message))
    }

    /// The secret scalar, in a buffer that is erased when it is released.
    /// This is the only way the secret leaves the key.
    pub fn to_zeroizing_vec(&self) -> (bytes: ErasableBytes)
        ensures
            bytes@ == self@,
            is_valid_scalar(bytes@),
    {
        proof {
            use_type_invariant(self);
        }
        ErasableBytes::from_slice(self.secret.as_slice())
    }
}

impl<'a> TryFrom<&'a [u8]> for PrivateKey {
    type Error = KeyPairError;

    /// As `PrivateKey::from_bytes`.
    fn try_from(data: &'a [u8]) -> (result: Result<PrivateKey, KeyPairError>)
        ensures
            key_result_view(result) == key_from_bytes(data@),
    {
        PrivateKey::from_bytes(data)
    }
}

impl<'a> TryFrom<&'a str> for PrivateKey {
    type Error = KeyPairError;

    /// As `PrivateKey::from_hex`.
    fn try_from(hex: &'a str) -> (result: Result<PrivateKey, KeyPairError>)
        ensures
            key_result_view(result) == key_from_hex(hex.spec_bytes()),
    {
        PrivateKey::from_hex(hex)
    }
}

/// The key that a conversion yields is described by `key_from_bytes` on the
/// conversion itself: a key cannot be written down as a value, so the
/// conversion has no result in closed form.
impl<'a> vstd::std_specs::convert::TryFromSpecImpl<&'a [u8]> for PrivateKey {
    open spec fn obeys_try_from_spec() -> bool {
        false
    }

    open spec fn try_from_spec(v: &'a [u8]) -> Result<PrivateKey, KeyPairError> {
        arbitrary()
    }
}

/// The key that a conversion yields is described by `key_from_hex` on the
/// conversion itself.
impl<'a> vstd::std_specs::convert::TryFromSpecImpl<&'a str> for PrivateKey {
    open spec fn obeys_try_from_spec() -> bool {
        false
    }

    open spec fn try_from_spec(v: &'a str) -> Result<PrivateKey, KeyPairError> {
        arbitrary()
    }
}

} // verus!
