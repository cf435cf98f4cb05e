//! What holds of keys and signatures for every input, stated over the
//! functions that the contracts of construction, export and signing use.

use vstd::prelude::*;
use crate::error::KeyPairError;
use crate::hex::{
    decode_hex,
    encode_hex,
    hex_digit_value,
    lemma_case_does_not_matter,
    lemma_decode_of_encode,
    lower_text,
};
use crate::private::{key_from_bytes, key_from_hex, signing_result};
use crate::scalar::{
    be_value,
    group_order,
    is_valid_scalar,
    lemma_zero_bytes_encode_zero,
    SCALAR_LEN,
};
use crate::signature::{SignatureView, SIGNATURE_LEN};

verus! {

/// Round trip: construction from a valid scalar succeeds, and the key holds
/// that scalar, which is what the key exports.
pub proof fn lemma_round_trip(d: Seq<u8>)
    requires
        is_valid_scalar(d),
    ensures
        key_from_bytes(d) == Ok::<Seq<u8>, KeyPairError>(d),
{
}

/// Hex and bytes agree: construction from the hex encoding of `d`, in
/// either case, yields what construction from `d` itself yields. For a valid
/// scalar that is a key that holds `d`.
pub proof fn lemma_hex_equals_bytes(d: Seq<u8>, upper: bool)
    ensures
        key_from_hex(encode_hex(d, upper)) == key_from_bytes(d),
        is_valid_scalar(d) ==> key_from_hex(encode_hex(d, upper)) == Ok::<Seq<u8>, KeyPairError>(d),
{
    lemma_decode_of_encode(d, upper);
}

/// Hex text is read without regard to case: a text yields what its
/// lower-case form yields.
pub proof fn lemma_hex_ignores_case(text: Seq<u8>)
    ensures
        key_from_hex(lower_text(text)) == key_from_hex(text),
{
    lemma_case_does_not_matter(text);
}

/// Any hex text that decodes to `d` yields what `d` itself yields.
pub proof fn lemma_hex_follows_decoding(text: Seq<u8>, d: Seq<u8>)
    requires
        decode_hex(text) == Some(d),
    ensures
        key_from_hex(text) == key_from_bytes(d),
{
}

/// Rejection of bytes: a buffer that is not 32 bytes long, or whose value
/// is zero, or whose value is at or above the group order, yields
/// `InvalidSecretKey`.
pub proof fn lemma_rejects_bytes(data: Seq<u8>)
    requires
        data.len() != SCALAR_LEN || be_value(data) == 0 || be_value(data) >= group_order(),
    ensures
        key_from_bytes(data) == Err::<Seq<u8>, KeyPairError>(KeyPairError::InvalidSecretKey),
{
}

/// Rejection of zero: a buffer of zero bytes, of any length, yields
/// `InvalidSecretKey`.
pub proof fn lemma_rejects_zero_bytes(data: Seq<u8>)
    requires
        forall|i: int| 0 <= i < data.len() ==> data[i] == 0,
    ensures
        key_from_bytes(data) == Err::<Seq<u8>, KeyPairError>(KeyPairError::InvalidSecretKey),
{
    lemma_zero_bytes_encode_zero(data);
}

/// Rejection of text: a text of odd length, or one with a byte at `at`
/// that is no hex digit, does not decode and yields `InvalidSecretKey`.
pub proof fn lemma_rejects_text(text: Seq<u8>, at: int)
    requires
        text.len() % 2 == 1 || (0 <= at < text.len() && hex_digit_value(text[at]).is_none()),
    ensures
        decode_hex(text).is_none(),
        key_from_hex(text) == Err::<Seq<u8>, KeyPairError>(KeyPairError::InvalidSecretKey),
{
}

/// No other error: construction never yields anything but a key or
/// `InvalidSecretKey`, and a key it yields holds a valid scalar.
pub proof fn lemma_construction_outcomes(data: Seq<u8>, text: Seq<u8>)
    ensures
        match key_from_bytes(data) {
            Ok(d) => is_valid_scalar(d) && d == data,
            Err(e) => e == KeyPairError::InvalidSecretKey,
        },
        match key_from_hex(text) {
            Ok(d) => is_valid_scalar(d) && decode_hex(text) == Some(d),
            Err(e) => e == KeyPairError::InvalidSecretKey,
        },
{
}

/// Determinism: two signing results for the same scalar and the same
/// digest are the same, down to the encoded bytes.
pub proof fn lemma_signing_is_deterministic(
    secret: Seq<u8>,
    digest: Seq<u8>,
    first: Result<SignatureView, KeyPairError>,
    second: Result<SignatureView, KeyPairError>,
)
    requires
        first == signing_result(secret, digest),
        second == signing_result(secret, digest),
    ensures
        first == second,
        first matches Ok(a) ==> second matches Ok(b) && a.encoding() == b.encoding(),
{
}

/// Signing yields a well-formed signature, whose encoding has 65 bytes
/// and ends in a recovery identifier of at most 3, or `SigningError`.
pub proof fn lemma_signing_outcomes(secret: Seq<u8>, digest: Seq<u8>)
    ensures
        match signing_result(secret, digest) {
            Ok(signature) => {
                &&& signature.is_well_formed()
                &&& signature.encoding().len() == SIGNATURE_LEN
                &&& signature.encoding().last() <= 3
            },
            Err(e) => e == KeyPairError::SigningError,
        },
{
}

} // verus!
