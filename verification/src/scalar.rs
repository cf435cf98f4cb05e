//! The mathematical model of a secret scalar: a 32-byte big-endian integer
//! in `[1, n - 1]`, where `n` is the order of the P-256 group.

use vstd::prelude::*;

verus! {

/// Number of bytes of an encoded scalar.
pub const SCALAR_LEN: usize = 32;

/// The order `n` of the P-256 group.
pub open spec fn group_order() -> nat {
    0xffffffff00000000ffffffffffffffffbce6faada7179e84f3b9cac2fc632551nat
}

/// The integer that `bytes` encode, most significant byte first.
pub open spec fn be_value(bytes: Seq<u8>) -> nat
    decreases bytes.len(),
{
    if bytes.len() == 0 {
        0
    } else {
        be_value(bytes.drop_last()) * 256 + bytes.last() as nat
    }
}

/// Whether `bytes` encode a secret scalar: exactly 32 bytes whose value `d`
/// satisfies `1 <= d < n`.
pub open spec fn is_valid_scalar(bytes: Seq<u8>) -> bool {
    &&& bytes.len() == SCALAR_LEN
    &&& 1 <= be_value(bytes)
    &&& be_value(bytes) < group_order()
}

/// Bytes that are all zero encode the value zero, whatever their number.
pub proof fn lemma_zero_bytes_encode_zero(bytes: Seq<u8>)
    requires
        forall|i: int| 0 <= i < bytes.len() ==> bytes[i] == 0,
    ensures
        be_value(bytes) == 0,
    decreases bytes.len(),
{
    if bytes.len() > 0 {
        lemma_zero_bytes_encode_zero(bytes.drop_last());
    }
}

} // verus!
