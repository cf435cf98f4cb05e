//! Public keys: the curve point that belongs to a private key.

use vstd::prelude::*;

verus! {

/// Number of bytes of a compressed point.
pub const COMPRESSED_POINT_LEN: usize = 33;

/// The point `d * G` of one private key, held in its compressed SEC1
/// encoding. It is derived from a private key only and never changes.
pub struct PublicKey {
    point: Vec<u8>,
}

impl View for PublicKey {
    type V = Seq<u8>;

    closed spec fn view(&self) -> Seq<u8> {
        self.point@
    }
}

impl PublicKey {
    #[verifier::type_invariant]
    spec fn well_formed(self) -> bool {
        self.point@.len() == COMPRESSED_POINT_LEN
    }

    /// Wraps the compressed encoding of a point.
    pub(crate) fn new(point: Vec<u8>) -> (key: PublicKey)
        requires
            point@.len() == COMPRESSED_POINT_LEN,
        ensures
            key@ == point@,
    {
        PublicKey { point }
    }

    /// The compressed SEC1 encoding of the point: 33 bytes.
    pub fn compressed(&self) -> (bytes: &[u8])
        ensures
            bytes@ == self@,
            bytes@.len() == COMPRESSED_POINT_LEN,
    {
        proof {
            use_type_invariant(self);
        }
        self.point.as_slice()
    }
}

} // verus!
