//! Byte buffers that are overwritten with zeros when they are released.

use vstd::prelude::*;
use zeroize::Zeroizing;

verus! {

/// A byte buffer whose contents are overwritten with zeros when its owner
/// releases it. It cannot be copied, compared or printed.
#[verifier::external_body]
pub struct ErasableBytes {
    inner: Zeroizing<Vec<u8>>,
}

/// The bytes that an erasable buffer currently holds.
pub uninterp spec fn erasable_bytes(buffer: ErasableBytes) -> Seq<u8>;

/// `Zeroizing::new`: moves `bytes` into a buffer that erases them on release.
/// The buffer holds exactly the bytes that were moved in.
#[verifier::external_body]
pub(crate) fn erasable_new(bytes: Vec<u8>) -> (buffer: ErasableBytes)
    ensures
        erasable_bytes(buffer) == bytes@,
{
    ErasableBytes { inner: Zeroizing::new(bytes) }
}

/// `Vec::push` through the buffer's mutable dereference: appends one byte
/// and leaves the bytes before it as they were.
#[verifier::external_body]
pub(crate) fn erasable_push(buffer: &mut ErasableBytes, byte: u8)
    ensures
        erasable_bytes(*final(buffer)) == erasable_bytes(*old(buffer)).push(byte),
{
    buffer.inner.push(byte)
}

/// `Vec::as_slice` through the buffer's dereference: borrows the bytes held.
#[verifier::external_body]
pub(crate) fn erasable_as_slice(buffer: &ErasableBytes) -> (bytes: &[u8])
    ensures
        bytes@ == erasable_bytes(*buffer),
{
    buffer.inner.as_slice()
}

impl View for ErasableBytes {
    type V = Seq<u8>;

    open spec fn view(&self) -> Seq<u8> {
        erasable_bytes(*self)
    }
}

impl ErasableBytes {
    /// An empty buffer with room for `capacity` bytes, so that filling it up
    /// to that length never moves the bytes to another allocation.
    pub fn with_capacity(capacity: usize) -> (buffer: ErasableBytes)
        ensures
            buffer@ == Seq::<u8>::empty(),
    {
        erasable_new(Vec::with_capacity(capacity))
    }

    /// A buffer that holds a copy of `bytes`.
    pub fn from_slice(bytes: &[u8]) -> (buffer: ErasableBytes)
        ensures
            buffer@ == bytes@,
    {
        let mut buffer = ErasableBytes::with_capacity(bytes.len());
        let mut i: usize = 0;
        while i < bytes.len()
            invariant
                i <= bytes.len(),
                buffer@ == bytes@.take(i as int),
            decreases bytes.len() - i,
        {
            erasable_push(&mut buffer, bytes[i]);
            assert(bytes@.take(i as int).push(bytes@[i as int]) =~= bytes@.take(i + 1));
            i += 1;
        }
        assert(bytes@.take(bytes@.len() as int) =~= bytes@);
        buffer
    }

    /// Appends one byte. Only the allocation that the buffer ends with is
    /// erased, so make the buffer with room for all that it will hold.
    pub fn push(&mut self, byte: u8)
        ensures
            final(self)@ == old(self)@.push(byte),
    {
        erasable_push(self, byte)
    }

    /// The bytes held, borrowed for as long as the buffer is.
    pub fn as_slice(&self) -> (bytes: &[u8])
        ensures
            bytes@ == self@,
    {
        erasable_as_slice(self)
    }
}

} // verus!
