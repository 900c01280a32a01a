//! Byte buffers of the `bytes` crate: what they hold, and the few operations
//! that reading and writing objects takes.

use bytes::{Bytes, BytesMut};
use vstd::prelude::*;

verus! {

/// `bytes::Bytes`: a run of bytes that is shared and never changes.
#[verifier::external_type_specification]
#[verifier::external_body]
pub struct ExBytes(bytes::Bytes);

/// `bytes::BytesMut`: a run of bytes that can grow.
#[verifier::external_type_specification]
#[verifier::external_body]
pub struct ExBytesMut(bytes::BytesMut);

/// The bytes that a `Bytes` holds, in order.
pub uninterp spec fn bytes_content(b: bytes::Bytes) -> Seq<u8>;

/// The bytes that a `BytesMut` holds, in order.
pub uninterp spec fn bytes_mut_content(b: bytes::BytesMut) -> Seq<u8>;

/// `Bytes::copy_from_slice` makes a `Bytes` that holds a copy of the slice.
pub assume_specification[ bytes::Bytes::copy_from_slice ](data: &[u8]) -> (b: bytes::Bytes)
    ensures
        bytes_content(b) == data@,
;

/// `Bytes::deref` gives the bytes that it holds as a slice.
pub assume_specification[ <bytes::Bytes as core::ops::Deref>::deref ](
    b: &bytes::Bytes,
) -> (data: &[u8])
    ensures
        data@ == bytes_content(*b),
;

/// `BytesMut::new` makes a buffer that holds nothing.
pub assume_specification[ bytes::BytesMut::new ]() -> (b: bytes::BytesMut)
    ensures
        bytes_mut_content(b) == Seq::<u8>::empty(),
;

/// `BytesMut::len` counts the bytes.
pub assume_specification[ bytes::BytesMut::len ](b: &bytes::BytesMut) -> (len: usize)
    ensures
        len == bytes_mut_content(*b).len(),
;

/// `BytesMut::freeze` keeps the bytes as they are.
pub assume_specification[ bytes::BytesMut::freeze ](b: bytes::BytesMut) -> (frozen: bytes::Bytes)
    ensures
        bytes_content(frozen) == bytes_mut_content(b),
;

/// The body of an object while its chunks come in.
///
/// The buffer starts out empty and only ever grows at its end.
pub struct BodyBuffer {
    inner: BytesMut,
}

impl BodyBuffer {
    /// What has come in so far.
    pub closed spec fn content(self) -> Seq<u8> {
        bytes_mut_content(self.inner)
    }

    /// An empty buffer.
    pub fn new() -> (buffer: Self)
        ensures
            buffer.content() == Seq::<u8>::empty(),
    {
        BodyBuffer { inner: BytesMut::new() }
    }

    /// Whether the buffer has room for a chunk.
    pub fn has_room_for(&self, chunk: &Bytes) -> (room: bool)
        ensures
            room == (self.content().len() + bytes_content(*chunk).len() <= isize::MAX / 2),
    {
        let data: &[u8] = chunk;
        let limit: usize = (isize::MAX / 2) as usize;
        let len: usize = self.inner.len();
        len <= limit && data.len() <= limit - len
    }

    /// `BytesMut::extend_from_slice` appends a copy of the slice.
    ///
    /// A `BodyBuffer` never gives bytes away at its front, so its content starts
    /// where its memory starts, and the buffer grows as a `Vec` does: by doubling
    /// at most. Up to half of `isize::MAX` bytes that cannot pass the limit on
    /// the size of an allocation, beyond which it panics.
    #[verifier::external_body]
    fn extend(&mut self, data: &[u8])
        requires
            old(self).content().len() + data@.len() <= isize::MAX / 2,
        ensures
            final(self).content() == old(self).content() + data@,
    {
        self.inner.extend_from_slice(data)
    }

    /// Appends a chunk.
    pub fn push_chunk(&mut self, chunk: &Bytes)
        requires
            old(self).content().len() + bytes_content(*chunk).len() <= isize::MAX / 2,
        ensures
            final(self).content() == old(self).content() + bytes_content(*chunk),
    {
        self.extend(chunk)
    }

    /// The whole body.
    pub fn freeze(self) -> (body: Bytes)
        ensures
            bytes_content(body) == self.content(),
    {
        self.inner.freeze()
    }
}

} // verus!
