//! Traits for I/O buffers.
//!
//! A buffer that is handed to the ring stays where it is while the kernel
//! works on it. What the operations need to know of a buffer is how many of
//! its bytes are initialised, and how many it can take.

use vstd::prelude::*;

verus! {

/// `bytes::Bytes`, as a type whose inside is not looked into.
#[verifier::external_type_specification]
#[verifier::external_body]
pub struct ExBytes(bytes::Bytes);

/// `bytes::BytesMut`, as a type whose inside is not looked into.
#[verifier::external_type_specification]
#[verifier::external_body]
pub struct ExBytesMut(bytes::BytesMut);

/// The bytes that a `Bytes` holds.
pub uninterp spec fn bytes_contents(b: bytes::Bytes) -> Seq<u8>;

/// The bytes that a `BytesMut` holds.
pub uninterp spec fn bytes_mut_contents(b: bytes::BytesMut) -> Seq<u8>;

/// `Bytes::len`: the number of bytes that the `Bytes` holds.
pub assume_specification[ bytes::Bytes::len ](b: &bytes::Bytes) -> (n: usize)
    ensures
        n == bytes_contents(*b).len(),
;

/// `BytesMut::len`: the number of bytes that the `BytesMut` holds.
pub assume_specification[ bytes::BytesMut::len ](b: &bytes::BytesMut) -> (n: usize)
    ensures
        n == bytes_mut_contents(*b).len(),
;

/// `BytesMut::capacity`: the number of bytes that the `BytesMut` can hold
/// without reallocating. It holds its bytes without reallocating, so the
/// number is at least its length; how much more it is depends on the
/// allocation, and nothing is claimed of that.
pub assume_specification[ bytes::BytesMut::capacity ](b: &bytes::BytesMut) -> (n: usize)
    ensures
        n >= bytes_mut_contents(*b).len(),
;

/// `Vec::capacity`: the number of bytes that the vector can hold without
/// reallocating, which is at least its length.
#[verifier::external_body]
fn vec_capacity(v: &Vec<u8>) -> (n: usize)
    ensures
        n >= v@.len(),
{
    v.capacity()
}

/// A buffer that exposes initialised memory at a stable place.
pub trait StableBuf {
    /// Returns the number of initialised bytes.
    fn bytes_init(&self) -> usize;
}

/// A buffer that exposes memory at a stable place, to be written to.
pub trait StableBufMut {
    /// Returns the number of bytes that the buffer can take, counted from
    /// its start: the bytes that it holds are among them.
    fn bytes_remaining(&self) -> usize;
}

impl StableBuf for Vec<u8> {
    fn bytes_init(&self) -> (n: usize)
        ensures
            n == self@.len(),
    {
        self.len()
    }
}

impl StableBufMut for Vec<u8> {
    fn bytes_remaining(&self) -> (n: usize)
        ensures
            n >= self@.len(),
    {
        vec_capacity(self)
    }
}

impl StableBuf for Box<[u8]> {
    fn bytes_init(&self) -> (n: usize)
        ensures
            n == self@.len(),
    {
        self.len()
    }
}

impl StableBufMut for Box<[u8]> {
    fn bytes_remaining(&self) -> (n: usize)
        ensures
            n == self@.len(),
    {
        self.len()
    }
}

impl StableBuf for &'static [u8] {
    fn bytes_init(&self) -> (n: usize)
        ensures
            n == self@.len(),
    {
        self.len()
    }
}

impl StableBuf for &'static str {
    fn bytes_init(&self) -> (n: usize)
        ensures
            n == self.len(),
    {
        self.len()
    }
}

impl StableBuf for bytes::Bytes {
    fn bytes_init(&self) -> (n: usize)
        ensures
            n == bytes_contents(*self).len(),
    {
        self.len()
    }
}

impl StableBuf for bytes::BytesMut {
    fn bytes_init(&self) -> (n: usize)
        ensures
            n == bytes_mut_contents(*self).len(),
    {
        self.len()
    }
}

impl StableBufMut for bytes::BytesMut {
    fn bytes_remaining(&self) -> (n: usize)
        ensures
            n >= bytes_mut_contents(*self).len(),
    {
        self.capacity()
    }
}

} // verus!
