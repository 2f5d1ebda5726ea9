//! The bytes that are read from a socket before it is known whose they are.

use bytes::{Bytes, BytesMut};
use vstd::prelude::*;

verus! {

/// The growing buffer of the `bytes` crate.
#[verifier::external_type_specification]
#[verifier::external_body]
pub struct ExBytesMut(bytes::BytesMut);

/// The shared bytes of the `bytes` crate.
#[verifier::external_type_specification]
#[verifier::external_body]
pub struct ExBytes(bytes::Bytes);

/// The bytes that a buffer holds.
pub uninterp spec fn buffered(buf: BytesMut) -> Seq<u8>;

/// The bytes that a `Bytes` holds.
pub uninterp spec fn frozen(bytes: Bytes) -> Seq<u8>;

/// Whether `more` bytes can be added to a buffer of `len` bytes. Twice the memory is
/// allocated when a buffer grows.
pub open spec fn fits(len: nat, more: nat) -> bool {
    len + more <= isize::MAX / 4
}

/// `BytesMut::with_capacity` makes a buffer that holds nothing.
#[verifier::external_body]
pub(crate) fn with_capacity(capacity: usize) -> (buf: BytesMut)
    requires
        capacity <= isize::MAX,
    ensures
        buffered(buf) == Seq::<u8>::empty(),
{
    BytesMut::with_capacity(capacity)
}

/// `BytesMut::clear` empties the buffer.
#[verifier::external_body]
pub(crate) fn clear(buf: &mut BytesMut)
    ensures
        buffered(*final(buf)) == Seq::<u8>::empty(),
{
    buf.clear()
}

/// `BytesMut::extend_from_slice` appends the bytes.
#[verifier::external_body]
pub(crate) fn extend(buf: &mut BytesMut, read: &Vec<u8>)
    requires
        fits(buffered(*old(buf)).len(), read@.len()),
    ensures
        buffered(*final(buf)) == buffered(*old(buf)) + read@,
{
    buf.extend_from_slice(read)
}

/// `BytesMut::capacity` is no less than the number of bytes that the buffer holds.
#[verifier::external_body]
pub(crate) fn capacity(buf: &BytesMut) -> (capacity: usize)
    ensures
        capacity >= buffered(*buf).len(),
{
    buf.capacity()
}

/// `BytesMut::freeze` keeps the bytes.
#[verifier::external_body]
pub(crate) fn freeze(buf: BytesMut) -> (bytes: Bytes)
    ensures
        frozen(bytes) == buffered(buf),
{
    buf.freeze()
}

} // verus!
