//! The byte buffers of the `bytes` crate.
//!
//! Every contract here leaves running out of memory aside, as the contracts of
//! `Vec` do.

use bytes::{BufMut, Bytes, BytesMut};
use vstd::prelude::*;

verus! {

#[verifier::external_type_specification]
#[verifier::external_body]
pub struct ExBytesMut(bytes::BytesMut);

#[verifier::external_type_specification]
#[verifier::external_body]
pub struct ExBytes(bytes::Bytes);

/// The bytes that a growable buffer holds.
pub uninterp spec fn buffered(b: bytes::BytesMut) -> Seq<u8>;

/// The bytes that a frozen buffer holds.
pub uninterp spec fn content(b: bytes::Bytes) -> Seq<u8>;

/// `BytesMut::new` makes an empty buffer.
pub assume_specification[ bytes::BytesMut::new ]() -> (r: bytes::BytesMut)
    ensures
        buffered(r) == Seq::<u8>::empty(),
;

/// `BytesMut::with_capacity` makes an empty buffer.
pub assume_specification[ bytes::BytesMut::with_capacity ](capacity: usize) -> (r: bytes::BytesMut)
    ensures
        buffered(r) == Seq::<u8>::empty(),
;

/// `BytesMut::len` counts the bytes held.
pub assume_specification[ bytes::BytesMut::len ](b: &bytes::BytesMut) -> (r: usize)
    ensures
        r == buffered(*b).len(),
;

/// `BytesMut::is_empty` tells whether no byte is held.
pub assume_specification[ bytes::BytesMut::is_empty ](b: &bytes::BytesMut) -> (r: bool)
    ensures
        r == (buffered(*b).len() == 0),
;

/// `BytesMut::extend_from_slice` appends the slice.
pub assume_specification[ bytes::BytesMut::extend_from_slice ](
    b: &mut bytes::BytesMut,
    extend: &[u8],
)
    ensures
        buffered(*final(b)) == buffered(*old(b)) + extend@,
;

/// `BytesMut::split_to` hands out the first `at` bytes and keeps the others.
/// It panics where the buffer holds fewer.
pub assume_specification[ bytes::BytesMut::split_to ](b: &mut bytes::BytesMut, at: usize) -> (r:
    bytes::BytesMut)
    requires
        at <= buffered(*old(b)).len(),
    ensures
        buffered(r) == buffered(*old(b)).take(at as int),
        buffered(*final(b)) == buffered(*old(b)).skip(at as int),
;

/// `BytesMut::freeze` keeps the bytes.
pub assume_specification[ bytes::BytesMut::freeze ](b: bytes::BytesMut) -> (r: bytes::Bytes)
    ensures
        content(r) == buffered(b),
;

/// `Bytes::len` counts the bytes held. No slice in memory is longer than
/// `isize::MAX` bytes.
pub assume_specification[ bytes::Bytes::len ](b: &bytes::Bytes) -> (r: usize)
    ensures
        r == content(*b).len(),
        r <= isize::MAX,
;

/// The slice that `BytesMut` dereferences to: the bytes held.
#[verifier::external_body]
pub(crate) fn buffered_slice(b: &BytesMut) -> (r: &[u8])
    ensures
        r@ == buffered(*b),
{
    b
}

/// The slice that `Bytes` dereferences to: the bytes held.
#[verifier::external_body]
pub(crate) fn content_slice(b: &Bytes) -> (r: &[u8])
    ensures
        r@ == content(*b),
{
    b
}

/// `BufMut::put_u8` on a `BytesMut` appends one byte.
#[verifier::external_body]
pub(crate) fn put_u8(b: &mut BytesMut, n: u8)
    ensures
        buffered(*final(b)) == buffered(*old(b)).push(n),
{
    b.put_u8(n)
}

/// The four bytes of a 32-bit number, most significant first.
pub open spec fn be_bytes(n: u32) -> Seq<u8> {
    seq![
        (n / 0x100_0000) as u8,
        (n / 0x1_0000 % 0x100) as u8,
        (n / 0x100 % 0x100) as u8,
        (n % 0x100) as u8,
    ]
}

/// `BufMut::put_u32` on a `BytesMut` appends the number in big-endian order.
#[verifier::external_body]
pub(crate) fn put_u32(b: &mut BytesMut, n: u32)
    ensures
        buffered(*final(b)) == buffered(*old(b)) + be_bytes(n),
{
    b.put_u32(n)
}

/// `BufMut::put_slice` on a `BytesMut` appends the slice.
#[verifier::external_body]
pub(crate) fn put_slice(b: &mut BytesMut, src: &[u8])
    ensures
        buffered(*final(b)) == buffered(*old(b)) + src@,
{
    b.put_slice(src)
}

} // verus!
