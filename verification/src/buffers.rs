//! The byte containers that the stream moves data through: `bytes::Bytes`, `bytes::BytesMut`
//! and `tokio::io::ReadBuf`.
//!
//! Their contents are opaque here. Each container gets a name for what it holds, and each of
//! its operations a specification over that name.

use bytes::{Bytes, BytesMut};
use tokio::io::ReadBuf;
use vstd::prelude::*;

verus! {

#[verifier::external_type_specification]
#[verifier::external_body]
pub struct ExBytes(Bytes);

#[verifier::external_type_specification]
#[verifier::external_body]
pub struct ExBytesMut(BytesMut);

#[verifier::external_type_specification]
#[verifier::external_body]
pub struct ExReadBuf<'a>(ReadBuf<'a>);

/// The bytes that a `Bytes` holds, in order.
pub uninterp spec fn bytes_content(bytes: Bytes) -> Seq<u8>;

/// The bytes that a `BytesMut` holds, in order.
pub uninterp spec fn bytes_mut_content(bytes: BytesMut) -> Seq<u8>;

/// The filled part of a `ReadBuf`: the bytes delivered to it so far, in order.
pub uninterp spec fn read_buf_filled(buf: ReadBuf<'_>) -> Seq<u8>;

/// The number of bytes that a `ReadBuf` was made to take in all.
pub uninterp spec fn read_buf_capacity(buf: ReadBuf<'_>) -> nat;

/// The number of bytes that a `ReadBuf` still takes.
pub open spec fn read_buf_room(buf: ReadBuf<'_>) -> nat {
    (read_buf_capacity(buf) - read_buf_filled(buf).len()) as nat
}

/// What `after` holds beyond what `before` held.
pub open spec fn gained(before: ReadBuf<'_>, after: ReadBuf<'_>) -> Seq<u8> {
    read_buf_filled(after).skip(read_buf_filled(before).len() as int)
}

/// Whether `after` is `before` with bytes appended to the filled part.
pub open spec fn extended(before: ReadBuf<'_>, after: ReadBuf<'_>) -> bool {
    &&& read_buf_capacity(after) == read_buf_capacity(before)
    &&& read_buf_filled(after) == read_buf_filled(before) + gained(before, after)
}

/// `Bytes::len`: the number of bytes held.
pub assume_specification[ Bytes::len ](bytes: &Bytes) -> (len: usize)
    ensures
        len == bytes_content(*bytes).len(),
;

/// `Bytes::is_empty`: whether no byte is held.
pub assume_specification[ Bytes::is_empty ](bytes: &Bytes) -> (empty: bool)
    ensures
        empty == (bytes_content(*bytes).len() == 0),
;

/// `<Bytes as Deref>::deref`: the bytes held, as a slice.
pub assume_specification[ <Bytes as core::ops::Deref>::deref ](bytes: &Bytes) -> (slice: &[u8])
    ensures
        slice@ == bytes_content(*bytes),
;

/// `BytesMut::with_capacity`: an empty buffer with room for `capacity` bytes. A capacity above
/// `isize::MAX` is left out: the allocation would panic.
pub assume_specification[ BytesMut::with_capacity ](capacity: usize) -> (bytes: BytesMut)
    requires
        capacity <= isize::MAX,
    ensures
        bytes_mut_content(bytes) == Seq::<u8>::empty(),
;

/// `BytesMut::from(&[u8])`: a buffer that holds a copy of the slice.
pub assume_specification<'a>[ <BytesMut as From<&'a [u8]>>::from ](src: &'a [u8]) -> (bytes:
    BytesMut)
    ensures
        bytes_mut_content(bytes) == src@,
;

/// `BytesMut::len`: the number of bytes held.
pub assume_specification[ BytesMut::len ](bytes: &BytesMut) -> (len: usize)
    ensures
        len == bytes_mut_content(*bytes).len(),
;

/// `BytesMut::is_empty`: whether no byte is held.
pub assume_specification[ BytesMut::is_empty ](bytes: &BytesMut) -> (empty: bool)
    ensures
        empty == (bytes_mut_content(*bytes).len() == 0),
;

/// `<BytesMut as Deref>::deref`: the bytes held, as a slice.
pub assume_specification[ <BytesMut as core::ops::Deref>::deref ](bytes: &BytesMut) -> (slice:
    &[u8])
    ensures
        slice@ == bytes_mut_content(*bytes),
;

/// `BytesMut::split_to`: hands out the first `at` bytes and keeps the rest. It panics where
/// fewer than `at` bytes are held.
pub assume_specification[ BytesMut::split_to ](bytes: &mut BytesMut, at: usize) -> (front: BytesMut)
    requires
        at <= bytes_mut_content(*old(bytes)).len(),
    ensures
        bytes_mut_content(front) == bytes_mut_content(*old(bytes)).take(at as int),
        bytes_mut_content(*final(bytes)) == bytes_mut_content(*old(bytes)).skip(at as int),
;

/// `BytesMut::extend_from_slice`: appends a copy of the slice. It panics where the new length
/// does not fit in a `usize`. That the memory for it can be had is taken for granted, as it is
/// with every allocation.
pub assume_specification[ BytesMut::extend_from_slice ](bytes: &mut BytesMut, extend: &[u8])
    requires
        bytes_mut_content(*old(bytes)).len() + extend@.len() <= usize::MAX,
    ensures
        bytes_mut_content(*final(bytes)) == bytes_mut_content(*old(bytes)) + extend@,
;

/// `ReadBuf::remaining`: the number of bytes that the buffer still takes.
pub assume_specification<'a>[ ReadBuf::<'a>::remaining ](buf: &ReadBuf<'a>) -> (remaining: usize)
    ensures
        remaining == read_buf_capacity(*buf) - read_buf_filled(*buf).len(),
;

/// `ReadBuf::put_slice`: appends the slice to the filled part. It panics where the slice is
/// longer than what remains.
pub assume_specification<'a>[ ReadBuf::<'a>::put_slice ](buf: &mut ReadBuf<'a>, data: &[u8])
    requires
        data@.len() <= read_buf_capacity(*old(buf)) - read_buf_filled(*old(buf)).len(),
    ensures
        read_buf_filled(*final(buf)) == read_buf_filled(*old(buf)) + data@,
        read_buf_capacity(*final(buf)) == read_buf_capacity(*old(buf)),
;

/// Appends `data` to the filled part of `buf`.
pub(crate) fn deliver(buf: &mut ReadBuf<'_>, data: &[u8])
    requires
        data@.len() <= read_buf_capacity(*old(buf)) - read_buf_filled(*old(buf)).len(),
    ensures
        extended(*old(buf), *final(buf)),
        gained(*old(buf), *final(buf)) == data@,
{
    buf.put_slice(data);
    assert(gained(*old(buf), *buf) == data@);
}

/// Whether two slices hold the same bytes.
pub(crate) fn same_bytes(left: &[u8], right: &[u8]) -> (same: bool)
    ensures
        same == (left@ == right@),
{
    if left.len() != right.len() {
        return false;
    }
    for i in 0..left.len()
        invariant
            left@.len() == right@.len(),
            forall|j: int| 0 <= j < i ==> left@[j] == right@[j],
    {
        if left[i] != right[i] {
            return false;
        }
    }
    assert(left@ == right@);
    true
}

} // verus!
