//! The receive and send buffer, and what the codecs may assume of it.

use bytes::BytesMut;
use vstd::prelude::*;

verus! {

/// `bytes::BytesMut`, the buffer that the transport fills and drains.
#[verifier::external_type_specification]
#[verifier::external_body]
pub struct ExBytesMut(BytesMut);

/// The bytes that a buffer holds, oldest first.
pub uninterp spec fn buffer_bytes(buf: BytesMut) -> Seq<u8>;

/// `BytesMut::len`: the number of bytes held.
pub assume_specification[ BytesMut::len ](buf: &BytesMut) -> (n: usize)
    ensures
        n == buffer_bytes(*buf).len(),
;

/// `BytesMut::advance`: drops the first `cnt` bytes and keeps the rest. The
/// outside function panics when `cnt` exceeds the length.
pub assume_specification[ BytesMut::advance ](buf: &mut BytesMut, cnt: usize)
    requires
        cnt <= buffer_bytes(*old(buf)).len(),
    ensures
        buffer_bytes(*final(buf)) == buffer_bytes(*old(buf)).skip(cnt as int),
;

/// `BytesMut::clear`: removes every byte.
pub assume_specification[ BytesMut::clear ](buf: &mut BytesMut)
    ensures
        buffer_bytes(*final(buf)) == Seq::<u8>::empty(),
;

/// `BytesMut::extend_from_slice`: appends the slice behind what is held,
/// growing the buffer where it has to.
pub assume_specification[ BytesMut::extend_from_slice ](buf: &mut BytesMut, extend: &[u8])
    ensures
        buffer_bytes(*final(buf)) == buffer_bytes(*old(buf)) + extend@,
;

/// `Deref::deref` of `BytesMut`: the held bytes as a slice.
pub assume_specification<'a>[ <BytesMut as core::ops::Deref>::deref ](buf: &'a BytesMut) -> (bytes:
    &'a [u8])
    ensures
        bytes@ == buffer_bytes(*buf),
;

/// What is left of `bytes` once its first `count` bytes are dropped; nothing
/// where `count` reaches past the end.
pub open spec fn drop_front(bytes: Seq<u8>, count: nat) -> Seq<u8> {
    if count <= bytes.len() {
        bytes.skip(count as int)
    } else {
        Seq::empty()
    }
}

} // verus!
