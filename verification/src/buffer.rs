//! The growable byte buffer in which a session collects audio.

use bytes::BytesMut;
use vstd::prelude::*;

verus! {

/// The buffer type of the `bytes` crate; what it holds is `buffer_bytes`.
#[verifier::external_type_specification]
#[verifier::external_body]
pub struct ExBytesMut(BytesMut);

/// The bytes that a buffer holds, first to last.
pub uninterp spec fn buffer_bytes(buffer: BytesMut) -> Seq<u8>;

/// `BytesMut::new`: a buffer that holds nothing.
pub assume_specification[ BytesMut::new ]() -> (buffer: BytesMut)
    ensures
        buffer_bytes(buffer) == Seq::<u8>::empty(),
;

/// `BytesMut::len`: the number of bytes held.
pub assume_specification[ BytesMut::len ](buffer: &BytesMut) -> (n: usize)
    ensures
        n == buffer_bytes(*buffer).len(),
;

/// `BytesMut::extend_from_slice`: the bytes of `extend` are added behind
/// those held. The buffer grows through `Vec::reserve`, which refuses a
/// capacity above `isize::MAX`.
pub assume_specification[ BytesMut::extend_from_slice ](buffer: &mut BytesMut, extend: &[u8])
    requires
        buffer_bytes(*old(buffer)).len() + extend@.len() <= isize::MAX,
    ensures
        buffer_bytes(*final(buffer)) == buffer_bytes(*old(buffer)) + extend@,
;

/// The bytes of a buffer as a vector (`to_vec` on the buffer's slice).
#[verifier::external_body]
pub(crate) fn buffer_to_vec(buffer: &BytesMut) -> (v: Vec<u8>)
    ensures
        v@ == buffer_bytes(*buffer),
{
    buffer.to_vec()
}

} // verus!
