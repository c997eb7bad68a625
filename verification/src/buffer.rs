//! The byte buffer that incoming bytes wait in until a decoder takes them:
//! `bytes::BytesMut`, and what this library relies on of it.

use bytes::BytesMut;
use vstd::prelude::*;

verus! {

/// `bytes::BytesMut`: a growable buffer of bytes, of which the verifier sees
/// nothing but what the items below say.
#[verifier::external_type_specification]
#[verifier::external_body]
pub struct ExBytesMut(bytes::BytesMut);

/// The bytes that a `BytesMut` holds, first to last.
pub uninterp spec fn buffered(buf: BytesMut) -> Seq<u8>;

/// `BytesMut::len`: the number of bytes held.
#[verifier::external_body]
pub(crate) fn buffer_len(buf: &BytesMut) -> (n: usize)
    ensures
        n == buffered(*buf).len(),
{
    buf.len()
}

/// `BytesMut::split_to`: cuts the first `at` bytes off the buffer and returns
/// them, and the buffer keeps the rest. The outside function panics when `at`
/// exceeds the length, which the precondition excludes.
#[verifier::external_body]
pub(crate) fn buffer_split_to(buf: &mut BytesMut, at: usize) -> (head: BytesMut)
    requires
        at <= buffered(*old(buf)).len(),
    ensures
        buffered(head) == buffered(*old(buf)).subrange(0, at as int),
        buffered(*final(buf)) == buffered(*old(buf)).skip(at as int),
{
    buf.split_to(at)
}

/// `AsRef<[u8]>` of `BytesMut`: the held bytes as a slice.
#[verifier::external_body]
pub(crate) fn buffer_bytes(buf: &BytesMut) -> (s: &[u8])
    ensures
        s@ == buffered(*buf),
{
    buf.as_ref()
}

/// `Clone` of `BytesMut`: a new buffer that holds a copy of the same bytes.
pub assume_specification[ <bytes::BytesMut as Clone>::clone ](buf: &bytes::BytesMut) -> (copy:
    bytes::BytesMut)
    ensures
        buffered(copy) == buffered(*buf),
;

} // verus!
