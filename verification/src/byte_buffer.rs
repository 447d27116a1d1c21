//! The growable byte buffer of the `bytes` crate, as the interceptors use it
//! to hold the bytes that an interceptor writer has not taken yet.

use bytes::BytesMut;
use vstd::prelude::*;

verus! {

#[verifier::external_type_specification]
#[verifier::external_body]
pub struct ExBytesMut(BytesMut);

/// The bytes that a `BytesMut` holds, from first to last.
pub uninterp spec fn bytes_mut_contents(buffer: BytesMut) -> Seq<u8>;

/// Calls `BytesMut::new`, which the crate documents as a buffer of length 0:
/// the contents are empty.
#[verifier::external_body]
pub(crate) fn bytes_mut_new() -> (buffer: BytesMut)
    ensures
        bytes_mut_contents(buffer) == Seq::<u8>::empty(),
{
    BytesMut::new()
}

/// Calls `BytesMut::len`: the number of bytes held.
#[verifier::external_body]
pub(crate) fn bytes_mut_len(buffer: &BytesMut) -> (len: usize)
    ensures
        len == bytes_mut_contents(*buffer).len(),
{
    buffer.len()
}

/// Calls `BytesMut::deref` (the buffer as a slice): the slice holds exactly the
/// contents, in order.
#[verifier::external_body]
pub(crate) fn bytes_mut_as_slice(buffer: &BytesMut) -> (data: &[u8])
    ensures
        data@ == bytes_mut_contents(*buffer),
{
    &buffer[..]
}

/// Calls `<BytesMut as Extend<&u8>>::extend` with the bytes of a slice: they
/// are appended after the present contents.  The buffer grows its allocation
/// first, which panics when the new size does not fit; sizes beyond
/// `isize::MAX` are left out.
#[verifier::external_body]
pub(crate) fn bytes_mut_extend(buffer: &mut BytesMut, data: &[u8])
    requires
        bytes_mut_contents(*old(buffer)).len() + data@.len() <= isize::MAX,
    ensures
        bytes_mut_contents(*final(buffer)) == bytes_mut_contents(*old(buffer)) + data@,
{
    buffer.extend(data)
}

/// Calls `BytesMut::split_to`: the buffer keeps the bytes from `at` on and the
/// result holds the first `at` bytes.  The crate panics when `at` exceeds the
/// length, so that input is left out.
#[verifier::external_body]
pub(crate) fn bytes_mut_split_to(buffer: &mut BytesMut, at: usize) -> (front: BytesMut)
    requires
        at <= bytes_mut_contents(*old(buffer)).len(),
    ensures
        bytes_mut_contents(front) == bytes_mut_contents(*old(buffer)).take(at as int),
        bytes_mut_contents(*final(buffer)) == bytes_mut_contents(*old(buffer)).skip(at as int),
{
    buffer.split_to(at)
}

/// Calls `BytesMut::truncate`: the first `len` bytes stay, the rest are
/// dropped; a `len` beyond the length changes nothing.
#[verifier::external_body]
pub(crate) fn bytes_mut_truncate(buffer: &mut BytesMut, len: usize)
    ensures
        bytes_mut_contents(*final(buffer)) == (if len < bytes_mut_contents(*old(buffer)).len() {
            bytes_mut_contents(*old(buffer)).take(len as int)
        } else {
            bytes_mut_contents(*old(buffer))
        }),
{
    buffer.truncate(len)
}

} // verus!
