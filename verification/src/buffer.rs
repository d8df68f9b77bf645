//! The byte buffer that every encoder fills and every decoder drains.
//!
//! The buffer is `bytes::BytesMut`. Verus cannot look inside it, so this
//! module gives its contents a name, [`contents`], and states what each
//! operation that the codec uses does to those contents. Those statements
//! are not proved: they restate the documentation of `bytes`. Encoders put
//! their bytes together first and hand them to the buffer in one piece,
//! with [`append`], which tests that the buffer can take them.

use vstd::prelude::*;
use bytes::{BufMut, BytesMut};
use crate::error::Error;

verus! {

/// `bytes::BytesMut`, a growable buffer of bytes. Its inside is not looked
/// at; what it holds is known only as [`contents`].
#[verifier::external_type_specification]
#[verifier::external_body]
pub struct ExBytesMut(bytes::BytesMut);

/// `bytes::Bytes`, a shared run of bytes. It is carried and never read, and
/// nothing is said of it.
#[verifier::external_type_specification]
#[verifier::external_body]
pub struct ExBytes(bytes::Bytes);

/// The bytes that a buffer holds, first to last.
pub uninterp spec fn contents(buf: &BytesMut) -> Seq<u8>;

/// Whether a buffer that holds `held` can take `more` as well: no buffer
/// holds more than `isize::MAX` bytes.
pub open spec fn fits(held: Seq<u8>, more: Seq<u8>) -> bool {
    held.len() + more.len() <= isize::MAX
}

/// `BytesMut::len` returns the number of bytes held.
pub assume_specification[ bytes::BytesMut::len ](buf: &BytesMut) -> (n: usize)
    ensures
        n == contents(buf).len(),
;

/// `BytesMut::split_to` hands out the first `at` bytes as a buffer of their
/// own and keeps the rest. It panics when `at` exceeds the length.
pub assume_specification[ bytes::BytesMut::split_to ](buf: &mut BytesMut, at: usize) -> (head:
    BytesMut)
    requires
        at <= contents(old(buf)).len(),
    ensures
        contents(&head) == contents(old(buf)).subrange(0, at as int),
        contents(final(buf)) == contents(old(buf)).skip(at as int),
;

/// `BufMut::put_slice` on a `BytesMut` appends the bytes of `src` in order,
/// growing the buffer as needed. It panics where the buffer would have to
/// hold more than `isize::MAX` bytes, which the precondition rules out.
#[verifier::external_body]
fn put_slice(buf: &mut BytesMut, src: &[u8])
    requires
        fits(contents(old(buf)), src@),
    ensures
        contents(final(buf)) == contents(old(buf)) + src@,
{
    buf.put_slice(src)
}

/// `AsRef::<[u8]>::as_ref` on a `BytesMut` gives the bytes that it holds, as
/// a slice.
#[verifier::external_body]
pub(crate) fn as_slice(buf: &BytesMut) -> (bytes: &[u8])
    ensures
        bytes@ == contents(buf),
{
    buf.as_ref()
}

/// Appends `bytes` to `buf` where `buf` can take them. Where it cannot,
/// nothing is appended and the error says so.
pub fn append(buf: &mut BytesMut, bytes: &[u8]) -> (r: Result<(), Error>)
    ensures
        if fits(contents(old(buf)), bytes@) {
            r is Ok && contents(final(buf)) == contents(old(buf)) + bytes@
        } else {
            r matches Err(Error::Codec(_)) && contents(final(buf)) == contents(old(buf))
        },
{
    let limit: usize = isize::MAX as usize;
    if bytes.len() > limit || buf.len() > limit - bytes.len() {
        return Err(Error::Codec("the buffer cannot hold the bytes".to_owned()));
    }
    put_slice(buf, bytes);
    Ok(())
}

} // verus!
