use bytes::{Bytes, BytesMut};
use std::io::Write;
use vstd::prelude::*;

verus! {

/// `bytes::BytesMut`, a writable buffer of fixed length.
#[verifier::external_type_specification]
#[verifier::external_body]
pub struct ExBytesMut(BytesMut);

/// `bytes::Bytes`, a readable buffer.
#[verifier::external_type_specification]
#[verifier::external_body]
pub struct ExBytes(Bytes);

/// `std::io::Error`, carried through from a failed write.
#[verifier::external_type_specification]
#[verifier::external_body]
pub struct ExIoError(std::io::Error);

/// The bytes that a writable buffer holds, first to last.
pub uninterp spec fn bytes_mut_contents(buf: BytesMut) -> Seq<u8>;

/// The bytes that a readable buffer holds, first to last.
pub uninterp spec fn bytes_contents(buf: Bytes) -> Seq<u8>;

/// `BytesMut::len`: the number of bytes in the buffer.
#[verifier::external_body]
pub(crate) fn buf_len(buf: &BytesMut) -> (len: usize)
    ensures
        len == bytes_mut_contents(*buf).len(),
{
    buf.len()
}

/// `Write::write` on the buffer's bytes, reached through `BytesMut::as_mut`:
/// copies as much of `src` as fits over the front of the buffer, never
/// fails, and reports how many bytes it copied. The length of the buffer
/// stays.
#[verifier::external_body]
pub(crate) fn buf_write(buf: &mut BytesMut, src: &[u8]) -> (res: Result<usize, std::io::Error>)
    ensures
        res matches Ok(n) && n == (if src@.len() <= bytes_mut_contents(*old(buf)).len() {
            src@.len()
        } else {
            bytes_mut_contents(*old(buf)).len()
        }) && bytes_mut_contents(*final(buf)) == src@.take(n as int) + bytes_mut_contents(
            *old(buf),
        ).skip(n as int),
{
    buf.as_mut().write(src)
}

/// `Write::write_all` on the buffer's bytes, reached through
/// `BytesMut::as_mut`: where `src` fits it is copied over the front of the
/// buffer; where it does not, the call fails. The length of the buffer stays
/// either way.
#[verifier::external_body]
pub(crate) fn buf_write_all(buf: &mut BytesMut, src: &[u8]) -> (res: Result<(), std::io::Error>)
    ensures
        res is Ok <==> src@.len() <= bytes_mut_contents(*old(buf)).len(),
        res is Ok ==> bytes_mut_contents(*final(buf)) == src@ + bytes_mut_contents(
            *old(buf),
        ).skip(src@.len() as int),
        bytes_mut_contents(*final(buf)).len() == bytes_mut_contents(*old(buf)).len(),
{
    buf.as_mut().write_all(src)
}

/// `copy_from_slice` on the buffer's bytes: the buffer then holds `src`.
#[verifier::external_body]
pub(crate) fn buf_copy_from_slice(buf: &mut BytesMut, src: &[u8])
    requires
        src@.len() == bytes_mut_contents(*old(buf)).len(),
    ensures
        bytes_mut_contents(*final(buf)) == src@,
{
    buf.copy_from_slice(src)
}

/// Assignment to one byte of the buffer, reached through `BytesMut::as_mut`.
#[verifier::external_body]
pub(crate) fn buf_set(buf: &mut BytesMut, index: usize, byte: u8)
    requires
        index < bytes_mut_contents(*old(buf)).len(),
    ensures
        bytes_mut_contents(*final(buf)) == bytes_mut_contents(*old(buf)).update(
            index as int,
            byte,
        ),
{
    buf.as_mut()[index] = byte;
}

/// `Bytes::len`: the number of bytes in the buffer.
#[verifier::external_body]
pub(crate) fn bytes_len(buf: &Bytes) -> (len: usize)
    ensures
        len == bytes_contents(*buf).len(),
{
    buf.len()
}

/// `Bytes::as_ref`: the buffer's bytes as a slice.
#[verifier::external_body]
pub(crate) fn bytes_as_slice(buf: &Bytes) -> (bytes: &[u8])
    ensures
        bytes@ == bytes_contents(*buf),
{
    buf.as_ref()
}

/// `Bytes::from` on a slice: a buffer that holds a copy of `src`.
#[verifier::external_body]
pub(crate) fn bytes_from_slice(src: &[u8]) -> (buf: Bytes)
    ensures
        bytes_contents(buf) == src@,
{
    Bytes::from(src)
}

} // verus!
