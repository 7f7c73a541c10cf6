use byteorder::{BigEndian, ByteOrder, LittleEndian, NativeEndian};
use bytes::BytesMut;
use vstd::prelude::*;

use crate::buf::bytes_mut_contents;

verus! {

/// The order in which the bytes of an integer stand on the wire.
#[derive(Clone, Copy, Debug, PartialEq, Eq, Structural)]
pub enum Endian {
    /// Least significant byte first.
    Little,
    /// Most significant byte first.
    Big,
}

/// The `width` lowest base-256 digits of `v`, least significant first.
pub open spec fn le_bytes(v: nat, width: nat) -> Seq<u8>
    decreases width,
{
    if width == 0 {
        Seq::empty()
    } else {
        seq![(v % 256) as u8] + le_bytes(v / 256, (width - 1) as nat)
    }
}

/// The number whose base-256 digits, least significant first, are `bytes`.
pub open spec fn le_value(bytes: Seq<u8>) -> nat
    decreases bytes.len(),
{
    if bytes.len() == 0 {
        0
    } else {
        bytes[0] as nat + 256 * le_value(bytes.drop_first())
    }
}

/// Whether `v` has at most `width` base-256 digits.
pub open spec fn fits(v: nat, width: nat) -> bool
    decreases width,
{
    if width == 0 {
        v == 0
    } else {
        fits(v / 256, (width - 1) as nat)
    }
}

/// The `width` bytes of `v` in the given order.
pub open spec fn int_bytes(v: nat, width: nat, order: Endian) -> Seq<u8> {
    match order {
        Endian::Little => le_bytes(v, width),
        Endian::Big => le_bytes(v, width).reverse(),
    }
}

/// The number that `bytes` stand for in the given order.
pub open spec fn int_value(bytes: Seq<u8>, order: Endian) -> nat {
    match order {
        Endian::Little => le_value(bytes),
        Endian::Big => le_value(bytes.reverse()),
    }
}

/// `le_bytes` gives exactly `width` bytes.
pub proof fn lemma_le_bytes_len(v: nat, width: nat)
    ensures
        le_bytes(v, width).len() == width,
    decreases width,
{
    if width > 0 {
        lemma_le_bytes_len(v / 256, (width - 1) as nat);
    }
}

/// Reading back the little-endian bytes of a number that fits gives the
/// number.
pub proof fn lemma_le_round_trip(v: nat, width: nat)
    requires
        fits(v, width),
    ensures
        le_value(le_bytes(v, width)) == v,
    decreases width,
{
    if width > 0 {
        let rest = le_bytes(v / 256, (width - 1) as nat);
        lemma_le_round_trip(v / 256, (width - 1) as nat);
        assert(le_bytes(v, width).drop_first() =~= rest);
    }
}

/// In either order, the bytes of a number have the asked width, and reading
/// them back in the same order gives the number.
pub proof fn lemma_int_round_trip(v: nat, width: nat, order: Endian)
    requires
        fits(v, width),
    ensures
        int_bytes(v, width, order).len() == width,
        int_value(int_bytes(v, width, order), order) == v,
{
    lemma_le_bytes_len(v, width);
    lemma_le_round_trip(v, width);
    assert(le_bytes(v, width).reverse().reverse() =~= le_bytes(v, width));
}

/// Every 16-bit number has two digits, every 32-bit number four and every
/// 64-bit number eight.
pub proof fn lemma_fixed_widths_fit(a: u16, b: u32, c: u64)
    ensures
        fits(a as nat, 2),
        fits(b as nat, 4),
        fits(c as nat, 8),
{
    reveal_with_fuel(fits, 9);
}


/// `LittleEndian::write_u16`: puts the 2 bytes of `v`, least significant first,
/// over the first 2 bytes of the buffer and leaves the rest.
#[verifier::external_body]
fn write_u16_le(buf: &mut BytesMut, v: u16)
    requires
        bytes_mut_contents(*old(buf)).len() >= 2,
    ensures
        bytes_mut_contents(*final(buf)) == int_bytes(v as nat, 2, Endian::Little) + bytes_mut_contents(
            *old(buf),
        ).skip(2),
{
    LittleEndian::write_u16(buf.as_mut(), v)
}

/// `LittleEndian::read_u16`: the number that the first 2 bytes stand for, least
/// significant first.
#[verifier::external_body]
fn read_u16_le(bytes: &[u8]) -> (v: u16)
    requires
        bytes@.len() >= 2,
    ensures
        v == int_value(bytes@.take(2), Endian::Little) as u16,
{
    LittleEndian::read_u16(bytes)
}

/// `BigEndian::write_u16`: puts the 2 bytes of `v`, most significant first,
/// over the first 2 bytes of the buffer and leaves the rest.
#[verifier::external_body]
fn write_u16_be(buf: &mut BytesMut, v: u16)
    requires
        bytes_mut_contents(*old(buf)).len() >= 2,
    ensures
        bytes_mut_contents(*final(buf)) == int_bytes(v as nat, 2, Endian::Big) + bytes_mut_contents(
            *old(buf),
        ).skip(2),
{
    BigEndian::write_u16(buf.as_mut(), v)
}

/// `BigEndian::read_u16`: the number that the first 2 bytes stand for, most
/// significant first.
#[verifier::external_body]
fn read_u16_be(bytes: &[u8]) -> (v: u16)
    requires
        bytes@.len() >= 2,
    ensures
        v == int_value(bytes@.take(2), Endian::Big) as u16,
{
    BigEndian::read_u16(bytes)
}

/// Writes `v` over the first 2 bytes of the buffer in the given order.
pub fn put_u16(buf: &mut BytesMut, v: u16, order: Endian)
    requires
        bytes_mut_contents(*old(buf)).len() >= 2,
    ensures
        bytes_mut_contents(*final(buf)) == int_bytes(v as nat, 2, order) + bytes_mut_contents(
            *old(buf),
        ).skip(2),
{
    match order {
        Endian::Little => write_u16_le(buf, v),
        Endian::Big => write_u16_be(buf, v),
    }
}

/// Reads the number that the first 2 bytes stand for in the given order.
pub fn get_u16(bytes: &[u8], order: Endian) -> (v: u16)
    requires
        bytes@.len() >= 2,
    ensures
        v == int_value(bytes@.take(2), order) as u16,
{
    match order {
        Endian::Little => read_u16_le(bytes),
        Endian::Big => read_u16_be(bytes),
    }
}

/// `LittleEndian::write_u32`: puts the 4 bytes of `v`, least significant first,
/// over the first 4 bytes of the buffer and leaves the rest.
#[verifier::external_body]
fn write_u32_le(buf: &mut BytesMut, v: u32)
    requires
        bytes_mut_contents(*old(buf)).len() >= 4,
    ensures
        bytes_mut_contents(*final(buf)) == int_bytes(v as nat, 4, Endian::Little) + bytes_mut_contents(
            *old(buf),
        ).skip(4),
{
    LittleEndian::write_u32(buf.as_mut(), v)
}

/// `LittleEndian::read_u32`: the number that the first 4 bytes stand for, least
/// significant first.
#[verifier::external_body]
fn read_u32_le(bytes: &[u8]) -> (v: u32)
    requires
        bytes@.len() >= 4,
    ensures
        v == int_value(bytes@.take(4), Endian::Little) as u32,
{
    LittleEndian::read_u32(bytes)
}

/// `BigEndian::write_u32`: puts the 4 bytes of `v`, most significant first,
/// over the first 4 bytes of the buffer and leaves the rest.
#[verifier::external_body]
fn write_u32_be(buf: &mut BytesMut, v: u32)
    requires
        bytes_mut_contents(*old(buf)).len() >= 4,
    ensures
        bytes_mut_contents(*final(buf)) == int_bytes(v as nat, 4, Endian::Big) + bytes_mut_contents(
            *old(buf),
        ).skip(4),
{
    BigEndian::write_u32(buf.as_mut(), v)
}

/// `BigEndian::read_u32`: the number that the first 4 bytes stand for, most
/// significant first.
#[verifier::external_body]
fn read_u32_be(bytes: &[u8]) -> (v: u32)
    requires
        bytes@.len() >= 4,
    ensures
        v == int_value(bytes@.take(4), Endian::Big) as u32,
{
    BigEndian::read_u32(bytes)
}

/// Writes `v` over the first 4 bytes of the buffer in the given order.
pub fn put_u32(buf: &mut BytesMut, v: u32, order: Endian)
    requires
        bytes_mut_contents(*old(buf)).len() >= 4,
    ensures
        bytes_mut_contents(*final(buf)) == int_bytes(v as nat, 4, order) + bytes_mut_contents(
            *old(buf),
        ).skip(4),
{
    match order {
        Endian::Little => write_u32_le(buf, v),
        Endian::Big => write_u32_be(buf, v),
    }
}

/// Reads the number that the first 4 bytes stand for in the given order.
pub fn get_u32(bytes: &[u8], order: Endian) -> (v: u32)
    requires
        bytes@.len() >= 4,
    ensures
        v == int_value(bytes@.take(4), order) as u32,
{
    match order {
        Endian::Little => read_u32_le(bytes),
        Endian::Big => read_u32_be(bytes),
    }
}

/// `LittleEndian::write_i32`: puts the 4 bytes of `v`, least significant first,
/// over the first 4 bytes of the buffer and leaves the rest.
#[verifier::external_body]
fn write_i32_le(buf: &mut BytesMut, v: i32)
    requires
        bytes_mut_contents(*old(buf)).len() >= 4,
    ensures
        bytes_mut_contents(*final(buf)) == int_bytes((v as u32) as nat, 4, Endian::Little) + bytes_mut_contents(
            *old(buf),
        ).skip(4),
{
    LittleEndian::write_i32(buf.as_mut(), v)
}

/// `LittleEndian::read_i32`: the number that the first 4 bytes stand for, least
/// significant first.
#[verifier::external_body]
fn read_i32_le(bytes: &[u8]) -> (v: i32)
    requires
        bytes@.len() >= 4,
    ensures
        v == (int_value(bytes@.take(4), Endian::Little) as u32) as i32,
{
    LittleEndian::read_i32(bytes)
}

/// `BigEndian::write_i32`: puts the 4 bytes of `v`, most significant first,
/// over the first 4 bytes of the buffer and leaves the rest.
#[verifier::external_body]
fn write_i32_be(buf: &mut BytesMut, v: i32)
    requires
        bytes_mut_contents(*old(buf)).len() >= 4,
    ensures
        bytes_mut_contents(*final(buf)) == int_bytes((v as u32) as nat, 4, Endian::Big) + bytes_mut_contents(
            *old(buf),
        ).skip(4),
{
    BigEndian::write_i32(buf.as_mut(), v)
}

/// `BigEndian::read_i32`: the number that the first 4 bytes stand for, most
/// significant first.
#[verifier::external_body]
fn read_i32_be(bytes: &[u8]) -> (v: i32)
    requires
        bytes@.len() >= 4,
    ensures
        v == (int_value(bytes@.take(4), Endian::Big) as u32) as i32,
{
    BigEndian::read_i32(bytes)
}

/// Writes `v` over the first 4 bytes of the buffer in the given order.
pub fn put_i32(buf: &mut BytesMut, v: i32, order: Endian)
    requires
        bytes_mut_contents(*old(buf)).len() >= 4,
    ensures
        bytes_mut_contents(*final(buf)) == int_bytes((v as u32) as nat, 4, order) + bytes_mut_contents(
            *old(buf),
        ).skip(4),
{
    match order {
        Endian::Little => write_i32_le(buf, v),
        Endian::Big => write_i32_be(buf, v),
    }
}

/// Reads the number that the first 4 bytes stand for in the given order.
pub fn get_i32(bytes: &[u8], order: Endian) -> (v: i32)
    requires
        bytes@.len() >= 4,
    ensures
        v == (int_value(bytes@.take(4), order) as u32) as i32,
{
    match order {
        Endian::Little => read_i32_le(bytes),
        Endian::Big => read_i32_be(bytes),
    }
}

/// `LittleEndian::write_u64`: puts the 8 bytes of `v`, least significant first,
/// over the first 8 bytes of the buffer and leaves the rest.
#[verifier::external_body]
fn write_u64_le(buf: &mut BytesMut, v: u64)
    requires
        bytes_mut_contents(*old(buf)).len() >= 8,
    ensures
        bytes_mut_contents(*final(buf)) == int_bytes(v as nat, 8, Endian::Little) + bytes_mut_contents(
            *old(buf),
        ).skip(8),
{
    LittleEndian::write_u64(buf.as_mut(), v)
}

/// `LittleEndian::read_u64`: the number that the first 8 bytes stand for, least
/// significant first.
#[verifier::external_body]
fn read_u64_le(bytes: &[u8]) -> (v: u64)
    requires
        bytes@.len() >= 8,
    ensures
        v == int_value(bytes@.take(8), Endian::Little) as u64,
{
    LittleEndian::read_u64(bytes)
}

/// `BigEndian::write_u64`: puts the 8 bytes of `v`, most significant first,
/// over the first 8 bytes of the buffer and leaves the rest.
#[verifier::external_body]
fn write_u64_be(buf: &mut BytesMut, v: u64)
    requires
        bytes_mut_contents(*old(buf)).len() >= 8,
    ensures
        bytes_mut_contents(*final(buf)) == int_bytes(v as nat, 8, Endian::Big) + bytes_mut_contents(
            *old(buf),
        ).skip(8),
{
    BigEndian::write_u64(buf.as_mut(), v)
}

/// `BigEndian::read_u64`: the number that the first 8 bytes stand for, most
/// significant first.
#[verifier::external_body]
fn read_u64_be(bytes: &[u8]) -> (v: u64)
    requires
        bytes@.len() >= 8,
    ensures
        v == int_value(bytes@.take(8), Endian::Big) as u64,
{
    BigEndian::read_u64(bytes)
}

/// Writes `v` over the first 8 bytes of the buffer in the given order.
pub fn put_u64(buf: &mut BytesMut, v: u64, order: Endian)
    requires
        bytes_mut_contents(*old(buf)).len() >= 8,
    ensures
        bytes_mut_contents(*final(buf)) == int_bytes(v as nat, 8, order) + bytes_mut_contents(
            *old(buf),
        ).skip(8),
{
    match order {
        Endian::Little => write_u64_le(buf, v),
        Endian::Big => write_u64_be(buf, v),
    }
}

/// Reads the number that the first 8 bytes stand for in the given order.
pub fn get_u64(bytes: &[u8], order: Endian) -> (v: u64)
    requires
        bytes@.len() >= 8,
    ensures
        v == int_value(bytes@.take(8), order) as u64,
{
    match order {
        Endian::Little => read_u64_le(bytes),
        Endian::Big => read_u64_be(bytes),
    }
}

/// `NativeEndian::read_u16`: the number that the first two bytes stand for in
/// the byte order of the machine, which is one of the two.
#[verifier::external_body]
fn read_u16_native(bytes: &[u8]) -> (v: u16)
    requires
        bytes@.len() >= 2,
    ensures
        v == int_value(bytes@.take(2), Endian::Little) as u16 || v == int_value(
            bytes@.take(2),
            Endian::Big,
        ) as u16,
{
    NativeEndian::read_u16(bytes)
}

/// The byte order of the machine, found by reading the bytes 1, 0 as a
/// native 16-bit number: they read as 1 where the least significant byte
/// comes first.
pub fn host_order() -> (order: Endian) {
    let mut probe: Vec<u8> = Vec::new();
    probe.push(1);
    probe.push(0);
    let seen: u16 = read_u16_native(probe.as_slice());
    order_of_probe(seen)
}

/// The byte order in which the bytes 1, 0 read as `seen`: least significant
/// byte first where they read as 1, and most significant first otherwise.
pub open spec fn probe_order(seen: u16) -> Endian {
    if seen == 1 {
        Endian::Little
    } else {
        Endian::Big
    }
}

/// The byte order that a native reading `seen` of the bytes 1, 0 shows.
pub fn order_of_probe(seen: u16) -> (order: Endian)
    ensures
        order == probe_order(seen),
{
    if seen == 1 {
        Endian::Little
    } else {
        Endian::Big
    }
}

/// The bytes 1, 0 read as 1 with the least significant byte first and as
/// 256 with the most significant first, so the reading tells the order.
pub proof fn lemma_probe_tells_order(order: Endian)
    ensures
        int_value(seq![1u8, 0u8], Endian::Little) == 1,
        int_value(seq![1u8, 0u8], Endian::Big) == 256,
        probe_order(int_value(seq![1u8, 0u8], order) as u16) == order,
{
    let fwd = seq![1u8, 0u8];
    let back = seq![0u8, 1u8];
    assert(fwd.reverse() =~= back);
    assert(fwd.drop_first() =~= seq![0u8]);
    assert(back.drop_first() =~= seq![1u8]);
    assert(seq![0u8].drop_first() =~= Seq::<u8>::empty());
    assert(seq![1u8].drop_first() =~= Seq::<u8>::empty());
    reveal_with_fuel(le_value, 4);
}

} // verus!
