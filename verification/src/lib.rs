//! Type-safe encoding and decoding of netlink wire values, and a 32-bit
//! group-membership flag and mask utility.
//!
//! The trait [`Nl`] gives a value its size on the wire, writes it into a
//! buffer of exactly that size and reads it back. [`NlSlice`] reads types
//! that can only be had as a view into the bytes they were read from.

use vstd::prelude::*;
use vstd::slice::{slice_subrange, slice_to_vec};
use vstd::utf8::{
    decode_utf8, encode_utf8, encode_utf8_decode_utf8, encode_utf8_valid_utf8, valid_utf8,
};

/// The byte buffers that values are written to and read from.
pub mod buf;
/// Wire constants and the alignment rule.
pub mod consts;
/// Byte order of integers on the wire.
pub mod endian;
/// Errors of encoding and decoding.
pub mod err;
mod text;
/// Group flags and masks.
pub mod utils;

pub use bytes::{Bytes, BytesMut};

pub use crate::consts::MAX_NL_LENGTH;
pub use crate::utils::{BitRepError, U32BitFlag, U32Bitmask};

use crate::buf::{
    buf_copy_from_slice, buf_len, buf_set, buf_write, buf_write_all, bytes_as_slice,
    bytes_contents, bytes_from_slice, bytes_len, bytes_mut_contents,
};
use crate::consts::{align_up, alignto};
use crate::endian::{
    get_i32, get_u16, get_u32, get_u64, host_order, int_bytes, int_value, lemma_fixed_widths_fit,
    lemma_int_round_trip, put_i32, put_u16, put_u32, put_u64, Endian,
};
use crate::err::{DeError, SerError};
use crate::text::str_from_utf8;

verus! {

/// What writing a value of `size` bytes, whose wire form is `wire`, into
/// `mem` gives: a buffer of the wrong length comes back inside the error
/// that names the mismatch, and a buffer of the right length comes back
/// holding `wire`.
pub open spec fn serialize_outcome(
    size: nat,
    wire: Seq<u8>,
    mem: BytesMut,
    res: Result<BytesMut, SerError>,
) -> bool {
    let len = bytes_mut_contents(mem).len();
    &&& len < size ==> res == Err::<BytesMut, SerError>(SerError::UnexpectedEOB(mem))
    &&& len > size ==> res == Err::<BytesMut, SerError>(SerError::BufferNotFilled(mem))
    &&& len == size ==> (res matches Ok(out) && bytes_mut_contents(out) == wire)
}

/// What reading a type of `width` bytes from `len` bytes gives: `value`
/// where the lengths agree, and else the error that names the mismatch.
pub open spec fn fixed_decode<T>(len: nat, width: nat, value: T) -> Result<T, DeError> {
    if len < width {
        Err(DeError::UnexpectedEOB)
    } else if len > width {
        Err(DeError::BufferNotParsed)
    } else {
        Ok(value)
    }
}

/// `count` zero bytes.
pub open spec fn zeros(count: nat) -> Seq<u8> {
    Seq::new(count, |i: int| 0u8)
}

/// What padding after a value of `size` bytes does to `mem`: the bytes
/// missing to the next word boundary are written as zeros over the front of
/// the buffer; a buffer too short for them comes back inside an I/O error.
pub open spec fn pad_outcome(size: nat, mem: BytesMut, res: Result<BytesMut, SerError>) -> bool {
    let missing = (align_up(size) - size) as nat;
    let before = bytes_mut_contents(mem);
    &&& missing <= before.len() ==> (res matches Ok(out) && bytes_mut_contents(out) == zeros(
        missing,
    ) + before.skip(missing as int))
    &&& missing > before.len() ==> (res matches Err(SerError::IOError(_, back))
        && bytes_mut_contents(back).len() == before.len())
    &&& missing == 0 ==> (res matches Ok(out) && bytes_mut_contents(out) == before)
}

/// The message of the error that owned decoding gives for a type that can
/// only be read as a view.
pub open spec fn use_slice_message() -> Seq<char> {
    "Use deserialize_from_slice"@
}

/// Basic actions required for netlink communication: the size of a value on
/// the wire, and its encoding and decoding.
pub trait Nl: Sized {
    /// The exact number of bytes that this value takes on the wire, without
    /// padding.
    spec fn spec_size(&self) -> nat;

    /// The number of bytes that every value of the type takes, if there is
    /// one such number.
    spec fn spec_type_size() -> Option<usize>;

    /// The bytes of this value on the wire, on a machine of the given byte
    /// order.
    spec fn wire(&self, order: Endian) -> Seq<u8>;

    /// Whether `res` is what reading `bytes` gives on a machine of the given
    /// byte order.
    spec fn decodes(bytes: Seq<u8>, order: Endian, res: Result<Self, DeError>) -> bool;

    /// The wire form has exactly the length that `size` reports, and that is
    /// the type's size where the type has one.
    proof fn lemma_wire_len(&self, order: Endian)
        ensures
            self.wire(order).len() == self.spec_size(),
            Self::spec_type_size() matches Some(n) ==> n == self.spec_size(),
    ;

    /// Writes the value into `mem`, whose length must be the value's size,
    /// with integers in the given byte order.
    fn serialize_with(&self, mem: BytesMut, order: Endian) -> (res: Result<BytesMut, SerError>)
        requires
            self.spec_size() <= usize::MAX,
        ensures
            serialize_outcome(self.spec_size(), self.wire(order), mem, res),
    ;

    /// Reads a value from `mem`, with integers in the given byte order.
    fn deserialize_with(mem: Bytes, order: Endian) -> (res: Result<Self, DeError>)
        ensures
            Self::decodes(bytes_contents(mem), order, res),
    ;

    /// Writes the value into `mem`, whose length must be the value's size,
    /// in the byte order of the machine.
    fn serialize(&self, mem: BytesMut) -> (res: Result<BytesMut, SerError>)
        requires
            self.spec_size() <= usize::MAX,
        ensures
            serialize_outcome(self.spec_size(), self.wire(Endian::Little), mem, res)
                || serialize_outcome(self.spec_size(), self.wire(Endian::Big), mem, res),
    ;

    /// Reads a value from `mem` in the byte order of the machine.
    fn deserialize(mem: Bytes) -> (res: Result<Self, DeError>)
        ensures
            Self::decodes(bytes_contents(mem), Endian::Little, res) || Self::decodes(
                bytes_contents(mem),
                Endian::Big,
                res,
            ),
    ;

    /// The size of the type on the wire, not aligned to the word size, for
    /// types of one size.
    fn type_size() -> (size: Option<usize>)
        ensures
            size == Self::spec_type_size(),
    ;

    /// The size of the type on the wire, aligned to the word size.
    fn type_asize() -> (size: Option<usize>)
        requires
            Self::spec_type_size() matches Some(n) ==> align_up(n as nat) <= usize::MAX,
        ensures
            match Self::spec_type_size() {
                Some(n) => size == Some(align_up(n as nat) as usize),
                None => size is None,
            },
    {
        match Self::type_size() {
            Some(n) => Some(alignto(n)),
            None => None,
        }
    }

    /// The size of this value on the wire, not aligned to the word size.
    fn size(&self) -> (size: usize)
        requires
            self.spec_size() <= usize::MAX,
        ensures
            size == self.spec_size(),
    ;

    /// The size of this value on the wire, aligned to the word size.
    fn asize(&self) -> (size: usize)
        requires
            align_up(self.spec_size()) <= usize::MAX,
        ensures
            size == align_up(self.spec_size()),
    {
        alignto(self.size())
    }

    /// Writes the zero bytes that bring this value to the next word
    /// boundary over the front of `mem`. A value that ends on a boundary
    /// leaves the buffer as it was.
    fn pad(&self, mem: BytesMut) -> (res: Result<BytesMut, SerError>)
        requires
            align_up(self.spec_size()) <= usize::MAX,
        ensures
            pad_outcome(self.spec_size(), mem, res),
    {
        let padding_len: usize = self.asize() - self.size();
        let mut padding: Vec<u8> = Vec::new();
        while padding.len() < padding_len
            invariant
                padding@ =~= zeros(padding@.len()),
                padding@.len() <= padding_len,
            decreases padding_len - padding@.len(),
        {
            padding.push(0);
        }
        let mut mem = mem;
        let ghost before = bytes_mut_contents(mem);
        match buf_write_all(&mut mem, padding.as_slice()) {
            Err(e) => Err(SerError::IOError(e, mem)),
            Ok(()) => {
                assert(padding_len == 0 ==> padding@ + before.skip(0) =~= before);
                Ok(mem)
            },
        }
    }
}

/// Decoding for types that are a view into the bytes they are read from.
pub trait NlSlice<'a>: Sized + Nl {
    /// Whether `res` is what reading `bytes` as a view gives.
    spec fn slice_decodes(bytes: Seq<u8>, res: Result<Self, DeError>) -> bool;

    /// Reads a value that borrows from `m`.
    fn deserialize_from_slice(m: &'a [u8]) -> (res: Result<Self, DeError>)
        ensures
            Self::slice_decodes(m@, res),
    ;
}

/// Reads an owned value from a copy of `m`.
pub fn deserialize_from_copy<T: Nl>(m: &[u8]) -> (res: Result<T, DeError>)
    ensures
        T::decodes(m@, Endian::Little, res) || T::decodes(m@, Endian::Big, res),
{
    T::deserialize(bytes_from_slice(m))
}

impl Nl for u8 {
    open spec fn spec_size(&self) -> nat {
        1
    }

    open spec fn spec_type_size() -> Option<usize> {
        Some(1usize)
    }

    open spec fn wire(&self, order: Endian) -> Seq<u8> {
        seq![*self]
    }

    open spec fn decodes(bytes: Seq<u8>, order: Endian, res: Result<Self, DeError>) -> bool {
        res == fixed_decode(bytes.len(), 1, bytes[0])
    }

    proof fn lemma_wire_len(&self, order: Endian) {
    }

    fn serialize_with(&self, mem: BytesMut, order: Endian) -> (res: Result<BytesMut, SerError>) {
        let size: usize = self.size();
        let len: usize = buf_len(&mem);
        if len < size {
            return Err(SerError::UnexpectedEOB(mem));
        } else if len > size {
            return Err(SerError::BufferNotFilled(mem));
        }
        let mut mem = mem;
        let mut byte: Vec<u8> = Vec::new();
        byte.push(*self);
        let _ = buf_write(&mut mem, byte.as_slice());
        assert(bytes_mut_contents(mem) =~= seq![*self]);
        Ok(mem)
    }

    fn deserialize_with(mem: Bytes, order: Endian) -> (res: Result<Self, DeError>) {
        let size: usize = Self::type_size().unwrap();
        let len: usize = bytes_len(&mem);
        if len < size {
            return Err(DeError::UnexpectedEOB);
        } else if len > size {
            return Err(DeError::BufferNotParsed);
        }
        let bytes = bytes_as_slice(&mem);
        Ok(bytes[0])
    }

    fn serialize(&self, mem: BytesMut) -> (res: Result<BytesMut, SerError>) {
        self.serialize_with(mem, host_order())
    }

    fn deserialize(mem: Bytes) -> (res: Result<Self, DeError>) {
        Self::deserialize_with(mem, host_order())
    }

    fn size(&self) -> (size: usize) {
        1
    }

    fn type_size() -> (size: Option<usize>) {
        Some(1)
    }
}

/// Reading back the byte written for `v` gives `v`, and nothing else.
pub proof fn lemma_u8_round_trip(v: u8, order: Endian, res: Result<u8, DeError>)
    ensures
        <u8 as Nl>::decodes(v.wire(order), order, res) <==> res == Ok::<u8, DeError>(v),
{
}

impl Nl for u16 {
    open spec fn spec_size(&self) -> nat {
        2
    }

    open spec fn spec_type_size() -> Option<usize> {
        Some(2usize)
    }

    open spec fn wire(&self, order: Endian) -> Seq<u8> {
        int_bytes(*self as nat, 2, order)
    }

    open spec fn decodes(bytes: Seq<u8>, order: Endian, res: Result<Self, DeError>) -> bool {
        res == fixed_decode(bytes.len(), 2, int_value(bytes, order) as u16)
    }

    proof fn lemma_wire_len(&self, order: Endian) {
        let v = *self;
        lemma_fixed_widths_fit(v, 0, 0);
        lemma_int_round_trip(v as nat, 2, order);
    }

    fn serialize_with(&self, mem: BytesMut, order: Endian) -> (res: Result<BytesMut, SerError>) {
        let size: usize = self.size();
        let len: usize = buf_len(&mem);
        if len < size {
            return Err(SerError::UnexpectedEOB(mem));
        } else if len > size {
            return Err(SerError::BufferNotFilled(mem));
        }
        let mut mem = mem;
        put_u16(&mut mem, *self, order);
        assert(bytes_mut_contents(mem) =~= self.wire(order));
        Ok(mem)
    }

    fn deserialize_with(mem: Bytes, order: Endian) -> (res: Result<Self, DeError>) {
        let size: usize = Self::type_size().unwrap();
        let len: usize = bytes_len(&mem);
        if len < size {
            return Err(DeError::UnexpectedEOB);
        } else if len > size {
            return Err(DeError::BufferNotParsed);
        }
        let bytes = bytes_as_slice(&mem);
        assert(bytes@.take(2) =~= bytes@);
        let v = get_u16(bytes, order);
        assert(Self::decodes(bytes@, order, Ok(v)));
        Ok(v)
    }

    fn serialize(&self, mem: BytesMut) -> (res: Result<BytesMut, SerError>) {
        self.serialize_with(mem, host_order())
    }

    fn deserialize(mem: Bytes) -> (res: Result<Self, DeError>) {
        Self::deserialize_with(mem, host_order())
    }

    fn size(&self) -> (size: usize) {
        2
    }

    fn type_size() -> (size: Option<usize>) {
        Some(2)
    }
}

/// Reading the bytes written for `v`, in the byte order they were written
/// in, gives `v` and nothing else.
pub proof fn lemma_u16_round_trip(v: u16, order: Endian, res: Result<u16, DeError>)
    ensures
        <u16 as Nl>::decodes(v.wire(order), order, res) <==> res == Ok::<u16, DeError>(v),
{
    lemma_fixed_widths_fit(v, 0, 0);
    lemma_int_round_trip(v as nat, 2, order);
}

impl Nl for u32 {
    open spec fn spec_size(&self) -> nat {
        4
    }

    open spec fn spec_type_size() -> Option<usize> {
        Some(4usize)
    }

    open spec fn wire(&self, order: Endian) -> Seq<u8> {
        int_bytes(*self as nat, 4, order)
    }

    open spec fn decodes(bytes: Seq<u8>, order: Endian, res: Result<Self, DeError>) -> bool {
        res == fixed_decode(bytes.len(), 4, int_value(bytes, order) as u32)
    }

    proof fn lemma_wire_len(&self, order: Endian) {
        let v = *self;
        lemma_fixed_widths_fit(0, v, 0);
        lemma_int_round_trip(v as nat, 4, order);
    }

    fn serialize_with(&self, mem: BytesMut, order: Endian) -> (res: Result<BytesMut, SerError>) {
        let size: usize = self.size();
        let len: usize = buf_len(&mem);
        if len < size {
            return Err(SerError::UnexpectedEOB(mem));
        } else if len > size {
            return Err(SerError::BufferNotFilled(mem));
        }
        let mut mem = mem;
        put_u32(&mut mem, *self, order);
        assert(bytes_mut_contents(mem) =~= self.wire(order));
        Ok(mem)
    }

    fn deserialize_with(mem: Bytes, order: Endian) -> (res: Result<Self, DeError>) {
        let size: usize = Self::type_size().unwrap();
        let len: usize = bytes_len(&mem);
        if len < size {
            return Err(DeError::UnexpectedEOB);
        } else if len > size {
            return Err(DeError::BufferNotParsed);
        }
        let bytes = bytes_as_slice(&mem);
        assert(bytes@.take(4) =~= bytes@);
        let v = get_u32(bytes, order);
        assert(Self::decodes(bytes@, order, Ok(v)));
        Ok(v)
    }

    fn serialize(&self, mem: BytesMut) -> (res: Result<BytesMut, SerError>) {
        self.serialize_with(mem, host_order())
    }

    fn deserialize(mem: Bytes) -> (res: Result<Self, DeError>) {
        Self::deserialize_with(mem, host_order())
    }

    fn size(&self) -> (size: usize) {
        4
    }

    fn type_size() -> (size: Option<usize>) {
        Some(4)
    }
}

/// Reading the bytes written for `v`, in the byte order they were written
/// in, gives `v` and nothing else.
pub proof fn lemma_u32_round_trip(v: u32, order: Endian, res: Result<u32, DeError>)
    ensures
        <u32 as Nl>::decodes(v.wire(order), order, res) <==> res == Ok::<u32, DeError>(v),
{
    lemma_fixed_widths_fit(0, v, 0);
    lemma_int_round_trip(v as nat, 4, order);
}

impl Nl for i32 {
    open spec fn spec_size(&self) -> nat {
        4
    }

    open spec fn spec_type_size() -> Option<usize> {
        Some(4usize)
    }

    open spec fn wire(&self, order: Endian) -> Seq<u8> {
        int_bytes((*self as u32) as nat, 4, order)
    }

    open spec fn decodes(bytes: Seq<u8>, order: Endian, res: Result<Self, DeError>) -> bool {
        res == fixed_decode(bytes.len(), 4, (int_value(bytes, order) as u32) as i32)
    }

    proof fn lemma_wire_len(&self, order: Endian) {
        let v = *self;
        lemma_fixed_widths_fit(0, v as u32, 0);
        lemma_int_round_trip((v as u32) as nat, 4, order);
    }

    fn serialize_with(&self, mem: BytesMut, order: Endian) -> (res: Result<BytesMut, SerError>) {
        let size: usize = self.size();
        let len: usize = buf_len(&mem);
        if len < size {
            return Err(SerError::UnexpectedEOB(mem));
        } else if len > size {
            return Err(SerError::BufferNotFilled(mem));
        }
        let mut mem = mem;
        put_i32(&mut mem, *self, order);
        assert(bytes_mut_contents(mem) =~= self.wire(order));
        Ok(mem)
    }

    fn deserialize_with(mem: Bytes, order: Endian) -> (res: Result<Self, DeError>) {
        let size: usize = Self::type_size().unwrap();
        let len: usize = bytes_len(&mem);
        if len < size {
            return Err(DeError::UnexpectedEOB);
        } else if len > size {
            return Err(DeError::BufferNotParsed);
        }
        let bytes = bytes_as_slice(&mem);
        assert(bytes@.take(4) =~= bytes@);
        let v = get_i32(bytes, order);
        assert(Self::decodes(bytes@, order, Ok(v)));
        Ok(v)
    }

    fn serialize(&self, mem: BytesMut) -> (res: Result<BytesMut, SerError>) {
        self.serialize_with(mem, host_order())
    }

    fn deserialize(mem: Bytes) -> (res: Result<Self, DeError>) {
        Self::deserialize_with(mem, host_order())
    }

    fn size(&self) -> (size: usize) {
        4
    }

    fn type_size() -> (size: Option<usize>) {
        Some(4)
    }
}

/// Reading the bytes written for `v`, in the byte order they were written
/// in, gives `v` and nothing else.
pub proof fn lemma_i32_round_trip(v: i32, order: Endian, res: Result<i32, DeError>)
    ensures
        <i32 as Nl>::decodes(v.wire(order), order, res) <==> res == Ok::<i32, DeError>(v),
{
    lemma_fixed_widths_fit(0, v as u32, 0);
    lemma_int_round_trip((v as u32) as nat, 4, order);
    assert((v as u32) as i32 == v) by (bit_vector);
}

impl Nl for u64 {
    open spec fn spec_size(&self) -> nat {
        8
    }

    open spec fn spec_type_size() -> Option<usize> {
        Some(8usize)
    }

    open spec fn wire(&self, order: Endian) -> Seq<u8> {
        int_bytes(*self as nat, 8, order)
    }

    open spec fn decodes(bytes: Seq<u8>, order: Endian, res: Result<Self, DeError>) -> bool {
        res == fixed_decode(bytes.len(), 8, int_value(bytes, order) as u64)
    }

    proof fn lemma_wire_len(&self, order: Endian) {
        let v = *self;
        lemma_fixed_widths_fit(0, 0, v);
        lemma_int_round_trip(v as nat, 8, order);
    }

    fn serialize_with(&self, mem: BytesMut, order: Endian) -> (res: Result<BytesMut, SerError>) {
        let size: usize = self.size();
        let len: usize = buf_len(&mem);
        if len < size {
            return Err(SerError::UnexpectedEOB(mem));
        } else if len > size {
            return Err(SerError::BufferNotFilled(mem));
        }
        let mut mem = mem;
        put_u64(&mut mem, *self, order);
        assert(bytes_mut_contents(mem) =~= self.wire(order));
        Ok(mem)
    }

    fn deserialize_with(mem: Bytes, order: Endian) -> (res: Result<Self, DeError>) {
        let size: usize = Self::type_size().unwrap();
        let len: usize = bytes_len(&mem);
        if len < size {
            return Err(DeError::UnexpectedEOB);
        } else if len > size {
            return Err(DeError::BufferNotParsed);
        }
        let bytes = bytes_as_slice(&mem);
        assert(bytes@.take(8) =~= bytes@);
        let v = get_u64(bytes, order);
        assert(Self::decodes(bytes@, order, Ok(v)));
        Ok(v)
    }

    fn serialize(&self, mem: BytesMut) -> (res: Result<BytesMut, SerError>) {
        self.serialize_with(mem, host_order())
    }

    fn deserialize(mem: Bytes) -> (res: Result<Self, DeError>) {
        Self::deserialize_with(mem, host_order())
    }

    fn size(&self) -> (size: usize) {
        8
    }

    fn type_size() -> (size: Option<usize>) {
        Some(8)
    }
}

/// Reading the bytes written for `v`, in the byte order they were written
/// in, gives `v` and nothing else.
pub proof fn lemma_u64_round_trip(v: u64, order: Endian, res: Result<u64, DeError>)
    ensures
        <u64 as Nl>::decodes(v.wire(order), order, res) <==> res == Ok::<u64, DeError>(v),
{
    lemma_fixed_widths_fit(0, 0, v);
    lemma_int_round_trip(v as nat, 8, order);
}

impl<'a> Nl for &'a [u8] {
    open spec fn spec_size(&self) -> nat {
        self@.len()
    }

    open spec fn spec_type_size() -> Option<usize> {
        None
    }

    open spec fn wire(&self, order: Endian) -> Seq<u8> {
        self@
    }

    open spec fn decodes(bytes: Seq<u8>, order: Endian, res: Result<Self, DeError>) -> bool {
        res matches Err(e) && e.has_message(use_slice_message())
    }

    proof fn lemma_wire_len(&self, order: Endian) {
    }

    fn serialize_with(&self, mem: BytesMut, order: Endian) -> (res: Result<BytesMut, SerError>) {
        let size: usize = self.size();
        let len: usize = buf_len(&mem);
        if len > size {
            return Err(SerError::BufferNotFilled(mem));
        } else if len < size {
            return Err(SerError::UnexpectedEOB(mem));
        }
        let mut mem = mem;
        buf_copy_from_slice(&mut mem, self);
        Ok(mem)
    }

    /// A borrowed span cannot be made from a buffer that is given away:
    /// always the error that points to `deserialize_from_slice`.
    fn deserialize_with(_m: Bytes, order: Endian) -> (res: Result<Self, DeError>) {
        Err(DeError::new("Use deserialize_from_slice"))
    }

    fn serialize(&self, mem: BytesMut) -> (res: Result<BytesMut, SerError>) {
        self.serialize_with(mem, host_order())
    }

    fn deserialize(mem: Bytes) -> (res: Result<Self, DeError>) {
        Self::deserialize_with(mem, host_order())
    }

    fn size(&self) -> (size: usize) {
        self.len()
    }

    fn type_size() -> (size: Option<usize>) {
        None
    }
}

impl<'a> NlSlice<'a> for &'a [u8] {
    open spec fn slice_decodes(bytes: Seq<u8>, res: Result<Self, DeError>) -> bool {
        res matches Ok(span) && span@ == bytes
    }

    fn deserialize_from_slice(mem: &'a [u8]) -> (res: Result<Self, DeError>) {
        Ok(mem)
    }
}

impl Nl for Vec<u8> {
    open spec fn spec_size(&self) -> nat {
        self@.len()
    }

    open spec fn spec_type_size() -> Option<usize> {
        None
    }

    open spec fn wire(&self, order: Endian) -> Seq<u8> {
        self@
    }

    open spec fn decodes(bytes: Seq<u8>, order: Endian, res: Result<Self, DeError>) -> bool {
        res matches Ok(owned) && owned@ == bytes
    }

    proof fn lemma_wire_len(&self, order: Endian) {
    }

    fn serialize_with(&self, mem: BytesMut, order: Endian) -> (res: Result<BytesMut, SerError>) {
        let span: &[u8] = self.as_slice();
        span.serialize_with(mem, order)
    }

    /// Copies the whole buffer: the length of a byte collection is not on
    /// the wire.
    fn deserialize_with(mem: Bytes, order: Endian) -> (res: Result<Self, DeError>) {
        Ok(slice_to_vec(bytes_as_slice(&mem)))
    }

    fn serialize(&self, mem: BytesMut) -> (res: Result<BytesMut, SerError>) {
        self.serialize_with(mem, host_order())
    }

    fn deserialize(mem: Bytes) -> (res: Result<Self, DeError>) {
        Self::deserialize_with(mem, host_order())
    }

    fn size(&self) -> (size: usize) {
        self.len()
    }

    fn type_size() -> (size: Option<usize>) {
        None
    }
}

/// Reading the bytes written for a byte collection gives the same bytes, and
/// nothing else.
pub proof fn lemma_bytes_round_trip(v: Vec<u8>, order: Endian, res: Result<Vec<u8>, DeError>)
    ensures
        <Vec<u8> as Nl>::decodes(v.wire(order), order, res) <==> (res matches Ok(owned) && owned@
            == v@),
{
}

/// The wire form of text: its UTF-8 bytes and a zero byte.
pub open spec fn text_wire(text: Seq<char>) -> Seq<u8> {
    encode_utf8(text) + seq![0u8]
}

/// Whether `bytes` lack the zero byte that ends text on the wire.
pub open spec fn lacks_terminator(bytes: Seq<u8>) -> bool {
    bytes.len() == 0 || bytes.last() != 0
}

impl<'a> Nl for &'a str {
    open spec fn spec_size(&self) -> nat {
        encode_utf8(self@).len() + 1
    }

    open spec fn spec_type_size() -> Option<usize> {
        None
    }

    open spec fn wire(&self, order: Endian) -> Seq<u8> {
        text_wire(self@)
    }

    open spec fn decodes(bytes: Seq<u8>, order: Endian, res: Result<Self, DeError>) -> bool {
        res matches Err(e) && e.has_message(use_slice_message())
    }

    proof fn lemma_wire_len(&self, order: Endian) {
    }

    fn serialize_with(&self, mem: BytesMut, order: Endian) -> (res: Result<BytesMut, SerError>) {
        let size: usize = self.size();
        let len: usize = buf_len(&mem);
        if len > size {
            return Err(SerError::BufferNotFilled(mem));
        } else if len < size {
            return Err(SerError::UnexpectedEOB(mem));
        }
        let mut mem = mem;
        match buf_write(&mut mem, self.as_bytes()) {
            Ok(write_size) => {
                buf_set(&mut mem, write_size, 0);
                assert(bytes_mut_contents(mem) =~= text_wire(self@));
                Ok(mem)
            },
            Err(e) => Err(SerError::IOError(e, mem)),
        }
    }

    /// Borrowed text cannot be made from a buffer that is given away:
    /// always the error that points to `deserialize_from_slice`.
    fn deserialize_with(_m: Bytes, order: Endian) -> (res: Result<Self, DeError>) {
        Err(DeError::new("Use deserialize_from_slice"))
    }

    fn serialize(&self, mem: BytesMut) -> (res: Result<BytesMut, SerError>) {
        self.serialize_with(mem, host_order())
    }

    fn deserialize(mem: Bytes) -> (res: Result<Self, DeError>) {
        Self::deserialize_with(mem, host_order())
    }

    fn size(&self) -> (size: usize) {
        self.len() + 1
    }

    fn type_size() -> (size: Option<usize>) {
        None
    }
}

impl<'a> NlSlice<'a> for &'a str {
    open spec fn slice_decodes(bytes: Seq<u8>, res: Result<Self, DeError>) -> bool {
        if lacks_terminator(bytes) {
            res == Err::<Self, DeError>(DeError::NullError)
        } else if !valid_utf8(bytes.drop_last()) {
            res matches Err(DeError::Msg(_))
        } else {
            res matches Ok(text) && text@ == decode_utf8(bytes.drop_last())
        }
    }

    fn deserialize_from_slice(mem: &'a [u8]) -> (res: Result<Self, DeError>) {
        let len: usize = mem.len();
        if len == 0 || mem[len - 1] != 0 {
            return Err(DeError::NullError);
        }
        let body: &[u8] = slice_subrange(mem, 0, len - 1);
        assert(body@ =~= mem@.drop_last());
        match str_from_utf8(body) {
            Ok(text) => {
                proof {
                    encode_utf8_decode_utf8(text@);
                }
                Ok(text)
            },
            Err(message) => Err(DeError::Msg(message)),
        }
    }
}

impl Nl for String {
    open spec fn spec_size(&self) -> nat {
        encode_utf8(self@).len() + 1
    }

    open spec fn spec_type_size() -> Option<usize> {
        None
    }

    open spec fn wire(&self, order: Endian) -> Seq<u8> {
        text_wire(self@)
    }

    open spec fn decodes(bytes: Seq<u8>, order: Endian, res: Result<Self, DeError>) -> bool {
        if lacks_terminator(bytes) {
            res == Err::<Self, DeError>(DeError::NullError)
        } else if !valid_utf8(bytes.drop_last()) {
            res matches Err(DeError::Msg(_))
        } else {
            res matches Ok(text) && text@ == decode_utf8(bytes.drop_last())
        }
    }

    proof fn lemma_wire_len(&self, order: Endian) {
    }

    fn serialize_with(&self, mem: BytesMut, order: Endian) -> (res: Result<BytesMut, SerError>) {
        let text: &str = self.as_str();
        text.serialize_with(mem, order)
    }

    fn deserialize_with(mem: Bytes, order: Endian) -> (res: Result<Self, DeError>) {
        match <&str>::deserialize_from_slice(bytes_as_slice(&mem)) {
            Ok(text) => Ok(text.to_owned()),
            Err(e) => Err(e),
        }
    }

    fn serialize(&self, mem: BytesMut) -> (res: Result<BytesMut, SerError>) {
        self.serialize_with(mem, host_order())
    }

    fn deserialize(mem: Bytes) -> (res: Result<Self, DeError>) {
        Self::deserialize_with(mem, host_order())
    }

    fn size(&self) -> (size: usize) {
        self.as_str().len() + 1
    }

    fn type_size() -> (size: Option<usize>) {
        None
    }
}

/// Text on the wire never lacks its terminator, and what stands before the
/// terminator is valid UTF-8 that reads as the text.
pub proof fn lemma_text_wire_reads_back(text: Seq<char>)
    ensures
        !lacks_terminator(text_wire(text)),
        valid_utf8(text_wire(text).drop_last()),
        decode_utf8(text_wire(text).drop_last()) == text,
{
    assert(text_wire(text).drop_last() =~= encode_utf8(text));
    encode_utf8_valid_utf8(text);
    encode_utf8_decode_utf8(text);
}

/// Reading the bytes written for borrowed text as a view gives the same
/// text, and nothing else.
pub proof fn lemma_str_round_trip<'a>(text: &'a str, order: Endian, res: Result<&'a str, DeError>)
    ensures
        <&'a str as NlSlice<'a>>::slice_decodes(text.wire(order), res) <==> (res matches Ok(back)
            && back@ == text@),
{
    lemma_text_wire_reads_back(text@);
}

/// Reading the bytes written for owned text gives the same text, and
/// nothing else.
pub proof fn lemma_string_round_trip(text: String, order: Endian, res: Result<String, DeError>)
    ensures
        <String as Nl>::decodes(text.wire(order), order, res) <==> (res matches Ok(back) && back@
            == text@),
{
    lemma_text_wire_reads_back(text@);
}

/// Reading the bytes written for a byte span as a view gives the same
/// bytes, and nothing else.
pub proof fn lemma_slice_round_trip<'a>(
    span: &'a [u8],
    order: Endian,
    res: Result<&'a [u8], DeError>,
)
    ensures
        <&'a [u8] as NlSlice<'a>>::slice_decodes(span.wire(order), res) <==> (res matches Ok(back)
            && back@ == span@),
{
}

} // verus!
