use vstd::prelude::*;
use vstd::std_specs::convert::FromSpec;
use vstd::std_specs::ops::{BitOrSpec, SubSpec};

verus! {

/// Error returned when a bit position cannot be represented in 32 bits.
#[derive(Debug)]
pub struct BitRepError(String);

impl BitRepError {
    /// The text that the error carries.
    pub closed spec fn spec_message(&self) -> Seq<char> {
        self.0@
    }

    /// Creates an error that carries `message`.
    pub fn new(message: &str) -> (err: Self)
        ensures
            err.spec_message() == message@,
    {
        BitRepError(message.to_owned())
    }

    /// The error's text, as an owned string.
    pub fn to_string(&self) -> (text: String)
        ensures
            text@ == self.spec_message(),
    {
        self.0.clone()
    }
}

/// The mask in which only the bit of position `grp` is set; positions count
/// from 1.
pub open spec fn set_mask(grp: u32) -> u32
    recommends
        1 <= grp <= 32,
{
    1u32 << ((grp - 1) as u32)
}

/// Conversion between a group number and the bitmask that, in a bitwise OR,
/// sets that group's bit.
pub fn num_to_set_mask(grp: u32) -> (mask: u32)
    requires
        1 <= grp <= 32,
    ensures
        mask == set_mask(grp),
        mask != 0,
{
    let shift: u32 = grp - 1;
    assert(1u32 << shift != 0) by (bit_vector)
        requires
            shift < 32,
    ;
    1u32 << shift
}

/// The message of the error for a position outside 1 to 32.
pub open spec fn out_of_range_message() -> Seq<char> {
    "You specified a bit beyond the 32 bit representation of a u32"@
}

/// A single bit position between 1 and 32.
pub struct U32BitFlag(u32);

impl U32BitFlag {
    /// The position that the flag addresses.
    pub closed spec fn position(&self) -> u32 {
        self.0
    }

    /// A flag always addresses one of the 32 positions.
    #[verifier::type_invariant]
    pub closed spec fn wf(&self) -> bool {
        1 <= self.0 <= 32
    }

    /// Creates a flag for position `bit_num`. Positions outside 1 to 32 are
    /// rejected.
    pub fn new(bit_num: u32) -> (res: Result<Self, BitRepError>)
        ensures
            1 <= bit_num <= 32 <==> res is Ok,
            res matches Ok(flag) ==> flag.position() == bit_num && flag.wf(),
            res matches Err(e) ==> e.spec_message() == out_of_range_message(),
    {
        if bit_num == 0 || bit_num > 32 {
            return Err(
                BitRepError::new(
                    "You specified a bit beyond the 32 bit representation of a u32",
                ),
            );
        }
        Ok(U32BitFlag(bit_num))
    }

    /// Converts this flag into a mask with only this bit set.
    pub fn into_bitmask(self) -> (mask: U32Bitmask)
        ensures
            mask.bits() == set_mask(self.position()),
            self.wf(),
    {
        proof {
            use_type_invariant(&self);
        }
        U32Bitmask(num_to_set_mask(self.0))
    }
}

/// A set of bit positions between 1 and 32, held in a `u32`.
pub struct U32Bitmask(u32);

impl U32Bitmask {
    /// The raw 32 bits; position `k` is bit `k - 1`.
    pub closed spec fn bits(&self) -> u32 {
        self.0
    }

    /// Whether position `bit` is in the mask. No position outside 1 to 32
    /// ever is.
    pub open spec fn spec_is_set(&self, bit: u32) -> bool {
        1 <= bit <= 32 && set_mask(bit) & self.bits() == set_mask(bit)
    }

    /// The mask whose raw bits are `raw`.
    pub closed spec fn from_bits(raw: u32) -> Self {
        U32Bitmask(raw)
    }

    /// A mask is determined by its raw bits.
    pub proof fn lemma_from_bits(raw: u32)
        ensures
            Self::from_bits(raw).bits() == raw,
    {
    }

    /// Creates an empty mask.
    pub fn empty() -> (mask: Self)
        ensures
            mask.bits() == 0,
    {
        U32Bitmask(0)
    }

    /// Returns `true` if no bit is set.
    pub fn is_empty(&self) -> (none: bool)
        ensures
            none == (self.bits() == 0),
    {
        self.0 == 0
    }

    /// Checks whether the bit at position `bit` is set. Positions outside 1
    /// to 32 count as not set.
    pub fn is_set(&self, bit: u32) -> (set: bool)
        ensures
            set == self.spec_is_set(bit),
    {
        if bit == 0 || bit > 32 {
            return false;
        }
        let set_mask: u32 = num_to_set_mask(bit);
        set_mask & self.0 == set_mask
    }
}

impl std::ops::BitOr<U32Bitmask> for U32Bitmask {
    type Output = U32Bitmask;

    /// The union of two masks.
    fn bitor(self, rhs: U32Bitmask) -> (union: U32Bitmask)
        ensures
            union.bits() == self.bits() | rhs.bits(),
    {
        U32Bitmask(self.0 | rhs.0)
    }
}

impl vstd::std_specs::ops::BitOrSpecImpl<U32Bitmask> for U32Bitmask {
    open spec fn obeys_bitor_spec() -> bool {
        true
    }

    open spec fn bitor_req(self, rhs: U32Bitmask) -> bool {
        true
    }

    open spec fn bitor_spec(self, rhs: U32Bitmask) -> U32Bitmask {
        U32Bitmask::from_bits(self.bits() | rhs.bits())
    }
}


impl std::ops::BitOr<U32BitFlag> for U32Bitmask {
    type Output = U32Bitmask;

    /// The mask with the flag's bit added.
    fn bitor(self, rhs: U32BitFlag) -> (union: U32Bitmask)
        ensures
            union.bits() == self.bits() | set_mask(rhs.position()),
    {
        let bit: U32Bitmask = rhs.into_bitmask();
        U32Bitmask(self.0 | bit.0)
    }
}

impl vstd::std_specs::ops::BitOrSpecImpl<U32BitFlag> for U32Bitmask {
    open spec fn obeys_bitor_spec() -> bool {
        true
    }

    open spec fn bitor_req(self, rhs: U32BitFlag) -> bool {
        true
    }

    open spec fn bitor_spec(self, rhs: U32BitFlag) -> U32Bitmask {
        U32Bitmask::from_bits(self.bits() | set_mask(rhs.position()))
    }
}

impl std::ops::BitOr<U32Bitmask> for U32BitFlag {
    type Output = U32Bitmask;

    /// The mask with the flag's bit added.
    fn bitor(self, rhs: U32Bitmask) -> (union: U32Bitmask)
        ensures
            union.bits() == set_mask(self.position()) | rhs.bits(),
    {
        let bit: U32Bitmask = self.into_bitmask();
        U32Bitmask(bit.0 | rhs.0)
    }
}

impl vstd::std_specs::ops::BitOrSpecImpl<U32Bitmask> for U32BitFlag {
    open spec fn obeys_bitor_spec() -> bool {
        true
    }

    open spec fn bitor_req(self, rhs: U32Bitmask) -> bool {
        true
    }

    open spec fn bitor_spec(self, rhs: U32Bitmask) -> U32Bitmask {
        U32Bitmask::from_bits(set_mask(self.position()) | rhs.bits())
    }
}

impl std::ops::Sub<U32Bitmask> for U32Bitmask {
    type Output = U32Bitmask;

    /// The mask without the bits of `rhs`.
    fn sub(self, rhs: U32Bitmask) -> (difference: U32Bitmask)
        ensures
            difference.bits() == self.bits() & !rhs.bits(),
    {
        U32Bitmask(self.0 & !rhs.0)
    }
}

impl vstd::std_specs::ops::SubSpecImpl<U32Bitmask> for U32Bitmask {
    open spec fn obeys_sub_spec() -> bool {
        true
    }

    open spec fn sub_req(self, rhs: U32Bitmask) -> bool {
        true
    }

    open spec fn sub_spec(self, rhs: U32Bitmask) -> U32Bitmask {
        U32Bitmask::from_bits(self.bits() & !rhs.bits())
    }
}

impl std::ops::Sub<U32BitFlag> for U32Bitmask {
    type Output = U32Bitmask;

    /// The mask without the flag's bit.
    fn sub(self, rhs: U32BitFlag) -> (difference: U32Bitmask)
        ensures
            difference.bits() == self.bits() & !set_mask(rhs.position()),
    {
        let bit: U32Bitmask = rhs.into_bitmask();
        U32Bitmask(self.0 & !bit.0)
    }
}

impl vstd::std_specs::ops::SubSpecImpl<U32BitFlag> for U32Bitmask {
    open spec fn obeys_sub_spec() -> bool {
        true
    }

    open spec fn sub_req(self, rhs: U32BitFlag) -> bool {
        true
    }

    open spec fn sub_spec(self, rhs: U32BitFlag) -> U32Bitmask {
        U32Bitmask::from_bits(self.bits() & !set_mask(rhs.position()))
    }
}

impl From<u32> for U32Bitmask {
    /// The mask whose raw bits are `v`.
    fn from(v: u32) -> (mask: U32Bitmask)
        ensures
            mask.bits() == v,
    {
        U32Bitmask(v)
    }
}

impl vstd::std_specs::convert::FromSpecImpl<u32> for U32Bitmask {
    open spec fn obeys_from_spec() -> bool {
        true
    }

    open spec fn from_spec(v: u32) -> U32Bitmask {
        U32Bitmask::from_bits(v)
    }
}

impl From<U32BitFlag> for U32Bitmask {
    /// The mask that holds the flag's bit alone.
    fn from(v: U32BitFlag) -> (mask: U32Bitmask)
        ensures
            mask.bits() == set_mask(v.position()),
    {
        v.into_bitmask()
    }
}

impl vstd::std_specs::convert::FromSpecImpl<U32BitFlag> for U32Bitmask {
    open spec fn obeys_from_spec() -> bool {
        true
    }

    open spec fn from_spec(v: U32BitFlag) -> U32Bitmask {
        U32Bitmask::from_bits(set_mask(v.position()))
    }
}

impl std::ops::AddAssign<U32BitFlag> for U32Bitmask {
    /// Sets the flag's bit in place.
    fn add_assign(&mut self, rhs: U32BitFlag)
        ensures
            final(self).bits() == old(self).bits() | set_mask(rhs.position()),
    {
        let bit: U32Bitmask = rhs.into_bitmask();
        self.0 = self.0 | bit.0;
    }
}

impl std::ops::SubAssign<U32BitFlag> for U32Bitmask {
    /// Clears the flag's bit in place.
    fn sub_assign(&mut self, rhs: U32BitFlag)
        ensures
            final(self).bits() == old(self).bits() & !set_mask(rhs.position()),
    {
        let bit: U32Bitmask = rhs.into_bitmask();
        self.0 = self.0 & !bit.0;
    }
}

impl<'a> std::ops::AddAssign<U32BitFlag> for &'a mut U32Bitmask {
    /// Sets the flag's bit in the mask behind the reference.
    fn add_assign(&mut self, rhs: U32BitFlag)
        ensures
            (**final(self)).bits() == (**old(self)).bits() | set_mask(rhs.position()),
    {
        let bit: U32Bitmask = rhs.into_bitmask();
        self.0 = self.0 | bit.0;
    }
}

impl<'a> std::ops::SubAssign<U32BitFlag> for &'a mut U32Bitmask {
    /// Clears the flag's bit in the mask behind the reference.
    fn sub_assign(&mut self, rhs: U32BitFlag)
        ensures
            (**final(self)).bits() == (**old(self)).bits() & !set_mask(rhs.position()),
    {
        let bit: U32Bitmask = rhs.into_bitmask();
        self.0 = self.0 & !bit.0;
    }
}

impl std::ops::Deref for U32Bitmask {
    type Target = u32;

    /// The raw bits of the mask.
    fn deref(&self) -> (raw: &u32)
        ensures
            *raw == self.bits(),
    {
        &self.0
    }
}


/// No position is set in a mask without bits.
pub proof fn lemma_empty_mask_has_no_bit(mask: U32Bitmask, bit: u32)
    requires
        mask.bits() == 0,
    ensures
        !mask.spec_is_set(bit),
{
    if 1 <= bit <= 32 {
        let a: u32 = (bit - 1) as u32;
        assert((1u32 << a) & 0u32 != (1u32 << a)) by (bit_vector)
            requires
                a < 32,
        ;
    }
}

/// The union of a mask and a flag has the flag's position set, and every
/// other position exactly as the mask had it.
pub proof fn lemma_union_sets_one_bit(mask: U32Bitmask, flag: U32BitFlag, other: u32)
    requires
        flag.wf(),
        other != flag.position(),
    ensures
        mask.bitor_spec(flag).spec_is_set(flag.position()),
        mask.bitor_spec(flag).spec_is_set(other) == mask.spec_is_set(other),
{
    U32Bitmask::lemma_from_bits(mask.bits() | set_mask(flag.position()));
    let x: u32 = mask.bits();
    let a: u32 = (flag.position() - 1) as u32;
    assert((1u32 << a) & (x | (1u32 << a)) == (1u32 << a)) by (bit_vector);
    if 1 <= other <= 32 {
        let b: u32 = (other - 1) as u32;
        assert(((1u32 << b) & (x | (1u32 << a)) == (1u32 << b)) == ((1u32 << b) & x == (1u32
            << b))) by (bit_vector)
            requires
                a < 32,
                b < 32,
                a != b,
        ;
    }
}

/// The difference of a mask and a flag has the flag's position clear, and
/// every other position exactly as the mask had it.
pub proof fn lemma_difference_clears_one_bit(mask: U32Bitmask, flag: U32BitFlag, other: u32)
    requires
        flag.wf(),
        other != flag.position(),
    ensures
        !mask.sub_spec(flag).spec_is_set(flag.position()),
        mask.sub_spec(flag).spec_is_set(other) == mask.spec_is_set(other),
{
    U32Bitmask::lemma_from_bits(mask.bits() & !set_mask(flag.position()));
    let x: u32 = mask.bits();
    let a: u32 = (flag.position() - 1) as u32;
    assert((1u32 << a) & (x & !(1u32 << a)) != (1u32 << a)) by (bit_vector)
        requires
            a < 32,
    ;
    if 1 <= other <= 32 {
        let b: u32 = (other - 1) as u32;
        assert(((1u32 << b) & (x & !(1u32 << a)) == (1u32 << b)) == ((1u32 << b) & x == (1u32
            << b))) by (bit_vector)
            requires
                a < 32,
                b < 32,
                a != b,
        ;
    }
}

/// Adding a flag to a mask that lacks it and taking it away again gives the
/// mask back; so the empty mask comes back empty.
pub proof fn lemma_union_then_difference(mask: U32Bitmask, flag: U32BitFlag)
    requires
        flag.wf(),
        !mask.spec_is_set(flag.position()),
    ensures
        mask.bitor_spec(flag).sub_spec(flag).bits() == mask.bits(),
{
    let x: u32 = mask.bits();
    let a: u32 = (flag.position() - 1) as u32;
    U32Bitmask::lemma_from_bits(x | set_mask(flag.position()));
    U32Bitmask::lemma_from_bits((x | set_mask(flag.position())) & !set_mask(flag.position()));
    assert(((x | (1u32 << a)) & !(1u32 << a)) == x) by (bit_vector)
        requires
            (1u32 << a) & x != (1u32 << a),
            a < 32,
    ;
}


/// In the union of the empty mask and a flag exactly the flag's position is
/// set, and taking the flag away again leaves the empty mask.
pub proof fn lemma_flag_in_empty_mask(empty: U32Bitmask, flag: U32BitFlag, bit: u32)
    requires
        empty.bits() == 0,
        flag.wf(),
    ensures
        !empty.spec_is_set(bit),
        empty.bitor_spec(flag).spec_is_set(bit) == (bit == flag.position()),
        empty.bitor_spec(flag).sub_spec(flag).bits() == 0,
        !empty.bitor_spec(flag).sub_spec(flag).spec_is_set(bit),
{
    lemma_empty_mask_has_no_bit(empty, bit);
    lemma_empty_mask_has_no_bit(empty, flag.position());
    lemma_union_then_difference(empty, flag);
    lemma_empty_mask_has_no_bit(empty.bitor_spec(flag).sub_spec(flag), bit);
    if bit != flag.position() {
        lemma_union_sets_one_bit(empty, flag, bit);
    } else {
        lemma_union_sets_one_bit(empty, flag, 0);
    }
}

/// The mask made from a flag has exactly the flag's position set.
pub proof fn lemma_flag_mask_has_one_bit(flag: U32BitFlag, bit: u32)
    requires
        flag.wf(),
    ensures
        U32Bitmask::from_spec(flag).spec_is_set(bit) == (bit == flag.position()),
{
    let a: u32 = (flag.position() - 1) as u32;
    U32Bitmask::lemma_from_bits(set_mask(flag.position()));
    if 1 <= bit <= 32 {
        let b: u32 = (bit - 1) as u32;
        assert(((1u32 << b) & (1u32 << a) == (1u32 << b)) == (a == b)) by (bit_vector)
            requires
                a < 32,
                b < 32,
        ;
    }
}

} // verus!
