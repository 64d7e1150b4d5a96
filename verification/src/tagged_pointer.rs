//! A tagged pointer: one 64-bit word carrying an address in its low
//! [`POINTER_WIDTH`] bits and a [`Discriminant`] in its high
//! [`DISCRIMINANT_BITS`] bits.
//!
//! Packing is `address | (discriminant << POINTER_WIDTH)`; unpacking the
//! discriminant is a shift, unpacking the address is a mask. Every operation
//! is branch-free; the bounds that the original word layout depends on are
//! stated as preconditions and discharged statically.
//!
//! A tagged pointer does not own what its address names; it is a transparent
//! wrapper around the word. Turning the address back into a reference is an
//! unverified concern and lives outside this crate.

use vstd::prelude::*;

use crate::discriminant::{
    Discriminant, DISCRIMINANT_BITS, DISCRIMINANT_MASK, MAX_DISCRIMINANT, MAX_POINTER_VALUE,
    POINTER_WIDTH,
};

verus! {

/// The packed word: address in the low bits, discriminant in the high bits.
pub open spec fn spec_pack(address: u64, discriminant: Discriminant) -> u64 {
    address | ((discriminant as u64) << POINTER_WIDTH)
}

/// Address fidelity: packing an in-range address with an in-range
/// discriminant and unpacking returns both exactly, each independent of the
/// other. Discriminant bits never leak into the address and the address
/// never disturbs the discriminant.
pub proof fn lemma_address_fidelity(address: u64, discriminant: Discriminant)
    requires
        address <= MAX_POINTER_VALUE,
        discriminant <= MAX_DISCRIMINANT,
    ensures
        spec_pack(address, discriminant) & DISCRIMINANT_MASK == address,
        (spec_pack(address, discriminant) >> POINTER_WIDTH) as Discriminant == discriminant,
{
    assert((address | ((discriminant as u64) << 60)) & 0x0FFF_FFFF_FFFF_FFFF == address)
        by (bit_vector)
        requires
            address <= 0x0FFF_FFFF_FFFF_FFFFu64,
    ;
    assert(((address | ((discriminant as u64) << 60)) >> 60) as u8 == discriminant)
        by (bit_vector)
        requires
            address <= 0x0FFF_FFFF_FFFF_FFFFu64,
            discriminant <= 15u8,
    ;
}

/// The high [`DISCRIMINANT_BITS`] bits of any word hold a value that is at
/// most [`MAX_DISCRIMINANT`], whatever the word is.
pub proof fn lemma_fetch_bounded(pointer: u64)
    ensures
        pointer >> POINTER_WIDTH <= MAX_DISCRIMINANT as u64,
{
    assert(pointer >> 60 <= 15u64) by (bit_vector);
}

/// A word is nothing but its two fields: every word equals its own address
/// part repacked with its own discriminant part.
pub proof fn lemma_word_determined(pointer: u64)
    ensures
        pointer == spec_pack(pointer & DISCRIMINANT_MASK, (pointer >> POINTER_WIDTH) as Discriminant),
{
    assert(pointer == (pointer & 0x0FFF_FFFF_FFFF_FFFF) | ((((pointer >> 60) as u8) as u64) << 60))
        by (bit_vector);
}

/// A pointer-sized word whose upper bits store a [`Discriminant`] atop a heap
/// address. The discriminant must stay at most [`MAX_DISCRIMINANT`].
#[derive(Copy, Clone, Debug, PartialEq, Eq, Structural, Hash, PartialOrd, Ord)]
pub struct TaggedPointer {
    /// The tagged word; the upper bits carry the discriminant.
    pub tagged_ptr: u64,
}

impl TaggedPointer {
    /// The address stored in the low bits.
    pub open spec fn spec_address(self) -> u64 {
        self.tagged_ptr & DISCRIMINANT_MASK
    }

    /// The discriminant stored in the high bits.
    pub open spec fn spec_discriminant(self) -> Discriminant {
        (self.tagged_ptr >> POINTER_WIDTH) as Discriminant
    }

    /// Create a tagged pointer from an address and a discriminant.
    ///
    /// Both bounds are preconditions: a discriminant above
    /// [`MAX_DISCRIMINANT`] or an address above [`MAX_POINTER_VALUE`] would
    /// silently corrupt the other field, so such inputs are ruled out before
    /// the word is ever built. For a run-time test of the bounds see
    /// [`TaggedPointer::checked_new`].
    #[inline]
    pub fn new(ptr: u64, discriminant: Discriminant) -> (r: Self)
        requires
            discriminant <= MAX_DISCRIMINANT,
            ptr <= MAX_POINTER_VALUE,
        ensures
            r.spec_address() == ptr,
            r.spec_discriminant() == discriminant,
            r.tagged_ptr == spec_pack(ptr, discriminant),
    {
        Self { tagged_ptr: Self::store_discriminant(ptr, discriminant) }
    }

    /// Create a tagged pointer from an address and a discriminant, testing
    /// the two bounds at run time.
    ///
    /// Returns `Some` exactly when the discriminant is at most
    /// [`MAX_DISCRIMINANT`] and the address is at most
    /// [`MAX_POINTER_VALUE`]; construction never truncates either field.
    #[inline]
    pub fn checked_new(ptr: u64, discriminant: Discriminant) -> (r: Option<Self>)
        ensures
            r is Some <==> (discriminant <= MAX_DISCRIMINANT && ptr <= MAX_POINTER_VALUE),
            r matches Some(p) ==> {
                &&& p.spec_address() == ptr
                &&& p.spec_discriminant() == discriminant
                &&& p.tagged_ptr == spec_pack(ptr, discriminant)
            },
    {
        if discriminant <= MAX_DISCRIMINANT && ptr <= MAX_POINTER_VALUE {
            Some(Self::new(ptr, discriminant))
        } else {
            None
        }
    }

    /// Create a tagged pointer without a run-time test of the bounds.
    ///
    /// The bounds are the same preconditions as in [`TaggedPointer::new`];
    /// since neither constructor tests anything at run time, the two are
    /// equivalent word for word.
    #[inline]
    pub fn new_unchecked(ptr: u64, discriminant: Discriminant) -> (r: Self)
        requires
            discriminant <= MAX_DISCRIMINANT,
            ptr <= MAX_POINTER_VALUE,
        ensures
            r.spec_address() == ptr,
            r.spec_discriminant() == discriminant,
            r.tagged_ptr == spec_pack(ptr, discriminant),
    {
        Self { tagged_ptr: Self::store_discriminant_unchecked(ptr, discriminant) }
    }

    /// Fetch the [`Discriminant`] of this tagged pointer.
    #[inline]
    pub fn discriminant(self) -> (r: Discriminant)
        ensures
            r == self.spec_discriminant(),
            r <= MAX_DISCRIMINANT,
    {
        Self::fetch_discriminant(self.tagged_ptr)
    }

    /// The address with the discriminant removed.
    #[inline]
    pub fn as_u64(self) -> (r: u64)
        ensures
            r == self.spec_address(),
    {
        Self::strip_discriminant(self.tagged_ptr)
    }

    /// The raw tagged word, discriminant still in place. The result is not an
    /// address while the discriminant bits are set.
    #[inline]
    pub fn as_raw_u64(self) -> (r: u64)
        ensures
            r == self.tagged_ptr,
    {
        self.tagged_ptr
    }

    /// The address with the discriminant removed, for handing to pointer
    /// machinery outside the verified crate.
    #[inline]
    pub fn as_ptr(self) -> (r: u64)
        ensures
            r == self.spec_address(),
    {
        Self::strip_discriminant(self.tagged_ptr)
    }

    /// The address with the discriminant removed, for handing to mutable
    /// pointer machinery outside the verified crate.
    #[inline]
    pub fn as_mut_ptr(self) -> (r: u64)
        ensures
            r == self.spec_address(),
    {
        Self::strip_discriminant(self.tagged_ptr)
    }

    /// Store a [`Discriminant`] into a word's high bits. The address is
    /// returned unchanged by a later [`TaggedPointer::strip_discriminant`]
    /// and the discriminant by [`TaggedPointer::fetch_discriminant`].
    #[inline]
    pub fn store_discriminant(pointer: u64, discriminant: Discriminant) -> (r: u64)
        requires
            discriminant <= MAX_DISCRIMINANT,
            pointer <= MAX_POINTER_VALUE,
        ensures
            r == spec_pack(pointer, discriminant),
            r & DISCRIMINANT_MASK == pointer,
            (r >> POINTER_WIDTH) as Discriminant == discriminant,
    {
        proof {
            lemma_address_fidelity(pointer, discriminant);
        }
        pointer | ((discriminant as u64) << POINTER_WIDTH)
    }

    /// Store a [`Discriminant`] into a word's high bits without a run-time
    /// test; the bounds are the same preconditions as in
    /// [`TaggedPointer::store_discriminant`] and the result is the same word.
    #[inline]
    pub fn store_discriminant_unchecked(pointer: u64, discriminant: Discriminant) -> (r: u64)
        requires
            discriminant <= MAX_DISCRIMINANT,
            pointer <= MAX_POINTER_VALUE,
        ensures
            r == spec_pack(pointer, discriminant),
            r & DISCRIMINANT_MASK == pointer,
            (r >> POINTER_WIDTH) as Discriminant == discriminant,
    {
        proof {
            lemma_address_fidelity(pointer, discriminant);
        }
        pointer | ((discriminant as u64) << POINTER_WIDTH)
    }

    /// Fetch the [`Discriminant`] from a word's high bits; total, and the
    /// result is always at most [`MAX_DISCRIMINANT`].
    #[inline]
    pub fn fetch_discriminant(pointer: u64) -> (r: Discriminant)
        ensures
            r == (pointer >> POINTER_WIDTH) as Discriminant,
            r <= MAX_DISCRIMINANT,
    {
        proof {
            lemma_fetch_bounded(pointer);
        }
        (pointer >> POINTER_WIDTH) as Discriminant
    }

    /// Strip the [`Discriminant`] from a word, leaving only the address.
    #[inline]
    pub fn strip_discriminant(pointer: u64) -> (r: u64)
        ensures
            r == pointer & DISCRIMINANT_MASK,
            r <= MAX_POINTER_VALUE,
    {
        proof {
            assert(pointer & 0x0FFF_FFFF_FFFF_FFFF <= 0x0FFF_FFFF_FFFF_FFFFu64) by (bit_vector);
        }
        pointer & DISCRIMINANT_MASK
    }
}

} // verus!
