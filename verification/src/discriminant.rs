//! The bit-width policy: the split of a 64-bit word into address bits and
//! discriminant bits.
//!
//! Exactly one policy is active per build. This crate fixes the split at 60
//! address bits and 4 discriminant bits, so a word looks like
//!
//! ```text
//! DDDD AAAA AAAA ... AAAA
//! ^^^^ 4 discriminant bits, then 60 address bits
//! ```
//!
//! Only 64-bit machine words are supported: a 32-bit pointer has no free high
//! bits to reclaim, so the whole scheme is meaningless there.

use vstd::prelude::*;

verus! {

/// A discriminant stored in the high bits of a tagged word. With 4 free bits
/// it always fits in a `u8`.
pub type Discriminant = u8;

/// The number of low bits of a word that keep their role as an address.
pub const POINTER_WIDTH: u64 = 60;

/// The number of high bits of a word reserved for a discriminant.
pub const DISCRIMINANT_BITS: u64 = 4;

/// The largest discriminant the policy can store: `2^DISCRIMINANT_BITS - 1`.
pub const MAX_DISCRIMINANT: Discriminant = 15;

/// The largest address representable in `POINTER_WIDTH` bits.
pub const MAX_POINTER_VALUE: u64 = 0x0FFF_FFFF_FFFF_FFFF;

/// A mask that clears the high `DISCRIMINANT_BITS` bits of a word, leaving
/// only the address.
pub const DISCRIMINANT_MASK: u64 = 0x0FFF_FFFF_FFFF_FFFF;

/// The policy's internal consistency: the two widths cover the word, the
/// maximum discriminant fills exactly the free bits, and the mask is the
/// maximum address.
pub proof fn lemma_policy_consistent()
    ensures
        POINTER_WIDTH + DISCRIMINANT_BITS == 64,
        MAX_DISCRIMINANT as u64 == (1u64 << DISCRIMINANT_BITS) - 1,
        MAX_POINTER_VALUE == u64::MAX >> DISCRIMINANT_BITS,
        DISCRIMINANT_MASK == MAX_POINTER_VALUE,
{
    assert(15u64 == (1u64 << 4) - 1) by (bit_vector);
    assert(0x0FFF_FFFF_FFFF_FFFFu64 == u64::MAX >> 4) by (bit_vector);
}

} // verus!
