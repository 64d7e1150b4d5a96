//! A tagged box: one [`TaggedPointer`] word paired with the payload it
//! stands for, phantom-typed over a discriminated-union type `T`.
//!
//! In the machine representation this crate models, the word's address bits
//! name a heap allocation holding a type-erased payload, and reading it back
//! under the wrong type cannot be detected. The verified model closes that
//! gap: the box owns its payload as a plain value, the address bits carry
//! the fixed non-null sentinel [`DANGLING_ADDRESS`], and well-formedness
//! ([`TaggedBox::wf`]) pins the word's discriminant to the ordinal of the
//! variant actually stored. Decoding dispatches on the word's discriminant,
//! exactly as the erased representation must, and the invariant is what
//! proves each dispatch arm reconstructs the right variant.
//!
//! Ownership is the resource discipline: every consuming operation takes the
//! box by value, so a payload can be moved out at most once, and a box that
//! is merely dropped releases its payload exactly once.
//!
//! Storing a sufficiently small payload directly in the word's free bits,
//! instead of behind an allocation, would be a possible extension; every
//! operation here assumes the payload lives outside the word.

use core::cmp::Ordering;

use vstd::prelude::*;

use crate::discriminant::{Discriminant, MAX_DISCRIMINANT};
use crate::taggable::VariantOrdinal;
use crate::tagged_pointer::{spec_pack, TaggedPointer};

verus! {

/// The sentinel address every box's word carries in the verified model:
/// non-null, in range for every policy, and never dereferenced.
pub const DANGLING_ADDRESS: u64 = 1;

/// A box that owns one payload of the union type `T`, remembering which
/// variant it holds only through the discriminant in its word.
#[derive(Debug, Clone, Copy)]
pub struct TaggedBox<T> {
    /// The tagged word: sentinel address plus the variant's ordinal.
    pub boxed: TaggedPointer,
    /// The owned payload.
    pub value: T,
}

impl<T> View for TaggedBox<T> {
    type V = T;

    open spec fn view(&self) -> T {
        self.value
    }
}

impl<T> TaggedBox<T> {
    /// The box a well-behaved encoder builds for `value` under
    /// `discriminant`: sentinel address, discriminant in the high bits,
    /// payload owned.
    pub open spec fn spec_tagged(value: T, discriminant: Discriminant) -> TaggedBox<T> {
        TaggedBox {
            boxed: TaggedPointer { tagged_ptr: spec_pack(DANGLING_ADDRESS, discriminant) },
            value,
        }
    }
}

/// The box an encoder builds for a rightly paired value and discriminant is
/// well-formed and holds that value.
pub proof fn lemma_spec_tagged_wf<T: VariantOrdinal>(value: T, discriminant: Discriminant)
    requires
        discriminant as int == value.ordinal(),
        discriminant <= MAX_DISCRIMINANT,
    ensures
        TaggedBox::spec_tagged(value, discriminant).wf(),
        TaggedBox::spec_tagged(value, discriminant)@ == value,
{
    crate::tagged_pointer::lemma_address_fidelity(DANGLING_ADDRESS, discriminant);
}

/// A well-formed box is exactly the box an encoder builds: its whole word is
/// determined by its payload's ordinal and the sentinel address.
pub proof fn lemma_wf_box_determined<T: VariantOrdinal>(b: TaggedBox<T>)
    requires
        b.wf(),
    ensures
        b == TaggedBox::spec_tagged(b@, b@.ordinal() as Discriminant),
{
    crate::tagged_pointer::lemma_word_determined(b.boxed.tagged_ptr);
}

impl<T: VariantOrdinal> TaggedBox<T> {
    /// Well-formedness: the word's discriminant is the ordinal of the stored
    /// variant, and the address bits hold the sentinel. Constructors
    /// establish this; every decoding operation relies on it.
    pub open spec fn wf(self) -> bool {
        &&& self.boxed.spec_discriminant() as int == self.value.ordinal()
        &&& self.boxed.spec_address() == DANGLING_ADDRESS
    }

    /// Create a box from a union value and its variant's discriminant.
    ///
    /// The caller contract of the erased representation — the discriminant
    /// must name the variant actually stored — is a precondition here, so a
    /// mismatched pair can never be built.
    #[inline]
    pub fn new(val: T, discriminant: Discriminant) -> (r: Self)
        requires
            discriminant as int == val.ordinal(),
            discriminant <= MAX_DISCRIMINANT,
        ensures
            r.wf(),
            r@ == val,
            r.boxed.spec_discriminant() == discriminant,
            r == Self::spec_tagged(val, discriminant),
    {
        TaggedBox { boxed: TaggedPointer::new(DANGLING_ADDRESS, discriminant), value: val }
    }

    /// Create a box without a run-time test of the bounds. The pairing and
    /// range requirements are the same preconditions as in
    /// [`TaggedBox::new`]; since neither constructor tests anything at run
    /// time, the two build the same box.
    #[inline]
    pub fn new_unchecked(val: T, discriminant: Discriminant) -> (r: Self)
        requires
            discriminant as int == val.ordinal(),
            discriminant <= MAX_DISCRIMINANT,
        ensures
            r.wf(),
            r@ == val,
            r.boxed.spec_discriminant() == discriminant,
            r == Self::spec_tagged(val, discriminant),
    {
        TaggedBox {
            boxed: TaggedPointer::new_unchecked(DANGLING_ADDRESS, discriminant),
            value: val,
        }
    }

    /// Create a box for a payload-free variant. In the machine
    /// representation this path performs no allocation and stores only the
    /// non-dereferenceable sentinel; in the verified model, where every
    /// box's word carries the sentinel, it builds the same box as
    /// [`TaggedBox::new`].
    #[inline]
    pub fn dangling(val: T, discriminant: Discriminant) -> (r: Self)
        requires
            discriminant as int == val.ordinal(),
            discriminant <= MAX_DISCRIMINANT,
        ensures
            r.wf(),
            r@ == val,
            r.boxed.spec_discriminant() == discriminant,
            r == Self::spec_tagged(val, discriminant),
    {
        Self::new(val, discriminant)
    }

    /// Fetch the discriminant of the box's word.
    #[inline]
    pub fn discriminant(&self) -> (r: Discriminant)
        ensures
            r == self.boxed.spec_discriminant(),
            r <= MAX_DISCRIMINANT,
            self.wf() ==> r as int == self@.ordinal(),
    {
        self.boxed.discriminant()
    }

    /// Move the payload out of the box. Takes the box by value: after this,
    /// no second read and no destructor of the box can run.
    #[inline]
    #[must_use]
    pub fn into_inner(tagged: Self) -> (r: T)
        ensures
            r == tagged@,
    {
        tagged.value
    }

    /// Transfer ownership of the payload to the caller without running any
    /// destructor of the boxed value here; the caller now holds the one live
    /// copy and is responsible for releasing it.
    #[inline]
    pub fn into_raw(tagged: Self) -> (r: T)
        ensures
            r == tagged@,
    {
        tagged.value
    }

    /// Inverse of [`TaggedBox::into_raw`]: rebuild a box from a payload the
    /// caller owns and the discriminant that names its variant. The pairing
    /// requirement is the same precondition as in [`TaggedBox::new`].
    #[inline]
    pub fn from_raw(raw: T, discriminant: Discriminant) -> (r: Self)
        requires
            discriminant as int == raw.ordinal(),
            discriminant <= MAX_DISCRIMINANT,
        ensures
            r.wf(),
            r@ == raw,
            r.boxed.spec_discriminant() == discriminant,
    {
        Self::new(raw, discriminant)
    }

    /// Borrow the value stored in the box.
    #[inline]
    pub fn as_ref(&self) -> (r: &T)
        ensures
            *r == self@,
    {
        &self.value
    }

    /// The address part of the box's word; in the verified model always the
    /// sentinel, never a word to dereference.
    #[inline]
    pub fn as_ptr(&self) -> (r: u64)
        ensures
            r == self.boxed.spec_address(),
    {
        self.boxed.as_ptr()
    }

    /// The address part of the box's word, offered alongside a mutable
    /// borrow of the box; the box itself is left unchanged.
    #[inline]
    pub fn as_mut_ptr(&mut self) -> (r: u64)
        ensures
            *final(self) == *old(self),
            r == final(self).boxed.spec_address(),
    {
        self.boxed.as_mut_ptr()
    }

    /// The address part of the box's word.
    #[inline]
    pub fn as_u64(&self) -> (r: u64)
        ensures
            r == self.boxed.spec_address(),
    {
        self.boxed.as_u64()
    }
}

impl<T: VariantOrdinal + PartialEq> PartialEq for TaggedBox<T> {
    /// Boxes are compared by decoding: two boxes are equal when the payloads
    /// they hold are, never by comparing raw words.
    fn eq(&self, other: &Self) -> (r: bool) {
        T::eq(self.as_ref(), other.as_ref())
    }
}

impl<T: VariantOrdinal + PartialEq> vstd::std_specs::cmp::PartialEqSpecImpl for TaggedBox<T> {
    open spec fn obeys_eq_spec() -> bool {
        <T as vstd::std_specs::cmp::PartialEqSpec>::obeys_eq_spec()
    }

    open spec fn eq_spec(&self, other: &Self) -> bool {
        <T as vstd::std_specs::cmp::PartialEqSpec>::eq_spec(&self.value, &other.value)
    }
}

impl<T: VariantOrdinal + Eq> Eq for TaggedBox<T> {

}

impl<T: VariantOrdinal + PartialOrd> PartialOrd for TaggedBox<T> {
    /// Boxes are ordered by decoding: the comparison of two boxes is the
    /// comparison of the payloads they hold.
    fn partial_cmp(&self, other: &Self) -> (r: Option<Ordering>) {
        T::partial_cmp(self.as_ref(), other.as_ref())
    }
}

impl<T: VariantOrdinal + PartialOrd> vstd::std_specs::cmp::PartialOrdSpecImpl for TaggedBox<T> {
    open spec fn obeys_partial_cmp_spec() -> bool {
        <T as vstd::std_specs::cmp::PartialOrdSpec>::obeys_partial_cmp_spec()
    }

    open spec fn partial_cmp_spec(&self, other: &Self) -> Option<Ordering> {
        <T as vstd::std_specs::cmp::PartialOrdSpec>::partial_cmp_spec(&self.value, &other.value)
    }
}

/// Ordering via payload: comparing two boxes is, by specification and by the
/// verified implementations above, exactly comparing the decoded payload
/// values; the words play no part in it.
pub proof fn lemma_box_order_is_payload_order<T: VariantOrdinal + PartialOrd>(
    b1: &TaggedBox<T>,
    b2: &TaggedBox<T>,
)
    ensures
        <TaggedBox<T> as vstd::std_specs::cmp::PartialOrdSpec>::partial_cmp_spec(b1, b2)
            == <T as vstd::std_specs::cmp::PartialOrdSpec>::partial_cmp_spec(&b1@, &b2@),
        <TaggedBox<T> as vstd::std_specs::cmp::PartialOrdSpec>::obeys_partial_cmp_spec()
            == <T as vstd::std_specs::cmp::PartialOrdSpec>::obeys_partial_cmp_spec(),
{
}

} // verus!
