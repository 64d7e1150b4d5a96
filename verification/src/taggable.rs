//! The capability contracts a discriminated-union type and its wrapper meet
//! to live inside a [`TaggedBox`].
//!
//! [`TaggableInner`] is implemented by the union type itself. Its one spec
//! function, [`TaggableInner::ordinal`], is the single ordinal table of the
//! union: each variant's zero-based declaration index. Every operation that
//! encodes or decodes a box is specified against that one table, so the
//! encoder and both decoders cannot drift apart.
//!
//! [`TaggableContainer`] is implemented by the zero-overhead wrapper struct
//! that holds exactly one box of the union.

use vstd::prelude::*;

use crate::tagged_box::TaggedBox;

verus! {

/// A container that holds one [`TaggedBox`] of an associated union type.
pub trait TaggableContainer: Sized {
    /// The union type a container of this kind can be made into.
    type Inner;

    /// The container holds a well-formed box.
    spec fn wf(&self) -> bool;

    /// The union value the container holds.
    spec fn inner(&self) -> Self::Inner;

    /// Convert the container into the union value stored within. Total on
    /// well-formed containers: every container built by the provided
    /// conversions holds a validly-discriminated box.
    fn into_inner(self) -> (r: Self::Inner)
        requires
            self.wf(),
        ensures
            r == self.inner(),
    ;
}

/// The ordinal table of a discriminated union: each variant's zero-based
/// declaration index. Purely a specification-level capability; it is the
/// source of truth for the discriminant used by encoding and by both
/// decodings, and [`TaggedBox::wf`] is stated against it.
pub trait VariantOrdinal {
    /// The declaration index of the variant that `self` carries.
    spec fn ordinal(&self) -> int;
}

/// A discriminated-union type able to be stored in a [`TaggedBox`].
pub trait TaggableInner: VariantOrdinal + Sized {
    /// Encode `self` into a box whose word carries the variant's ordinal as
    /// its discriminant and whose payload decodes back to exactly `self`.
    fn into_tagged_box(self) -> (r: TaggedBox<Self>)
        ensures
            r.wf(),
            r@ == self,
    ;

    /// Decode a box by value: dispatch on the word's discriminant and move
    /// the payload out, rebuilding the variant the ordinal table names.
    /// A discriminant outside the table would mean a corrupted box; such
    /// boxes are excluded by the well-formedness precondition.
    fn from_tagged_box(tagged: TaggedBox<Self>) -> (r: Self)
        requires
            tagged.wf(),
        ensures
            r == tagged@,
    ;

    /// Decode a box by reference: run `callback` on a borrow of the value
    /// the box holds. The borrow ends with the callback, so ownership never
    /// leaves the box and no payload is dropped on this path.
    fn ref_from_tagged_box<F: FnOnce(&Self)>(tagged: &TaggedBox<Self>, callback: F)
        requires
            tagged.wf(),
            forall|v: &Self| *v == tagged@ ==> #[trigger] call_requires(callback, (v,)),
        ensures
            exists|v: &Self| *v == tagged@ && #[trigger] call_ensures(callback, (v,), ()),
    ;
}

} // verus!
