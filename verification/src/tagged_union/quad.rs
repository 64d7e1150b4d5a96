//! [`Quad`]: a compact four-variant union over plain machine values, with
//! its container and conversions.

use vstd::pervasive::unreached;
use vstd::prelude::*;

use crate::discriminant::Discriminant;
use crate::taggable::{TaggableContainer, TaggableInner, VariantOrdinal};
use crate::tagged_box::{lemma_wf_box_determined, TaggedBox};

verus! {

/// A union covering the unit, single-field tuple, multi-field tuple and
/// named-field shapes over copyable payloads.
#[derive(Debug, Copy, Clone, PartialEq, Eq)]
pub enum Quad {
    /// Declaration index 0: no payload.
    Empty,
    /// Declaration index 1: one payload value.
    Number(u32),
    /// Declaration index 2: three payload values moved as one record.
    Triple(u16, bool, i8),
    /// Declaration index 3: named fields moved as one record.
    Labeled { a: u32, b: bool },
}

impl VariantOrdinal for Quad {
    open spec fn ordinal(&self) -> int {
        match self {
            Quad::Empty => 0,
            Quad::Number(_) => 1,
            Quad::Triple(_, _, _) => 2,
            Quad::Labeled { .. } => 3,
        }
    }
}

/// Ordinal consistency for [`Quad`]: the table assigns each of the four
/// variants its zero-based declaration index and nothing else.
pub proof fn lemma_quad_ordinal_table(v: Quad)
    ensures
        0 <= v.ordinal() < 4,
        v.ordinal() == 0 <==> v is Empty,
        v.ordinal() == 1 <==> v is Number,
        v.ordinal() == 2 <==> v is Triple,
        v.ordinal() == 3 <==> v is Labeled,
{
}

impl TaggableInner for Quad {
    fn into_tagged_box(self) -> (r: TaggedBox<Self>) {
        match self {
            Quad::Empty => TaggedBox::dangling(Quad::Empty, 0),
            Quad::Number(n) => TaggedBox::new(Quad::Number(n), 1),
            Quad::Triple(a, b, c) => TaggedBox::new(Quad::Triple(a, b, c), 2),
            Quad::Labeled { a, b } => TaggedBox::new(Quad::Labeled { a, b }, 3),
        }
    }

    fn from_tagged_box(tagged: TaggedBox<Self>) -> (r: Self) {
        let discriminant = tagged.discriminant();
        let value = TaggedBox::into_inner(tagged);
        if discriminant == 0 {
            match value {
                Quad::Empty => Quad::Empty,
                _ => unreached(),
            }
        } else if discriminant == 1 {
            match value {
                Quad::Number(n) => Quad::Number(n),
                _ => unreached(),
            }
        } else if discriminant == 2 {
            match value {
                Quad::Triple(a, b, c) => Quad::Triple(a, b, c),
                _ => unreached(),
            }
        } else if discriminant == 3 {
            match value {
                Quad::Labeled { a, b } => Quad::Labeled { a, b },
                _ => unreached(),
            }
        } else {
            unreached()
        }
    }

    fn ref_from_tagged_box<F: FnOnce(&Self)>(tagged: &TaggedBox<Self>, callback: F) {
        callback(tagged.as_ref());
    }
}

/// The zero-overhead wrapper for [`Quad`]: one tagged box, nothing else.
#[derive(Debug, Copy, Clone)]
pub struct QuadContainer {
    /// The box holding the union value.
    pub value: TaggedBox<Quad>,
}

impl TaggableContainer for QuadContainer {
    type Inner = Quad;

    open spec fn wf(&self) -> bool {
        self.value.wf()
    }

    open spec fn inner(&self) -> Quad {
        self.value@
    }

    fn into_inner(self) -> (r: Quad) {
        let discriminant = self.value.discriminant();
        let value = TaggedBox::into_inner(self.value);
        if discriminant == 0 {
            match value {
                Quad::Empty => Quad::Empty,
                _ => unreached(),
            }
        } else if discriminant == 1 {
            match value {
                Quad::Number(n) => Quad::Number(n),
                _ => unreached(),
            }
        } else if discriminant == 2 {
            match value {
                Quad::Triple(a, b, c) => Quad::Triple(a, b, c),
                _ => unreached(),
            }
        } else if discriminant == 3 {
            match value {
                Quad::Labeled { a, b } => Quad::Labeled { a, b },
                _ => unreached(),
            }
        } else {
            unreached()
        }
    }
}

impl From<Quad> for QuadContainer {
    /// Wrap any union value; the variant's ordinal becomes the discriminant.
    fn from(variant: Quad) -> (r: Self) {
        let value = variant.into_tagged_box();
        proof {
            lemma_wf_box_determined(value);
        }
        QuadContainer { value }
    }
}

impl vstd::std_specs::convert::FromSpecImpl<Quad> for QuadContainer {
    open spec fn obeys_from_spec() -> bool {
        true
    }

    open spec fn from_spec(variant: Quad) -> Self {
        QuadContainer {
            value: TaggedBox::spec_tagged(variant, variant.ordinal() as Discriminant),
        }
    }
}

impl From<u32> for QuadContainer {
    /// Wrap the payload of the single-field tuple variant.
    fn from(val: u32) -> (r: Self) {
        let value = Quad::Number(val).into_tagged_box();
        proof {
            lemma_wf_box_determined(value);
        }
        QuadContainer { value }
    }
}

impl vstd::std_specs::convert::FromSpecImpl<u32> for QuadContainer {
    open spec fn obeys_from_spec() -> bool {
        true
    }

    open spec fn from_spec(val: u32) -> Self {
        QuadContainer { value: TaggedBox::spec_tagged(Quad::Number(val), 1) }
    }
}

impl From<(u16, bool, i8)> for QuadContainer {
    /// Wrap a whole tuple as the payload of the multi-field tuple variant,
    /// fields in declaration order.
    fn from(tuple: (u16, bool, i8)) -> (r: Self) {
        let (a, b, c) = tuple;
        let value = Quad::Triple(a, b, c).into_tagged_box();
        proof {
            lemma_wf_box_determined(value);
        }
        QuadContainer { value }
    }
}

impl vstd::std_specs::convert::FromSpecImpl<(u16, bool, i8)> for QuadContainer {
    open spec fn obeys_from_spec() -> bool {
        true
    }

    open spec fn from_spec(tuple: (u16, bool, i8)) -> Self {
        QuadContainer {
            value: TaggedBox::spec_tagged(Quad::Triple(tuple.0, tuple.1, tuple.2), 2),
        }
    }
}

} // verus!
