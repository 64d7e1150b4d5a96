//! [`Mixed`]: a four-variant union mixing the unit, single-field tuple,
//! multi-field tuple and named-field shapes, with its container and
//! conversions.

use vstd::pervasive::unreached;
use vstd::prelude::*;

use crate::discriminant::Discriminant;
use crate::taggable::{TaggableContainer, TaggableInner, VariantOrdinal};
use crate::tagged_box::{lemma_wf_box_determined, TaggedBox};

verus! {

/// A union covering the unit, single-field tuple, multi-field tuple and
/// named-field shapes.
#[derive(Debug, Clone, PartialEq, Eq)]
pub enum Mixed {
    /// Declaration index 0: no payload.
    Unit,
    /// Declaration index 1: one payload value.
    Something(i32),
    /// Declaration index 2: three payload values moved as one record.
    ManyThings(usize, bool, isize),
    /// Declaration index 3: named fields moved as one record.
    OrphanStruct { thing: usize, other_thing: bool },
}

impl VariantOrdinal for Mixed {
    open spec fn ordinal(&self) -> int {
        match self {
            Mixed::Unit => 0,
            Mixed::Something(_) => 1,
            Mixed::ManyThings(_, _, _) => 2,
            Mixed::OrphanStruct { .. } => 3,
        }
    }
}

/// Ordinal consistency for [`Mixed`]: the table assigns each of the four
/// variants its zero-based declaration index and nothing else.
pub proof fn lemma_mixed_ordinal_table(v: Mixed)
    ensures
        0 <= v.ordinal() < 4,
        v.ordinal() == 0 <==> v is Unit,
        v.ordinal() == 1 <==> v is Something,
        v.ordinal() == 2 <==> v is ManyThings,
        v.ordinal() == 3 <==> v is OrphanStruct,
{
}

impl TaggableInner for Mixed {
    fn into_tagged_box(self) -> (r: TaggedBox<Self>) {
        match self {
            Mixed::Unit => TaggedBox::dangling(Mixed::Unit, 0),
            Mixed::Something(a) => TaggedBox::new(Mixed::Something(a), 1),
            Mixed::ManyThings(a, b, c) => TaggedBox::new(Mixed::ManyThings(a, b, c), 2),
            Mixed::OrphanStruct { thing, other_thing } => TaggedBox::new(
                Mixed::OrphanStruct { thing, other_thing },
                3,
            ),
        }
    }

    fn from_tagged_box(tagged: TaggedBox<Self>) -> (r: Self) {
        let discriminant = tagged.discriminant();
        let value = TaggedBox::into_inner(tagged);
        if discriminant == 0 {
            match value {
                Mixed::Unit => Mixed::Unit,
                _ => unreached(),
            }
        } else if discriminant == 1 {
            match value {
                Mixed::Something(a) => Mixed::Something(a),
                _ => unreached(),
            }
        } else if discriminant == 2 {
            match value {
                Mixed::ManyThings(a, b, c) => Mixed::ManyThings(a, b, c),
                _ => unreached(),
            }
        } else if discriminant == 3 {
            match value {
                Mixed::OrphanStruct { thing, other_thing } => Mixed::OrphanStruct {
                    thing,
                    other_thing,
                },
                _ => unreached(),
            }
        } else {
            unreached()
        }
    }

    fn ref_from_tagged_box<F: FnOnce(&Self)>(tagged: &TaggedBox<Self>, callback: F) {
        callback(tagged.as_ref());
    }
}

/// The zero-overhead wrapper for [`Mixed`]: one tagged box, nothing else.
#[derive(Debug, Clone)]
pub struct MixedContainer {
    /// The box holding the union value.
    pub value: TaggedBox<Mixed>,
}

impl TaggableContainer for MixedContainer {
    type Inner = Mixed;

    open spec fn wf(&self) -> bool {
        self.value.wf()
    }

    open spec fn inner(&self) -> Mixed {
        self.value@
    }

    fn into_inner(self) -> (r: Mixed) {
        let discriminant = self.value.discriminant();
        let value = TaggedBox::into_inner(self.value);
        if discriminant == 0 {
            match value {
                Mixed::Unit => Mixed::Unit,
                _ => unreached(),
            }
        } else if discriminant == 1 {
            match value {
                Mixed::Something(a) => Mixed::Something(a),
                _ => unreached(),
            }
        } else if discriminant == 2 {
            match value {
                Mixed::ManyThings(a, b, c) => Mixed::ManyThings(a, b, c),
                _ => unreached(),
            }
        } else if discriminant == 3 {
            match value {
                Mixed::OrphanStruct { thing, other_thing } => Mixed::OrphanStruct {
                    thing,
                    other_thing,
                },
                _ => unreached(),
            }
        } else {
            unreached()
        }
    }
}

impl From<Mixed> for MixedContainer {
    /// Wrap any union value; the variant's ordinal becomes the discriminant.
    fn from(variant: Mixed) -> (r: Self) {
        let value = variant.into_tagged_box();
        proof {
            lemma_wf_box_determined(value);
        }
        MixedContainer { value }
    }
}

impl vstd::std_specs::convert::FromSpecImpl<Mixed> for MixedContainer {
    open spec fn obeys_from_spec() -> bool {
        true
    }

    open spec fn from_spec(variant: Mixed) -> Self {
        MixedContainer {
            value: TaggedBox::spec_tagged(variant, variant.ordinal() as Discriminant),
        }
    }
}

impl From<i32> for MixedContainer {
    /// Wrap the payload of the single-field tuple variant.
    fn from(val: i32) -> (r: Self) {
        let value = Mixed::Something(val).into_tagged_box();
        proof {
            lemma_wf_box_determined(value);
        }
        MixedContainer { value }
    }
}

impl vstd::std_specs::convert::FromSpecImpl<i32> for MixedContainer {
    open spec fn obeys_from_spec() -> bool {
        true
    }

    open spec fn from_spec(val: i32) -> Self {
        MixedContainer { value: TaggedBox::spec_tagged(Mixed::Something(val), 1) }
    }
}

impl From<(usize, bool, isize)> for MixedContainer {
    /// Wrap a whole tuple as the payload of the multi-field tuple variant,
    /// fields in declaration order.
    fn from(tuple: (usize, bool, isize)) -> (r: Self) {
        let (a, b, c) = tuple;
        let value = Mixed::ManyThings(a, b, c).into_tagged_box();
        proof {
            lemma_wf_box_determined(value);
        }
        MixedContainer { value }
    }
}

impl vstd::std_specs::convert::FromSpecImpl<(usize, bool, isize)> for MixedContainer {
    open spec fn obeys_from_spec() -> bool {
        true
    }

    open spec fn from_spec(tuple: (usize, bool, isize)) -> Self {
        MixedContainer {
            value: TaggedBox::spec_tagged(Mixed::ManyThings(tuple.0, tuple.1, tuple.2), 2),
        }
    }
}

} // verus!
