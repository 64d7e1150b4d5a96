//! [`Choice`]: a five-variant union whose shapes include an empty tuple
//! variant, with its container and conversions.

use vstd::pervasive::unreached;
use vstd::prelude::*;

use crate::discriminant::Discriminant;
use crate::taggable::{TaggableContainer, TaggableInner, VariantOrdinal};
use crate::tagged_box::{lemma_wf_box_determined, TaggedBox};

verus! {

/// A union covering the unit, single-field tuple, empty tuple, multi-field
/// tuple and named-field shapes.
#[derive(Debug, Clone, PartialEq, Eq)]
pub enum Choice {
    /// Declaration index 0: no payload.
    Unit,
    /// Declaration index 1: one payload value.
    Something(i32),
    /// Declaration index 2: a tuple of no fields, distinct from the bare
    /// unit shape only in how it is written.
    EmptyTuple(),
    /// Declaration index 3: three payload values moved as one record.
    ManyThings(usize, bool, isize),
    /// Declaration index 4: named fields moved as one record.
    OrphanStruct { thing: usize, other_thing: bool },
}

impl VariantOrdinal for Choice {
    open spec fn ordinal(&self) -> int {
        match self {
            Choice::Unit => 0,
            Choice::Something(_) => 1,
            Choice::EmptyTuple() => 2,
            Choice::ManyThings(_, _, _) => 3,
            Choice::OrphanStruct { .. } => 4,
        }
    }
}

/// Ordinal consistency for [`Choice`]: the table assigns each of the five
/// variants its zero-based declaration index and nothing else.
pub proof fn lemma_choice_ordinal_table(v: Choice)
    ensures
        0 <= v.ordinal() < 5,
        v.ordinal() == 0 <==> v is Unit,
        v.ordinal() == 1 <==> v is Something,
        v.ordinal() == 2 <==> v is EmptyTuple,
        v.ordinal() == 3 <==> v is ManyThings,
        v.ordinal() == 4 <==> v is OrphanStruct,
{
}

impl TaggableInner for Choice {
    fn into_tagged_box(self) -> (r: TaggedBox<Self>) {
        match self {
            Choice::Unit => TaggedBox::dangling(Choice::Unit, 0),
            Choice::Something(a) => TaggedBox::new(Choice::Something(a), 1),
            Choice::EmptyTuple() => TaggedBox::dangling(Choice::EmptyTuple(), 2),
            Choice::ManyThings(a, b, c) => TaggedBox::new(Choice::ManyThings(a, b, c), 3),
            Choice::OrphanStruct { thing, other_thing } => TaggedBox::new(
                Choice::OrphanStruct { thing, other_thing },
                4,
            ),
        }
    }

    fn from_tagged_box(tagged: TaggedBox<Self>) -> (r: Self) {
        let discriminant = tagged.discriminant();
        let value = TaggedBox::into_inner(tagged);
        if discriminant == 0 {
            match value {
                Choice::Unit => Choice::Unit,
                _ => unreached(),
            }
        } else if discriminant == 1 {
            match value {
                Choice::Something(a) => Choice::Something(a),
                _ => unreached(),
            }
        } else if discriminant == 2 {
            match value {
                Choice::EmptyTuple() => Choice::EmptyTuple(),
                _ => unreached(),
            }
        } else if discriminant == 3 {
            match value {
                Choice::ManyThings(a, b, c) => Choice::ManyThings(a, b, c),
                _ => unreached(),
            }
        } else if discriminant == 4 {
            match value {
                Choice::OrphanStruct { thing, other_thing } => Choice::OrphanStruct {
                    thing,
                    other_thing,
                },
                _ => unreached(),
            }
        } else {
            unreached()
        }
    }

    fn ref_from_tagged_box<F: FnOnce(&Self)>(tagged: &TaggedBox<Self>, callback: F) {
        callback(tagged.as_ref());
    }
}

/// The zero-overhead wrapper for [`Choice`]: one tagged box, nothing else.
#[derive(Debug, Clone)]
pub struct ChoiceContainer {
    /// The box holding the union value.
    pub value: TaggedBox<Choice>,
}

impl TaggableContainer for ChoiceContainer {
    type Inner = Choice;

    open spec fn wf(&self) -> bool {
        self.value.wf()
    }

    open spec fn inner(&self) -> Choice {
        self.value@
    }

    fn into_inner(self) -> (r: Choice) {
        let discriminant = self.value.discriminant();
        let value = TaggedBox::into_inner(self.value);
        if discriminant == 0 {
            match value {
                Choice::Unit => Choice::Unit,
                _ => unreached(),
            }
        } else if discriminant == 1 {
            match value {
                Choice::Something(a) => Choice::Something(a),
                _ => unreached(),
            }
        } else if discriminant == 2 {
            match value {
                Choice::EmptyTuple() => Choice::EmptyTuple(),
                _ => unreached(),
            }
        } else if discriminant == 3 {
            match value {
                Choice::ManyThings(a, b, c) => Choice::ManyThings(a, b, c),
                _ => unreached(),
            }
        } else if discriminant == 4 {
            match value {
                Choice::OrphanStruct { thing, other_thing } => Choice::OrphanStruct {
                    thing,
                    other_thing,
                },
                _ => unreached(),
            }
        } else {
            unreached()
        }
    }
}

impl From<Choice> for ChoiceContainer {
    /// Wrap any union value; the variant's ordinal becomes the discriminant.
    fn from(variant: Choice) -> (r: Self) {
        let value = variant.into_tagged_box();
        proof {
            lemma_wf_box_determined(value);
        }
        ChoiceContainer { value }
    }
}

impl vstd::std_specs::convert::FromSpecImpl<Choice> for ChoiceContainer {
    open spec fn obeys_from_spec() -> bool {
        true
    }

    open spec fn from_spec(variant: Choice) -> Self {
        ChoiceContainer {
            value: TaggedBox::spec_tagged(variant, variant.ordinal() as Discriminant),
        }
    }
}

impl From<i32> for ChoiceContainer {
    /// Wrap the payload of the single-field tuple variant.
    fn from(val: i32) -> (r: Self) {
        let value = Choice::Something(val).into_tagged_box();
        proof {
            lemma_wf_box_determined(value);
        }
        ChoiceContainer { value }
    }
}

impl vstd::std_specs::convert::FromSpecImpl<i32> for ChoiceContainer {
    open spec fn obeys_from_spec() -> bool {
        true
    }

    open spec fn from_spec(val: i32) -> Self {
        ChoiceContainer { value: TaggedBox::spec_tagged(Choice::Something(val), 1) }
    }
}

impl From<(usize, bool, isize)> for ChoiceContainer {
    /// Wrap a whole tuple as the payload of the multi-field tuple variant,
    /// fields in declaration order.
    fn from(tuple: (usize, bool, isize)) -> (r: Self) {
        let (a, b, c) = tuple;
        let value = Choice::ManyThings(a, b, c).into_tagged_box();
        proof {
            lemma_wf_box_determined(value);
        }
        ChoiceContainer { value }
    }
}

impl vstd::std_specs::convert::FromSpecImpl<(usize, bool, isize)> for ChoiceContainer {
    open spec fn obeys_from_spec() -> bool {
        true
    }

    open spec fn from_spec(tuple: (usize, bool, isize)) -> Self {
        ChoiceContainer {
            value: TaggedBox::spec_tagged(Choice::ManyThings(tuple.0, tuple.1, tuple.2), 3),
        }
    }
}

} // verus!
