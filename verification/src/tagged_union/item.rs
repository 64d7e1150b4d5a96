//! [`Item`]: the union exercising all four variant shapes, with its
//! container and conversions.

use vstd::pervasive::unreached;
use vstd::prelude::*;

use crate::discriminant::Discriminant;
use crate::taggable::{TaggableContainer, TaggableInner, VariantOrdinal};
use crate::tagged_box::{lemma_wf_box_determined, TaggedBox};

verus! {

/// A union exercising all four variant shapes: a single-field tuple, a
/// multi-field tuple (generic in its third field), a unit variant, and a
/// named-field variant.
#[derive(Debug, Copy, Clone, PartialEq, PartialOrd)]
pub enum Item<P> {
    /// Declaration index 0: one payload value.
    SingleTuple(usize),
    /// Declaration index 1: four payload values moved as one record.
    ManyTuple(usize, usize, P, usize),
    /// Declaration index 2: no payload.
    Unit,
    /// Declaration index 3: named fields moved as one record.
    Orphan { integer: u32, boolean: bool },
}

impl<P> VariantOrdinal for Item<P> {
    open spec fn ordinal(&self) -> int {
        match self {
            Item::SingleTuple(_) => 0,
            Item::ManyTuple(_, _, _, _) => 1,
            Item::Unit => 2,
            Item::Orphan { .. } => 3,
        }
    }
}

/// Ordinal consistency for [`Item`]: the table assigns each of the four
/// variants its zero-based declaration index and nothing else, so encoding
/// any value and reading the discriminant back — whether before decoding by
/// value or by reference — yields exactly that index.
pub proof fn lemma_item_ordinal_table<P>(v: Item<P>)
    ensures
        0 <= v.ordinal() < 4,
        v.ordinal() == 0 <==> v is SingleTuple,
        v.ordinal() == 1 <==> v is ManyTuple,
        v.ordinal() == 2 <==> v is Unit,
        v.ordinal() == 3 <==> v is Orphan,
{
}

impl<P> TaggableInner for Item<P> {
    fn into_tagged_box(self) -> (r: TaggedBox<Self>) {
        match self {
            Item::SingleTuple(a) => TaggedBox::new(Item::SingleTuple(a), 0),
            Item::ManyTuple(a, b, c, d) => TaggedBox::new(Item::ManyTuple(a, b, c, d), 1),
            Item::Unit => TaggedBox::dangling(Item::Unit, 2),
            Item::Orphan { integer, boolean } => TaggedBox::new(Item::Orphan { integer, boolean }, 3),
        }
    }

    fn from_tagged_box(tagged: TaggedBox<Self>) -> (r: Self) {
        let discriminant = tagged.discriminant();
        let value = TaggedBox::into_inner(tagged);
        if discriminant == 0 {
            match value {
                Item::SingleTuple(a) => Item::SingleTuple(a),
                _ => unreached(),
            }
        } else if discriminant == 1 {
            match value {
                Item::ManyTuple(a, b, c, d) => Item::ManyTuple(a, b, c, d),
                _ => unreached(),
            }
        } else if discriminant == 2 {
            match value {
                Item::Unit => Item::Unit,
                _ => unreached(),
            }
        } else if discriminant == 3 {
            match value {
                Item::Orphan { integer, boolean } => Item::Orphan { integer, boolean },
                _ => unreached(),
            }
        } else {
            unreached()
        }
    }

    fn ref_from_tagged_box<F: FnOnce(&Self)>(tagged: &TaggedBox<Self>, callback: F) {
        callback(tagged.as_ref());
    }
}

/// The zero-overhead wrapper for [`Item`]: one tagged box, nothing else.
#[derive(Debug, Copy, Clone)]
pub struct Container<P> {
    /// The box holding the union value.
    pub value: TaggedBox<Item<P>>,
}

impl<P> TaggableContainer for Container<P> {
    type Inner = Item<P>;

    open spec fn wf(&self) -> bool {
        self.value.wf()
    }

    open spec fn inner(&self) -> Item<P> {
        self.value@
    }

    fn into_inner(self) -> (r: Item<P>) {
        let discriminant = self.value.discriminant();
        let value = TaggedBox::into_inner(self.value);
        if discriminant == 0 {
            match value {
                Item::SingleTuple(a) => Item::SingleTuple(a),
                _ => unreached(),
            }
        } else if discriminant == 1 {
            match value {
                Item::ManyTuple(a, b, c, d) => Item::ManyTuple(a, b, c, d),
                _ => unreached(),
            }
        } else if discriminant == 2 {
            match value {
                Item::Unit => Item::Unit,
                _ => unreached(),
            }
        } else if discriminant == 3 {
            match value {
                Item::Orphan { integer, boolean } => Item::Orphan { integer, boolean },
                _ => unreached(),
            }
        } else {
            unreached()
        }
    }
}

impl<P> From<Item<P>> for Container<P> {
    /// Wrap any union value; the variant's ordinal becomes the discriminant.
    fn from(variant: Item<P>) -> (r: Self) {
        let value = variant.into_tagged_box();
        proof {
            lemma_wf_box_determined(value);
        }
        Container { value }
    }
}

impl<P> vstd::std_specs::convert::FromSpecImpl<Item<P>> for Container<P> {
    open spec fn obeys_from_spec() -> bool {
        true
    }

    open spec fn from_spec(variant: Item<P>) -> Self {
        Container {
            value: TaggedBox::spec_tagged(variant, variant.ordinal() as Discriminant),
        }
    }
}

impl<P> From<usize> for Container<P> {
    /// Wrap the payload of the single-field tuple variant.
    fn from(val: usize) -> (r: Self) {
        let value = Item::SingleTuple(val).into_tagged_box();
        proof {
            lemma_wf_box_determined(value);
        }
        Container { value }
    }
}

impl<P> vstd::std_specs::convert::FromSpecImpl<usize> for Container<P> {
    open spec fn obeys_from_spec() -> bool {
        true
    }

    open spec fn from_spec(val: usize) -> Self {
        Container { value: TaggedBox::spec_tagged(Item::SingleTuple(val), 0) }
    }
}

impl<P> From<(usize, usize, P, usize)> for Container<P> {
    /// Wrap a whole tuple as the payload of the multi-field tuple variant,
    /// fields in declaration order.
    fn from(tuple: (usize, usize, P, usize)) -> (r: Self) {
        let (a, b, c, d) = tuple;
        let value = Item::ManyTuple(a, b, c, d).into_tagged_box();
        proof {
            lemma_wf_box_determined(value);
        }
        Container { value }
    }
}

impl<P> vstd::std_specs::convert::FromSpecImpl<(usize, usize, P, usize)> for Container<P> {
    open spec fn obeys_from_spec() -> bool {
        true
    }

    open spec fn from_spec(tuple: (usize, usize, P, usize)) -> Self {
        Container {
            value: TaggedBox::spec_tagged(Item::ManyTuple(tuple.0, tuple.1, tuple.2, tuple.3), 1),
        }
    }
}

} // verus!
