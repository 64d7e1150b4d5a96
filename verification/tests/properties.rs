use std::cell::Cell;
use std::rc::Rc;

use tagged_box::tagged_union::{Container, Item, Quad, QuadContainer};
use tagged_box::{TaggableContainer, TaggableInner, TaggedBox};

/// A payload that counts how many times it is dropped.
struct DropGuard(Rc<Cell<u32>>);

impl Drop for DropGuard {
    fn drop(&mut self) {
        self.0.set(self.0.get() + 1);
    }
}

#[test]
fn round_trip_every_shape_with_heap_payload() {
    let single: Item<String> = Item::SingleTuple(usize::max_value());
    assert_eq!(
        Item::from_tagged_box(single.clone().into_tagged_box()),
        single
    );

    let many: Item<String> = Item::ManyTuple(1, 2, String::from("growable"), usize::max_value());
    assert_eq!(Item::from_tagged_box(many.clone().into_tagged_box()), many);

    let unit: Item<String> = Item::Unit;
    assert_eq!(Item::from_tagged_box(unit.clone().into_tagged_box()), unit);

    let orphan: Item<String> = Item::Orphan {
        integer: u32::max_value(),
        boolean: true,
    };
    assert_eq!(
        Item::from_tagged_box(orphan.clone().into_tagged_box()),
        orphan
    );
}

#[test]
fn round_trip_with_array_and_vector_payloads() {
    let array: Item<[u8; 8]> = Item::ManyTuple(1, 2, [100; 8], 3);
    assert_eq!(Item::from_tagged_box(array.into_tagged_box()), array);

    let vector: Item<Vec<u8>> = Item::ManyTuple(1, 2, vec![100; 10], 3);
    assert_eq!(
        Item::from_tagged_box(vector.clone().into_tagged_box()),
        vector
    );
}

#[test]
fn round_trip_with_zero_sized_payload() {
    let many: Item<()> = Item::ManyTuple(3, 4, (), 5);
    assert_eq!(Item::from_tagged_box(many.into_tagged_box()), many);

    let container: Container<()> = Container::from((3usize, 4usize, (), 5usize));
    assert_eq!(container.into_inner(), Item::ManyTuple(3, 4, (), 5));
}

#[test]
fn quad_scenario() {
    let empty = Quad::Empty.into_tagged_box();
    let number = Quad::Number(0xDEAD_BEEF).into_tagged_box();
    let triple = Quad::Triple(u16::max_value(), true, -128).into_tagged_box();
    let labeled = Quad::Labeled {
        a: u32::max_value(),
        b: false,
    }
    .into_tagged_box();

    assert_eq!(empty.discriminant(), 0);
    assert_eq!(number.discriminant(), 1);
    assert_eq!(triple.discriminant(), 2);
    assert_eq!(labeled.discriminant(), 3);

    Quad::ref_from_tagged_box(&number, |v| assert_eq!(v, &Quad::Number(0xDEAD_BEEF)));
    Quad::ref_from_tagged_box(&triple, |v| {
        assert_eq!(v, &Quad::Triple(u16::max_value(), true, -128))
    });

    assert_eq!(Quad::from_tagged_box(empty), Quad::Empty);
    assert_eq!(Quad::from_tagged_box(number), Quad::Number(0xDEAD_BEEF));
    assert_eq!(
        Quad::from_tagged_box(triple),
        Quad::Triple(u16::max_value(), true, -128)
    );
    assert_eq!(
        Quad::from_tagged_box(labeled),
        Quad::Labeled {
            a: u32::max_value(),
            b: false,
        }
    );

    assert_eq!(
        QuadContainer::from(Quad::Empty).into_inner(),
        Quad::Empty
    );
    assert_eq!(QuadContainer::from(77u32).into_inner(), Quad::Number(77));
    assert_eq!(
        QuadContainer::from((5u16, false, 6i8)).into_inner(),
        Quad::Triple(5, false, 6)
    );
}

#[test]
fn decode_by_value_drops_payload_exactly_once() {
    let drops = Rc::new(Cell::new(0));

    let boxed = Item::ManyTuple(0, 0, DropGuard(drops.clone()), 0).into_tagged_box();
    assert_eq!(drops.get(), 0);

    let decoded = Item::from_tagged_box(boxed);
    assert_eq!(drops.get(), 0);

    drop(decoded);
    assert_eq!(drops.get(), 1);
}

#[test]
fn container_destructor_drops_payload_exactly_once() {
    let drops = Rc::new(Cell::new(0));

    let container = Container::from(Item::ManyTuple(0, 0, DropGuard(drops.clone()), 0));
    assert_eq!(drops.get(), 0);

    drop(container);
    assert_eq!(drops.get(), 1);
}

#[test]
fn decode_by_reference_drops_nothing() {
    let drops = Rc::new(Cell::new(0));

    let boxed = Item::ManyTuple(0, 0, DropGuard(drops.clone()), 0).into_tagged_box();

    Item::ref_from_tagged_box(&boxed, |item| {
        assert!(matches!(item, Item::ManyTuple(0, 0, _, 0)));
        assert_eq!(drops.get(), 0);
    });
    assert_eq!(drops.get(), 0);

    let decoded = Item::from_tagged_box(boxed);
    drop(decoded);
    assert_eq!(drops.get(), 1);
}

#[test]
fn box_ordering_follows_payload_ordering() {
    let big: TaggedBox<Item<f32>> = Item::SingleTuple(10_000).into_tagged_box();
    let small: TaggedBox<Item<f32>> = Item::SingleTuple(100).into_tagged_box();

    assert!(small < big);
    assert!(big > small);
    assert!(big != small);

    let same_a: TaggedBox<Item<f32>> = Item::SingleTuple(100).into_tagged_box();
    let same_b: TaggedBox<Item<f32>> = Item::SingleTuple(100).into_tagged_box();
    assert!(same_a == same_b);
    assert_eq!(same_a.partial_cmp(&same_b), Some(std::cmp::Ordering::Equal));
}
