use tagged_box::tagged_union::{Choice, ChoiceContainer, Container, Item, Mixed, MixedContainer};
use tagged_box::{TaggableContainer, TaggableInner, TaggedBox};

#[test]
fn tagged_box_macro_container_into_inner() {
    let int: Container<f32> = Container::from(usize::max_value());
    assert_eq!(int.into_inner(), Item::SingleTuple(usize::max_value()));

    let boolean: Container<f32> = Container::from((100usize, 200usize, 50.100005, 300usize));
    assert_eq!(
        boolean.into_inner(),
        Item::ManyTuple(100, 200, 50.100005, 300)
    );
}

#[test]
fn tagged_box_macro_inner_into_tagged_box() {
    assert_eq!(
        Item::<f32>::SingleTuple(usize::max_value()),
        Container {
            value: Item::SingleTuple(usize::max_value()).into_tagged_box()
        }
        .into_inner()
    );

    assert_eq!(
        Item::<f32>::ManyTuple(100, 200, 50.100005, 300),
        Container {
            value: Item::ManyTuple(100, 200, 50.100005, 300).into_tagged_box()
        }
        .into_inner()
    );

    assert_eq!(
        Item::<f32>::Unit,
        Container {
            value: Item::Unit.into_tagged_box()
        }
        .into_inner()
    );

    assert_eq!(
        Item::<f32>::Orphan {
            integer: 10,
            boolean: false,
        },
        Container {
            value: Item::Orphan {
                integer: 10,
                boolean: false,
            }
            .into_tagged_box()
        }
        .into_inner()
    );
}

#[test]
fn tagged_box_macro_inner_from_tagged_box() {
    assert_eq!(
        Item::<f32>::SingleTuple(usize::max_value()),
        Item::from_tagged_box(Item::SingleTuple(usize::max_value()).into_tagged_box())
    );

    assert_eq!(
        Item::<f32>::ManyTuple(12_200, 23_300, 500.100005, 34_400),
        Item::from_tagged_box(
            Item::ManyTuple(12_200, 23_300, 500.100005, 34_400).into_tagged_box()
        )
    );

    assert_eq!(
        Item::<f32>::Unit,
        Item::from_tagged_box(Item::Unit.into_tagged_box())
    );

    assert_eq!(
        Item::<f32>::Orphan {
            integer: 10_000,
            boolean: true,
        },
        Item::from_tagged_box(
            Item::Orphan {
                integer: 10_000,
                boolean: true,
            }
            .into_tagged_box()
        )
    );
}

#[test]
fn tagged_box_macro_inner_ref_from_tagged_box() {
    let one: Item<f32> = Item::SingleTuple(usize::max_value());
    let many: Item<f32> = Item::ManyTuple(1200, 233, 500.100005, 34);
    let unit: Item<f32> = Item::Unit;
    let orphan: Item<f32> = Item::Orphan {
        integer: 0,
        boolean: false,
    };

    Item::ref_from_tagged_box(
        &Item::<f32>::SingleTuple(usize::max_value()).into_tagged_box(),
        |item| {
            assert_eq!(item, &one);
            assert_ne!(item, &many);
            assert_ne!(item, &unit);
            assert_ne!(item, &orphan);
        },
    );

    Item::ref_from_tagged_box(
        &Item::<f32>::ManyTuple(1200, 233, 500.100005, 34).into_tagged_box(),
        |item| {
            assert_eq!(item, &many);
            assert_ne!(item, &one);
            assert_ne!(item, &unit);
            assert_ne!(item, &orphan);
        },
    );

    Item::ref_from_tagged_box(&Item::<f32>::Unit.into_tagged_box(), |item| {
        assert_eq!(item, &unit);
        assert_ne!(item, &one);
        assert_ne!(item, &many);
        assert_ne!(item, &orphan);
    });

    Item::ref_from_tagged_box(
        &Item::<f32>::Orphan {
            integer: 0,
            boolean: false,
        }
        .into_tagged_box(),
        |item| {
            assert_eq!(item, &orphan);
            assert_ne!(item, &unit);
            assert_ne!(item, &one);
            assert_ne!(item, &many);
        },
    );
}

#[test]
fn tagged_box_macro_wrapped_refs_from_tagged_box() {
    let big: TaggedBox<Item<f32>> = Item::SingleTuple(10_000).into_tagged_box();
    let small: TaggedBox<Item<f32>> = Item::SingleTuple(100).into_tagged_box();

    Item::ref_from_tagged_box(&big, |big| {
        Item::ref_from_tagged_box(&small, |small| {
            assert_ne!(big, small);
            assert!(big > small);
            assert!(small < big);
        });
    });

    assert_eq!(Item::from_tagged_box(big), Item::SingleTuple(10_000));
    assert_eq!(Item::from_tagged_box(small), Item::SingleTuple(100));
}

#[test]
fn tuple_variants() {
    assert_eq!(
        Mixed::from_tagged_box(Mixed::Unit.into_tagged_box()),
        Mixed::Unit
    );
    assert_eq!(
        Mixed::from_tagged_box(Mixed::Something(-7).into_tagged_box()),
        Mixed::Something(-7)
    );
    assert_eq!(
        Mixed::from_tagged_box(Mixed::ManyThings(9, true, -9).into_tagged_box()),
        Mixed::ManyThings(9, true, -9)
    );
    assert_eq!(
        Mixed::from_tagged_box(
            Mixed::OrphanStruct {
                thing: 4,
                other_thing: false,
            }
            .into_tagged_box()
        ),
        Mixed::OrphanStruct {
            thing: 4,
            other_thing: false,
        }
    );

    assert_eq!(MixedContainer::from(-7).into_inner(), Mixed::Something(-7));
    assert_eq!(
        MixedContainer::from((9usize, true, -9isize)).into_inner(),
        Mixed::ManyThings(9, true, -9)
    );
}

#[test]
fn variants_compile() {
    assert_eq!(
        Choice::from_tagged_box(Choice::Unit.into_tagged_box()),
        Choice::Unit
    );
    assert_eq!(
        Choice::from_tagged_box(Choice::Something(5).into_tagged_box()),
        Choice::Something(5)
    );
    assert_eq!(
        Choice::from_tagged_box(Choice::EmptyTuple().into_tagged_box()),
        Choice::EmptyTuple()
    );
    assert_eq!(
        Choice::from_tagged_box(Choice::ManyThings(1, false, -1).into_tagged_box()),
        Choice::ManyThings(1, false, -1)
    );
    assert_eq!(
        Choice::from_tagged_box(
            Choice::OrphanStruct {
                thing: 2,
                other_thing: true,
            }
            .into_tagged_box()
        ),
        Choice::OrphanStruct {
            thing: 2,
            other_thing: true,
        }
    );

    assert_eq!(ChoiceContainer::from(5).into_inner(), Choice::Something(5));
    assert_eq!(
        ChoiceContainer::from(Choice::EmptyTuple()).into_inner(),
        Choice::EmptyTuple()
    );
}
