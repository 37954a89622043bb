use screeps_structure::{
    construct, construct_unchecked, resolve_tag, Capability, ConversionError, Handle, RawValue,
    Structure, StructureKind,
};

fn kinds() -> [StructureKind; 19] {
    [
        StructureKind::Container,
        StructureKind::Controller,
        StructureKind::Extension,
        StructureKind::Extractor,
        StructureKind::KeeperLair,
        StructureKind::Lab,
        StructureKind::Link,
        StructureKind::Nuker,
        StructureKind::Observer,
        StructureKind::PowerBank,
        StructureKind::PowerSpawn,
        StructureKind::Portal,
        StructureKind::Rampart,
        StructureKind::Road,
        StructureKind::Spawn,
        StructureKind::Storage,
        StructureKind::Terminal,
        StructureKind::Tower,
        StructureKind::Wall,
    ]
}

fn tags() -> [&'static str; 19] {
    [
        "container",
        "controller",
        "extension",
        "extractor",
        "keeperLair",
        "lab",
        "link",
        "nuker",
        "observer",
        "powerBank",
        "powerSpawn",
        "portal",
        "rampart",
        "road",
        "spawn",
        "storage",
        "terminal",
        "tower",
        "wall",
    ]
}

fn tagged(tag: &str) -> Handle {
    Handle::new(42, tag, true, 250, 3000)
}

#[test]
fn all_lists_every_kind_once_in_order() {
    assert_eq!(StructureKind::all(), kinds());
    assert_eq!(StructureKind::all().len(), 19);
    assert_eq!(StructureKind::all()[0], StructureKind::Container);
    assert_eq!(StructureKind::all()[18], StructureKind::Wall);
}

#[test]
fn every_kind_has_its_tag() {
    for (kind, tag) in kinds().iter().zip(tags().iter()) {
        assert_eq!(kind.tag(), *tag);
    }
}

#[test]
fn every_tag_names_its_kind() {
    for (kind, tag) in kinds().iter().zip(tags().iter()) {
        assert_eq!(StructureKind::from_tag(tag), Some(*kind));
    }
}

#[test]
fn tags_are_pairwise_distinct() {
    for a in kinds().iter() {
        for b in kinds().iter() {
            assert_eq!(a.tag() == b.tag(), a == b);
        }
    }
}

#[test]
fn resolve_tag_round_trips_for_every_kind() {
    for kind in kinds().iter() {
        let handle = tagged(kind.tag());
        assert_eq!(resolve_tag(&handle), Ok(*kind));
    }
}

#[test]
fn resolve_tag_of_spawn() {
    assert_eq!(resolve_tag(&tagged("spawn")), Ok(StructureKind::Spawn));
}

#[test]
fn resolve_tag_of_keeper_lair() {
    assert_eq!(resolve_tag(&tagged("keeperLair")), Ok(StructureKind::KeeperLair));
}

#[test]
fn resolve_tag_does_not_look_at_the_other_fields() {
    let handle = Handle::new(-3, "road", false, 0, 0);
    assert_eq!(resolve_tag(&handle), Ok(StructureKind::Road));
}

#[test]
fn resolve_tag_refuses_the_empty_tag() {
    assert_eq!(resolve_tag(&tagged("")), Err(ConversionError::UnrecognizedTag));
}

#[test]
fn resolve_tag_refuses_another_case() {
    assert_eq!(resolve_tag(&tagged("Spawn")), Err(ConversionError::UnrecognizedTag));
    assert_eq!(resolve_tag(&tagged("SPAWN")), Err(ConversionError::UnrecognizedTag));
    assert_eq!(resolve_tag(&tagged("keeperlair")), Err(ConversionError::UnrecognizedTag));
    assert_eq!(resolve_tag(&tagged("keeper_lair")), Err(ConversionError::UnrecognizedTag));
}

#[test]
fn resolve_tag_refuses_a_tag_with_more_around_it() {
    assert_eq!(resolve_tag(&tagged("spawn ")), Err(ConversionError::UnrecognizedTag));
    assert_eq!(resolve_tag(&tagged(" spawn")), Err(ConversionError::UnrecognizedTag));
    assert_eq!(resolve_tag(&tagged("spawns")), Err(ConversionError::UnrecognizedTag));
    assert_eq!(resolve_tag(&tagged("spaw")), Err(ConversionError::UnrecognizedTag));
    assert_eq!(resolve_tag(&tagged("powerSpawn2")), Err(ConversionError::UnrecognizedTag));
}

#[test]
fn resolve_tag_refuses_a_tag_of_the_same_length() {
    assert_eq!(resolve_tag(&tagged("spawm")), Err(ConversionError::UnrecognizedTag));
    assert_eq!(resolve_tag(&tagged("wali")), Err(ConversionError::UnrecognizedTag));
    assert_eq!(resolve_tag(&tagged("extensior")), Err(ConversionError::UnrecognizedTag));
}

#[test]
fn resolve_tag_refuses_kinds_that_are_not_known() {
    assert_eq!(resolve_tag(&tagged("factory")), Err(ConversionError::UnrecognizedTag));
    assert_eq!(resolve_tag(&tagged("invaderCore")), Err(ConversionError::UnrecognizedTag));
    assert_eq!(resolve_tag(&tagged("tombstone")), Err(ConversionError::UnrecognizedTag));
}

#[test]
fn resolve_tag_refuses_text_outside_ascii() {
    assert_eq!(resolve_tag(&tagged("w\u{e4}ll")), Err(ConversionError::UnrecognizedTag));
    assert_eq!(resolve_tag(&tagged("\u{441}pawn")), Err(ConversionError::UnrecognizedTag));
    assert_eq!(resolve_tag(&tagged("lab\u{301}")), Err(ConversionError::UnrecognizedTag));
}

#[test]
fn resolve_tag_gives_the_same_answer_again() {
    let known = tagged("tower");
    let unknown = tagged("turret");
    assert_eq!(resolve_tag(&known), resolve_tag(&known));
    assert_eq!(resolve_tag(&unknown), resolve_tag(&unknown));
    assert_eq!(resolve_tag(&unknown), Err(ConversionError::UnrecognizedTag));
}

#[test]
fn construct_gives_the_kind_that_was_asked_for() {
    for kind in kinds().iter() {
        let structure = construct(*kind, tagged(kind.tag()));
        assert_eq!(structure.kind(), *kind);
    }
}

#[test]
fn construct_does_not_look_at_the_tag() {
    for kind in kinds().iter() {
        let structure = construct(*kind, tagged("something else"));
        assert_eq!(structure.kind(), *kind);
    }
}

#[test]
fn construct_picks_the_matching_variant() {
    assert!(matches!(construct(StructureKind::Lab, tagged("lab")), Structure::Lab(_)));
    assert!(matches!(construct(StructureKind::Link, tagged("link")), Structure::Link(_)));
    assert!(matches!(
        construct(StructureKind::PowerBank, tagged("powerBank")),
        Structure::PowerBank(_)
    ));
    assert!(matches!(
        construct(StructureKind::PowerSpawn, tagged("powerSpawn")),
        Structure::PowerSpawn(_)
    ));
}

#[test]
fn unwrapping_what_was_constructed_gives_the_handle_back() {
    for kind in kinds().iter() {
        let handle = Handle::new(77, kind.tag(), true, 12, 34);
        let structure = construct(*kind, handle.clone());
        assert_eq!(structure.underlying_handle(), &handle);
        assert_eq!(structure.into_handle(), handle);
    }
}

#[test]
fn unwrapping_keeps_the_identity_of_the_object() {
    let first = Handle::new(1, "wall", true, 5, 5);
    let second = Handle::new(2, "wall", true, 5, 5);
    let a = construct(StructureKind::Wall, first.clone());
    let b = construct(StructureKind::Wall, second.clone());
    assert!(a.underlying_handle().same_object(&first));
    assert!(!a.underlying_handle().same_object(&second));
    assert!(a.into_handle().same_object(&first));
    assert!(b.into_handle().same_object(&second));
}

#[test]
fn the_same_object_may_be_reported_differently() {
    let earlier = Handle::new(9, "rampart", true, 100, 300);
    let later = Handle::new(9, "rampart", true, 80, 300);
    assert!(earlier.same_object(&later));
    assert!(later.same_object(&earlier));
    assert_ne!(earlier, later);
    assert!(!earlier.same_object(&Handle::new(10, "rampart", true, 100, 300)));
}

#[test]
fn construct_unchecked_builds_what_construct_builds() {
    for kind in kinds().iter() {
        let handle = tagged(kind.tag());
        assert_eq!(construct_unchecked(*kind, handle.clone()), construct(*kind, handle));
    }
}

#[test]
fn try_from_handle_resolves_and_constructs() {
    for kind in kinds().iter() {
        let handle = tagged(kind.tag());
        let structure = Structure::try_from_handle(handle.clone());
        assert_eq!(structure, Ok(construct(*kind, handle)));
    }
}

#[test]
fn try_from_handle_refuses_an_unrecognized_tag() {
    assert_eq!(
        Structure::try_from_handle(tagged("deposit")),
        Err(ConversionError::UnrecognizedTag)
    );
    assert_eq!(Structure::try_from_handle(tagged("")), Err(ConversionError::UnrecognizedTag));
    assert_eq!(Structure::try_from_handle(tagged("Wall")), Err(ConversionError::UnrecognizedTag));
}

#[test]
fn try_from_handle_takes_what_the_host_does_not_call_a_structure() {
    let handle = Handle::new(5, "extension", false, 1, 2);
    let structure = Structure::try_from_handle(handle);
    assert_eq!(structure.map(|s| s.kind()), Ok(StructureKind::Extension));
}

#[test]
fn from_expected_type_agrees_with_try_from_handle() {
    for tag in tags().iter() {
        assert_eq!(
            Structure::from_expected_type(tagged(tag)),
            Structure::try_from_handle(tagged(tag))
        );
    }
    assert_eq!(
        Structure::from_expected_type(tagged("ruin")),
        Err(ConversionError::UnrecognizedTag)
    );
}

#[test]
fn from_handle_unchecked_agrees_with_try_from_handle() {
    for tag in tags().iter() {
        assert_eq!(
            Ok(Structure::from_handle_unchecked(tagged(tag))),
            Structure::try_from_handle(tagged(tag))
        );
    }
}

#[test]
fn try_from_value_takes_a_reference() {
    let handle = tagged("terminal");
    let structure = Structure::try_from_value(RawValue::Reference(handle.clone()));
    assert_eq!(structure, Ok(construct(StructureKind::Terminal, handle)));
}

#[test]
fn try_from_value_refuses_what_is_no_reference() {
    assert_eq!(Structure::try_from_value(RawValue::Undefined), Err(ConversionError::NotAHandle));
    assert_eq!(Structure::try_from_value(RawValue::Null), Err(ConversionError::NotAHandle));
    assert_eq!(Structure::try_from_value(RawValue::Bool), Err(ConversionError::NotAHandle));
    assert_eq!(Structure::try_from_value(RawValue::Number), Err(ConversionError::NotAHandle));
    assert_eq!(Structure::try_from_value(RawValue::Symbol), Err(ConversionError::NotAHandle));
    assert_eq!(Structure::try_from_value(RawValue::Text), Err(ConversionError::NotAHandle));
}

#[test]
fn try_from_value_refuses_a_reference_with_an_unrecognized_tag() {
    assert_eq!(
        Structure::try_from_value(RawValue::Reference(tagged("creep"))),
        Err(ConversionError::UnrecognizedTag)
    );
}

#[test]
fn instance_of_is_what_the_host_reported() {
    assert!(Structure::instance_of(&Handle::new(1, "spawn", true, 0, 0)));
    assert!(!Structure::instance_of(&Handle::new(1, "spawn", false, 0, 0)));
    assert!(Structure::instance_of(&Handle::new(1, "unheard of", true, 0, 0)));
}

#[test]
fn supports_is_the_table() {
    let table: [[bool; 9]; 19] = [
        [true, false, true, false, false, false, true, true, true],
        [false, true, false, false, false, false, false, false, false],
        [true, true, false, true, false, true, false, true, true],
        [true, true, false, false, true, false, false, false, false],
        [true, true, false, false, false, false, false, false, false],
        [true, true, false, true, true, false, false, true, true],
        [true, true, false, true, true, false, false, true, true],
        [true, true, false, true, true, false, false, true, false],
        [true, true, false, false, false, false, false, false, false],
        [true, true, true, false, false, false, false, false, false],
        [true, true, false, true, false, false, false, true, true],
        [false, false, true, false, false, false, false, false, false],
        [true, true, true, false, false, false, false, false, false],
        [true, false, true, false, false, false, false, false, false],
        [true, true, false, true, false, true, false, true, true],
        [true, true, false, false, false, false, true, true, false],
        [true, true, false, false, true, false, true, true, true],
        [true, true, false, true, false, false, false, true, true],
        [true, false, false, false, false, false, false, false, false],
    ];
    let capabilities: [Capability; 9] = [
        Capability::Attackable,
        Capability::Owned,
        Capability::CanDecay,
        Capability::CanStoreEnergy,
        Capability::HasCooldown,
        Capability::HasEnergyForSpawn,
        Capability::HasStore,
        Capability::Transferable,
        Capability::Withdrawable,
    ];
    for (kind, row) in kinds().iter().zip(table.iter()) {
        for (capability, cell) in capabilities.iter().zip(row.iter()) {
            assert_eq!(kind.supports(*capability), *cell, "{:?} {:?}", kind, capability);
        }
    }
}

#[test]
fn accessors_agree_with_supports() {
    for kind in kinds().iter() {
        let s = construct(*kind, tagged(kind.tag()));
        assert_eq!(s.as_attackable().is_some(), kind.supports(Capability::Attackable));
        assert_eq!(s.as_owned().is_some(), kind.supports(Capability::Owned));
        assert_eq!(s.as_can_decay().is_some(), kind.supports(Capability::CanDecay));
        assert_eq!(s.as_can_store_energy().is_some(), kind.supports(Capability::CanStoreEnergy));
        assert_eq!(s.as_has_cooldown().is_some(), kind.supports(Capability::HasCooldown));
        assert_eq!(
            s.as_has_energy_for_spawn().is_some(),
            kind.supports(Capability::HasEnergyForSpawn)
        );
        assert_eq!(s.as_has_store().is_some(), kind.supports(Capability::HasStore));
        assert_eq!(s.as_transferable().is_some(), kind.supports(Capability::Transferable));
        assert_eq!(s.as_withdrawable().is_some(), kind.supports(Capability::Withdrawable));
    }
}
