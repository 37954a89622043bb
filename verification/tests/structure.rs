use screeps_structure::{
    construct, Attackable, CanDecay, CanStoreEnergy, ConversionError, Handle, HasCooldown,
    HasEnergyForSpawn, HasStore, OwnedStructureProperties, Structure, StructureContainer,
    StructureController, StructureKind, StructureSpawn, StructureWall, Transferable, Withdrawable,
};

fn all_kinds() -> [StructureKind; 19] {
    [
        StructureKind::Container,
        StructureKind::Controller,
        StructureKind::Extension,
        StructureKind::Extractor,
        StructureKind::KeeperLair,
        StructureKind::Lab,
        StructureKind::Link,
        StructureKind::Nuker,
        StructureKind::Observer,
        StructureKind::PowerBank,
        StructureKind::PowerSpawn,
        StructureKind::Portal,
        StructureKind::Rampart,
        StructureKind::Road,
        StructureKind::Spawn,
        StructureKind::Storage,
        StructureKind::Terminal,
        StructureKind::Tower,
        StructureKind::Wall,
    ]
}

fn taken(handle: Handle) -> Structure {
    match Structure::try_from_handle(handle) {
        Ok(structure) => structure,
        Err(error) => panic!("the handle was refused: {:?}", error),
    }
}

#[test]
fn a_spawn_takes_transfers_and_does_not_decay() {
    let structure = taken(Handle::new(1, "spawn", true, 5000, 5000));
    assert_eq!(structure.as_transferable().is_some(), true);
    assert_eq!(structure.as_can_decay().is_some(), false);
    assert_eq!(structure.as_has_energy_for_spawn().is_some(), true);
}

#[test]
fn a_wall_can_only_be_attacked() {
    let structure = taken(Handle::new(2, "wall", true, 123456, 300000000));
    assert!(structure.as_attackable().is_some());
    assert!(structure.as_owned().is_none());
    assert!(structure.as_can_decay().is_none());
    assert!(structure.as_can_store_energy().is_none());
    assert!(structure.as_has_cooldown().is_none());
    assert!(structure.as_has_energy_for_spawn().is_none());
    assert!(structure.as_has_store().is_none());
    assert!(structure.as_transferable().is_none());
    assert!(structure.as_withdrawable().is_none());
    assert_eq!(structure.hits(), 123456);
    assert_eq!(structure.hits_max(), 300000000);
}

#[test]
fn hits_are_what_the_host_reported() {
    for kind in all_kinds().iter() {
        if *kind == StructureKind::Controller {
            continue;
        }
        let structure = construct(*kind, Handle::new(3, kind.tag(), true, 417, 9001));
        assert_eq!(structure.hits(), 417, "{:?}", kind);
        assert_eq!(structure.hits_max(), 9001, "{:?}", kind);
    }
}

#[test]
fn hits_of_a_controller_are_zero_whatever_the_host_says() {
    let structure = taken(Handle::new(4, "controller", true, 417, 9001));
    assert_eq!(structure.kind(), StructureKind::Controller);
    assert_eq!(structure.hits(), 0);
    assert_eq!(structure.hits_max(), 0);
    let full = taken(Handle::new(4, "controller", true, u32::MAX, u32::MAX));
    assert_eq!(full.hits(), 0);
    assert_eq!(full.hits_max(), 0);
}

#[test]
fn hits_of_a_portal_are_read_though_it_cannot_be_attacked() {
    let structure = taken(Handle::new(5, "portal", true, 7, 8));
    assert!(structure.as_attackable().is_none());
    assert_eq!(structure.hits(), 7);
    assert_eq!(structure.hits_max(), 8);
}

#[test]
fn hits_at_the_ends_of_the_range() {
    let none = taken(Handle::new(6, "road", true, 0, 0));
    assert_eq!(none.hits(), 0);
    assert_eq!(none.hits_max(), 0);
    let most = taken(Handle::new(6, "rampart", true, u32::MAX, u32::MAX));
    assert_eq!(most.hits(), u32::MAX);
    assert_eq!(most.hits_max(), u32::MAX);
}

#[test]
fn the_narrowed_reference_reports_the_same_hits() {
    for kind in all_kinds().iter() {
        let structure = construct(*kind, Handle::new(7, kind.tag(), true, 31, 32));
        if let Some(attackable) = structure.as_attackable() {
            assert_eq!(attackable.hits(), 31);
            assert_eq!(attackable.hits_max(), 32);
            assert_eq!(attackable.hits(), structure.hits());
            assert_eq!(attackable.hits_max(), structure.hits_max());
        }
    }
}

fn total_hits(targets: &[&dyn Attackable]) -> u64 {
    targets.iter().map(|target| u64::from(target.hits())).sum()
}

#[test]
fn a_structure_is_attackable_as_a_whole() {
    let wall = taken(Handle::new(8, "wall", true, 10, 10));
    let controller = taken(Handle::new(9, "controller", true, 10, 10));
    let bare = StructureWall(Handle::new(10, "wall", true, 5, 10));
    assert_eq!(total_hits(&[&wall, &controller, &bare]), 15);
    assert_eq!(Attackable::handle(&wall).id, 8);
    assert_eq!(Attackable::handle(&controller).id, 9);
}

#[test]
fn every_narrowed_reference_leads_to_the_same_handle() {
    for kind in all_kinds().iter() {
        let handle = Handle::new(12, kind.tag(), true, 1, 2);
        let s = construct(*kind, handle.clone());
        if let Some(c) = s.as_attackable() {
            assert_eq!(c.handle(), &handle);
        }
        if let Some(c) = s.as_owned() {
            assert_eq!(c.handle(), &handle);
        }
        if let Some(c) = s.as_can_decay() {
            assert_eq!(c.handle(), &handle);
        }
        if let Some(c) = s.as_can_store_energy() {
            assert_eq!(c.handle(), &handle);
        }
        if let Some(c) = s.as_has_cooldown() {
            assert_eq!(c.handle(), &handle);
        }
        if let Some(c) = s.as_has_energy_for_spawn() {
            assert_eq!(c.handle(), &handle);
        }
        if let Some(c) = s.as_has_store() {
            assert_eq!(c.handle(), &handle);
        }
        if let Some(c) = s.as_transferable() {
            assert_eq!(c.handle(), &handle);
        }
        if let Some(c) = s.as_withdrawable() {
            assert_eq!(c.handle(), &handle);
        }
        assert_eq!(s.underlying_handle(), &handle);
    }
}

#[test]
fn no_accessor_fails_on_any_kind() {
    let mut asked: usize = 0;
    let mut present: usize = 0;
    for kind in all_kinds().iter() {
        let s = construct(*kind, Handle::new(13, "", false, 0, 0));
        let answers: [bool; 9] = [
            s.as_attackable().is_some(),
            s.as_owned().is_some(),
            s.as_can_decay().is_some(),
            s.as_can_store_energy().is_some(),
            s.as_has_cooldown().is_some(),
            s.as_has_energy_for_spawn().is_some(),
            s.as_has_store().is_some(),
            s.as_transferable().is_some(),
            s.as_withdrawable().is_some(),
        ];
        asked += answers.len();
        present += answers.iter().filter(|a| **a).count();
    }
    assert_eq!(asked, 171);
    assert_eq!(present, 72);
}

#[test]
fn wrappers_written_by_hand_have_their_capabilities() {
    let spawn = StructureSpawn(Handle::new(14, "spawn", true, 1, 2));
    let container = StructureContainer(Handle::new(15, "container", true, 3, 4));
    let controller = StructureController(Handle::new(16, "controller", true, 5, 6));
    assert_eq!(Transferable::handle(&spawn).id, 14);
    assert_eq!(Withdrawable::handle(&spawn).id, 14);
    assert_eq!(CanStoreEnergy::handle(&spawn).id, 14);
    assert_eq!(HasEnergyForSpawn::handle(&spawn).id, 14);
    assert_eq!(OwnedStructureProperties::handle(&spawn).id, 14);
    assert_eq!(Attackable::hits(&spawn), 1);
    assert_eq!(Attackable::hits_max(&spawn), 2);
    assert_eq!(CanDecay::handle(&container).id, 15);
    assert_eq!(HasStore::handle(&container).id, 15);
    assert_eq!(Attackable::hits(&container), 3);
    assert_eq!(OwnedStructureProperties::handle(&controller).id, 16);
    let lab = construct(StructureKind::Lab, Handle::new(17, "lab", true, 0, 0));
    assert_eq!(lab.as_has_cooldown().map(|c| HasCooldown::handle(c).id), Some(17));
}

#[test]
fn the_variant_is_the_kind() {
    let s = Structure::Spawn(StructureSpawn(Handle::new(18, "spawn", true, 1, 1)));
    assert_eq!(s.kind(), StructureKind::Spawn);
    let w = Structure::Wall(StructureWall(Handle::new(19, "spawn", true, 1, 1)));
    assert_eq!(w.kind(), StructureKind::Wall);
    assert!(w.as_transferable().is_none());
}

#[test]
fn failure_comes_once_at_the_boundary() {
    let refused = Structure::try_from_handle(Handle::new(20, "nuke", true, 1, 1));
    assert_eq!(refused, Err(ConversionError::UnrecognizedTag));
    let accepted = Structure::try_from_handle(Handle::new(20, "nuker", true, 1, 1));
    assert_eq!(accepted.map(|s| s.as_withdrawable().is_none()), Ok(true));
}
