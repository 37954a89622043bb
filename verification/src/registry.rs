//! The registry: which kind a handle's tag names, and which wrapper goes
//! with which kind.

use crate::error::ConversionError;
use crate::handle::Handle;
use crate::kind::StructureKind;
use crate::objects::{
    StructureContainer, StructureController, StructureExtension, StructureExtractor,
    StructureKeeperLair, StructureLab, StructureLink, StructureNuker, StructureObserver,
    StructurePortal, StructurePowerBank, StructurePowerSpawn, StructureRampart, StructureRoad,
    StructureSpawn, StructureStorage, StructureTerminal, StructureTower, StructureWall,
};
use crate::structure::Structure;
use crate::tag::kind_of_tag;
use vstd::prelude::*;

verus! {

/// The kind of the object behind `handle`, going by the tag that the host
/// reported: the kind that the tag names, or the error where it names none.
pub open spec fn spec_resolve_tag(handle: Handle) -> Result<StructureKind, ConversionError> {
    match kind_of_tag(handle@.structure_type) {
        Some(kind) => Ok(kind),
        None => Err(ConversionError::UnrecognizedTag),
    }
}

/// The structure of the given kind around `handle`.
pub open spec fn spec_construct(kind: StructureKind, handle: Handle) -> Structure {
    match kind {
        StructureKind::Container => Structure::Container(StructureContainer(handle)),
        StructureKind::Controller => Structure::Controller(StructureController(handle)),
        StructureKind::Extension => Structure::Extension(StructureExtension(handle)),
        StructureKind::Extractor => Structure::Extractor(StructureExtractor(handle)),
        StructureKind::KeeperLair => Structure::KeeperLair(StructureKeeperLair(handle)),
        StructureKind::Lab => Structure::Lab(StructureLab(handle)),
        StructureKind::Link => Structure::Link(StructureLink(handle)),
        StructureKind::Nuker => Structure::Nuker(StructureNuker(handle)),
        StructureKind::Observer => Structure::Observer(StructureObserver(handle)),
        StructureKind::PowerBank => Structure::PowerBank(StructurePowerBank(handle)),
        StructureKind::PowerSpawn => Structure::PowerSpawn(StructurePowerSpawn(handle)),
        StructureKind::Portal => Structure::Portal(StructurePortal(handle)),
        StructureKind::Rampart => Structure::Rampart(StructureRampart(handle)),
        StructureKind::Road => Structure::Road(StructureRoad(handle)),
        StructureKind::Spawn => Structure::Spawn(StructureSpawn(handle)),
        StructureKind::Storage => Structure::Storage(StructureStorage(handle)),
        StructureKind::Terminal => Structure::Terminal(StructureTerminal(handle)),
        StructureKind::Tower => Structure::Tower(StructureTower(handle)),
        StructureKind::Wall => Structure::Wall(StructureWall(handle)),
    }
}

/// Resolves the tag of `handle` to a kind. It fails on a tag outside the
/// closed set, and on nothing else.
pub fn resolve_tag(handle: &Handle) -> (r: Result<StructureKind, ConversionError>)
    ensures
        r == spec_resolve_tag(*handle),
{
    match StructureKind::from_tag(handle.structure_type.as_str()) {
        Some(kind) => Ok(kind),
        None => Err(ConversionError::UnrecognizedTag),
    }
}

/// Wraps `handle` as a structure of the given kind. Every kind has its arm;
/// the handle is not looked at.
pub fn construct(kind: StructureKind, handle: Handle) -> (s: Structure)
    ensures
        s == spec_construct(kind, handle),
        s.spec_kind() == kind,
        s.spec_handle() == handle,
    no_unwind
{
    match kind {
        StructureKind::Container => Structure::Container(StructureContainer(handle)),
        StructureKind::Controller => Structure::Controller(StructureController(handle)),
        StructureKind::Extension => Structure::Extension(StructureExtension(handle)),
        StructureKind::Extractor => Structure::Extractor(StructureExtractor(handle)),
        StructureKind::KeeperLair => Structure::KeeperLair(StructureKeeperLair(handle)),
        StructureKind::Lab => Structure::Lab(StructureLab(handle)),
        StructureKind::Link => Structure::Link(StructureLink(handle)),
        StructureKind::Nuker => Structure::Nuker(StructureNuker(handle)),
        StructureKind::Observer => Structure::Observer(StructureObserver(handle)),
        StructureKind::PowerBank => Structure::PowerBank(StructurePowerBank(handle)),
        StructureKind::PowerSpawn => Structure::PowerSpawn(StructurePowerSpawn(handle)),
        StructureKind::Portal => Structure::Portal(StructurePortal(handle)),
        StructureKind::Rampart => Structure::Rampart(StructureRampart(handle)),
        StructureKind::Road => Structure::Road(StructureRoad(handle)),
        StructureKind::Spawn => Structure::Spawn(StructureSpawn(handle)),
        StructureKind::Storage => Structure::Storage(StructureStorage(handle)),
        StructureKind::Terminal => Structure::Terminal(StructureTerminal(handle)),
        StructureKind::Tower => Structure::Tower(StructureTower(handle)),
        StructureKind::Wall => Structure::Wall(StructureWall(handle)),
    }
}

/// Wraps `handle` as a structure of a kind that the caller already knows to
/// be the handle's own, without resolving the tag again. The caller answers
/// for that: nothing is checked when the program runs.
pub fn construct_unchecked(kind: StructureKind, handle: Handle) -> (s: Structure)
    requires
        spec_resolve_tag(handle) == Ok::<StructureKind, ConversionError>(kind),
    ensures
        s == spec_construct(kind, handle),
        s.tag_agrees(),
    no_unwind
{
    construct(kind, handle)
}

} // verus!
