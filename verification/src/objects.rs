//! One wrapper for each kind of structure. A wrapper holds the handle of one
//! object and nothing else; its type says of which kind the object is taken
//! to be.
//!
//! Nothing checks that claim when a wrapper is written down by hand: the
//! checked way in is [`Structure::try_from_handle`](crate::Structure::try_from_handle).

use crate::handle::Handle;
use vstd::prelude::*;

verus! {

/// A container: a small store that anyone may use, and that wears away.
#[derive(Clone, Debug, PartialEq, Eq)]
pub struct StructureContainer(pub Handle);

/// The controller of a room. It is claimed, reserved or attacked by creeps,
/// but it has no hit points.
#[derive(Clone, Debug, PartialEq, Eq)]
pub struct StructureController(pub Handle);

/// An extension: it holds energy that the spawns of its room draw on.
#[derive(Clone, Debug, PartialEq, Eq)]
pub struct StructureExtension(pub Handle);

/// An extractor: it lets the mineral deposit under it be harvested.
#[derive(Clone, Debug, PartialEq, Eq)]
pub struct StructureExtractor(pub Handle);

/// A keeper lair: source keepers come out of it.
#[derive(Clone, Debug, PartialEq, Eq)]
pub struct StructureKeeperLair(pub Handle);

/// A lab: it runs reactions on minerals and boosts creeps.
#[derive(Clone, Debug, PartialEq, Eq)]
pub struct StructureLab(pub Handle);

/// A link: it sends energy to another link of its room.
#[derive(Clone, Debug, PartialEq, Eq)]
pub struct StructureLink(pub Handle);

/// A nuker: once loaded it launches a nuke at another room.
#[derive(Clone, Debug, PartialEq, Eq)]
pub struct StructureNuker(pub Handle);

/// An observer: it gives sight of a distant room.
#[derive(Clone, Debug, PartialEq, Eq)]
pub struct StructureObserver(pub Handle);

/// A power bank: it holds power until it is destroyed or has decayed.
#[derive(Clone, Debug, PartialEq, Eq)]
pub struct StructurePowerBank(pub Handle);

/// A power spawn: it processes power for its owner.
#[derive(Clone, Debug, PartialEq, Eq)]
pub struct StructurePowerSpawn(pub Handle);

/// A portal: it carries creeps to another place. Nothing can damage it.
#[derive(Clone, Debug, PartialEq, Eq)]
pub struct StructurePortal(pub Handle);

/// A rampart: it shields what stands on its square.
#[derive(Clone, Debug, PartialEq, Eq)]
pub struct StructureRampart(pub Handle);

/// A road: it makes walking cheaper and wears down under it.
#[derive(Clone, Debug, PartialEq, Eq)]
pub struct StructureRoad(pub Handle);

/// A spawn: it makes creeps.
#[derive(Clone, Debug, PartialEq, Eq)]
pub struct StructureSpawn(pub Handle);

/// A storage: the large store of a room.
#[derive(Clone, Debug, PartialEq, Eq)]
pub struct StructureStorage(pub Handle);

/// A terminal: it sends resources to other rooms and trades them.
#[derive(Clone, Debug, PartialEq, Eq)]
pub struct StructureTerminal(pub Handle);

/// A tower: it attacks, heals and repairs at a distance.
#[derive(Clone, Debug, PartialEq, Eq)]
pub struct StructureTower(pub Handle);

/// A constructed wall.
#[derive(Clone, Debug, PartialEq, Eq)]
pub struct StructureWall(pub Handle);

} // verus!
