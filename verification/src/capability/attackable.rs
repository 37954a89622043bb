//! Structures that can be attacked.

use crate::handle::Handle;
use crate::objects::{
    StructureContainer, StructureExtension, StructureExtractor, StructureKeeperLair, StructureLab,
    StructureLink, StructureNuker, StructureObserver, StructurePowerBank, StructurePowerSpawn,
    StructureRampart, StructureRoad, StructureSpawn, StructureStorage, StructureTerminal,
    StructureTower, StructureWall,
};
use vstd::prelude::*;

verus! {

/// What has hit points and can be damaged.
pub trait Attackable {
    /// The handle of the object that this value stands for.
    spec fn spec_handle(&self) -> Handle;

    /// The hit points that this value answers with.
    spec fn spec_hits(&self) -> u32;

    /// The most hit points that this value answers with.
    spec fn spec_hits_max(&self) -> u32;

    /// The handle of the object.
    fn handle(&self) -> (h: &Handle)
        ensures
            *h == self.spec_handle(),
    ;

    /// The hit points that the object has left.
    fn hits(&self) -> (r: u32)
        ensures
            r == self.spec_hits(),
    ;

    /// The hit points of the object when it is whole.
    fn hits_max(&self) -> (r: u32)
        ensures
            r == self.spec_hits_max(),
    ;
}

impl Attackable for StructureContainer {
    open spec fn spec_handle(&self) -> Handle {
        self.0
    }

    open spec fn spec_hits(&self) -> u32 {
        self.0.hits
    }

    open spec fn spec_hits_max(&self) -> u32 {
        self.0.hits_max
    }

    fn handle(&self) -> (h: &Handle) {
        &self.0
    }

    fn hits(&self) -> (r: u32) {
        self.0.hits
    }

    fn hits_max(&self) -> (r: u32) {
        self.0.hits_max
    }
}

impl Attackable for StructureExtension {
    open spec fn spec_handle(&self) -> Handle {
        self.0
    }

    open spec fn spec_hits(&self) -> u32 {
        self.0.hits
    }

    open spec fn spec_hits_max(&self) -> u32 {
        self.0.hits_max
    }

    fn handle(&self) -> (h: &Handle) {
        &self.0
    }

    fn hits(&self) -> (r: u32) {
        self.0.hits
    }

    fn hits_max(&self) -> (r: u32) {
        self.0.hits_max
    }
}

impl Attackable for StructureExtractor {
    open spec fn spec_handle(&self) -> Handle {
        self.0
    }

    open spec fn spec_hits(&self) -> u32 {
        self.0.hits
    }

    open spec fn spec_hits_max(&self) -> u32 {
        self.0.hits_max
    }

    fn handle(&self) -> (h: &Handle) {
        &self.0
    }

    fn hits(&self) -> (r: u32) {
        self.0.hits
    }

    fn hits_max(&self) -> (r: u32) {
        self.0.hits_max
    }
}

impl Attackable for StructureKeeperLair {
    open spec fn spec_handle(&self) -> Handle {
        self.0
    }

    open spec fn spec_hits(&self) -> u32 {
        self.0.hits
    }

    open spec fn spec_hits_max(&self) -> u32 {
        self.0.hits_max
    }

    fn handle(&self) -> (h: &Handle) {
        &self.0
    }

    fn hits(&self) -> (r: u32) {
        self.0.hits
    }

    fn hits_max(&self) -> (r: u32) {
        self.0.hits_max
    }
}

impl Attackable for StructureLab {
    open spec fn spec_handle(&self) -> Handle {
        self.0
    }

    open spec fn spec_hits(&self) -> u32 {
        self.0.hits
    }

    open spec fn spec_hits_max(&self) -> u32 {
        self.0.hits_max
    }

    fn handle(&self) -> (h: &Handle) {
        &self.0
    }

    fn hits(&self) -> (r: u32) {
        self.0.hits
    }

    fn hits_max(&self) -> (r: u32) {
        self.0.hits_max
    }
}

impl Attackable for StructureLink {
    open spec fn spec_handle(&self) -> Handle {
        self.0
    }

    open spec fn spec_hits(&self) -> u32 {
        self.0.hits
    }

    open spec fn spec_hits_max(&self) -> u32 {
        self.0.hits_max
    }

    fn handle(&self) -> (h: &Handle) {
        &self.0
    }

    fn hits(&self) -> (r: u32) {
        self.0.hits
    }

    fn hits_max(&self) -> (r: u32) {
        self.0.hits_max
    }
}

impl Attackable for StructureNuker {
    open spec fn spec_handle(&self) -> Handle {
        self.0
    }

    open spec fn spec_hits(&self) -> u32 {
        self.0.hits
    }

    open spec fn spec_hits_max(&self) -> u32 {
        self.0.hits_max
    }

    fn handle(&self) -> (h: &Handle) {
        &self.0
    }

    fn hits(&self) -> (r: u32) {
        self.0.hits
    }

    fn hits_max(&self) -> (r: u32) {
        self.0.hits_max
    }
}

impl Attackable for StructureObserver {
    open spec fn spec_handle(&self) -> Handle {
        self.0
    }

    open spec fn spec_hits(&self) -> u32 {
        self.0.hits
    }

    open spec fn spec_hits_max(&self) -> u32 {
        self.0.hits_max
    }

    fn handle(&self) -> (h: &Handle) {
        &self.0
    }

    fn hits(&self) -> (r: u32) {
        self.0.hits
    }

    fn hits_max(&self) -> (r: u32) {
        self.0.hits_max
    }
}

impl Attackable for StructurePowerBank {
    open spec fn spec_handle(&self) -> Handle {
        self.0
    }

    open spec fn spec_hits(&self) -> u32 {
        self.0.hits
    }

    open spec fn spec_hits_max(&self) -> u32 {
        self.0.hits_max
    }

    fn handle(&self) -> (h: &Handle) {
        &self.0
    }

    fn hits(&self) -> (r: u32) {
        self.0.hits
    }

    fn hits_max(&self) -> (r: u32) {
        self.0.hits_max
    }
}

impl Attackable for StructurePowerSpawn {
    open spec fn spec_handle(&self) -> Handle {
        self.0
    }

    open spec fn spec_hits(&self) -> u32 {
        self.0.hits
    }

    open spec fn spec_hits_max(&self) -> u32 {
        self.0.hits_max
    }

    fn handle(&self) -> (h: &Handle) {
        &self.0
    }

    fn hits(&self) -> (r: u32) {
        self.0.hits
    }

    fn hits_max(&self) -> (r: u32) {
        self.0.hits_max
    }
}

impl Attackable for StructureRampart {
    open spec fn spec_handle(&self) -> Handle {
        self.0
    }

    open spec fn spec_hits(&self) -> u32 {
        self.0.hits
    }

    open spec fn spec_hits_max(&self) -> u32 {
        self.0.hits_max
    }

    fn handle(&self) -> (h: &Handle) {
        &self.0
    }

    fn hits(&self) -> (r: u32) {
        self.0.hits
    }

    fn hits_max(&self) -> (r: u32) {
        self.0.hits_max
    }
}

impl Attackable for StructureRoad {
    open spec fn spec_handle(&self) -> Handle {
        self.0
    }

    open spec fn spec_hits(&self) -> u32 {
        self.0.hits
    }

    open spec fn spec_hits_max(&self) -> u32 {
        self.0.hits_max
    }

    fn handle(&self) -> (h: &Handle) {
        &self.0
    }

    fn hits(&self) -> (r: u32) {
        self.0.hits
    }

    fn hits_max(&self) -> (r: u32) {
        self.0.hits_max
    }
}

impl Attackable for StructureSpawn {
    open spec fn spec_handle(&self) -> Handle {
        self.0
    }

    open spec fn spec_hits(&self) -> u32 {
        self.0.hits
    }

    open spec fn spec_hits_max(&self) -> u32 {
        self.0.hits_max
    }

    fn handle(&self) -> (h: &Handle) {
        &self.0
    }

    fn hits(&self) -> (r: u32) {
        self.0.hits
    }

    fn hits_max(&self) -> (r: u32) {
        self.0.hits_max
    }
}

impl Attackable for StructureStorage {
    open spec fn spec_handle(&self) -> Handle {
        self.0
    }

    open spec fn spec_hits(&self) -> u32 {
        self.0.hits
    }

    open spec fn spec_hits_max(&self) -> u32 {
        self.0.hits_max
    }

    fn handle(&self) -> (h: &Handle) {
        &self.0
    }

    fn hits(&self) -> (r: u32) {
        self.0.hits
    }

    fn hits_max(&self) -> (r: u32) {
        self.0.hits_max
    }
}

impl Attackable for StructureTerminal {
    open spec fn spec_handle(&self) -> Handle {
        self.0
    }

    open spec fn spec_hits(&self) -> u32 {
        self.0.hits
    }

    open spec fn spec_hits_max(&self) -> u32 {
        self.0.hits_max
    }

    fn handle(&self) -> (h: &Handle) {
        &self.0
    }

    fn hits(&self) -> (r: u32) {
        self.0.hits
    }

    fn hits_max(&self) -> (r: u32) {
        self.0.hits_max
    }
}

impl Attackable for StructureTower {
    open spec fn spec_handle(&self) -> Handle {
        self.0
    }

    open spec fn spec_hits(&self) -> u32 {
        self.0.hits
    }

    open spec fn spec_hits_max(&self) -> u32 {
        self.0.hits_max
    }

    fn handle(&self) -> (h: &Handle) {
        &self.0
    }

    fn hits(&self) -> (r: u32) {
        self.0.hits
    }

    fn hits_max(&self) -> (r: u32) {
        self.0.hits_max
    }
}

impl Attackable for StructureWall {
    open spec fn spec_handle(&self) -> Handle {
        self.0
    }

    open spec fn spec_hits(&self) -> u32 {
        self.0.hits
    }

    open spec fn spec_hits_max(&self) -> u32 {
        self.0.hits_max
    }

    fn handle(&self) -> (h: &Handle) {
        &self.0
    }

    fn hits(&self) -> (r: u32) {
        self.0.hits
    }

    fn hits_max(&self) -> (r: u32) {
        self.0.hits_max
    }
}

} // verus!
