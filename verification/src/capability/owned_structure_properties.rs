//! Structures that belong to a player.

use crate::handle::Handle;
use crate::objects::{
    StructureController, StructureExtension, StructureExtractor, StructureKeeperLair, StructureLab,
    StructureLink, StructureNuker, StructureObserver, StructurePowerBank, StructurePowerSpawn,
    StructureRampart, StructureSpawn, StructureStorage, StructureTerminal, StructureTower,
};
use vstd::prelude::*;

verus! {

/// What belongs to a player, or can come to belong to one.
pub trait OwnedStructureProperties {
    /// The handle of the object that this value stands for.
    spec fn spec_handle(&self) -> Handle;

    /// The handle of the object.
    fn handle(&self) -> (h: &Handle)
        ensures
            *h == self.spec_handle(),
    ;
}

impl OwnedStructureProperties for StructureController {
    open spec fn spec_handle(&self) -> Handle {
        self.0
    }

    fn handle(&self) -> (h: &Handle) {
        &self.0
    }
}

impl OwnedStructureProperties for StructureExtension {
    open spec fn spec_handle(&self) -> Handle {
        self.0
    }

    fn handle(&self) -> (h: &Handle) {
        &self.0
    }
}

impl OwnedStructureProperties for StructureExtractor {
    open spec fn spec_handle(&self) -> Handle {
        self.0
    }

    fn handle(&self) -> (h: &Handle) {
        &self.0
    }
}

impl OwnedStructureProperties for StructureKeeperLair {
    open spec fn spec_handle(&self) -> Handle {
        self.0
    }

    fn handle(&self) -> (h: &Handle) {
        &self.0
    }
}

impl OwnedStructureProperties for StructureLab {
    open spec fn spec_handle(&self) -> Handle {
        self.0
    }

    fn handle(&self) -> (h: &Handle) {
        &self.0
    }
}

impl OwnedStructureProperties for StructureLink {
    open spec fn spec_handle(&self) -> Handle {
        self.0
    }

    fn handle(&self) -> (h: &Handle) {
        &self.0
    }
}

impl OwnedStructureProperties for StructureNuker {
    open spec fn spec_handle(&self) -> Handle {
        self.0
    }

    fn handle(&self) -> (h: &Handle) {
        &self.0
    }
}

impl OwnedStructureProperties for StructureObserver {
    open spec fn spec_handle(&self) -> Handle {
        self.0
    }

    fn handle(&self) -> (h: &Handle) {
        &self.0
    }
}

impl OwnedStructureProperties for StructurePowerBank {
    open spec fn spec_handle(&self) -> Handle {
        self.0
    }

    fn handle(&self) -> (h: &Handle) {
        &self.0
    }
}

impl OwnedStructureProperties for StructurePowerSpawn {
    open spec fn spec_handle(&self) -> Handle {
        self.0
    }

    fn handle(&self) -> (h: &Handle) {
        &self.0
    }
}

impl OwnedStructureProperties for StructureRampart {
    open spec fn spec_handle(&self) -> Handle {
        self.0
    }

    fn handle(&self) -> (h: &Handle) {
        &self.0
    }
}

impl OwnedStructureProperties for StructureSpawn {
    open spec fn spec_handle(&self) -> Handle {
        self.0
    }

    fn handle(&self) -> (h: &Handle) {
        &self.0
    }
}

impl OwnedStructureProperties for StructureStorage {
    open spec fn spec_handle(&self) -> Handle {
        self.0
    }

    fn handle(&self) -> (h: &Handle) {
        &self.0
    }
}

impl OwnedStructureProperties for StructureTerminal {
    open spec fn spec_handle(&self) -> Handle {
        self.0
    }

    fn handle(&self) -> (h: &Handle) {
        &self.0
    }
}

impl OwnedStructureProperties for StructureTower {
    open spec fn spec_handle(&self) -> Handle {
        self.0
    }

    fn handle(&self) -> (h: &Handle) {
        &self.0
    }
}

} // verus!
