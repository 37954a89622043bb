//! Structures that hold energy.

use crate::handle::Handle;
use crate::objects::{
    StructureExtension, StructureLab, StructureLink, StructureNuker, StructurePowerSpawn,
    StructureSpawn, StructureTower,
};
use vstd::prelude::*;

verus! {

/// What holds energy, up to a capacity of its own.
pub trait CanStoreEnergy {
    /// The handle of the object that this value stands for.
    spec fn spec_handle(&self) -> Handle;

    /// The handle of the object.
    fn handle(&self) -> (h: &Handle)
        ensures
            *h == self.spec_handle(),
    ;
}

impl CanStoreEnergy for StructureExtension {
    open spec fn spec_handle(&self) -> Handle {
        self.0
    }

    fn handle(&self) -> (h: &Handle) {
        &self.0
    }
}

impl CanStoreEnergy for StructureLab {
    open spec fn spec_handle(&self) -> Handle {
        self.0
    }

    fn handle(&self) -> (h: &Handle) {
        &self.0
    }
}

impl CanStoreEnergy for StructureLink {
    open spec fn spec_handle(&self) -> Handle {
        self.0
    }

    fn handle(&self) -> (h: &Handle) {
        &self.0
    }
}

impl CanStoreEnergy for StructureNuker {
    open spec fn spec_handle(&self) -> Handle {
        self.0
    }

    fn handle(&self) -> (h: &Handle) {
        &self.0
    }
}

impl CanStoreEnergy for StructurePowerSpawn {
    open spec fn spec_handle(&self) -> Handle {
        self.0
    }

    fn handle(&self) -> (h: &Handle) {
        &self.0
    }
}

impl CanStoreEnergy for StructureSpawn {
    open spec fn spec_handle(&self) -> Handle {
        self.0
    }

    fn handle(&self) -> (h: &Handle) {
        &self.0
    }
}

impl CanStoreEnergy for StructureTower {
    open spec fn spec_handle(&self) -> Handle {
        self.0
    }

    fn handle(&self) -> (h: &Handle) {
        &self.0
    }
}

} // verus!
