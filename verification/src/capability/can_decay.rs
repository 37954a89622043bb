//! Structures that wear away.

use crate::handle::Handle;
use crate::objects::{
    StructureContainer, StructurePowerBank, StructurePortal, StructureRampart, StructureRoad,
};
use vstd::prelude::*;

verus! {

/// What loses hit points, or vanishes, as time passes.
pub trait CanDecay {
    /// The handle of the object that this value stands for.
    spec fn spec_handle(&self) -> Handle;

    /// The handle of the object.
    fn handle(&self) -> (h: &Handle)
        ensures
            *h == self.spec_handle(),
    ;
}

impl CanDecay for StructureContainer {
    open spec fn spec_handle(&self) -> Handle {
        self.0
    }

    fn handle(&self) -> (h: &Handle) {
        &self.0
    }
}

impl CanDecay for StructurePowerBank {
    open spec fn spec_handle(&self) -> Handle {
        self.0
    }

    fn handle(&self) -> (h: &Handle) {
        &self.0
    }
}

impl CanDecay for StructurePortal {
    open spec fn spec_handle(&self) -> Handle {
        self.0
    }

    fn handle(&self) -> (h: &Handle) {
        &self.0
    }
}

impl CanDecay for StructureRampart {
    open spec fn spec_handle(&self) -> Handle {
        self.0
    }

    fn handle(&self) -> (h: &Handle) {
        &self.0
    }
}

impl CanDecay for StructureRoad {
    open spec fn spec_handle(&self) -> Handle {
        self.0
    }

    fn handle(&self) -> (h: &Handle) {
        &self.0
    }
}

} // verus!
