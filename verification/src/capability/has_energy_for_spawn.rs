//! Structures whose energy a spawn can use.

use crate::handle::Handle;
use crate::objects::{StructureExtension, StructureSpawn};
use vstd::prelude::*;

verus! {

/// What holds energy that counts towards spawning a creep.
pub trait HasEnergyForSpawn {
    /// The handle of the object that this value stands for.
    spec fn spec_handle(&self) -> Handle;

    /// The handle of the object.
    fn handle(&self) -> (h: &Handle)
        ensures
            *h == self.spec_handle(),
    ;
}

impl HasEnergyForSpawn for StructureExtension {
    open spec fn spec_handle(&self) -> Handle {
        self.0
    }

    fn handle(&self) -> (h: &Handle) {
        &self.0
    }
}

impl HasEnergyForSpawn for StructureSpawn {
    open spec fn spec_handle(&self) -> Handle {
        self.0
    }

    fn handle(&self) -> (h: &Handle) {
        &self.0
    }
}

} // verus!
