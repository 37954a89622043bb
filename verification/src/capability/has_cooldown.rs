//! Structures that rest after use.

use crate::handle::Handle;
use crate::objects::{
    StructureExtractor, StructureLab, StructureLink, StructureNuker, StructureTerminal,
};
use vstd::prelude::*;

verus! {

/// What cannot be used again for some ticks after it was used.
pub trait HasCooldown {
    /// The handle of the object that this value stands for.
    spec fn spec_handle(&self) -> Handle;

    /// The handle of the object.
    fn handle(&self) -> (h: &Handle)
        ensures
            *h == self.spec_handle(),
    ;
}

impl HasCooldown for StructureExtractor {
    open spec fn spec_handle(&self) -> Handle {
        self.0
    }

    fn handle(&self) -> (h: &Handle) {
        &self.0
    }
}

impl HasCooldown for StructureLab {
    open spec fn spec_handle(&self) -> Handle {
        self.0
    }

    fn handle(&self) -> (h: &Handle) {
        &self.0
    }
}

impl HasCooldown for StructureLink {
    open spec fn spec_handle(&self) -> Handle {
        self.0
    }

    fn handle(&self) -> (h: &Handle) {
        &self.0
    }
}

impl HasCooldown for StructureNuker {
    open spec fn spec_handle(&self) -> Handle {
        self.0
    }

    fn handle(&self) -> (h: &Handle) {
        &self.0
    }
}

impl HasCooldown for StructureTerminal {
    open spec fn spec_handle(&self) -> Handle {
        self.0
    }

    fn handle(&self) -> (h: &Handle) {
        &self.0
    }
}

} // verus!
