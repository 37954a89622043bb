//! Structures with a general store.

use crate::handle::Handle;
use crate::objects::{StructureContainer, StructureStorage, StructureTerminal};
use vstd::prelude::*;

verus! {

/// What holds resources of several types in one store.
pub trait HasStore {
    /// The handle of the object that this value stands for.
    spec fn spec_handle(&self) -> Handle;

    /// The handle of the object.
    fn handle(&self) -> (h: &Handle)
        ensures
            *h == self.spec_handle(),
    ;
}

impl HasStore for StructureContainer {
    open spec fn spec_handle(&self) -> Handle {
        self.0
    }

    fn handle(&self) -> (h: &Handle) {
        &self.0
    }
}

impl HasStore for StructureStorage {
    open spec fn spec_handle(&self) -> Handle {
        self.0
    }

    fn handle(&self) -> (h: &Handle) {
        &self.0
    }
}

impl HasStore for StructureTerminal {
    open spec fn spec_handle(&self) -> Handle {
        self.0
    }

    fn handle(&self) -> (h: &Handle) {
        &self.0
    }
}

} // verus!
