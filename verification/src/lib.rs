//! The structures of a Screeps room as one closed sum type, with a table of
//! what each kind of structure can do.
//!
//! The host hands over references to its objects without saying what they
//! are. A [`Handle`] is such a reference, with what the host reported of the
//! object. [`Structure::try_from_handle`] resolves the handle's type tag to
//! one of the [`StructureKind`]s and wraps the handle accordingly; a tag that
//! names no kind is refused there, and nothing can fail after that. A
//! structure is then asked for each capability with one of its `as_` methods,
//! which answers with a narrowed reference where the kind has the capability
//! and with `None` where it has not, as the table
//! [`StructureKind::spec_supports`] says.
//!
//! Nothing here talks to the host: reading an object is the caller's part,
//! and a handle holds what was read.

pub mod capability;
pub mod conversion;
pub mod error;
pub mod handle;
pub mod kind;
pub mod laws;
pub mod objects;
pub mod registry;
pub mod structure;
pub mod tag;

pub use capability::{
    Attackable, CanDecay, CanStoreEnergy, HasCooldown, HasEnergyForSpawn, HasStore,
    OwnedStructureProperties, Transferable, Withdrawable,
};
pub use error::ConversionError;
pub use handle::{Handle, HandleView, RawValue};
pub use kind::{Capability, StructureKind};
pub use objects::{
    StructureContainer, StructureController, StructureExtension, StructureExtractor,
    StructureKeeperLair, StructureLab, StructureLink, StructureNuker, StructureObserver,
    StructurePortal, StructurePowerBank, StructurePowerSpawn, StructureRampart, StructureRoad,
    StructureSpawn, StructureStorage, StructureTerminal, StructureTower, StructureWall,
};
pub use registry::{construct, construct_unchecked, resolve_tag, spec_construct, spec_resolve_tag};
pub use structure::Structure;
pub use tag::kind_of_tag;
