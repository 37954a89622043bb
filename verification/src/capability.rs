//! The capabilities as traits, one file for each. A file holds the trait and
//! its impl for every kind that has the capability: a kind without an impl
//! lacks it, and no call can be made on it.

pub mod attackable;
pub mod can_decay;
pub mod can_store_energy;
pub mod has_cooldown;
pub mod has_energy_for_spawn;
pub mod has_store;
pub mod owned_structure_properties;
pub mod transferable;
pub mod withdrawable;

pub use attackable::Attackable;
pub use can_decay::CanDecay;
pub use can_store_energy::CanStoreEnergy;
pub use has_cooldown::HasCooldown;
pub use has_energy_for_spawn::HasEnergyForSpawn;
pub use has_store::HasStore;
pub use owned_structure_properties::OwnedStructureProperties;
pub use transferable::Transferable;
pub use withdrawable::Withdrawable;
