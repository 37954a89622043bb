//! The structure: a handle as exactly one of the kinds, with the questions
//! that can be asked of it whatever its kind.
//!
//! Taking a handle for a structure can fail, once, on a tag that names no
//! kind. What is asked of a structure afterwards cannot: the `as_` methods
//! and the ways back to the handle match on the variant, with an arm for
//! every kind, and do nothing else.

use crate::capability::{
    Attackable, CanDecay, CanStoreEnergy, HasCooldown, HasEnergyForSpawn, HasStore,
    OwnedStructureProperties, Transferable, Withdrawable,
};
use crate::error::ConversionError;
use crate::handle::{Handle, RawValue};
use crate::kind::{Capability, StructureKind};
use crate::objects::{
    StructureContainer, StructureController, StructureExtension, StructureExtractor,
    StructureKeeperLair, StructureLab, StructureLink, StructureNuker, StructureObserver,
    StructurePortal, StructurePowerBank, StructurePowerSpawn, StructureRampart, StructureRoad,
    StructureSpawn, StructureStorage, StructureTerminal, StructureTower, StructureWall,
};
use crate::registry::{
    construct, construct_unchecked, resolve_tag, spec_construct, spec_resolve_tag,
};
use crate::tag::kind_of_tag;
use vstd::pervasive::unreached;
use vstd::prelude::*;

verus! {

/// A structure of any kind: one variant for each kind, each holding that
/// kind's wrapper.
#[derive(Clone, Debug, PartialEq, Eq)]
pub enum Structure {
    Container(StructureContainer),
    Controller(StructureController),
    Extension(StructureExtension),
    Extractor(StructureExtractor),
    KeeperLair(StructureKeeperLair),
    Lab(StructureLab),
    Link(StructureLink),
    Nuker(StructureNuker),
    Observer(StructureObserver),
    PowerBank(StructurePowerBank),
    PowerSpawn(StructurePowerSpawn),
    Portal(StructurePortal),
    Rampart(StructureRampart),
    Road(StructureRoad),
    Spawn(StructureSpawn),
    Storage(StructureStorage),
    Terminal(StructureTerminal),
    Tower(StructureTower),
    Wall(StructureWall),
}

impl Structure {
    /// The kind of this structure: the variant that it is.
    pub open spec fn spec_kind(&self) -> StructureKind {
        match self {
            Structure::Container(_) => StructureKind::Container,
            Structure::Controller(_) => StructureKind::Controller,
            Structure::Extension(_) => StructureKind::Extension,
            Structure::Extractor(_) => StructureKind::Extractor,
            Structure::KeeperLair(_) => StructureKind::KeeperLair,
            Structure::Lab(_) => StructureKind::Lab,
            Structure::Link(_) => StructureKind::Link,
            Structure::Nuker(_) => StructureKind::Nuker,
            Structure::Observer(_) => StructureKind::Observer,
            Structure::PowerBank(_) => StructureKind::PowerBank,
            Structure::PowerSpawn(_) => StructureKind::PowerSpawn,
            Structure::Portal(_) => StructureKind::Portal,
            Structure::Rampart(_) => StructureKind::Rampart,
            Structure::Road(_) => StructureKind::Road,
            Structure::Spawn(_) => StructureKind::Spawn,
            Structure::Storage(_) => StructureKind::Storage,
            Structure::Terminal(_) => StructureKind::Terminal,
            Structure::Tower(_) => StructureKind::Tower,
            Structure::Wall(_) => StructureKind::Wall,
        }
    }

    /// The handle that this structure wraps.
    pub open spec fn spec_handle(&self) -> Handle {
        match self {
            Structure::Container(v) => v.0,
            Structure::Controller(v) => v.0,
            Structure::Extension(v) => v.0,
            Structure::Extractor(v) => v.0,
            Structure::KeeperLair(v) => v.0,
            Structure::Lab(v) => v.0,
            Structure::Link(v) => v.0,
            Structure::Nuker(v) => v.0,
            Structure::Observer(v) => v.0,
            Structure::PowerBank(v) => v.0,
            Structure::PowerSpawn(v) => v.0,
            Structure::Portal(v) => v.0,
            Structure::Rampart(v) => v.0,
            Structure::Road(v) => v.0,
            Structure::Spawn(v) => v.0,
            Structure::Storage(v) => v.0,
            Structure::Terminal(v) => v.0,
            Structure::Tower(v) => v.0,
            Structure::Wall(v) => v.0,
        }
    }

    /// Whether the kind of this structure is the one that its handle's tag
    /// names. It holds of every structure that was made from a handle alone;
    /// it is not looked at again afterwards.
    pub open spec fn tag_agrees(&self) -> bool {
        spec_resolve_tag(self.spec_handle()) == Ok::<StructureKind, ConversionError>(
            self.spec_kind(),
        )
    }

    /// What [`Structure::try_from_handle`] makes of `handle`.
    pub open spec fn spec_try_from_handle(handle: Handle) -> Result<Structure, ConversionError> {
        match spec_resolve_tag(handle) {
            Ok(kind) => Ok(spec_construct(kind, handle)),
            Err(e) => Err(e),
        }
    }

    /// What [`Structure::try_from_value`] makes of `value`.
    pub open spec fn spec_try_from_value(value: RawValue) -> Result<Structure, ConversionError> {
        match value.spec_into_handle() {
            Ok(handle) => Structure::spec_try_from_handle(handle),
            Err(e) => Err(e),
        }
    }

    /// The kind of this structure.
    #[verifier::when_used_as_spec(spec_kind)]
    pub fn kind(&self) -> (k: StructureKind)
        ensures
            k == self.spec_kind(),
        no_unwind
    {
        match self {
            Structure::Container(_) => StructureKind::Container,
            Structure::Controller(_) => StructureKind::Controller,
            Structure::Extension(_) => StructureKind::Extension,
            Structure::Extractor(_) => StructureKind::Extractor,
            Structure::KeeperLair(_) => StructureKind::KeeperLair,
            Structure::Lab(_) => StructureKind::Lab,
            Structure::Link(_) => StructureKind::Link,
            Structure::Nuker(_) => StructureKind::Nuker,
            Structure::Observer(_) => StructureKind::Observer,
            Structure::PowerBank(_) => StructureKind::PowerBank,
            Structure::PowerSpawn(_) => StructureKind::PowerSpawn,
            Structure::Portal(_) => StructureKind::Portal,
            Structure::Rampart(_) => StructureKind::Rampart,
            Structure::Road(_) => StructureKind::Road,
            Structure::Spawn(_) => StructureKind::Spawn,
            Structure::Storage(_) => StructureKind::Storage,
            Structure::Terminal(_) => StructureKind::Terminal,
            Structure::Tower(_) => StructureKind::Tower,
            Structure::Wall(_) => StructureKind::Wall,
        }
    }

    /// Says whether the host counts the object behind `handle` among the
    /// structures at all. This is coarser than resolving its kind.
    pub fn instance_of(handle: &Handle) -> (r: bool)
        ensures
            r == handle.is_structure,
        no_unwind
    {
        handle.is_structure
    }

    /// Takes a handle for a structure. This is the one way in that can fail:
    /// it fails where the handle's tag names no kind, and not otherwise.
    pub fn try_from_handle(handle: Handle) -> (r: Result<Structure, ConversionError>)
        ensures
            r == Structure::spec_try_from_handle(handle),
            r matches Ok(s) ==> s.tag_agrees() && s.spec_handle() == handle,
            r is Err <==> kind_of_tag(handle@.structure_type) is None,
            r matches Err(e) ==> e == ConversionError::UnrecognizedTag,
    {
        match resolve_tag(&handle) {
            Ok(kind) => Ok(construct(kind, handle)),
            Err(e) => Err(e),
        }
    }

    /// Takes for a structure a handle that is expected to be one. The kind
    /// is resolved from the tag, and the wrapper is not checked any further.
    pub fn from_expected_type(handle: Handle) -> (r: Result<Structure, ConversionError>)
        ensures
            r == Structure::spec_try_from_handle(handle),
    {
        match resolve_tag(&handle) {
            Ok(kind) => Ok(construct_unchecked(kind, handle)),
            Err(e) => Err(e),
        }
    }

    /// Takes for a structure a handle of which the caller knows that its tag
    /// names a kind, as it does where the host has checked the object's type
    /// itself.
    pub fn from_handle_unchecked(handle: Handle) -> (s: Structure)
        requires
            spec_resolve_tag(handle) is Ok,
        ensures
            Ok::<Structure, ConversionError>(s) == Structure::spec_try_from_handle(handle),
            s.tag_agrees(),
            s.spec_handle() == handle,
    {
        match resolve_tag(&handle) {
            Ok(kind) => construct_unchecked(kind, handle),
            Err(_) => unreached(),
        }
    }

    /// Takes a raw value of the host for a structure. It fails where the
    /// value is no reference, and where the reference's tag names no kind.
    pub fn try_from_value(value: RawValue) -> (r: Result<Structure, ConversionError>)
        ensures
            r == Structure::spec_try_from_value(value),
            r matches Err(e) ==> (e == ConversionError::NotAHandle <==> !(value is Reference)),
    {
        match value.into_handle() {
            Ok(handle) => Structure::try_from_handle(handle),
            Err(e) => Err(e),
        }
    }

    /// The handle that this structure wraps.
    pub fn underlying_handle(&self) -> (h: &Handle)
        ensures
            *h == self.spec_handle(),
        no_unwind
    {
        match self {
            Structure::Container(v) => &v.0,
            Structure::Controller(v) => &v.0,
            Structure::Extension(v) => &v.0,
            Structure::Extractor(v) => &v.0,
            Structure::KeeperLair(v) => &v.0,
            Structure::Lab(v) => &v.0,
            Structure::Link(v) => &v.0,
            Structure::Nuker(v) => &v.0,
            Structure::Observer(v) => &v.0,
            Structure::PowerBank(v) => &v.0,
            Structure::PowerSpawn(v) => &v.0,
            Structure::Portal(v) => &v.0,
            Structure::Rampart(v) => &v.0,
            Structure::Road(v) => &v.0,
            Structure::Spawn(v) => &v.0,
            Structure::Storage(v) => &v.0,
            Structure::Terminal(v) => &v.0,
            Structure::Tower(v) => &v.0,
            Structure::Wall(v) => &v.0,
        }
    }

    /// Gives up the structure for the handle that it wraps.
    pub fn into_handle(self) -> (h: Handle)
        ensures
            h == self.spec_handle(),
        no_unwind
    {
        match self {
            Structure::Container(v) => v.0,
            Structure::Controller(v) => v.0,
            Structure::Extension(v) => v.0,
            Structure::Extractor(v) => v.0,
            Structure::KeeperLair(v) => v.0,
            Structure::Lab(v) => v.0,
            Structure::Link(v) => v.0,
            Structure::Nuker(v) => v.0,
            Structure::Observer(v) => v.0,
            Structure::PowerBank(v) => v.0,
            Structure::PowerSpawn(v) => v.0,
            Structure::Portal(v) => v.0,
            Structure::Rampart(v) => v.0,
            Structure::Road(v) => v.0,
            Structure::Spawn(v) => v.0,
            Structure::Storage(v) => v.0,
            Structure::Terminal(v) => v.0,
            Structure::Tower(v) => v.0,
            Structure::Wall(v) => v.0,
        }
    }

    /// This structure as something that resources can be transferred into, if
    /// its kind allows that.
    pub fn as_transferable(&self) -> (r: Option<&dyn Transferable>)
        ensures
            r.is_some() == self.spec_kind().spec_supports(Capability::Transferable),
            r matches Some(c) ==> c.spec_handle() == self.spec_handle(),
        no_unwind
    {
        match self {
            Structure::Container(v) => Some(v),
            Structure::Controller(_) => None,
            Structure::Extension(v) => Some(v),
            Structure::Extractor(_) => None,
            Structure::KeeperLair(_) => None,
            Structure::Lab(v) => Some(v),
            Structure::Link(v) => Some(v),
            Structure::Nuker(v) => Some(v),
            Structure::Observer(_) => None,
            Structure::PowerBank(_) => None,
            Structure::PowerSpawn(v) => Some(v),
            Structure::Portal(_) => None,
            Structure::Rampart(_) => None,
            Structure::Road(_) => None,
            Structure::Spawn(v) => Some(v),
            Structure::Storage(v) => Some(v),
            Structure::Terminal(v) => Some(v),
            Structure::Tower(v) => Some(v),
            Structure::Wall(_) => None,
        }
    }

    /// This structure as something that resources can be withdrawn from, if
    /// its kind allows that.
    pub fn as_withdrawable(&self) -> (r: Option<&dyn Withdrawable>)
        ensures
            r.is_some() == self.spec_kind().spec_supports(Capability::Withdrawable),
            r matches Some(c) ==> c.spec_handle() == self.spec_handle(),
        no_unwind
    {
        match self {
            Structure::Container(v) => Some(v),
            Structure::Controller(_) => None,
            Structure::Extension(v) => Some(v),
            Structure::Extractor(_) => None,
            Structure::KeeperLair(_) => None,
            Structure::Lab(v) => Some(v),
            Structure::Link(v) => Some(v),
            Structure::Nuker(_) => None,
            Structure::Observer(_) => None,
            Structure::PowerBank(_) => None,
            Structure::PowerSpawn(v) => Some(v),
            Structure::Portal(_) => None,
            Structure::Rampart(_) => None,
            Structure::Road(_) => None,
            Structure::Spawn(v) => Some(v),
            Structure::Storage(_) => None,
            Structure::Terminal(v) => Some(v),
            Structure::Tower(v) => Some(v),
            Structure::Wall(_) => None,
        }
    }

    /// This structure as something that can be attacked, if its kind can be.
    pub fn as_attackable(&self) -> (r: Option<&dyn Attackable>)
        ensures
            r.is_some() == self.spec_kind().spec_supports(Capability::Attackable),
            r matches Some(a) ==> {
                &&& a.spec_handle() == self.spec_handle()
                &&& a.spec_hits() == self.spec_handle().hits
                &&& a.spec_hits_max() == self.spec_handle().hits_max
            },
        no_unwind
    {
        match self {
            Structure::Container(v) => Some(v),
            Structure::Controller(_) => None,
            Structure::Extension(v) => Some(v),
            Structure::Extractor(v) => Some(v),
            Structure::KeeperLair(v) => Some(v),
            Structure::Lab(v) => Some(v),
            Structure::Link(v) => Some(v),
            Structure::Nuker(v) => Some(v),
            Structure::Observer(v) => Some(v),
            Structure::PowerBank(v) => Some(v),
            Structure::PowerSpawn(v) => Some(v),
            Structure::Portal(_) => None,
            Structure::Rampart(v) => Some(v),
            Structure::Road(v) => Some(v),
            Structure::Spawn(v) => Some(v),
            Structure::Storage(v) => Some(v),
            Structure::Terminal(v) => Some(v),
            Structure::Tower(v) => Some(v),
            Structure::Wall(v) => Some(v),
        }
    }

    /// This structure as something that a player owns, if its kind can be
    /// owned.
    pub fn as_owned(&self) -> (r: Option<&dyn OwnedStructureProperties>)
        ensures
            r.is_some() == self.spec_kind().spec_supports(Capability::Owned),
            r matches Some(c) ==> c.spec_handle() == self.spec_handle(),
        no_unwind
    {
        match self {
            Structure::Container(_) => None,
            Structure::Controller(v) => Some(v),
            Structure::Extension(v) => Some(v),
            Structure::Extractor(v) => Some(v),
            Structure::KeeperLair(v) => Some(v),
            Structure::Lab(v) => Some(v),
            Structure::Link(v) => Some(v),
            Structure::Nuker(v) => Some(v),
            Structure::Observer(v) => Some(v),
            Structure::PowerBank(v) => Some(v),
            Structure::PowerSpawn(v) => Some(v),
            Structure::Portal(_) => None,
            Structure::Rampart(v) => Some(v),
            Structure::Road(_) => None,
            Structure::Spawn(v) => Some(v),
            Structure::Storage(v) => Some(v),
            Structure::Terminal(v) => Some(v),
            Structure::Tower(v) => Some(v),
            Structure::Wall(_) => None,
        }
    }

    /// This structure as something that wears away, if its kind does.
    pub fn as_can_decay(&self) -> (r: Option<&dyn CanDecay>)
        ensures
            r.is_some() == self.spec_kind().spec_supports(Capability::CanDecay),
            r matches Some(c) ==> c.spec_handle() == self.spec_handle(),
        no_unwind
    {
        match self {
            Structure::Container(v) => Some(v),
            Structure::Controller(_) => None,
            Structure::Extension(_) => None,
            Structure::Extractor(_) => None,
            Structure::KeeperLair(_) => None,
            Structure::Lab(_) => None,
            Structure::Link(_) => None,
            Structure::Nuker(_) => None,
            Structure::Observer(_) => None,
            Structure::PowerBank(v) => Some(v),
            Structure::PowerSpawn(_) => None,
            Structure::Portal(v) => Some(v),
            Structure::Rampart(v) => Some(v),
            Structure::Road(v) => Some(v),
            Structure::Spawn(_) => None,
            Structure::Storage(_) => None,
            Structure::Terminal(_) => None,
            Structure::Tower(_) => None,
            Structure::Wall(_) => None,
        }
    }

    /// This structure as something that holds energy, if its kind does.
    pub fn as_can_store_energy(&self) -> (r: Option<&dyn CanStoreEnergy>)
        ensures
            r.is_some() == self.spec_kind().spec_supports(Capability::CanStoreEnergy),
            r matches Some(c) ==> c.spec_handle() == self.spec_handle(),
        no_unwind
    {
        match self {
            Structure::Container(_) => None,
            Structure::Controller(_) => None,
            Structure::Extension(v) => Some(v),
            Structure::Extractor(_) => None,
            Structure::KeeperLair(_) => None,
            Structure::Lab(v) => Some(v),
            Structure::Link(v) => Some(v),
            Structure::Nuker(v) => Some(v),
            Structure::Observer(_) => None,
            Structure::PowerBank(_) => None,
            Structure::PowerSpawn(v) => Some(v),
            Structure::Portal(_) => None,
            Structure::Rampart(_) => None,
            Structure::Road(_) => None,
            Structure::Spawn(v) => Some(v),
            Structure::Storage(_) => None,
            Structure::Terminal(_) => None,
            Structure::Tower(v) => Some(v),
            Structure::Wall(_) => None,
        }
    }

    /// This structure as something that rests after use, if its kind does.
    pub fn as_has_cooldown(&self) -> (r: Option<&dyn HasCooldown>)
        ensures
            r.is_some() == self.spec_kind().spec_supports(Capability::HasCooldown),
            r matches Some(c) ==> c.spec_handle() == self.spec_handle(),
        no_unwind
    {
        match self {
            Structure::Container(_) => None,
            Structure::Controller(_) => None,
            Structure::Extension(_) => None,
            Structure::Extractor(v) => Some(v),
            Structure::KeeperLair(_) => None,
            Structure::Lab(v) => Some(v),
            Structure::Link(v) => Some(v),
            Structure::Nuker(v) => Some(v),
            Structure::Observer(_) => None,
            Structure::PowerBank(_) => None,
            Structure::PowerSpawn(_) => None,
            Structure::Portal(_) => None,
            Structure::Rampart(_) => None,
            Structure::Road(_) => None,
            Structure::Spawn(_) => None,
            Structure::Storage(_) => None,
            Structure::Terminal(v) => Some(v),
            Structure::Tower(_) => None,
            Structure::Wall(_) => None,
        }
    }

    /// This structure as something whose energy a spawn can use, if its kind
    /// holds such energy.
    pub fn as_has_energy_for_spawn(&self) -> (r: Option<&dyn HasEnergyForSpawn>)
        ensures
            r.is_some() == self.spec_kind().spec_supports(Capability::HasEnergyForSpawn),
            r matches Some(c) ==> c.spec_handle() == self.spec_handle(),
        no_unwind
    {
        match self {
            Structure::Container(_) => None,
            Structure::Controller(_) => None,
            Structure::Extension(v) => Some(v),
            Structure::Extractor(_) => None,
            Structure::KeeperLair(_) => None,
            Structure::Lab(_) => None,
            Structure::Link(_) => None,
            Structure::Nuker(_) => None,
            Structure::Observer(_) => None,
            Structure::PowerBank(_) => None,
            Structure::PowerSpawn(_) => None,
            Structure::Portal(_) => None,
            Structure::Rampart(_) => None,
            Structure::Road(_) => None,
            Structure::Spawn(v) => Some(v),
            Structure::Storage(_) => None,
            Structure::Terminal(_) => None,
            Structure::Tower(_) => None,
            Structure::Wall(_) => None,
        }
    }

    /// This structure as something with a general store, if its kind has one.
    pub fn as_has_store(&self) -> (r: Option<&dyn HasStore>)
        ensures
            r.is_some() == self.spec_kind().spec_supports(Capability::HasStore),
            r matches Some(c) ==> c.spec_handle() == self.spec_handle(),
        no_unwind
    {
        match self {
            Structure::Container(v) => Some(v),
            Structure::Controller(_) => None,
            Structure::Extension(_) => None,
            Structure::Extractor(_) => None,
            Structure::KeeperLair(_) => None,
            Structure::Lab(_) => None,
            Structure::Link(_) => None,
            Structure::Nuker(_) => None,
            Structure::Observer(_) => None,
            Structure::PowerBank(_) => None,
            Structure::PowerSpawn(_) => None,
            Structure::Portal(_) => None,
            Structure::Rampart(_) => None,
            Structure::Road(_) => None,
            Structure::Spawn(_) => None,
            Structure::Storage(v) => Some(v),
            Structure::Terminal(v) => Some(v),
            Structure::Tower(_) => None,
            Structure::Wall(_) => None,
        }
    }
}

/// A structure of any kind answers for its hit points itself, with no `None`
/// in the way: with zero where its kind has none to lose, and else with what
/// the host reported.
impl Attackable for Structure {
    open spec fn spec_handle(&self) -> Handle {
        Structure::spec_handle(self)
    }

    open spec fn spec_hits(&self) -> u32 {
        if self.spec_kind() is Controller {
            0
        } else {
            Structure::spec_handle(self).hits
        }
    }

    open spec fn spec_hits_max(&self) -> u32 {
        if self.spec_kind() is Controller {
            0
        } else {
            Structure::spec_handle(self).hits_max
        }
    }

    fn handle(&self) -> (h: &Handle) {
        self.underlying_handle()
    }

    fn hits(&self) -> (r: u32)
        ensures
            r == (if self.spec_kind() is Controller {
                0
            } else {
                self.spec_handle().hits
            }),
    {
        match self {
            Structure::Controller(_) => 0,
            _ => self.underlying_handle().hits,
        }
    }

    fn hits_max(&self) -> (r: u32)
        ensures
            r == (if self.spec_kind() is Controller {
                0
            } else {
                self.spec_handle().hits_max
            }),
    {
        match self {
            Structure::Controller(_) => 0,
            _ => self.underlying_handle().hits_max,
        }
    }
}

} // verus!
