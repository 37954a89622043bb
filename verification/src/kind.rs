//! The closed set of structure kinds, and the table that says which kind has
//! which capability.

use vstd::prelude::*;

verus! {

/// The kind of a structure. The set is closed: every structure that this
/// library knows is of exactly one of these kinds.
#[derive(Clone, Copy, Debug, PartialEq, Eq, Hash, Structural)]
pub enum StructureKind {
    Container,
    Controller,
    Extension,
    Extractor,
    KeeperLair,
    Lab,
    Link,
    Nuker,
    Observer,
    PowerBank,
    PowerSpawn,
    Portal,
    Rampart,
    Road,
    Spawn,
    Storage,
    Terminal,
    Tower,
    Wall,
}

/// Something that a structure may be able to do, or to have done to it. The
/// capabilities are independent of one another.
#[derive(Clone, Copy, Debug, PartialEq, Eq, Hash, Structural)]
pub enum Capability {
    /// It has hit points and can be damaged.
    Attackable,
    /// It belongs to a player.
    Owned,
    /// It loses hit points, or vanishes, as time passes.
    CanDecay,
    /// It holds energy, up to a capacity.
    CanStoreEnergy,
    /// After use it rests for some ticks.
    HasCooldown,
    /// Its energy counts towards spawning.
    HasEnergyForSpawn,
    /// It holds resources of several types.
    HasStore,
    /// Resources can be transferred into it.
    Transferable,
    /// Resources can be withdrawn from it.
    Withdrawable,
}

impl StructureKind {
    /// The capability table, one row for each kind: the capabilities named
    /// in a row are those that the kind has, and it has no others.
    pub open spec fn spec_supports(self, capability: Capability) -> bool {
        match self {
            StructureKind::Container => {
                capability is Attackable
                    || capability is CanDecay
                    || capability is HasStore
                    || capability is Transferable
                    || capability is Withdrawable
            },
            StructureKind::Controller => capability is Owned,
            StructureKind::Extension => {
                capability is Attackable
                    || capability is Owned
                    || capability is CanStoreEnergy
                    || capability is HasEnergyForSpawn
                    || capability is Transferable
                    || capability is Withdrawable
            },
            StructureKind::Extractor => {
                capability is Attackable
                    || capability is Owned
                    || capability is HasCooldown
            },
            StructureKind::KeeperLair => capability is Attackable || capability is Owned,
            StructureKind::Lab => {
                capability is Attackable
                    || capability is Owned
                    || capability is CanStoreEnergy
                    || capability is HasCooldown
                    || capability is Transferable
                    || capability is Withdrawable
            },
            StructureKind::Link => {
                capability is Attackable
                    || capability is Owned
                    || capability is CanStoreEnergy
                    || capability is HasCooldown
                    || capability is Transferable
                    || capability is Withdrawable
            },
            StructureKind::Nuker => {
                capability is Attackable
                    || capability is Owned
                    || capability is CanStoreEnergy
                    || capability is HasCooldown
                    || capability is Transferable
            },
            StructureKind::Observer => capability is Attackable || capability is Owned,
            StructureKind::PowerBank => {
                capability is Attackable
                    || capability is Owned
                    || capability is CanDecay
            },
            StructureKind::PowerSpawn => {
                capability is Attackable
                    || capability is Owned
                    || capability is CanStoreEnergy
                    || capability is Transferable
                    || capability is Withdrawable
            },
            StructureKind::Portal => capability is CanDecay,
            StructureKind::Rampart => {
                capability is Attackable
                    || capability is Owned
                    || capability is CanDecay
            },
            StructureKind::Road => capability is Attackable || capability is CanDecay,
            StructureKind::Spawn => {
                capability is Attackable
                    || capability is Owned
                    || capability is CanStoreEnergy
                    || capability is HasEnergyForSpawn
                    || capability is Transferable
                    || capability is Withdrawable
            },
            StructureKind::Storage => {
                capability is Attackable
                    || capability is Owned
                    || capability is HasStore
                    || capability is Transferable
            },
            StructureKind::Terminal => {
                capability is Attackable
                    || capability is Owned
                    || capability is HasCooldown
                    || capability is HasStore
                    || capability is Transferable
                    || capability is Withdrawable
            },
            StructureKind::Tower => {
                capability is Attackable
                    || capability is Owned
                    || capability is CanStoreEnergy
                    || capability is Transferable
                    || capability is Withdrawable
            },
            StructureKind::Wall => capability is Attackable,
        }
    }

    /// Says whether structures of this kind have `capability`. Every cell of
    /// the table is written out, so that a new kind cannot be added without
    /// deciding each of them.
    #[verifier::when_used_as_spec(spec_supports)]
    pub fn supports(self, capability: Capability) -> (r: bool)
        ensures
            r == self.spec_supports(capability),
        no_unwind
    {
        match capability {
            Capability::Attackable => match self {
                StructureKind::Container => true,
                StructureKind::Controller => false,
                StructureKind::Extension => true,
                StructureKind::Extractor => true,
                StructureKind::KeeperLair => true,
                StructureKind::Lab => true,
                StructureKind::Link => true,
                StructureKind::Nuker => true,
                StructureKind::Observer => true,
                StructureKind::PowerBank => true,
                StructureKind::PowerSpawn => true,
                StructureKind::Portal => false,
                StructureKind::Rampart => true,
                StructureKind::Road => true,
                StructureKind::Spawn => true,
                StructureKind::Storage => true,
                StructureKind::Terminal => true,
                StructureKind::Tower => true,
                StructureKind::Wall => true,
            },
            Capability::Owned => match self {
                StructureKind::Container => false,
                StructureKind::Controller => true,
                StructureKind::Extension => true,
                StructureKind::Extractor => true,
                StructureKind::KeeperLair => true,
                StructureKind::Lab => true,
                StructureKind::Link => true,
                StructureKind::Nuker => true,
                StructureKind::Observer => true,
                StructureKind::PowerBank => true,
                StructureKind::PowerSpawn => true,
                StructureKind::Portal => false,
                StructureKind::Rampart => true,
                StructureKind::Road => false,
                StructureKind::Spawn => true,
                StructureKind::Storage => true,
                StructureKind::Terminal => true,
                StructureKind::Tower => true,
                StructureKind::Wall => false,
            },
            Capability::CanDecay => match self {
                StructureKind::Container => true,
                StructureKind::Controller => false,
                StructureKind::Extension => false,
                StructureKind::Extractor => false,
                StructureKind::KeeperLair => false,
                StructureKind::Lab => false,
                StructureKind::Link => false,
                StructureKind::Nuker => false,
                StructureKind::Observer => false,
                StructureKind::PowerBank => true,
                StructureKind::PowerSpawn => false,
                StructureKind::Portal => true,
                StructureKind::Rampart => true,
                StructureKind::Road => true,
                StructureKind::Spawn => false,
                StructureKind::Storage => false,
                StructureKind::Terminal => false,
                StructureKind::Tower => false,
                StructureKind::Wall => false,
            },
            Capability::CanStoreEnergy => match self {
                StructureKind::Container => false,
                StructureKind::Controller => false,
                StructureKind::Extension => true,
                StructureKind::Extractor => false,
                StructureKind::KeeperLair => false,
                StructureKind::Lab => true,
                StructureKind::Link => true,
                StructureKind::Nuker => true,
                StructureKind::Observer => false,
                StructureKind::PowerBank => false,
                StructureKind::PowerSpawn => true,
                StructureKind::Portal => false,
                StructureKind::Rampart => false,
                StructureKind::Road => false,
                StructureKind::Spawn => true,
                StructureKind::Storage => false,
                StructureKind::Terminal => false,
                StructureKind::Tower => true,
                StructureKind::Wall => false,
            },
            Capability::HasCooldown => match self {
                StructureKind::Container => false,
                StructureKind::Controller => false,
                StructureKind::Extension => false,
                StructureKind::Extractor => true,
                StructureKind::KeeperLair => false,
                StructureKind::Lab => true,
                StructureKind::Link => true,
                StructureKind::Nuker => true,
                StructureKind::Observer => false,
                StructureKind::PowerBank => false,
                StructureKind::PowerSpawn => false,
                StructureKind::Portal => false,
                StructureKind::Rampart => false,
                StructureKind::Road => false,
                StructureKind::Spawn => false,
                StructureKind::Storage => false,
                StructureKind::Terminal => true,
                StructureKind::Tower => false,
                StructureKind::Wall => false,
            },
            Capability::HasEnergyForSpawn => match self {
                StructureKind::Container => false,
                StructureKind::Controller => false,
                StructureKind::Extension => true,
                StructureKind::Extractor => false,
                StructureKind::KeeperLair => false,
                StructureKind::Lab => false,
                StructureKind::Link => false,
                StructureKind::Nuker => false,
                StructureKind::Observer => false,
                StructureKind::PowerBank => false,
                StructureKind::PowerSpawn => false,
                StructureKind::Portal => false,
                StructureKind::Rampart => false,
                StructureKind::Road => false,
                StructureKind::Spawn => true,
                StructureKind::Storage => false,
                StructureKind::Terminal => false,
                StructureKind::Tower => false,
                StructureKind::Wall => false,
            },
            Capability::HasStore => match self {
                StructureKind::Container => true,
                StructureKind::Controller => false,
                StructureKind::Extension => false,
                StructureKind::Extractor => false,
                StructureKind::KeeperLair => false,
                StructureKind::Lab => false,
                StructureKind::Link => false,
                StructureKind::Nuker => false,
                StructureKind::Observer => false,
                StructureKind::PowerBank => false,
                StructureKind::PowerSpawn => false,
                StructureKind::Portal => false,
                StructureKind::Rampart => false,
                StructureKind::Road => false,
                StructureKind::Spawn => false,
                StructureKind::Storage => true,
                StructureKind::Terminal => true,
                StructureKind::Tower => false,
                StructureKind::Wall => false,
            },
            Capability::Transferable => match self {
                StructureKind::Container => true,
                StructureKind::Controller => false,
                StructureKind::Extension => true,
                StructureKind::Extractor => false,
                StructureKind::KeeperLair => false,
                StructureKind::Lab => true,
                StructureKind::Link => true,
                StructureKind::Nuker => true,
                StructureKind::Observer => false,
                StructureKind::PowerBank => false,
                StructureKind::PowerSpawn => true,
                StructureKind::Portal => false,
                StructureKind::Rampart => false,
                StructureKind::Road => false,
                StructureKind::Spawn => true,
                StructureKind::Storage => true,
                StructureKind::Terminal => true,
                StructureKind::Tower => true,
                StructureKind::Wall => false,
            },
            Capability::Withdrawable => match self {
                StructureKind::Container => true,
                StructureKind::Controller => false,
                StructureKind::Extension => true,
                StructureKind::Extractor => false,
                StructureKind::KeeperLair => false,
                StructureKind::Lab => true,
                StructureKind::Link => true,
                StructureKind::Nuker => false,
                StructureKind::Observer => false,
                StructureKind::PowerBank => false,
                StructureKind::PowerSpawn => true,
                StructureKind::Portal => false,
                StructureKind::Rampart => false,
                StructureKind::Road => false,
                StructureKind::Spawn => true,
                StructureKind::Storage => false,
                StructureKind::Terminal => true,
                StructureKind::Tower => true,
                StructureKind::Wall => false,
            },
        }
    }

    /// Every kind once, in the order in which the kinds are declared.
    pub open spec fn spec_all() -> Seq<StructureKind> {
        seq![
            StructureKind::Container,
            StructureKind::Controller,
            StructureKind::Extension,
            StructureKind::Extractor,
            StructureKind::KeeperLair,
            StructureKind::Lab,
            StructureKind::Link,
            StructureKind::Nuker,
            StructureKind::Observer,
            StructureKind::PowerBank,
            StructureKind::PowerSpawn,
            StructureKind::Portal,
            StructureKind::Rampart,
            StructureKind::Road,
            StructureKind::Spawn,
            StructureKind::Storage,
            StructureKind::Terminal,
            StructureKind::Tower,
            StructureKind::Wall,
        ]
    }

    /// Every kind once, in the order in which the kinds are declared.
    pub fn all() -> (kinds: [StructureKind; 19])
        ensures
            kinds@ == StructureKind::spec_all(),
        no_unwind
    {
        [
            StructureKind::Container,
            StructureKind::Controller,
            StructureKind::Extension,
            StructureKind::Extractor,
            StructureKind::KeeperLair,
            StructureKind::Lab,
            StructureKind::Link,
            StructureKind::Nuker,
            StructureKind::Observer,
            StructureKind::PowerBank,
            StructureKind::PowerSpawn,
            StructureKind::Portal,
            StructureKind::Rampart,
            StructureKind::Road,
            StructureKind::Spawn,
            StructureKind::Storage,
            StructureKind::Terminal,
            StructureKind::Tower,
            StructureKind::Wall,
        ]
    }
}

/// The list of all kinds leaves no kind out and names none twice.
pub proof fn lemma_all_kinds_is_complete(kind: StructureKind)
    ensures
        StructureKind::spec_all().len() == 19,
        StructureKind::spec_all().contains(kind),
        StructureKind::spec_all().no_duplicates(),
{
    let all = StructureKind::spec_all();
    match kind {
        StructureKind::Container => assert(all[0] == kind),
        StructureKind::Controller => assert(all[1] == kind),
        StructureKind::Extension => assert(all[2] == kind),
        StructureKind::Extractor => assert(all[3] == kind),
        StructureKind::KeeperLair => assert(all[4] == kind),
        StructureKind::Lab => assert(all[5] == kind),
        StructureKind::Link => assert(all[6] == kind),
        StructureKind::Nuker => assert(all[7] == kind),
        StructureKind::Observer => assert(all[8] == kind),
        StructureKind::PowerBank => assert(all[9] == kind),
        StructureKind::PowerSpawn => assert(all[10] == kind),
        StructureKind::Portal => assert(all[11] == kind),
        StructureKind::Rampart => assert(all[12] == kind),
        StructureKind::Road => assert(all[13] == kind),
        StructureKind::Spawn => assert(all[14] == kind),
        StructureKind::Storage => assert(all[15] == kind),
        StructureKind::Terminal => assert(all[16] == kind),
        StructureKind::Tower => assert(all[17] == kind),
        StructureKind::Wall => assert(all[18] == kind),
    }
}

} // verus!
