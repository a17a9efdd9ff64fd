//! The hardfork schedule of a genesis file: the forks every BSC genesis
//! activates at block 0, and those that members of its `config` object
//! schedule.

use vstd::prelude::*;
use crate::hardfork::{BscHardfork, EthereumHardfork, ForkCondition, ForkName, Hardfork};
use crate::json::JsonValue;
use crate::schedule::{
    ChainHardforks, ForkEntry, fork_condition, law_with_fork_keeps_names_unique,
    law_with_fork_keeps_others, law_with_fork_reads_back, unique_names, with_fork_spec,
};

verus! {

/// A member of a genesis `config` object that schedules hardforks.
#[derive(Clone, Copy, Debug, PartialEq, Eq, Structural)]
pub enum ConfigKey {
    RamanujanBlock,
    NielsBlock,
    MirrorSyncBlock,
    BrunoBlock,
    EulerBlock,
    NanoBlock,
    MoranBlock,
    GibbsBlock,
    PlanckBlock,
    LubanBlock,
    PlatoBlock,
    HertzBlock,
    HertzfixBlock,
    BerlinBlock,
    LondonBlock,
    ShanghaiTime,
    KeplerTime,
    FeynmanTime,
    FeynmanFixTime,
    CancunTime,
    HaberTime,
    HaberFixTime,
    BohrTime,
    TychoTime,
    PragueTime,
    OsakaTime,
    PascalTime,
    LorentzTime,
    MaxwellTime,
    FermiTime,
    MendelTime,
    PasteurTime,
    JennerTime,
}

/// The number of `ConfigKey`s.
pub const CONFIG_KEY_COUNT: usize = 33;

impl ConfigKey {
    /// The member's name in the genesis `config` object.
    pub open spec fn key_text(self) -> Seq<char> {
        match self {
            ConfigKey::RamanujanBlock => "ramanujanBlock"@,
            ConfigKey::NielsBlock => "nielsBlock"@,
            ConfigKey::MirrorSyncBlock => "mirrorSyncBlock"@,
            ConfigKey::BrunoBlock => "brunoBlock"@,
            ConfigKey::EulerBlock => "eulerBlock"@,
            ConfigKey::NanoBlock => "nanoBlock"@,
            ConfigKey::MoranBlock => "moranBlock"@,
            ConfigKey::GibbsBlock => "gibbsBlock"@,
            ConfigKey::PlanckBlock => "planckBlock"@,
            ConfigKey::LubanBlock => "lubanBlock"@,
            ConfigKey::PlatoBlock => "platoBlock"@,
            ConfigKey::HertzBlock => "hertzBlock"@,
            ConfigKey::HertzfixBlock => "hertzfixBlock"@,
            ConfigKey::BerlinBlock => "berlinBlock"@,
            ConfigKey::LondonBlock => "londonBlock"@,
            ConfigKey::ShanghaiTime => "shanghaiTime"@,
            ConfigKey::KeplerTime => "keplerTime"@,
            ConfigKey::FeynmanTime => "feynmanTime"@,
            ConfigKey::FeynmanFixTime => "feynmanFixTime"@,
            ConfigKey::CancunTime => "cancunTime"@,
            ConfigKey::HaberTime => "haberTime"@,
            ConfigKey::HaberFixTime => "haberFixTime"@,
            ConfigKey::BohrTime => "bohrTime"@,
            ConfigKey::TychoTime => "tychoTime"@,
            ConfigKey::PragueTime => "pragueTime"@,
            ConfigKey::OsakaTime => "osakaTime"@,
            ConfigKey::PascalTime => "pascalTime"@,
            ConfigKey::LorentzTime => "lorentzTime"@,
            ConfigKey::MaxwellTime => "maxwellTime"@,
            ConfigKey::FermiTime => "fermiTime"@,
            ConfigKey::MendelTime => "mendelTime"@,
            ConfigKey::PasteurTime => "pasteurTime"@,
            ConfigKey::JennerTime => "jennerTime"@,
        }
    }

    /// The member's name in the genesis `config` object.
    pub fn json_key(self) -> (r: &'static str)
        ensures
            r@ == self.key_text(),
    {
        match self {
            ConfigKey::RamanujanBlock => "ramanujanBlock",
            ConfigKey::NielsBlock => "nielsBlock",
            ConfigKey::MirrorSyncBlock => "mirrorSyncBlock",
            ConfigKey::BrunoBlock => "brunoBlock",
            ConfigKey::EulerBlock => "eulerBlock",
            ConfigKey::NanoBlock => "nanoBlock",
            ConfigKey::MoranBlock => "moranBlock",
            ConfigKey::GibbsBlock => "gibbsBlock",
            ConfigKey::PlanckBlock => "planckBlock",
            ConfigKey::LubanBlock => "lubanBlock",
            ConfigKey::PlatoBlock => "platoBlock",
            ConfigKey::HertzBlock => "hertzBlock",
            ConfigKey::HertzfixBlock => "hertzfixBlock",
            ConfigKey::BerlinBlock => "berlinBlock",
            ConfigKey::LondonBlock => "londonBlock",
            ConfigKey::ShanghaiTime => "shanghaiTime",
            ConfigKey::KeplerTime => "keplerTime",
            ConfigKey::FeynmanTime => "feynmanTime",
            ConfigKey::FeynmanFixTime => "feynmanFixTime",
            ConfigKey::CancunTime => "cancunTime",
            ConfigKey::HaberTime => "haberTime",
            ConfigKey::HaberFixTime => "haberFixTime",
            ConfigKey::BohrTime => "bohrTime",
            ConfigKey::TychoTime => "tychoTime",
            ConfigKey::PragueTime => "pragueTime",
            ConfigKey::OsakaTime => "osakaTime",
            ConfigKey::PascalTime => "pascalTime",
            ConfigKey::LorentzTime => "lorentzTime",
            ConfigKey::MaxwellTime => "maxwellTime",
            ConfigKey::FermiTime => "fermiTime",
            ConfigKey::MendelTime => "mendelTime",
            ConfigKey::PasteurTime => "pasteurTime",
            ConfigKey::JennerTime => "jennerTime",
        }
    }

    /// Whether the member holds a timestamp (else a block number).
    pub open spec fn spec_is_timestamp(self) -> bool {
        match self {
            ConfigKey::ShanghaiTime | ConfigKey::KeplerTime | ConfigKey::FeynmanTime | ConfigKey::FeynmanFixTime | ConfigKey::CancunTime | ConfigKey::HaberTime | ConfigKey::HaberFixTime | ConfigKey::BohrTime | ConfigKey::TychoTime | ConfigKey::PragueTime | ConfigKey::OsakaTime | ConfigKey::PascalTime | ConfigKey::LorentzTime | ConfigKey::MaxwellTime | ConfigKey::FermiTime | ConfigKey::MendelTime | ConfigKey::PasteurTime | ConfigKey::JennerTime => true,
            _ => false,
        }
    }

    /// Whether the member holds a timestamp (else a block number).
    #[verifier::when_used_as_spec(spec_is_timestamp)]
    pub fn is_timestamp(self) -> (r: bool)
        ensures
            r == self.spec_is_timestamp(),
    {
        match self {
            ConfigKey::ShanghaiTime | ConfigKey::KeplerTime | ConfigKey::FeynmanTime | ConfigKey::FeynmanFixTime | ConfigKey::CancunTime | ConfigKey::HaberTime | ConfigKey::HaberFixTime | ConfigKey::BohrTime | ConfigKey::TychoTime | ConfigKey::PragueTime | ConfigKey::OsakaTime | ConfigKey::PascalTime | ConfigKey::LorentzTime | ConfigKey::MaxwellTime | ConfigKey::FermiTime | ConfigKey::MendelTime | ConfigKey::PasteurTime | ConfigKey::JennerTime => true,
            _ => false,
        }
    }

    /// The forks that the member schedules, in the order they are scheduled.
    /// `cancunTime` schedules Ethereum's Cancun and BSC's, which share one
    /// schedule entry; `osakaTime` schedules BSC's Osaka only.
    pub open spec fn spec_forks(self) -> Seq<Hardfork> {
        match self {
            ConfigKey::RamanujanBlock => seq![Hardfork::Bsc(BscHardfork::Ramanujan)],
            ConfigKey::NielsBlock => seq![Hardfork::Bsc(BscHardfork::Niels)],
            ConfigKey::MirrorSyncBlock => seq![Hardfork::Bsc(BscHardfork::MirrorSync)],
            ConfigKey::BrunoBlock => seq![Hardfork::Bsc(BscHardfork::Bruno)],
            ConfigKey::EulerBlock => seq![Hardfork::Bsc(BscHardfork::Euler)],
            ConfigKey::NanoBlock => seq![Hardfork::Bsc(BscHardfork::Nano)],
            ConfigKey::MoranBlock => seq![Hardfork::Bsc(BscHardfork::Moran)],
            ConfigKey::GibbsBlock => seq![Hardfork::Bsc(BscHardfork::Gibbs)],
            ConfigKey::PlanckBlock => seq![Hardfork::Bsc(BscHardfork::Planck)],
            ConfigKey::LubanBlock => seq![Hardfork::Bsc(BscHardfork::Luban)],
            ConfigKey::PlatoBlock => seq![Hardfork::Bsc(BscHardfork::Plato)],
            ConfigKey::HertzBlock => seq![Hardfork::Bsc(BscHardfork::Hertz)],
            ConfigKey::HertzfixBlock => seq![Hardfork::Bsc(BscHardfork::HertzFix)],
            ConfigKey::BerlinBlock => seq![Hardfork::Ethereum(EthereumHardfork::Berlin)],
            ConfigKey::LondonBlock => seq![Hardfork::Ethereum(EthereumHardfork::London)],
            ConfigKey::ShanghaiTime => seq![Hardfork::Ethereum(EthereumHardfork::Shanghai)],
            ConfigKey::KeplerTime => seq![Hardfork::Bsc(BscHardfork::Kepler)],
            ConfigKey::FeynmanTime => seq![Hardfork::Bsc(BscHardfork::Feynman)],
            ConfigKey::FeynmanFixTime => seq![Hardfork::Bsc(BscHardfork::FeynmanFix)],
            ConfigKey::CancunTime => seq![Hardfork::Ethereum(EthereumHardfork::Cancun), Hardfork::Bsc(BscHardfork::Cancun)],
            ConfigKey::HaberTime => seq![Hardfork::Bsc(BscHardfork::Haber)],
            ConfigKey::HaberFixTime => seq![Hardfork::Bsc(BscHardfork::HaberFix)],
            ConfigKey::BohrTime => seq![Hardfork::Bsc(BscHardfork::Bohr)],
            ConfigKey::TychoTime => seq![Hardfork::Bsc(BscHardfork::Tycho)],
            ConfigKey::PragueTime => seq![Hardfork::Ethereum(EthereumHardfork::Prague)],
            ConfigKey::OsakaTime => seq![Hardfork::Bsc(BscHardfork::Osaka)],
            ConfigKey::PascalTime => seq![Hardfork::Bsc(BscHardfork::Pascal)],
            ConfigKey::LorentzTime => seq![Hardfork::Bsc(BscHardfork::Lorentz)],
            ConfigKey::MaxwellTime => seq![Hardfork::Bsc(BscHardfork::Maxwell)],
            ConfigKey::FermiTime => seq![Hardfork::Bsc(BscHardfork::Fermi)],
            ConfigKey::MendelTime => seq![Hardfork::Bsc(BscHardfork::Mendel)],
            ConfigKey::PasteurTime => seq![Hardfork::Bsc(BscHardfork::Pasteur)],
            ConfigKey::JennerTime => seq![Hardfork::Bsc(BscHardfork::Jenner)],
        }
    }

    /// The forks that the member schedules, in the order they are scheduled.
    pub fn forks(self) -> (r: Vec<Hardfork>)
        ensures
            r@ == self.spec_forks(),
    {
        let r = match self {
            ConfigKey::RamanujanBlock => vec![Hardfork::Bsc(BscHardfork::Ramanujan)],
            ConfigKey::NielsBlock => vec![Hardfork::Bsc(BscHardfork::Niels)],
            ConfigKey::MirrorSyncBlock => vec![Hardfork::Bsc(BscHardfork::MirrorSync)],
            ConfigKey::BrunoBlock => vec![Hardfork::Bsc(BscHardfork::Bruno)],
            ConfigKey::EulerBlock => vec![Hardfork::Bsc(BscHardfork::Euler)],
            ConfigKey::NanoBlock => vec![Hardfork::Bsc(BscHardfork::Nano)],
            ConfigKey::MoranBlock => vec![Hardfork::Bsc(BscHardfork::Moran)],
            ConfigKey::GibbsBlock => vec![Hardfork::Bsc(BscHardfork::Gibbs)],
            ConfigKey::PlanckBlock => vec![Hardfork::Bsc(BscHardfork::Planck)],
            ConfigKey::LubanBlock => vec![Hardfork::Bsc(BscHardfork::Luban)],
            ConfigKey::PlatoBlock => vec![Hardfork::Bsc(BscHardfork::Plato)],
            ConfigKey::HertzBlock => vec![Hardfork::Bsc(BscHardfork::Hertz)],
            ConfigKey::HertzfixBlock => vec![Hardfork::Bsc(BscHardfork::HertzFix)],
            ConfigKey::BerlinBlock => vec![Hardfork::Ethereum(EthereumHardfork::Berlin)],
            ConfigKey::LondonBlock => vec![Hardfork::Ethereum(EthereumHardfork::London)],
            ConfigKey::ShanghaiTime => vec![Hardfork::Ethereum(EthereumHardfork::Shanghai)],
            ConfigKey::KeplerTime => vec![Hardfork::Bsc(BscHardfork::Kepler)],
            ConfigKey::FeynmanTime => vec![Hardfork::Bsc(BscHardfork::Feynman)],
            ConfigKey::FeynmanFixTime => vec![Hardfork::Bsc(BscHardfork::FeynmanFix)],
            ConfigKey::CancunTime => vec![Hardfork::Ethereum(EthereumHardfork::Cancun), Hardfork::Bsc(BscHardfork::Cancun)],
            ConfigKey::HaberTime => vec![Hardfork::Bsc(BscHardfork::Haber)],
            ConfigKey::HaberFixTime => vec![Hardfork::Bsc(BscHardfork::HaberFix)],
            ConfigKey::BohrTime => vec![Hardfork::Bsc(BscHardfork::Bohr)],
            ConfigKey::TychoTime => vec![Hardfork::Bsc(BscHardfork::Tycho)],
            ConfigKey::PragueTime => vec![Hardfork::Ethereum(EthereumHardfork::Prague)],
            ConfigKey::OsakaTime => vec![Hardfork::Bsc(BscHardfork::Osaka)],
            ConfigKey::PascalTime => vec![Hardfork::Bsc(BscHardfork::Pascal)],
            ConfigKey::LorentzTime => vec![Hardfork::Bsc(BscHardfork::Lorentz)],
            ConfigKey::MaxwellTime => vec![Hardfork::Bsc(BscHardfork::Maxwell)],
            ConfigKey::FermiTime => vec![Hardfork::Bsc(BscHardfork::Fermi)],
            ConfigKey::MendelTime => vec![Hardfork::Bsc(BscHardfork::Mendel)],
            ConfigKey::PasteurTime => vec![Hardfork::Bsc(BscHardfork::Pasteur)],
            ConfigKey::JennerTime => vec![Hardfork::Bsc(BscHardfork::Jenner)],
        };
        proof {
            assert(r@ =~= self.spec_forks());
        }
        r
    }

    /// The key at position `i` in the order in which the members are read.
    pub open spec fn spec_at(i: int) -> ConfigKey {
        if i == 0 {
            ConfigKey::RamanujanBlock
        } else if i == 1 {
            ConfigKey::NielsBlock
        } else if i == 2 {
            ConfigKey::MirrorSyncBlock
        } else if i == 3 {
            ConfigKey::BrunoBlock
        } else if i == 4 {
            ConfigKey::EulerBlock
        } else if i == 5 {
            ConfigKey::NanoBlock
        } else if i == 6 {
            ConfigKey::MoranBlock
        } else if i == 7 {
            ConfigKey::GibbsBlock
        } else if i == 8 {
            ConfigKey::PlanckBlock
        } else if i == 9 {
            ConfigKey::LubanBlock
        } else if i == 10 {
            ConfigKey::PlatoBlock
        } else if i == 11 {
            ConfigKey::HertzBlock
        } else if i == 12 {
            ConfigKey::HertzfixBlock
        } else if i == 13 {
            ConfigKey::BerlinBlock
        } else if i == 14 {
            ConfigKey::LondonBlock
        } else if i == 15 {
            ConfigKey::ShanghaiTime
        } else if i == 16 {
            ConfigKey::KeplerTime
        } else if i == 17 {
            ConfigKey::FeynmanTime
        } else if i == 18 {
            ConfigKey::FeynmanFixTime
        } else if i == 19 {
            ConfigKey::CancunTime
        } else if i == 20 {
            ConfigKey::HaberTime
        } else if i == 21 {
            ConfigKey::HaberFixTime
        } else if i == 22 {
            ConfigKey::BohrTime
        } else if i == 23 {
            ConfigKey::TychoTime
        } else if i == 24 {
            ConfigKey::PragueTime
        } else if i == 25 {
            ConfigKey::OsakaTime
        } else if i == 26 {
            ConfigKey::PascalTime
        } else if i == 27 {
            ConfigKey::LorentzTime
        } else if i == 28 {
            ConfigKey::MaxwellTime
        } else if i == 29 {
            ConfigKey::FermiTime
        } else if i == 30 {
            ConfigKey::MendelTime
        } else if i == 31 {
            ConfigKey::PasteurTime
        } else {
            ConfigKey::JennerTime
        }
    }

    /// The key at position `i` in the order in which the members are read.
    pub fn at(i: usize) -> (r: ConfigKey)
        requires
            i < CONFIG_KEY_COUNT,
        ensures
            r == Self::spec_at(i as int),
    {
        if i == 0 {
            ConfigKey::RamanujanBlock
        } else if i == 1 {
            ConfigKey::NielsBlock
        } else if i == 2 {
            ConfigKey::MirrorSyncBlock
        } else if i == 3 {
            ConfigKey::BrunoBlock
        } else if i == 4 {
            ConfigKey::EulerBlock
        } else if i == 5 {
            ConfigKey::NanoBlock
        } else if i == 6 {
            ConfigKey::MoranBlock
        } else if i == 7 {
            ConfigKey::GibbsBlock
        } else if i == 8 {
            ConfigKey::PlanckBlock
        } else if i == 9 {
            ConfigKey::LubanBlock
        } else if i == 10 {
            ConfigKey::PlatoBlock
        } else if i == 11 {
            ConfigKey::HertzBlock
        } else if i == 12 {
            ConfigKey::HertzfixBlock
        } else if i == 13 {
            ConfigKey::BerlinBlock
        } else if i == 14 {
            ConfigKey::LondonBlock
        } else if i == 15 {
            ConfigKey::ShanghaiTime
        } else if i == 16 {
            ConfigKey::KeplerTime
        } else if i == 17 {
            ConfigKey::FeynmanTime
        } else if i == 18 {
            ConfigKey::FeynmanFixTime
        } else if i == 19 {
            ConfigKey::CancunTime
        } else if i == 20 {
            ConfigKey::HaberTime
        } else if i == 21 {
            ConfigKey::HaberFixTime
        } else if i == 22 {
            ConfigKey::BohrTime
        } else if i == 23 {
            ConfigKey::TychoTime
        } else if i == 24 {
            ConfigKey::PragueTime
        } else if i == 25 {
            ConfigKey::OsakaTime
        } else if i == 26 {
            ConfigKey::PascalTime
        } else if i == 27 {
            ConfigKey::LorentzTime
        } else if i == 28 {
            ConfigKey::MaxwellTime
        } else if i == 29 {
            ConfigKey::FermiTime
        } else if i == 30 {
            ConfigKey::MendelTime
        } else if i == 31 {
            ConfigKey::PasteurTime
        } else {
            ConfigKey::JennerTime
        }
    }

    /// The key's position in the order in which the members are read.
    pub open spec fn index(self) -> int {
        match self {
            ConfigKey::RamanujanBlock => 0,
            ConfigKey::NielsBlock => 1,
            ConfigKey::MirrorSyncBlock => 2,
            ConfigKey::BrunoBlock => 3,
            ConfigKey::EulerBlock => 4,
            ConfigKey::NanoBlock => 5,
            ConfigKey::MoranBlock => 6,
            ConfigKey::GibbsBlock => 7,
            ConfigKey::PlanckBlock => 8,
            ConfigKey::LubanBlock => 9,
            ConfigKey::PlatoBlock => 10,
            ConfigKey::HertzBlock => 11,
            ConfigKey::HertzfixBlock => 12,
            ConfigKey::BerlinBlock => 13,
            ConfigKey::LondonBlock => 14,
            ConfigKey::ShanghaiTime => 15,
            ConfigKey::KeplerTime => 16,
            ConfigKey::FeynmanTime => 17,
            ConfigKey::FeynmanFixTime => 18,
            ConfigKey::CancunTime => 19,
            ConfigKey::HaberTime => 20,
            ConfigKey::HaberFixTime => 21,
            ConfigKey::BohrTime => 22,
            ConfigKey::TychoTime => 23,
            ConfigKey::PragueTime => 24,
            ConfigKey::OsakaTime => 25,
            ConfigKey::PascalTime => 26,
            ConfigKey::LorentzTime => 27,
            ConfigKey::MaxwellTime => 28,
            ConfigKey::FermiTime => 29,
            ConfigKey::MendelTime => 30,
            ConfigKey::PasteurTime => 31,
            ConfigKey::JennerTime => 32,
        }
    }
}

/// The config member that schedules the fork named `n`, if one does.
pub open spec fn fork_config_key(n: ForkName) -> Option<ConfigKey> {
    match n {
        ForkName::Ramanujan => Some(ConfigKey::RamanujanBlock),
        ForkName::Niels => Some(ConfigKey::NielsBlock),
        ForkName::MirrorSync => Some(ConfigKey::MirrorSyncBlock),
        ForkName::Bruno => Some(ConfigKey::BrunoBlock),
        ForkName::Euler => Some(ConfigKey::EulerBlock),
        ForkName::Nano => Some(ConfigKey::NanoBlock),
        ForkName::Moran => Some(ConfigKey::MoranBlock),
        ForkName::Gibbs => Some(ConfigKey::GibbsBlock),
        ForkName::Planck => Some(ConfigKey::PlanckBlock),
        ForkName::Luban => Some(ConfigKey::LubanBlock),
        ForkName::Plato => Some(ConfigKey::PlatoBlock),
        ForkName::Hertz => Some(ConfigKey::HertzBlock),
        ForkName::HertzFix => Some(ConfigKey::HertzfixBlock),
        ForkName::Berlin => Some(ConfigKey::BerlinBlock),
        ForkName::London => Some(ConfigKey::LondonBlock),
        ForkName::Shanghai => Some(ConfigKey::ShanghaiTime),
        ForkName::Kepler => Some(ConfigKey::KeplerTime),
        ForkName::Feynman => Some(ConfigKey::FeynmanTime),
        ForkName::FeynmanFix => Some(ConfigKey::FeynmanFixTime),
        ForkName::Cancun => Some(ConfigKey::CancunTime),
        ForkName::Haber => Some(ConfigKey::HaberTime),
        ForkName::HaberFix => Some(ConfigKey::HaberFixTime),
        ForkName::Bohr => Some(ConfigKey::BohrTime),
        ForkName::Tycho => Some(ConfigKey::TychoTime),
        ForkName::Prague => Some(ConfigKey::PragueTime),
        ForkName::Osaka => Some(ConfigKey::OsakaTime),
        ForkName::Pascal => Some(ConfigKey::PascalTime),
        ForkName::Lorentz => Some(ConfigKey::LorentzTime),
        ForkName::Maxwell => Some(ConfigKey::MaxwellTime),
        ForkName::Fermi => Some(ConfigKey::FermiTime),
        ForkName::Mendel => Some(ConfigKey::MendelTime),
        ForkName::Pasteur => Some(ConfigKey::PasteurTime),
        ForkName::Jenner => Some(ConfigKey::JennerTime),
        _ => None,
    }
}

impl ConfigKey {
    /// The condition under which the member's value activates its forks.
    pub open spec fn spec_activation(self, value: u64) -> ForkCondition {
        if self.spec_is_timestamp() {
            ForkCondition::Timestamp(value)
        } else {
            ForkCondition::Block(value)
        }
    }

    /// The condition under which the member's value activates its forks.
    pub fn activation(self, value: u64) -> (r: ForkCondition)
        ensures
            r == self.spec_activation(value),
    {
        if self.is_timestamp() {
            ForkCondition::Timestamp(value)
        } else {
            ForkCondition::Block(value)
        }
    }
}

/// The config members in the order in which they are read.
pub open spec fn config_keys() -> Seq<ConfigKey> {
    Seq::new(CONFIG_KEY_COUNT as nat, |i: int| ConfigKey::spec_at(i))
}

/// `hf` with each of `forks` scheduled at `cond`, in order.
pub open spec fn schedule_forks(hf: Seq<ForkEntry>, forks: Seq<Hardfork>, cond: ForkCondition) -> Seq<
    ForkEntry,
>
    decreases forks.len(),
{
    if forks.len() == 0 {
        hf
    } else {
        with_fork_spec(schedule_forks(hf, forks.drop_last(), cond), forks.last(), cond)
    }
}

/// `hf` after reading the member `k` of `config`: when it holds a `u64`,
/// the member's forks are scheduled at it; otherwise nothing changes.
pub open spec fn apply_config_key(hf: Seq<ForkEntry>, config: JsonValue, k: ConfigKey) -> Seq<
    ForkEntry,
> {
    match config.spec_get_u64(k.key_text()) {
        Some(v) => schedule_forks(hf, k.spec_forks(), k.spec_activation(v)),
        None => hf,
    }
}

/// `hf` after reading the members `keys` of `config`, in order.
pub open spec fn apply_config_keys(hf: Seq<ForkEntry>, config: JsonValue, keys: Seq<ConfigKey>) -> Seq<
    ForkEntry,
>
    decreases keys.len(),
{
    if keys.len() == 0 {
        hf
    } else {
        apply_config_key(apply_config_keys(hf, config, keys.drop_last()), config, keys.last())
    }
}

/// The Ethereum forks that every BSC genesis activates at block 0.
pub open spec fn base_forks() -> Seq<Hardfork> {
    seq![
        Hardfork::Ethereum(EthereumHardfork::Frontier),
        Hardfork::Ethereum(EthereumHardfork::Homestead),
        Hardfork::Ethereum(EthereumHardfork::Tangerine),
        Hardfork::Ethereum(EthereumHardfork::SpuriousDragon),
        Hardfork::Ethereum(EthereumHardfork::Byzantium),
        Hardfork::Ethereum(EthereumHardfork::Constantinople),
        Hardfork::Ethereum(EthereumHardfork::Petersburg),
        Hardfork::Ethereum(EthereumHardfork::Istanbul),
        Hardfork::Ethereum(EthereumHardfork::MuirGlacier),
    ]
}

/// The schedule that every BSC genesis starts from.
pub open spec fn base_hardforks() -> Seq<ForkEntry> {
    schedule_forks(Seq::empty(), base_forks(), ForkCondition::Block(0))
}

/// The schedule of a genesis document: the base forks, then the forks its
/// `config` object schedules; a document without `config` is a local
/// development genesis, which also activates Bohr at block 0.
pub open spec fn genesis_hardforks(value: JsonValue) -> Seq<ForkEntry> {
    match value.spec_get("config"@) {
        Some(config) => apply_config_keys(base_hardforks(), config, config_keys()),
        None => with_fork_spec(
            base_hardforks(),
            Hardfork::Bsc(BscHardfork::Bohr),
            ForkCondition::Block(0),
        ),
    }
}

/// `hardforks` with each of `forks` scheduled at `cond`, in order.
fn schedule_all(hardforks: ChainHardforks, forks: &Vec<Hardfork>, cond: ForkCondition) -> (r:
    ChainHardforks)
    ensures
        r@ == schedule_forks(hardforks@, forks@, cond),
        unique_names(hardforks@) ==> unique_names(r@),
{
    let mut hf = hardforks;
    let mut j: usize = 0;
    while j < forks.len()
        invariant
            0 <= j <= forks.len(),
            hf@ == schedule_forks(hardforks@, forks@.take(j as int), cond),
            unique_names(hardforks@) ==> unique_names(hf@),
        decreases forks.len() - j,
    {
        proof {
            assert(forks@.take(j + 1).drop_last() =~= forks@.take(j as int));
        }
        hf.insert(forks[j], cond);
        j = j + 1;
    }
    proof {
        assert(forks@.take(forks@.len() as int) =~= forks@);
    }
    hf
}

/// The schedule that every BSC genesis starts from: Frontier through Muir
/// Glacier, all at block 0.
pub fn base_chain_hardforks() -> (r: ChainHardforks)
    ensures
        r@ == base_hardforks(),
        unique_names(r@),
{
    let forks = vec![
        Hardfork::Ethereum(EthereumHardfork::Frontier),
        Hardfork::Ethereum(EthereumHardfork::Homestead),
        Hardfork::Ethereum(EthereumHardfork::Tangerine),
        Hardfork::Ethereum(EthereumHardfork::SpuriousDragon),
        Hardfork::Ethereum(EthereumHardfork::Byzantium),
        Hardfork::Ethereum(EthereumHardfork::Constantinople),
        Hardfork::Ethereum(EthereumHardfork::Petersburg),
        Hardfork::Ethereum(EthereumHardfork::Istanbul),
        Hardfork::Ethereum(EthereumHardfork::MuirGlacier),
    ];
    proof {
        assert(forks@ =~= base_forks());
    }
    schedule_all(ChainHardforks::new(), &forks, ForkCondition::Block(0))
}

/// Schedules the forks that the members of a genesis `config` object name:
/// each member that holds a `u64` schedules its forks at that block number
/// or timestamp; members that are missing or hold anything else are skipped.
pub fn add_hardforks_to_chainspec(hardforks: ChainHardforks, config: &JsonValue) -> (r:
    ChainHardforks)
    ensures
        r@ == apply_config_keys(hardforks@, *config, config_keys()),
        unique_names(hardforks@) ==> unique_names(r@),
{
    let mut hf = hardforks;
    let mut i: usize = 0;
    while i < CONFIG_KEY_COUNT
        invariant
            0 <= i <= CONFIG_KEY_COUNT,
            hf@ == apply_config_keys(hardforks@, *config, config_keys().take(i as int)),
            unique_names(hardforks@) ==> unique_names(hf@),
        decreases CONFIG_KEY_COUNT - i,
    {
        let k = ConfigKey::at(i);
        proof {
            assert(config_keys().take(i + 1).drop_last() =~= config_keys().take(i as int));
            assert(config_keys().take(i + 1).last() == k);
        }
        match config.get_u64(k.json_key()) {
            Some(v) => {
                hf = schedule_all(hf, &k.forks(), k.activation(v));
            },
            None => {},
        }
        i = i + 1;
    }
    proof {
        assert(config_keys().take(CONFIG_KEY_COUNT as int) =~= config_keys());
    }
    hf
}

/// The schedule of a parsed genesis document, as `genesis_hardforks` gives it.
pub fn genesis_chain_hardforks(value: &JsonValue) -> (r: ChainHardforks)
    ensures
        r@ == genesis_hardforks(*value),
        unique_names(r@),
{
    let base = base_chain_hardforks();
    match value.get("config") {
        Some(config) => add_hardforks_to_chainspec(base, config),
        None => base.with_fork(Hardfork::Bsc(BscHardfork::Bohr), ForkCondition::Block(0)),
    }
}

/// `c` in lower case, when it is an ASCII capital letter.
pub open spec fn ascii_lower(c: char) -> char {
    if 'A' <= c && c <= 'Z' {
        ((c as int) + 32) as char
    } else {
        c
    }
}

/// `s` with its ASCII capitals in lower case.
pub open spec fn lower_chars(s: Seq<char>) -> Seq<char> {
    s.map_values(|c: char| ascii_lower(c))
}

/// The geth genesis key of a fork named `name`: the name with its first
/// letter in lower case, then `Time` for a timestamp or `Block` for a block
/// number.
pub open spec fn geth_config_key(name: Seq<char>, timestamp: bool) -> Seq<char> {
    seq![ascii_lower(name[0])] + name.drop_first() + if timestamp {
        "Time"@
    } else {
        "Block"@
    }
}

/// Each config member is read under the geth genesis key of the forks it
/// schedules: the fork's name with a lower-case first letter, then `Time`
/// when the member is read as a timestamp and `Block` when it is read as a
/// block number. geth spells one key, `hertzfixBlock`, with a lower-case
/// `f`; it matches the rule when capitals are ignored.
pub proof fn law_config_key_is_geth_key(k: ConfigKey, j: int)
    requires
        0 <= j < k.spec_forks().len(),
    ensures
        k != ConfigKey::HertzfixBlock ==> k.key_text() == geth_config_key(
            k.spec_forks()[j].spec_name().text(),
            k.spec_is_timestamp(),
        ),
        lower_chars(k.key_text()) == lower_chars(
            geth_config_key(k.spec_forks()[j].spec_name().text(), k.spec_is_timestamp()),
        ),
        k == ConfigKey::HertzfixBlock ==> k.key_text() == "hertzfixBlock"@,
{
    let geth_key = geth_config_key(k.spec_forks()[j].spec_name().text(), k.spec_is_timestamp());
    match k {
        ConfigKey::RamanujanBlock => {
            reveal_strlit("ramanujanBlock");
            reveal_strlit("Ramanujan");
            reveal_strlit("Block");
            assert(k.key_text() =~= geth_key);
        },
        ConfigKey::NielsBlock => {
            reveal_strlit("nielsBlock");
            reveal_strlit("Niels");
            reveal_strlit("Block");
            assert(k.key_text() =~= geth_key);
        },
        ConfigKey::MirrorSyncBlock => {
            reveal_strlit("mirrorSyncBlock");
            reveal_strlit("MirrorSync");
            reveal_strlit("Block");
            assert(k.key_text() =~= geth_key);
        },
        ConfigKey::BrunoBlock => {
            reveal_strlit("brunoBlock");
            reveal_strlit("Bruno");
            reveal_strlit("Block");
            assert(k.key_text() =~= geth_key);
        },
        ConfigKey::EulerBlock => {
            reveal_strlit("eulerBlock");
            reveal_strlit("Euler");
            reveal_strlit("Block");
            assert(k.key_text() =~= geth_key);
        },
        ConfigKey::NanoBlock => {
            reveal_strlit("nanoBlock");
            reveal_strlit("Nano");
            reveal_strlit("Block");
            assert(k.key_text() =~= geth_key);
        },
        ConfigKey::MoranBlock => {
            reveal_strlit("moranBlock");
            reveal_strlit("Moran");
            reveal_strlit("Block");
            assert(k.key_text() =~= geth_key);
        },
        ConfigKey::GibbsBlock => {
            reveal_strlit("gibbsBlock");
            reveal_strlit("Gibbs");
            reveal_strlit("Block");
            assert(k.key_text() =~= geth_key);
        },
        ConfigKey::PlanckBlock => {
            reveal_strlit("planckBlock");
            reveal_strlit("Planck");
            reveal_strlit("Block");
            assert(k.key_text() =~= geth_key);
        },
        ConfigKey::LubanBlock => {
            reveal_strlit("lubanBlock");
            reveal_strlit("Luban");
            reveal_strlit("Block");
            assert(k.key_text() =~= geth_key);
        },
        ConfigKey::PlatoBlock => {
            reveal_strlit("platoBlock");
            reveal_strlit("Plato");
            reveal_strlit("Block");
            assert(k.key_text() =~= geth_key);
        },
        ConfigKey::HertzBlock => {
            reveal_strlit("hertzBlock");
            reveal_strlit("Hertz");
            reveal_strlit("Block");
            assert(k.key_text() =~= geth_key);
        },
        ConfigKey::HertzfixBlock => {
            reveal_strlit("hertzfixBlock");
            reveal_strlit("HertzFix");
            reveal_strlit("Block");
            assert(lower_chars(k.key_text()) =~= lower_chars(geth_key));
        },
        ConfigKey::BerlinBlock => {
            reveal_strlit("berlinBlock");
            reveal_strlit("Berlin");
            reveal_strlit("Block");
            assert(k.key_text() =~= geth_key);
        },
        ConfigKey::LondonBlock => {
            reveal_strlit("londonBlock");
            reveal_strlit("London");
            reveal_strlit("Block");
            assert(k.key_text() =~= geth_key);
        },
        ConfigKey::ShanghaiTime => {
            reveal_strlit("shanghaiTime");
            reveal_strlit("Shanghai");
            reveal_strlit("Time");
            assert(k.key_text() =~= geth_key);
        },
        ConfigKey::KeplerTime => {
            reveal_strlit("keplerTime");
            reveal_strlit("Kepler");
            reveal_strlit("Time");
            assert(k.key_text() =~= geth_key);
        },
        ConfigKey::FeynmanTime => {
            reveal_strlit("feynmanTime");
            reveal_strlit("Feynman");
            reveal_strlit("Time");
            assert(k.key_text() =~= geth_key);
        },
        ConfigKey::FeynmanFixTime => {
            reveal_strlit("feynmanFixTime");
            reveal_strlit("FeynmanFix");
            reveal_strlit("Time");
            assert(k.key_text() =~= geth_key);
        },
        ConfigKey::CancunTime => {
            reveal_strlit("cancunTime");
            reveal_strlit("Cancun");
            reveal_strlit("Time");
            assert(k.key_text() =~= geth_key);
        },
        ConfigKey::HaberTime => {
            reveal_strlit("haberTime");
            reveal_strlit("Haber");
            reveal_strlit("Time");
            assert(k.key_text() =~= geth_key);
        },
        ConfigKey::HaberFixTime => {
            reveal_strlit("haberFixTime");
            reveal_strlit("HaberFix");
            reveal_strlit("Time");
            assert(k.key_text() =~= geth_key);
        },
        ConfigKey::BohrTime => {
            reveal_strlit("bohrTime");
            reveal_strlit("Bohr");
            reveal_strlit("Time");
            assert(k.key_text() =~= geth_key);
        },
        ConfigKey::TychoTime => {
            reveal_strlit("tychoTime");
            reveal_strlit("Tycho");
            reveal_strlit("Time");
            assert(k.key_text() =~= geth_key);
        },
        ConfigKey::PragueTime => {
            reveal_strlit("pragueTime");
            reveal_strlit("Prague");
            reveal_strlit("Time");
            assert(k.key_text() =~= geth_key);
        },
        ConfigKey::OsakaTime => {
            reveal_strlit("osakaTime");
            reveal_strlit("Osaka");
            reveal_strlit("Time");
            assert(k.key_text() =~= geth_key);
        },
        ConfigKey::PascalTime => {
            reveal_strlit("pascalTime");
            reveal_strlit("Pascal");
            reveal_strlit("Time");
            assert(k.key_text() =~= geth_key);
        },
        ConfigKey::LorentzTime => {
            reveal_strlit("lorentzTime");
            reveal_strlit("Lorentz");
            reveal_strlit("Time");
            assert(k.key_text() =~= geth_key);
        },
        ConfigKey::MaxwellTime => {
            reveal_strlit("maxwellTime");
            reveal_strlit("Maxwell");
            reveal_strlit("Time");
            assert(k.key_text() =~= geth_key);
        },
        ConfigKey::FermiTime => {
            reveal_strlit("fermiTime");
            reveal_strlit("Fermi");
            reveal_strlit("Time");
            assert(k.key_text() =~= geth_key);
        },
        ConfigKey::MendelTime => {
            reveal_strlit("mendelTime");
            reveal_strlit("Mendel");
            reveal_strlit("Time");
            assert(k.key_text() =~= geth_key);
        },
        ConfigKey::PasteurTime => {
            reveal_strlit("pasteurTime");
            reveal_strlit("Pasteur");
            reveal_strlit("Time");
            assert(k.key_text() =~= geth_key);
        },
        ConfigKey::JennerTime => {
            reveal_strlit("jennerTime");
            reveal_strlit("Jenner");
            reveal_strlit("Time");
            assert(k.key_text() =~= geth_key);
        },
    }
}

/// Whether one of `forks` is named `n`.
pub open spec fn names_fork(forks: Seq<Hardfork>, n: ForkName) -> bool {
    exists|j: int| 0 <= j < forks.len() && #[trigger] forks[j].spec_name() == n
}

/// Whether `n` names one of the forks that every BSC genesis activates at
/// block 0.
pub open spec fn is_base_fork(n: ForkName) -> bool {
    match n {
        ForkName::Frontier | ForkName::Homestead | ForkName::Tangerine | ForkName::SpuriousDragon
        | ForkName::Byzantium | ForkName::Constantinople | ForkName::Petersburg
        | ForkName::Istanbul | ForkName::MuirGlacier => true,
        _ => false,
    }
}

/// The activation of the fork named `n` in the schedule of a genesis
/// document, stated directly: a base fork at block 0; with a `config`
/// object, the value of the member that schedules the fork, or `Never`
/// when it is missing or not a `u64`; without one, Bohr at block 0 and
/// every other fork `Never`.
pub open spec fn genesis_fork_condition(value: JsonValue, n: ForkName) -> ForkCondition {
    if is_base_fork(n) {
        ForkCondition::Block(0)
    } else {
        match value.spec_get("config"@) {
            Some(config) => match fork_config_key(n) {
                Some(k) => match config.spec_get_u64(k.key_text()) {
                    Some(v) => k.spec_activation(v),
                    None => ForkCondition::Never,
                },
                None => ForkCondition::Never,
            },
            None => if n == ForkName::Bohr {
                ForkCondition::Block(0)
            } else {
                ForkCondition::Never
            },
        }
    }
}

/// Scheduling a list of forks at one condition: a name among them reads
/// that condition afterwards, every other name what it read before.
pub proof fn law_schedule_forks(hf: Seq<ForkEntry>, forks: Seq<Hardfork>, cond: ForkCondition, n: ForkName)
    ensures
        fork_condition(schedule_forks(hf, forks, cond), n) == if names_fork(forks, n) {
            cond
        } else {
            fork_condition(hf, n)
        },
        unique_names(hf) ==> unique_names(schedule_forks(hf, forks, cond)),
    decreases forks.len(),
{
    if forks.len() > 0 {
        let init = forks.drop_last();
        let last = forks.last();
        let prev = schedule_forks(hf, init, cond);
        law_schedule_forks(hf, init, cond, n);
        if unique_names(hf) {
            law_with_fork_keeps_names_unique(prev, last, cond);
        }
        if last.spec_name() == n {
            law_with_fork_reads_back(prev, last, cond);
            assert(forks[forks.len() - 1].spec_name() == n);
        } else {
            law_with_fork_keeps_others(prev, last, cond, n);
            if names_fork(forks, n) {
                let j = choose|j: int| 0 <= j < forks.len() && #[trigger] forks[j].spec_name() == n;
                assert(init[j].spec_name() == n);
            }
            if names_fork(init, n) {
                let j = choose|j: int| 0 <= j < init.len() && #[trigger] init[j].spec_name() == n;
                assert(forks[j].spec_name() == n);
            }
        }
    }
}

/// Each fork that a config member schedules is scheduled by that member alone.
proof fn lemma_member_owns_its_forks(k: ConfigKey, j: int)
    requires
        0 <= j < k.spec_forks().len(),
    ensures
        fork_config_key(k.spec_forks()[j].spec_name()) == Some(k),
{
}

/// The member that schedules a fork does schedule it.
proof fn lemma_owner_schedules_fork(n: ForkName)
    ensures
        fork_config_key(n) matches Some(k) ==> names_fork(k.spec_forks(), n),
{
    if let Some(k) = fork_config_key(n) {
        assert(k.spec_forks()[0].spec_name() == n);
    }
}

/// Every config member is read.
proof fn lemma_config_keys_complete(k: ConfigKey)
    ensures
        config_keys().contains(k),
{
    assert(0 <= k.index() < CONFIG_KEY_COUNT && ConfigKey::spec_at(k.index()) == k);
    assert(config_keys()[k.index()] == k);
}

/// What reading `keys` of `config` leaves the fork named `n` at.
pub open spec fn config_keys_condition(
    hf: Seq<ForkEntry>,
    config: JsonValue,
    keys: Seq<ConfigKey>,
    n: ForkName,
) -> ForkCondition {
    match fork_config_key(n) {
        Some(k) => if keys.contains(k) {
            match config.spec_get_u64(k.key_text()) {
                Some(v) => k.spec_activation(v),
                None => fork_condition(hf, n),
            }
        } else {
            fork_condition(hf, n)
        },
        None => fork_condition(hf, n),
    }
}

/// Reading config members sets each fork from the member that schedules
/// it, when that member is read and holds a `u64`, and leaves it otherwise.
pub proof fn law_apply_config_keys(hf: Seq<ForkEntry>, config: JsonValue, keys: Seq<ConfigKey>, n: ForkName)
    ensures
        fork_condition(apply_config_keys(hf, config, keys), n) == config_keys_condition(
            hf,
            config,
            keys,
            n,
        ),
        unique_names(hf) ==> unique_names(apply_config_keys(hf, config, keys)),
    decreases keys.len(),
{
    if keys.len() > 0 {
        let init = keys.drop_last();
        let kl = keys.last();
        let prev = apply_config_keys(hf, config, init);
        law_apply_config_keys(hf, config, init, n);
        assert(keys =~= init.push(kl));
        assert(forall|k: ConfigKey| keys.contains(k) <==> (init.contains(k) || k == kl)) by {
            assert forall|k: ConfigKey| keys.contains(k) implies (init.contains(k) || k == kl) by {
                let i = choose|i: int| 0 <= i < keys.len() && keys[i] == k;
                if i < keys.len() - 1 {
                    assert(init[i] == k);
                }
            }
            assert forall|k: ConfigKey| (init.contains(k) || k == kl) implies keys.contains(k) by {
                if init.contains(k) {
                    let i = choose|i: int| 0 <= i < init.len() && init[i] == k;
                    assert(keys[i] == k);
                } else {
                    assert(keys[keys.len() - 1] == k);
                }
            }
        }
        lemma_owner_schedules_fork(n);
        match config.spec_get_u64(kl.key_text()) {
            Some(v) => {
                law_schedule_forks(prev, kl.spec_forks(), kl.spec_activation(v), n);
                if names_fork(kl.spec_forks(), n) {
                    let j = choose|j: int|
                        0 <= j < kl.spec_forks().len() && #[trigger] kl.spec_forks()[j].spec_name() == n;
                    lemma_member_owns_its_forks(kl, j);
                }
            },
            None => {},
        }
        if unique_names(hf) {
            if let Some(v) = config.spec_get_u64(kl.key_text()) {
                law_schedule_forks(prev, kl.spec_forks(), kl.spec_activation(v), n);
            }
        }
    }
}

/// The schedule starts with the base forks at block 0 and nothing else.
proof fn lemma_base_condition(n: ForkName)
    ensures
        fork_condition(base_hardforks(), n) == if is_base_fork(n) {
            ForkCondition::Block(0)
        } else {
            ForkCondition::Never
        },
        unique_names(base_hardforks()),
{
    let b = base_forks();
    law_schedule_forks(Seq::empty(), b, ForkCondition::Block(0), n);
    assert(fork_condition(Seq::<ForkEntry>::empty(), n) == ForkCondition::Never);
    assert(unique_names(Seq::<ForkEntry>::empty()));
    if is_base_fork(n) {
        if n == ForkName::Frontier {
            assert(b[0].spec_name() == n);
        } else if n == ForkName::Homestead {
            assert(b[1].spec_name() == n);
        } else if n == ForkName::Tangerine {
            assert(b[2].spec_name() == n);
        } else if n == ForkName::SpuriousDragon {
            assert(b[3].spec_name() == n);
        } else if n == ForkName::Byzantium {
            assert(b[4].spec_name() == n);
        } else if n == ForkName::Constantinople {
            assert(b[5].spec_name() == n);
        } else if n == ForkName::Petersburg {
            assert(b[6].spec_name() == n);
        } else if n == ForkName::Istanbul {
            assert(b[7].spec_name() == n);
        } else {
            assert(b[8].spec_name() == n);
        }
    } else {
        assert forall|j: int| 0 <= j < b.len() implies #[trigger] b[j].spec_name() != n by {
            assert(is_base_fork(b[j].spec_name())) by {
                if j == 0 {
                } else if j == 1 {
                } else if j == 2 {
                } else if j == 3 {
                } else if j == 4 {
                } else if j == 5 {
                } else if j == 6 {
                } else if j == 7 {
                } else {
                }
            }
        }
    }
}

/// The activation of every fork in the schedule of a genesis document is
/// `genesis_fork_condition`: the base forks at block 0, each other fork at
/// the value of the config member that schedules it (`Never` when missing
/// or not a `u64`), and, without a `config` object, Bohr at block 0.
pub proof fn law_genesis_fork_activation(value: JsonValue, n: ForkName)
    ensures
        fork_condition(genesis_hardforks(value), n) == genesis_fork_condition(value, n),
{
    lemma_base_condition(n);
    match value.spec_get("config"@) {
        Some(config) => {
            law_apply_config_keys(base_hardforks(), config, config_keys(), n);
            if let Some(k) = fork_config_key(n) {
                lemma_config_keys_complete(k);
            }
        },
        None => {
            let b = Hardfork::Bsc(BscHardfork::Bohr);
            if n == ForkName::Bohr {
                law_with_fork_reads_back(base_hardforks(), b, ForkCondition::Block(0));
            } else {
                law_with_fork_keeps_others(base_hardforks(), b, ForkCondition::Block(0), n);
            }
        },
    }
}

/// No two entries of a genesis schedule share a name.
pub proof fn law_genesis_names_unique(value: JsonValue)
    ensures
        unique_names(genesis_hardforks(value)),
{
    lemma_base_condition(ForkName::Frontier);
    match value.spec_get("config"@) {
        Some(config) => {
            law_apply_config_keys(base_hardforks(), config, config_keys(), ForkName::Frontier);
        },
        None => {
            law_with_fork_keeps_names_unique(
                base_hardforks(),
                Hardfork::Bsc(BscHardfork::Bohr),
                ForkCondition::Block(0),
            );
        },
    }
}

} // verus!
