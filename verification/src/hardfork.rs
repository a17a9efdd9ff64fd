//! Hardforks, the names that identify them, and their activation conditions.
//!
//! The Ethereum and BSC forks listed here are those that a genesis schedules;
//! a fork's name is its variant's name. A condition is a block number, a
//! timestamp, or never.

use vstd::prelude::*;

verus! {

/// The name of a hardfork. A fork schedule keys its entries by name, so an
/// Ethereum hardfork and a BSC hardfork that share a name share one entry.
#[derive(Clone, Copy, Debug, PartialEq, Eq, Structural)]
pub enum ForkName {
    Frontier,
    Homestead,
    Tangerine,
    SpuriousDragon,
    Byzantium,
    Constantinople,
    Petersburg,
    Istanbul,
    MuirGlacier,
    Berlin,
    London,
    Shanghai,
    Cancun,
    Prague,
    Osaka,
    Ramanujan,
    Niels,
    MirrorSync,
    Bruno,
    Euler,
    Nano,
    Moran,
    Gibbs,
    Planck,
    Luban,
    Plato,
    Hertz,
    HertzFix,
    Kepler,
    Feynman,
    FeynmanFix,
    Haber,
    HaberFix,
    Bohr,
    Tycho,
    Pascal,
    Lorentz,
    Maxwell,
    Fermi,
    Mendel,
    Pasteur,
    Jenner,
}

impl ForkName {
    /// The name as text.
    pub open spec fn text(self) -> Seq<char> {
        match self {
            ForkName::Frontier => "Frontier"@,
            ForkName::Homestead => "Homestead"@,
            ForkName::Tangerine => "Tangerine"@,
            ForkName::SpuriousDragon => "SpuriousDragon"@,
            ForkName::Byzantium => "Byzantium"@,
            ForkName::Constantinople => "Constantinople"@,
            ForkName::Petersburg => "Petersburg"@,
            ForkName::Istanbul => "Istanbul"@,
            ForkName::MuirGlacier => "MuirGlacier"@,
            ForkName::Berlin => "Berlin"@,
            ForkName::London => "London"@,
            ForkName::Shanghai => "Shanghai"@,
            ForkName::Cancun => "Cancun"@,
            ForkName::Prague => "Prague"@,
            ForkName::Osaka => "Osaka"@,
            ForkName::Ramanujan => "Ramanujan"@,
            ForkName::Niels => "Niels"@,
            ForkName::MirrorSync => "MirrorSync"@,
            ForkName::Bruno => "Bruno"@,
            ForkName::Euler => "Euler"@,
            ForkName::Nano => "Nano"@,
            ForkName::Moran => "Moran"@,
            ForkName::Gibbs => "Gibbs"@,
            ForkName::Planck => "Planck"@,
            ForkName::Luban => "Luban"@,
            ForkName::Plato => "Plato"@,
            ForkName::Hertz => "Hertz"@,
            ForkName::HertzFix => "HertzFix"@,
            ForkName::Kepler => "Kepler"@,
            ForkName::Feynman => "Feynman"@,
            ForkName::FeynmanFix => "FeynmanFix"@,
            ForkName::Haber => "Haber"@,
            ForkName::HaberFix => "HaberFix"@,
            ForkName::Bohr => "Bohr"@,
            ForkName::Tycho => "Tycho"@,
            ForkName::Pascal => "Pascal"@,
            ForkName::Lorentz => "Lorentz"@,
            ForkName::Maxwell => "Maxwell"@,
            ForkName::Fermi => "Fermi"@,
            ForkName::Mendel => "Mendel"@,
            ForkName::Pasteur => "Pasteur"@,
            ForkName::Jenner => "Jenner"@,
        }
    }

    /// The name as text.
    pub fn as_str(self) -> (r: &'static str)
        ensures
            r@ == self.text(),
    {
        match self {
            ForkName::Frontier => "Frontier",
            ForkName::Homestead => "Homestead",
            ForkName::Tangerine => "Tangerine",
            ForkName::SpuriousDragon => "SpuriousDragon",
            ForkName::Byzantium => "Byzantium",
            ForkName::Constantinople => "Constantinople",
            ForkName::Petersburg => "Petersburg",
            ForkName::Istanbul => "Istanbul",
            ForkName::MuirGlacier => "MuirGlacier",
            ForkName::Berlin => "Berlin",
            ForkName::London => "London",
            ForkName::Shanghai => "Shanghai",
            ForkName::Cancun => "Cancun",
            ForkName::Prague => "Prague",
            ForkName::Osaka => "Osaka",
            ForkName::Ramanujan => "Ramanujan",
            ForkName::Niels => "Niels",
            ForkName::MirrorSync => "MirrorSync",
            ForkName::Bruno => "Bruno",
            ForkName::Euler => "Euler",
            ForkName::Nano => "Nano",
            ForkName::Moran => "Moran",
            ForkName::Gibbs => "Gibbs",
            ForkName::Planck => "Planck",
            ForkName::Luban => "Luban",
            ForkName::Plato => "Plato",
            ForkName::Hertz => "Hertz",
            ForkName::HertzFix => "HertzFix",
            ForkName::Kepler => "Kepler",
            ForkName::Feynman => "Feynman",
            ForkName::FeynmanFix => "FeynmanFix",
            ForkName::Haber => "Haber",
            ForkName::HaberFix => "HaberFix",
            ForkName::Bohr => "Bohr",
            ForkName::Tycho => "Tycho",
            ForkName::Pascal => "Pascal",
            ForkName::Lorentz => "Lorentz",
            ForkName::Maxwell => "Maxwell",
            ForkName::Fermi => "Fermi",
            ForkName::Mendel => "Mendel",
            ForkName::Pasteur => "Pasteur",
            ForkName::Jenner => "Jenner",
        }
    }
}

/// Ethereum mainnet hardforks that a BSC genesis schedules.
#[derive(Clone, Copy, Debug, PartialEq, Eq, Structural)]
pub enum EthereumHardfork {
    Frontier,
    Homestead,
    Tangerine,
    SpuriousDragon,
    Byzantium,
    Constantinople,
    Petersburg,
    Istanbul,
    MuirGlacier,
    Berlin,
    London,
    Shanghai,
    Cancun,
    Prague,
}

/// BNB Smart Chain hardforks.
#[derive(Clone, Copy, Debug, PartialEq, Eq, Structural)]
pub enum BscHardfork {
    Ramanujan,
    Niels,
    MirrorSync,
    Bruno,
    Euler,
    Nano,
    Moran,
    Gibbs,
    Planck,
    Luban,
    Plato,
    Hertz,
    HertzFix,
    Kepler,
    Feynman,
    FeynmanFix,
    Cancun,
    Haber,
    HaberFix,
    Bohr,
    Tycho,
    Osaka,
    Pascal,
    Lorentz,
    Maxwell,
    Fermi,
    Mendel,
    Pasteur,
    Jenner,
}

/// A hardfork of either family.
#[derive(Clone, Copy, Debug, PartialEq, Eq, Structural)]
pub enum Hardfork {
    Ethereum(EthereumHardfork),
    Bsc(BscHardfork),
}

impl EthereumHardfork {
    pub open spec fn spec_name(self) -> ForkName {
        match self {
            EthereumHardfork::Frontier => ForkName::Frontier,
            EthereumHardfork::Homestead => ForkName::Homestead,
            EthereumHardfork::Tangerine => ForkName::Tangerine,
            EthereumHardfork::SpuriousDragon => ForkName::SpuriousDragon,
            EthereumHardfork::Byzantium => ForkName::Byzantium,
            EthereumHardfork::Constantinople => ForkName::Constantinople,
            EthereumHardfork::Petersburg => ForkName::Petersburg,
            EthereumHardfork::Istanbul => ForkName::Istanbul,
            EthereumHardfork::MuirGlacier => ForkName::MuirGlacier,
            EthereumHardfork::Berlin => ForkName::Berlin,
            EthereumHardfork::London => ForkName::London,
            EthereumHardfork::Shanghai => ForkName::Shanghai,
            EthereumHardfork::Cancun => ForkName::Cancun,
            EthereumHardfork::Prague => ForkName::Prague,
        }
    }

    /// The fork's name.
    #[verifier::when_used_as_spec(spec_name)]
    pub fn name(self) -> (n: ForkName)
        ensures
            n == self.spec_name(),
    {
        match self {
            EthereumHardfork::Frontier => ForkName::Frontier,
            EthereumHardfork::Homestead => ForkName::Homestead,
            EthereumHardfork::Tangerine => ForkName::Tangerine,
            EthereumHardfork::SpuriousDragon => ForkName::SpuriousDragon,
            EthereumHardfork::Byzantium => ForkName::Byzantium,
            EthereumHardfork::Constantinople => ForkName::Constantinople,
            EthereumHardfork::Petersburg => ForkName::Petersburg,
            EthereumHardfork::Istanbul => ForkName::Istanbul,
            EthereumHardfork::MuirGlacier => ForkName::MuirGlacier,
            EthereumHardfork::Berlin => ForkName::Berlin,
            EthereumHardfork::London => ForkName::London,
            EthereumHardfork::Shanghai => ForkName::Shanghai,
            EthereumHardfork::Cancun => ForkName::Cancun,
            EthereumHardfork::Prague => ForkName::Prague,
        }
    }
}

impl BscHardfork {
    pub open spec fn spec_name(self) -> ForkName {
        match self {
            BscHardfork::Ramanujan => ForkName::Ramanujan,
            BscHardfork::Niels => ForkName::Niels,
            BscHardfork::MirrorSync => ForkName::MirrorSync,
            BscHardfork::Bruno => ForkName::Bruno,
            BscHardfork::Euler => ForkName::Euler,
            BscHardfork::Nano => ForkName::Nano,
            BscHardfork::Moran => ForkName::Moran,
            BscHardfork::Gibbs => ForkName::Gibbs,
            BscHardfork::Planck => ForkName::Planck,
            BscHardfork::Luban => ForkName::Luban,
            BscHardfork::Plato => ForkName::Plato,
            BscHardfork::Hertz => ForkName::Hertz,
            BscHardfork::HertzFix => ForkName::HertzFix,
            BscHardfork::Kepler => ForkName::Kepler,
            BscHardfork::Feynman => ForkName::Feynman,
            BscHardfork::FeynmanFix => ForkName::FeynmanFix,
            BscHardfork::Cancun => ForkName::Cancun,
            BscHardfork::Haber => ForkName::Haber,
            BscHardfork::HaberFix => ForkName::HaberFix,
            BscHardfork::Bohr => ForkName::Bohr,
            BscHardfork::Tycho => ForkName::Tycho,
            BscHardfork::Osaka => ForkName::Osaka,
            BscHardfork::Pascal => ForkName::Pascal,
            BscHardfork::Lorentz => ForkName::Lorentz,
            BscHardfork::Maxwell => ForkName::Maxwell,
            BscHardfork::Fermi => ForkName::Fermi,
            BscHardfork::Mendel => ForkName::Mendel,
            BscHardfork::Pasteur => ForkName::Pasteur,
            BscHardfork::Jenner => ForkName::Jenner,
        }
    }

    /// The fork's name.
    #[verifier::when_used_as_spec(spec_name)]
    pub fn name(self) -> (n: ForkName)
        ensures
            n == self.spec_name(),
    {
        match self {
            BscHardfork::Ramanujan => ForkName::Ramanujan,
            BscHardfork::Niels => ForkName::Niels,
            BscHardfork::MirrorSync => ForkName::MirrorSync,
            BscHardfork::Bruno => ForkName::Bruno,
            BscHardfork::Euler => ForkName::Euler,
            BscHardfork::Nano => ForkName::Nano,
            BscHardfork::Moran => ForkName::Moran,
            BscHardfork::Gibbs => ForkName::Gibbs,
            BscHardfork::Planck => ForkName::Planck,
            BscHardfork::Luban => ForkName::Luban,
            BscHardfork::Plato => ForkName::Plato,
            BscHardfork::Hertz => ForkName::Hertz,
            BscHardfork::HertzFix => ForkName::HertzFix,
            BscHardfork::Kepler => ForkName::Kepler,
            BscHardfork::Feynman => ForkName::Feynman,
            BscHardfork::FeynmanFix => ForkName::FeynmanFix,
            BscHardfork::Cancun => ForkName::Cancun,
            BscHardfork::Haber => ForkName::Haber,
            BscHardfork::HaberFix => ForkName::HaberFix,
            BscHardfork::Bohr => ForkName::Bohr,
            BscHardfork::Tycho => ForkName::Tycho,
            BscHardfork::Osaka => ForkName::Osaka,
            BscHardfork::Pascal => ForkName::Pascal,
            BscHardfork::Lorentz => ForkName::Lorentz,
            BscHardfork::Maxwell => ForkName::Maxwell,
            BscHardfork::Fermi => ForkName::Fermi,
            BscHardfork::Mendel => ForkName::Mendel,
            BscHardfork::Pasteur => ForkName::Pasteur,
            BscHardfork::Jenner => ForkName::Jenner,
        }
    }
}

impl Hardfork {
    pub open spec fn spec_name(self) -> ForkName {
        match self {
            Hardfork::Ethereum(f) => f.spec_name(),
            Hardfork::Bsc(f) => f.spec_name(),
        }
    }

    /// The fork's name, by which a schedule identifies it.
    #[verifier::when_used_as_spec(spec_name)]
    pub fn name(self) -> (n: ForkName)
        ensures
            n == self.spec_name(),
    {
        match self {
            Hardfork::Ethereum(f) => f.name(),
            Hardfork::Bsc(f) => f.name(),
        }
    }
}

/// When a hardfork activates.
#[derive(Clone, Copy, Debug, PartialEq, Eq, Structural)]
pub enum ForkCondition {
    /// Active from this block number on.
    Block(u64),
    /// Active from this block timestamp on.
    Timestamp(u64),
    /// Never active.
    Never,
}

impl ForkCondition {
    pub open spec fn spec_active_at_block(self, block: u64) -> bool {
        match self {
            ForkCondition::Block(b) => block >= b,
            _ => false,
        }
    }

    pub open spec fn spec_active_at_timestamp(self, timestamp: u64) -> bool {
        match self {
            ForkCondition::Timestamp(t) => timestamp >= t,
            _ => false,
        }
    }

    /// Whether a block-based condition holds at `block`.
    pub fn active_at_block(self, block: u64) -> (r: bool)
        ensures
            r == self.spec_active_at_block(block),
    {
        match self {
            ForkCondition::Block(b) => block >= b,
            _ => false,
        }
    }

    /// Whether a timestamp-based condition holds at `timestamp`.
    pub fn active_at_timestamp(self, timestamp: u64) -> (r: bool)
        ensures
            r == self.spec_active_at_timestamp(timestamp),
    {
        match self {
            ForkCondition::Timestamp(t) => timestamp >= t,
            _ => false,
        }
    }
}

/// A timestamp condition holds exactly from its own timestamp on; it never
/// holds at a block, and `Never` holds nowhere.
pub proof fn law_timestamp_condition(t: u64, ts: u64, block: u64)
    ensures
        ForkCondition::Timestamp(t).spec_active_at_timestamp(ts) <==> ts >= t,
        !ForkCondition::Timestamp(t).spec_active_at_block(block),
        !ForkCondition::Never.spec_active_at_timestamp(ts),
        !ForkCondition::Never.spec_active_at_block(block),
{
}

/// A block condition holds exactly from its own block on, and never at a
/// timestamp.
pub proof fn law_block_condition(b: u64, block: u64, ts: u64)
    ensures
        ForkCondition::Block(b).spec_active_at_block(block) <==> block >= b,
        !ForkCondition::Block(b).spec_active_at_timestamp(ts),
{
}

/// A condition that holds at a timestamp holds at every later timestamp.
pub proof fn law_active_at_timestamp_stays(c: ForkCondition, t: u64, later: u64)
    requires
        t <= later,
        c.spec_active_at_timestamp(t),
    ensures
        c.spec_active_at_timestamp(later),
{
}

/// A condition that holds at a block holds at every later block.
pub proof fn law_active_at_block_stays(c: ForkCondition, b: u64, later: u64)
    requires
        b <= later,
        c.spec_active_at_block(b),
    ensures
        c.spec_active_at_block(later),
{
}

/// Ethereum's and BSC's Cancun share the name "Cancun", so a schedule gives
/// them one entry and one activation.
pub proof fn law_cancun_shared()
    ensures
        Hardfork::Ethereum(EthereumHardfork::Cancun).spec_name() == Hardfork::Bsc(
            BscHardfork::Cancun,
        ).spec_name(),
{
}

} // verus!
