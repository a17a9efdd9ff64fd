//! A BSC chain specification built from a genesis document.
//!
//! The specification holds the chain id, the genesis that serde_json reads
//! from the document, and the hardfork schedule. It holds no genesis header.

use vstd::prelude::*;
use alloy_genesis::Genesis;
use crate::error::ChainSpecError;
use crate::genesis::{genesis_chain_hardforks, genesis_hardforks};
use crate::hardfork::{ForkCondition, Hardfork};
use crate::json::{JsonValue, parse_json_value, serde_json_value};
use crate::schedule::{ChainHardforks, fork_condition, unique_names};

verus! {

#[verifier::external_type_specification]
#[verifier::external_body]
pub struct ExGenesis(alloy_genesis::Genesis);

/// What serde_json reads from `text` as an `alloy_genesis::Genesis`: the
/// genesis's `config.chain_id` with the genesis itself, or the text of
/// serde_json's error.
pub uninterp spec fn serde_genesis(text: Seq<char>) -> Result<(u64, Genesis), Seq<char>>;

/// Reads `text` with `serde_json::from_str::<alloy_genesis::Genesis>`, and
/// hands back the genesis's `config.chain_id` with the genesis; an error is
/// handed back as its `Display` text. Trusted: the outcome is a function of
/// the text alone, named `serde_genesis`; nothing is claimed of what the
/// genesis holds beyond that its chain id is the one handed back.
#[verifier::external_body]
pub(crate) fn parse_genesis(text: &str) -> (r: Result<(u64, Genesis), String>)
    ensures
        match r {
            Ok((id, g)) => serde_genesis(text@) == Ok::<(u64, Genesis), Seq<char>>((id, g)),
            Err(d) => serde_genesis(text@) == Err::<(u64, Genesis), Seq<char>>(d@),
        },
{
    serde_json::from_str::<Genesis>(text).map(|g| (g.config.chain_id, g)).map_err(|e| e.to_string())
}

/// A BSC chain specification: the chain id, the genesis, and the hardfork
/// schedule.
pub struct BscChainSpec {
    pub chain_id: u64,
    pub genesis: Genesis,
    pub hardforks: ChainHardforks,
}

impl BscChainSpec {
    /// The activation condition of `fork`.
    pub fn fork(&self, fork: Hardfork) -> (r: ForkCondition)
        ensures
            r == fork_condition(self.hardforks@, fork.spec_name()),
    {
        self.hardforks.fork(fork)
    }
}

/// The chain specification of a genesis whose chain id is `chain_id` and
/// whose text reads as `value`.
pub fn chain_spec_from_genesis(chain_id: u64, genesis: Genesis, value: &JsonValue) -> (r:
    BscChainSpec)
    ensures
        r.chain_id == chain_id,
        r.genesis == genesis,
        r.hardforks@ == genesis_hardforks(*value),
        unique_names(r.hardforks@),
{
    BscChainSpec { chain_id, genesis, hardforks: genesis_chain_hardforks(value) }
}

/// `r` is what parsing `text` as a genesis document gives: the error of the
/// genesis reading, with serde_json's text; else the error of the JSON
/// reading, with serde_json's text; else the specification with the genesis
/// read, its chain id, and the schedule of the JSON document.
pub open spec fn genesis_json_outcome(text: Seq<char>, r: Result<BscChainSpec, ChainSpecError>) -> bool {
    match serde_genesis(text) {
        Err(d) => r matches Err(ChainSpecError::InvalidGenesis(m)) && m@ == d,
        Ok((id, g)) => match serde_json_value(text) {
            Err(d) => r matches Err(ChainSpecError::InvalidJson(m)) && m@ == d,
            Ok(v) => r matches Ok(spec) && spec.chain_id == id && spec.genesis == g
                && spec.hardforks@ == genesis_hardforks(v),
        },
    }
}

/// Two errors are the same: the same kind, carrying the same text.
pub open spec fn same_error(e1: ChainSpecError, e2: ChainSpecError) -> bool {
    match (e1, e2) {
        (ChainSpecError::InvalidGenesis(a), ChainSpecError::InvalidGenesis(b)) => a@ == b@,
        (ChainSpecError::InvalidJson(a), ChainSpecError::InvalidJson(b)) => a@ == b@,
        (ChainSpecError::UnsupportedChain(a), ChainSpecError::UnsupportedChain(b)) => a@ == b@,
        _ => false,
    }
}

/// Two specifications agree: the same chain id, genesis and schedule.
pub open spec fn same_spec(a: BscChainSpec, b: BscChainSpec) -> bool {
    a.chain_id == b.chain_id && a.genesis == b.genesis && a.hardforks@ == b.hardforks@
}

/// Two results agree: both specifications that agree, or both the same error.
pub open spec fn same_result(r1: Result<BscChainSpec, ChainSpecError>, r2: Result<BscChainSpec, ChainSpecError>) -> bool {
    match (r1, r2) {
        (Ok(a), Ok(b)) => same_spec(a, b),
        (Err(e1), Err(e2)) => same_error(e1, e2),
        _ => false,
    }
}

/// Parsing a genesis document has one outcome per text: any two results that
/// `genesis_json_outcome` admits for the same text agree.
pub proof fn law_genesis_json_outcome_determined(
    text: Seq<char>,
    r1: Result<BscChainSpec, ChainSpecError>,
    r2: Result<BscChainSpec, ChainSpecError>,
)
    requires
        genesis_json_outcome(text, r1),
        genesis_json_outcome(text, r2),
    ensures
        same_result(r1, r2),
{
}

/// Parses a genesis document: its chain id from the genesis, and its
/// hardfork schedule from its `config` object.
pub fn parse_genesis_json(json_str: &str) -> (r: Result<BscChainSpec, ChainSpecError>)
    ensures
        genesis_json_outcome(json_str@, r),
{
    let (chain_id, genesis) = match parse_genesis(json_str) {
        Ok(parsed) => parsed,
        Err(d) => {
            return Err(ChainSpecError::InvalidGenesis(d));
        },
    };
    let value = match parse_json_value(json_str) {
        Ok(v) => v,
        Err(d) => {
            return Err(ChainSpecError::InvalidJson(d));
        },
    };
    Ok(chain_spec_from_genesis(chain_id, genesis, &value))
}

} // verus!
