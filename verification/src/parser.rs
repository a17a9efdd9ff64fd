//! Resolving a chain argument: a known chain's name, the path of a genesis
//! file, or a genesis document given in place.

use vstd::prelude::*;
use vstd::string::StrSliceExecFns;
use crate::chainspec::{
    BscChainSpec, genesis_json_outcome, parse_genesis_json, same_error, same_result, same_spec,
};
use crate::error::ChainSpecError;

verus! {

/// The chains known by name.
#[derive(Clone, Copy, Debug, PartialEq, Eq, Structural)]
pub enum NamedChain {
    /// `bsc`: BSC mainnet.
    Mainnet,
    /// `bsc-testnet`: the Chapel testnet.
    Testnet,
    /// `bsc-qanet`: the Rialto QA network.
    Qanet,
    /// `local`: a local development chain.
    Local,
}

/// The names of the known chains, in the order they are listed.
pub open spec fn supported_chain_names() -> Seq<Seq<char>> {
    seq!["bsc"@, "bsc-testnet"@, "bsc-qanet"@, "local"@]
}

/// The known chain that `s` names, if any.
pub open spec fn named_chain(s: Seq<char>) -> Option<NamedChain> {
    if s == "bsc"@ {
        Some(NamedChain::Mainnet)
    } else if s == "bsc-testnet"@ {
        Some(NamedChain::Testnet)
    } else if s == "bsc-qanet"@ {
        Some(NamedChain::Qanet)
    } else if s == "local"@ {
        Some(NamedChain::Local)
    } else {
        None
    }
}

/// Whether `s` starts with `{`.
pub open spec fn starts_with_brace(s: Seq<char>) -> bool {
    s.len() > 0 && s[0] == '{'
}

/// What a chain argument resolves to.
pub enum ChainValue {
    /// A chain known by name.
    Named(NamedChain),
    /// The argument is the path of an existing file, to be read and parsed
    /// as a genesis document.
    GenesisFile,
    /// The argument was a genesis document, parsed to this specification.
    Genesis(BscChainSpec),
}

/// `r` is what `chain_value_parser` owes for the argument `s`, where
/// `path_exists` tells whether `s` is the path of an existing file.
pub open spec fn chain_value_outcome(
    s: Seq<char>,
    path_exists: bool,
    r: Result<ChainValue, ChainSpecError>,
) -> bool {
    match named_chain(s) {
        Some(c) => r matches Ok(ChainValue::Named(n)) && n == c,
        None => if path_exists {
            r matches Ok(ChainValue::GenesisFile)
        } else if starts_with_brace(s) {
            match r {
                Ok(ChainValue::Genesis(spec)) => genesis_json_outcome(s, Ok(spec)),
                Ok(_) => false,
                Err(e) => genesis_json_outcome(s, Err(e)),
            }
        } else {
            r matches Err(ChainSpecError::UnsupportedChain(input)) && input@ == s
        },
    }
}

fn str_equals(a: &str, b: &str) -> (r: bool)
    ensures
        r == (a@ == b@),
{
    a.to_owned() == b.to_owned()
}

/// Resolves a chain argument: a known chain's name first; otherwise, when
/// `path_exists` says the argument is an existing file, that file; otherwise
/// an argument that starts with `{` is parsed as a genesis document; anything
/// else is refused.
pub fn chain_value_parser(s: &str, path_exists: bool) -> (r: Result<ChainValue, ChainSpecError>)
    ensures
        chain_value_outcome(s@, path_exists, r),
{
    if str_equals(s, "bsc") {
        Ok(ChainValue::Named(NamedChain::Mainnet))
    } else if str_equals(s, "bsc-testnet") {
        Ok(ChainValue::Named(NamedChain::Testnet))
    } else if str_equals(s, "bsc-qanet") {
        Ok(ChainValue::Named(NamedChain::Qanet))
    } else if str_equals(s, "local") {
        Ok(ChainValue::Named(NamedChain::Local))
    } else if path_exists {
        Ok(ChainValue::GenesisFile)
    } else if !s.is_empty() && s.get_char(0) == '{' {
        match parse_genesis_json(s) {
            Ok(spec) => Ok(ChainValue::Genesis(spec)),
            Err(e) => Err(e),
        }
    } else {
        Err(ChainSpecError::UnsupportedChain(s.to_owned()))
    }
}

/// The BSC chain specification parser.
#[derive(Clone, Copy, Debug, Default)]
#[non_exhaustive]
pub struct BscChainSpecParser;

impl BscChainSpecParser {
    /// The names of the chains known by name.
    pub fn supported_chains() -> (r: Vec<&'static str>)
        ensures
            r@.len() == supported_chain_names().len(),
            forall|i: int| 0 <= i < r@.len() ==> #[trigger] r@[i]@ == supported_chain_names()[i],
    {
        let r = vec!["bsc", "bsc-testnet", "bsc-qanet", "local"];
        r
    }

    /// Resolves a chain argument, as `chain_value_parser` does.
    pub fn parse(s: &str, path_exists: bool) -> (r: Result<ChainValue, ChainSpecError>)
        ensures
            chain_value_outcome(s@, path_exists, r),
    {
        chain_value_parser(s, path_exists)
    }
}

/// Two resolutions agree: the same named chain, both a genesis file,
/// specifications that agree, or the same error.
pub open spec fn same_chain_value(
    r1: Result<ChainValue, ChainSpecError>,
    r2: Result<ChainValue, ChainSpecError>,
) -> bool {
    match (r1, r2) {
        (Ok(ChainValue::Named(a)), Ok(ChainValue::Named(b))) => a == b,
        (Ok(ChainValue::GenesisFile), Ok(ChainValue::GenesisFile)) => true,
        (Ok(ChainValue::Genesis(a)), Ok(ChainValue::Genesis(b))) => same_spec(a, b),
        (Err(e1), Err(e2)) => same_error(e1, e2),
        _ => false,
    }
}

/// Resolving a chain argument has one outcome per argument and file-system
/// answer: any two results that `chain_value_outcome` admits agree. So
/// `BscChainSpecParser::parse` resolves as `chain_value_parser` does.
pub proof fn law_chain_value_outcome_determined(
    s: Seq<char>,
    path_exists: bool,
    r1: Result<ChainValue, ChainSpecError>,
    r2: Result<ChainValue, ChainSpecError>,
)
    requires
        chain_value_outcome(s, path_exists, r1),
        chain_value_outcome(s, path_exists, r2),
    ensures
        same_chain_value(r1, r2),
{
}

/// An argument that names no known chain and no existing file, and starts
/// with `{`, resolves as `parse_genesis_json` parses it: the same
/// specification, or the same error.
pub proof fn law_inline_json_is_parsed_as_genesis(
    s: Seq<char>,
    r: Result<ChainValue, ChainSpecError>,
    g: Result<BscChainSpec, ChainSpecError>,
)
    requires
        named_chain(s) is None,
        starts_with_brace(s),
        chain_value_outcome(s, false, r),
        genesis_json_outcome(s, g),
    ensures
        match r {
            Ok(ChainValue::Genesis(spec)) => same_result(Ok(spec), g),
            Ok(_) => false,
            Err(e) => same_result(Err(e), g),
        },
{
}

/// Exactly the listed names resolve by name: an argument names a known
/// chain if and only if it is one of `supported_chain_names()`.
pub proof fn law_named_exactly_the_listed(s: Seq<char>)
    ensures
        named_chain(s) is Some <==> supported_chain_names().contains(s),
{
    let names = supported_chain_names();
    if named_chain(s) is Some {
        if s == "bsc"@ {
            assert(names[0] == s);
        } else if s == "bsc-testnet"@ {
            assert(names[1] == s);
        } else if s == "bsc-qanet"@ {
            assert(names[2] == s);
        } else {
            assert(names[3] == s);
        }
    }
    if names.contains(s) {
        let i = choose|i: int| 0 <= i < names.len() && names[i] == s;
        assert(i == 0 || i == 1 || i == 2 || i == 3);
    }
}

/// An argument that is not a listed name never resolves to a named chain:
/// it resolves to its file when one exists, and otherwise is parsed or
/// refused.
pub proof fn law_unlisted_argument_is_not_named(
    s: Seq<char>,
    path_exists: bool,
    r: Result<ChainValue, ChainSpecError>,
)
    requires
        !supported_chain_names().contains(s),
        chain_value_outcome(s, path_exists, r),
    ensures
        !(r matches Ok(ChainValue::Named(_))),
        path_exists ==> r matches Ok(ChainValue::GenesisFile),
{
    law_named_exactly_the_listed(s);
}

/// Every chain that the parser lists is resolved by name, each to its own
/// chain, whatever the file system holds.
pub proof fn law_supported_chains_resolve(i: int)
    requires
        0 <= i < supported_chain_names().len(),
    ensures
        named_chain(supported_chain_names()[i]) is Some,
        forall|j: int|
            0 <= j < supported_chain_names().len() && j != i ==> named_chain(
                supported_chain_names()[j],
            ) != named_chain(supported_chain_names()[i]),
{
    reveal_strlit("bsc");
    reveal_strlit("bsc-testnet");
    reveal_strlit("bsc-qanet");
    reveal_strlit("local");
    assert("bsc"@.len() == 3 && "bsc-testnet"@.len() == 11 && "bsc-qanet"@.len() == 9);
    assert("bsc"@ != "bsc-testnet"@);
    assert("bsc"@ != "bsc-qanet"@);
    assert("bsc"@ != "local"@);
    assert("bsc-testnet"@ != "bsc-qanet"@);
    assert("bsc-testnet"@ != "local"@);
    assert("bsc-qanet"@ != "local"@);
}

} // verus!
