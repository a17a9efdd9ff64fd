//! Why a chain argument or a genesis document was refused.

use vstd::prelude::*;
use vstd::string::StringExecFns;

verus! {

/// Why a chain specification could not be produced.
#[derive(Debug, PartialEq, Eq)]
pub enum ChainSpecError {
    /// serde_json could not read the text as a genesis; serde_json's account.
    InvalidGenesis(String),
    /// serde_json could not read the text as a JSON value; serde_json's account.
    InvalidJson(String),
    /// The argument named no known chain, no existing file, and was not JSON.
    UnsupportedChain(String),
}

impl ChainSpecError {
    /// The error's message.
    pub open spec fn spec_message(self) -> Seq<char> {
        match self {
            ChainSpecError::InvalidGenesis(d) => "Failed to parse genesis JSON: "@ + d@,
            ChainSpecError::InvalidJson(d) => "Failed to parse genesis JSON as Value: "@ + d@,
            ChainSpecError::UnsupportedChain(s) => "Unsupported chain or invalid genesis file: "@
                + s@,
        }
    }

    /// The error's message.
    pub fn message(&self) -> (r: String)
        ensures
            r@ == self.spec_message(),
    {
        match self {
            ChainSpecError::InvalidGenesis(d) => {
                let mut m = "Failed to parse genesis JSON: ".to_owned();
                m.append(d.as_str());
                m
            },
            ChainSpecError::InvalidJson(d) => {
                let mut m = "Failed to parse genesis JSON as Value: ".to_owned();
                m.append(d.as_str());
                m
            },
            ChainSpecError::UnsupportedChain(s) => {
                let mut m = "Unsupported chain or invalid genesis file: ".to_owned();
                m.append(s.as_str());
                m
            },
        }
    }
}

} // verus!
