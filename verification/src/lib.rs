//! Chain specification parsing for BNB Smart Chain nodes: resolving a chain
//! argument, and deriving the hardfork schedule from a geth-style genesis file.

pub mod hardfork;
pub mod json;
pub mod genesis;
pub mod schedule;
pub mod error;
pub mod chainspec;
pub mod parser;
