# bsc_chainspec

Chain specification parsing for BNB Smart Chain nodes, verified with Verus.

- `src/hardfork.rs` — hardforks, their names, and activation conditions.
- `src/schedule.rs` — the hardfork schedule (one entry per fork name) and its laws.
- `src/json.rs` — JSON documents as the parser reads them; serde_json parses.
- `src/genesis.rs` — the schedule a genesis document defines, and the law that
  states each fork's activation in closed form.
- `src/chainspec.rs` — the chain specification built from a genesis document.
- `src/parser.rs` — resolving a chain argument.
- `app/lib.rs` — the file-system side: checking for and reading genesis files.

What is not here: reth's chain-specification, CLI and fork crates are
published only as empty placeholders, so the hardfork schedule and fork types
are kept in this crate (following reth's), and the genesis header is not
built. A node derives that header from the genesis with reth's chain
specification and, for BSC, clears its post-merge fields (withdrawals root,
blob gas fields, parent beacon block root, requests hash) and re-seals it so
that the genesis hash matches geth-bsc's; none of that happens here.
