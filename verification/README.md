# vine_service

The chain specifications, genesis state, RPC wiring decisions and remote-test
dispatch of the vine node, written as a Verus library over plain values.

- `src/keys.rs` — development keys derived from seeds (through `sp_core`), authority
  keys and the well-known test accounts.
- `src/evm.rs` — the EVM accounts of the genesis (addresses and balances parsed through
  `sp_core`'s `H160` and `U256`).
- `src/host_config.rs` — the parachains host configuration of the genesis.
- `src/genesis.rs` — the staging and test network genesis, with the laws that every
  genesis staker can pay its bond and what the total issuance is.
- `src/genesis_laws.rs` — what a genesis depends on, the development and local genesis as
  test network genesis, how a genesis splits over its authorities, and that the development
  authorities' stashes and controllers are endowed.
- `src/chain_spec.rs` — the staging, development and local test chain specifications.
- `src/rpc.rs` — which RPC modules a full node serves and in which order; the Ethereum
  storage overrides.
- `src/remote_tests.rs` — which bags-list remote test a command line runs.
- `app/` — the command-line program, the JSON form of the chain properties, the node's
  chain-spec and runtime genesis built from the library's, and the wiring of the node's RPC
  handles; it needs the Substrate, Frontier and vine runtime crates.
