//! Chain specification, genesis and RPC wiring decisions of the vine node,
//! stated over plain values and proved with Verus.

pub mod keys;
pub mod host_config;
pub mod evm;
pub mod genesis;
pub mod genesis_laws;
pub mod chain_spec;
pub mod rpc;
pub mod remote_tests;
