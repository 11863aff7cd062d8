//! The chain specifications of the vine networks.
use crate::genesis::{
    genesis_authorities, is_staging_genesis, is_testnet_genesis, stakers_funded,
    vine_development_config_genesis, vine_local_testnet_genesis,
    vine_staging_testnet_config_genesis, GenesisConfig, EVM_CHAIN_ID, TOKEN_DECIMALS,
};
use crate::genesis_laws::{same_genesis, staging_genesis_depends_only_on_code_and_chain};
use crate::keys::{
    authority_keys_derivable, dev_key_derivable, dev_key_is_derivable, is_authority_keys_of,
    testnet_accounts_derivable, KeyScheme,
};
use vstd::prelude::*;
use vstd::string::*;

verus! {

/// The telemetry endpoint of the staging network.
pub const VINE_STAGING_TELEMETRY_URL: &'static str = "wss://telemetry.vine.io/submit/";

/// The network protocol id of the vine networks.
pub const DEFAULT_PROTOCOL_ID: &'static str = "Vine";

/// The kind of a chain.
#[derive(Debug)]
pub enum ChainType {
    Development,
    Local,
    Live,
    Custom(String),
}

/// The value of a chain property.
#[derive(Debug)]
pub enum PropertyValue {
    Number(u64),
    Text(String),
}

/// Node extensions of a chain specification, customizable from the chain spec: block
/// numbers with known hashes, known bad block hashes and the light sync state (as JSON text).
#[derive(Debug)]
pub struct Extensions {
    pub fork_blocks: Option<Vec<(u32, [u8; 32])>>,
    pub bad_blocks: Option<Vec<[u8; 32]>>,
    pub light_sync_state: Option<String>,
}

impl Extensions {
    /// Whether no extension is set.
    pub open spec fn is_empty(self) -> bool {
        &&& self.fork_blocks is None
        &&& self.bad_blocks is None
        &&& self.light_sync_state is None
    }
}

impl Default for Extensions {
    fn default() -> (e: Extensions)
        ensures
            e.is_empty(),
    {
        Extensions { fork_blocks: None, bad_blocks: None, light_sync_state: None }
    }
}

/// A chain specification: its identity, how the node reaches its network, and its genesis.
#[derive(Debug)]
pub struct ChainSpec {
    pub name: String,
    pub id: String,
    pub chain_type: ChainType,
    pub boot_nodes: Vec<String>,
    pub telemetry_endpoints: Option<Vec<(String, u8)>>,
    pub protocol_id: Option<String>,
    pub fork_id: Option<String>,
    pub properties: Option<Vec<(String, PropertyValue)>>,
    pub extensions: Extensions,
    pub genesis: GenesisConfig,
}

/// The properties of the vine chains, ordered by key: the token has eighteen decimals and
/// the symbol `VNE`.
pub open spec fn is_vine_properties(p: Seq<(String, PropertyValue)>) -> bool {
    &&& p.len() == 2
    &&& p[0].0@ == "tokenDecimals"@
    &&& p[0].1 matches PropertyValue::Number(n) && n == 18
    &&& p[1].0@ == "tokenSymbol"@
    &&& p[1].1 matches PropertyValue::Text(t) && t@ == "VNE"@
}

/// The properties of the vine chains.
pub fn vine_chain_spec_properties() -> (properties: Vec<(String, PropertyValue)>)
    ensures
        is_vine_properties(properties@),
{
    let mut properties: Vec<(String, PropertyValue)> = Vec::new();
    properties.push((String::from_str("tokenDecimals"), PropertyValue::Number(18)));
    properties.push((String::from_str("tokenSymbol"), PropertyValue::Text(String::from_str("VNE"))));
    properties
}

/// The decimals that the chain properties announce are those of the native token.
pub proof fn properties_announce_token_decimals(p: Seq<(String, PropertyValue)>)
    requires
        is_vine_properties(p),
    ensures
        p[0].1 matches PropertyValue::Number(n) && n == TOKEN_DECIMALS,
{
}

/// The fields that every vine chain specification shares: no boot nodes, the vine protocol
/// id, no fork id, the vine properties and no extensions.
pub open spec fn is_vine_chain_spec(cs: ChainSpec, name: Seq<char>, id: Seq<char>) -> bool {
    &&& cs.name@ == name
    &&& cs.id@ == id
    &&& cs.boot_nodes@.len() == 0
    &&& cs.protocol_id matches Some(p) && p@ == DEFAULT_PROTOCOL_ID@
    &&& cs.fork_id is None
    &&& cs.properties matches Some(p) && is_vine_properties(p@)
    &&& cs.extensions.is_empty()
}

/// The message when the runtime's wasm blob is missing for the staging network.
pub open spec fn staging_wasm_missing() -> Seq<char> {
    "Vine development wasm not available"@
}

/// The message when the runtime's wasm blob is missing for a development network.
pub open spec fn development_wasm_missing() -> Seq<char> {
    "vine development wasm not available"@
}

/// The vine staging network ("Vine Mainnet"): live, with the staging telemetry endpoint at
/// verbosity 0 and the staging genesis on EVM chain 100.  Fails when the runtime's wasm blob
/// is missing.
pub fn vine_staging_testnet_config(wasm_binary: Option<&[u8]>) -> (spec: Result<ChainSpec, String>)
    requires
        wasm_binary is Some ==> dev_key_derivable(KeyScheme::Sr25519, "Alice"@),
    ensures
        match spec {
            Err(e) => wasm_binary is None && e@ == staging_wasm_missing(),
            Ok(cs) => {
                &&& wasm_binary matches Some(w) && is_staging_genesis(
                    cs.genesis,
                    w@,
                    Seq::empty(),
                    Seq::empty(),
                    EVM_CHAIN_ID,
                )
                &&& is_vine_chain_spec(cs, "Vine Mainnet"@, "Vine_mainnet"@)
                &&& cs.chain_type is Live
                &&& cs.telemetry_endpoints matches Some(t) && t@.len() == 1 && t@[0].0@
                    == VINE_STAGING_TELEMETRY_URL@ && t@[0].1 == 0
            },
        },
{
    let wasm_binary = match wasm_binary {
        Some(w) => w,
        None => {
            return Err(String::from_str("Vine development wasm not available"));
        },
    };
    let boot_nodes: Vec<String> = Vec::new();
    let mut telemetry: Vec<(String, u8)> = Vec::new();
    telemetry.push((String::from_str(VINE_STAGING_TELEMETRY_URL), 0));
    Ok(
        ChainSpec {
            name: String::from_str("Vine Mainnet"),
            id: String::from_str("Vine_mainnet"),
            chain_type: ChainType::Live,
            boot_nodes,
            telemetry_endpoints: Some(telemetry),
            protocol_id: Some(String::from_str(DEFAULT_PROTOCOL_ID)),
            fork_id: None,
            properties: Some(vine_chain_spec_properties()),
            extensions: Extensions::default(),
            genesis: vine_staging_testnet_config_genesis(wasm_binary, EVM_CHAIN_ID),
        },
    )
}

/// The genesis of the staging chain specification is the staging genesis of its runtime code
/// on EVM chain 100, as `vine_staging_testnet_config_genesis` builds it, and the specification
/// carries no extensions.
pub proof fn staging_config_genesis_is_staging_genesis(cs: ChainSpec, g: GenesisConfig, wasm: Seq<u8>)
    requires
        is_staging_genesis(cs.genesis, wasm, Seq::empty(), Seq::empty(), EVM_CHAIN_ID),
        is_vine_chain_spec(cs, "Vine Mainnet"@, "Vine_mainnet"@),
        is_staging_genesis(g, wasm, Seq::empty(), Seq::empty(), EVM_CHAIN_ID),
    ensures
        same_genesis(cs.genesis, g),
        cs.extensions.is_empty(),
{
    staging_genesis_depends_only_on_code_and_chain(
        cs.genesis,
        g,
        wasm,
        wasm,
        Seq::empty(),
        Seq::empty(),
        EVM_CHAIN_ID,
        EVM_CHAIN_ID,
    );
}

/// The vine staging network where the keys it needs can be derived; `None` where not.
pub fn try_vine_staging_testnet_config(wasm_binary: Option<&[u8]>) -> (spec: Option<
    Result<ChainSpec, String>,
>)
    ensures
        spec is None <==> wasm_binary is Some && !dev_key_derivable(KeyScheme::Sr25519, "Alice"@),
        spec matches Some(Err(e)) ==> wasm_binary is None && e@ == staging_wasm_missing(),
        spec matches Some(Ok(cs)) ==> wasm_binary matches Some(w) && is_staging_genesis(
            cs.genesis,
            w@,
            Seq::empty(),
            Seq::empty(),
            EVM_CHAIN_ID,
        ) && is_vine_chain_spec(cs, "Vine Mainnet"@, "Vine_mainnet"@) && cs.chain_type is Live,
{
    if wasm_binary.is_some() && !dev_key_is_derivable(KeyScheme::Sr25519, "Alice") {
        None
    } else {
        Some(vine_staging_testnet_config(wasm_binary))
    }
}

/// The keys the development network needs.
pub open spec fn development_keys_derivable() -> bool {
    authority_keys_derivable("Alice"@) && testnet_accounts_derivable()
}

/// The keys the local test network needs.
pub open spec fn local_testnet_keys_derivable() -> bool {
    authority_keys_derivable("Alice"@) && authority_keys_derivable("Bob"@)
        && testnet_accounts_derivable()
}

/// The development chain specification: Alice is the single validator.  Fails when the
/// runtime's wasm blob is missing.
pub fn vine_development_config(wasm_binary: Option<&[u8]>) -> (spec: Result<ChainSpec, String>)
    requires
        wasm_binary is Some ==> development_keys_derivable(),
    ensures
        match spec {
            Err(e) => wasm_binary is None && e@ == development_wasm_missing(),
            Ok(cs) => {
                &&& wasm_binary matches Some(w) && is_testnet_genesis(
                    cs.genesis,
                    w@,
                    genesis_authorities(cs.genesis),
                    None,
                    EVM_CHAIN_ID,
                )
                &&& genesis_authorities(cs.genesis).len() == 1
                &&& is_authority_keys_of(genesis_authorities(cs.genesis)[0], "Alice"@)
                &&& stakers_funded(cs.genesis)
                &&& is_vine_chain_spec(cs, "Development"@, "dev"@)
                &&& cs.chain_type is Development
                &&& cs.telemetry_endpoints is None
            },
        },
{
    let wasm_binary = match wasm_binary {
        Some(w) => w,
        None => {
            return Err(String::from_str("vine development wasm not available"));
        },
    };
    Ok(
        ChainSpec {
            name: String::from_str("Development"),
            id: String::from_str("dev"),
            chain_type: ChainType::Development,
            boot_nodes: Vec::new(),
            telemetry_endpoints: None,
            protocol_id: Some(String::from_str(DEFAULT_PROTOCOL_ID)),
            fork_id: None,
            properties: Some(vine_chain_spec_properties()),
            extensions: Extensions::default(),
            genesis: vine_development_config_genesis(wasm_binary),
        },
    )
}

/// Whether every key the development network needs can be derived.
pub fn development_keys_are_derivable() -> (ok: bool)
    ensures
        ok == development_keys_derivable(),
{
    authority_keys_are_derivable("Alice") && testnet_accounts_are_derivable()
}

/// Whether every key of the local test network can be derived.
pub fn local_testnet_keys_are_derivable() -> (ok: bool)
    ensures
        ok == local_testnet_keys_derivable(),
{
    authority_keys_are_derivable("Alice") && authority_keys_are_derivable("Bob")
        && testnet_accounts_are_derivable()
}

/// Whether all keys of the authority of a seed can be derived.
fn authority_keys_are_derivable(seed: &str) -> (ok: bool)
    ensures
        ok == authority_keys_derivable(seed@),
{
    crate::keys::try_get_authority_keys_from_seed_no_beefy(seed).is_some()
}

/// Whether all development accounts can be derived.
fn testnet_accounts_are_derivable() -> (ok: bool)
    ensures
        ok == testnet_accounts_derivable(),
{
    crate::keys::try_testnet_accounts().is_some()
}

/// The development chain specification where its keys can be derived; `None` where not.
pub fn try_vine_development_config(wasm_binary: Option<&[u8]>) -> (spec: Option<
    Result<ChainSpec, String>,
>)
    ensures
        spec is None <==> wasm_binary is Some && !development_keys_derivable(),
        spec matches Some(Err(e)) ==> wasm_binary is None && e@ == development_wasm_missing(),
        spec matches Some(Ok(cs)) ==> wasm_binary matches Some(w) && is_testnet_genesis(
            cs.genesis,
            w@,
            genesis_authorities(cs.genesis),
            None,
            EVM_CHAIN_ID,
        ) && is_vine_chain_spec(cs, "Development"@, "dev"@) && cs.chain_type is Development,
{
    if wasm_binary.is_some() && !development_keys_are_derivable() {
        None
    } else {
        Some(vine_development_config(wasm_binary))
    }
}

/// The local test network chain specification: Alice and Bob are the validators.  Fails
/// when the runtime's wasm blob is missing.
pub fn vine_local_testnet_config(wasm_binary: Option<&[u8]>) -> (spec: Result<ChainSpec, String>)
    requires
        wasm_binary is Some ==> local_testnet_keys_derivable(),
    ensures
        match spec {
            Err(e) => wasm_binary is None && e@ == development_wasm_missing(),
            Ok(cs) => {
                &&& wasm_binary matches Some(w) && is_testnet_genesis(
                    cs.genesis,
                    w@,
                    genesis_authorities(cs.genesis),
                    None,
                    EVM_CHAIN_ID,
                )
                &&& genesis_authorities(cs.genesis).len() == 2
                &&& is_authority_keys_of(genesis_authorities(cs.genesis)[0], "Alice"@)
                &&& is_authority_keys_of(genesis_authorities(cs.genesis)[1], "Bob"@)
                &&& stakers_funded(cs.genesis)
                &&& is_vine_chain_spec(cs, "Local Testnet"@, "local_testnet"@)
                &&& cs.chain_type is Local
                &&& cs.telemetry_endpoints is None
            },
        },
{
    let wasm_binary = match wasm_binary {
        Some(w) => w,
        None => {
            return Err(String::from_str("vine development wasm not available"));
        },
    };
    Ok(
        ChainSpec {
            name: String::from_str("Local Testnet"),
            id: String::from_str("local_testnet"),
            chain_type: ChainType::Local,
            boot_nodes: Vec::new(),
            telemetry_endpoints: None,
            protocol_id: Some(String::from_str(DEFAULT_PROTOCOL_ID)),
            fork_id: None,
            properties: Some(vine_chain_spec_properties()),
            extensions: Extensions::default(),
            genesis: vine_local_testnet_genesis(wasm_binary),
        },
    )
}

/// The local test network chain specification where its keys can be derived; `None` where
/// not.
pub fn try_vine_local_testnet_config(wasm_binary: Option<&[u8]>) -> (spec: Option<
    Result<ChainSpec, String>,
>)
    ensures
        spec is None <==> wasm_binary is Some && !local_testnet_keys_derivable(),
        spec matches Some(Err(e)) ==> wasm_binary is None && e@ == development_wasm_missing(),
        spec matches Some(Ok(cs)) ==> wasm_binary matches Some(w) && is_testnet_genesis(
            cs.genesis,
            w@,
            genesis_authorities(cs.genesis),
            None,
            EVM_CHAIN_ID,
        ) && is_vine_chain_spec(cs, "Local Testnet"@, "local_testnet"@) && cs.chain_type is Local,
{
    if wasm_binary.is_some() && !local_testnet_keys_are_derivable() {
        None
    } else {
        Some(vine_local_testnet_config(wasm_binary))
    }
}

} // verus!
