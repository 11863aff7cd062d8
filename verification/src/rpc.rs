//! Which RPC modules a full node serves, and in which order it installs them; and which
//! Ethereum storage overrides it reads state through.
use vstd::prelude::*;

verus! {

/// The number of Ethereum log filters the node keeps.
pub const MAX_STORED_FILTERS: usize = 500;

/// Whether unsafe RPC calls are refused.
#[derive(Clone, Copy, Debug, PartialEq, Eq, Structural)]
pub enum DenyUnsafe {
    Yes,
    No,
}

/// The settings of a full node that decide which RPC modules it serves.
#[derive(Clone, Copy, Debug)]
pub struct FullDeps {
    /// Whether to deny unsafe calls.
    pub deny_unsafe: DenyUnsafe,
    /// Whether the node is an authority.
    pub is_authority: bool,
    /// Whether to enable the development signer.
    pub enable_dev_signer: bool,
    /// Whether the node keeps a pool of Ethereum log filters.
    pub has_filter_pool: bool,
    /// Maximum number of logs in a query.
    pub max_past_logs: u32,
    /// Maximum fee history cache size.
    pub fee_history_cache_limit: u64,
    /// The multiplier of the gas limit of `eth_call` and `eth_estimateGas`.
    pub execute_gas_limit_multiplier: u64,
}

/// The task executor that drives a module's subscriptions.
#[derive(Clone, Copy, Debug, PartialEq, Eq, Structural)]
pub enum TaskExecutor {
    /// The subscription task executor handed to `create_full`.
    Subscription,
    /// The executor of the GRANDPA dependencies.
    Grandpa,
    /// The executor of the BEEFY dependencies.
    Beefy,
}

/// An RPC module, with the settings it is created with.
#[derive(Clone, Copy, Debug, PartialEq, Eq, Structural)]
pub enum RpcModuleKind {
    System { deny_unsafe: DenyUnsafe },
    TransactionPayment,
    Babe { deny_unsafe: DenyUnsafe },
    Grandpa { executor: TaskExecutor },
    SyncState,
    Beefy { executor: TaskExecutor },
    Eth {
        is_authority: bool,
        dev_signer: bool,
        fee_history_cache_limit: u64,
        execute_gas_limit_multiplier: u64,
    },
    EthFilter { max_stored_filters: usize, max_past_logs: u32 },
    EthPubSub { executor: TaskExecutor },
    Net { peer_count_as_hex: bool },
    Web3,
}

/// The modules before the Ethereum filter module.
pub open spec fn modules_before_filter(deps: FullDeps) -> Seq<RpcModuleKind> {
    seq![
        RpcModuleKind::System { deny_unsafe: deps.deny_unsafe },
        RpcModuleKind::TransactionPayment,
        RpcModuleKind::Babe { deny_unsafe: deps.deny_unsafe },
        RpcModuleKind::Grandpa { executor: TaskExecutor::Grandpa },
        RpcModuleKind::SyncState,
        RpcModuleKind::Beefy { executor: TaskExecutor::Beefy },
        RpcModuleKind::Eth {
            is_authority: deps.is_authority,
            dev_signer: deps.enable_dev_signer,
            fee_history_cache_limit: deps.fee_history_cache_limit,
            execute_gas_limit_multiplier: deps.execute_gas_limit_multiplier,
        },
    ]
}

/// The modules after the Ethereum filter module.
pub open spec fn modules_after_filter() -> Seq<RpcModuleKind> {
    seq![
        RpcModuleKind::EthPubSub { executor: TaskExecutor::Subscription },
        RpcModuleKind::Net { peer_count_as_hex: true },
        RpcModuleKind::Web3,
    ]
}

/// The modules a full node serves, in the order it installs them.  The Ethereum filter
/// module is served only where the node keeps a filter pool.
pub open spec fn full_rpc_modules(deps: FullDeps) -> Seq<RpcModuleKind> {
    modules_before_filter(deps) + (if deps.has_filter_pool {
        seq![
            RpcModuleKind::EthFilter {
                max_stored_filters: MAX_STORED_FILTERS,
                max_past_logs: deps.max_past_logs,
            },
        ]
    } else {
        Seq::empty()
    }) + modules_after_filter()
}


/// Whether a module is created with the settings of the node: unsafe calls are denied as
/// the node says; the Ethereum API knows whether the node is an authority, signs with the
/// development signer exactly when the node enables it, and takes the node's fee history
/// limit and gas limit multiplier; the filter module keeps 500 filters and answers at most
/// the node's number of logs; the peer count is given in hexadecimal; and each subscription
/// module runs on the executor of its own dependencies.
pub open spec fn takes_node_settings(m: RpcModuleKind, deps: FullDeps) -> bool {
    match m {
        RpcModuleKind::System { deny_unsafe } => deny_unsafe == deps.deny_unsafe,
        RpcModuleKind::Babe { deny_unsafe } => deny_unsafe == deps.deny_unsafe,
        RpcModuleKind::Grandpa { executor } => executor == TaskExecutor::Grandpa,
        RpcModuleKind::Beefy { executor } => executor == TaskExecutor::Beefy,
        RpcModuleKind::Eth {
            is_authority,
            dev_signer,
            fee_history_cache_limit,
            execute_gas_limit_multiplier,
        } => {
            &&& is_authority == deps.is_authority
            &&& dev_signer == deps.enable_dev_signer
            &&& fee_history_cache_limit == deps.fee_history_cache_limit
            &&& execute_gas_limit_multiplier == deps.execute_gas_limit_multiplier
        },
        RpcModuleKind::EthFilter { max_stored_filters, max_past_logs } => {
            &&& max_stored_filters == 500
            &&& max_past_logs == deps.max_past_logs
        },
        RpcModuleKind::EthPubSub { executor } => executor == TaskExecutor::Subscription,
        RpcModuleKind::Net { peer_count_as_hex } => peer_count_as_hex,
        _ => true,
    }
}

/// Every module that a full node installs is created with the node's settings, whatever
/// they are; and the node serves exactly one Ethereum API.
pub proof fn full_rpc_modules_take_node_settings(deps: FullDeps)
    ensures
        forall|i: int|
            0 <= i < full_rpc_modules(deps).len() ==> takes_node_settings(
                #[trigger] full_rpc_modules(deps)[i],
                deps,
            ),
        exists|i: int|
            0 <= i < full_rpc_modules(deps).len() && (#[trigger] full_rpc_modules(deps)[i]) is Eth,
{
    let m = full_rpc_modules(deps);
    assert(m[6] is Eth);
    assert forall|i: int| 0 <= i < m.len() implies takes_node_settings(#[trigger] m[i], deps) by {
        if deps.has_filter_pool {
            assert(m[7] == (RpcModuleKind::EthFilter {
                max_stored_filters: MAX_STORED_FILTERS,
                max_past_logs: deps.max_past_logs,
            }));
        }
    }
}

/// The RPC modules of a full node, in the order they are installed.
pub fn create_full(deps: &FullDeps) -> (modules: Vec<RpcModuleKind>)
    ensures
        modules@ == full_rpc_modules(*deps),
        forall|i: int|
            0 <= i < modules@.len() ==> takes_node_settings(#[trigger] modules@[i], *deps),
        deps.has_filter_pool <==> exists|i: int|
            0 <= i < modules@.len() && (#[trigger] modules@[i]) is EthFilter,
{
    let mut modules: Vec<RpcModuleKind> = Vec::new();
    modules.push(RpcModuleKind::System { deny_unsafe: deps.deny_unsafe });
    modules.push(RpcModuleKind::TransactionPayment);
    let dev_signer = deps.enable_dev_signer;
    modules.push(RpcModuleKind::Babe { deny_unsafe: deps.deny_unsafe });
    modules.push(RpcModuleKind::Grandpa { executor: TaskExecutor::Grandpa });
    modules.push(RpcModuleKind::SyncState);
    modules.push(RpcModuleKind::Beefy { executor: TaskExecutor::Beefy });
    modules.push(
        RpcModuleKind::Eth {
            is_authority: deps.is_authority,
            dev_signer,
            fee_history_cache_limit: deps.fee_history_cache_limit,
            execute_gas_limit_multiplier: deps.execute_gas_limit_multiplier,
        },
    );
    if deps.has_filter_pool {
        modules.push(
            RpcModuleKind::EthFilter {
                max_stored_filters: MAX_STORED_FILTERS,
                max_past_logs: deps.max_past_logs,
            },
        );
    }
    modules.push(RpcModuleKind::EthPubSub { executor: TaskExecutor::Subscription });
    modules.push(RpcModuleKind::Net { peer_count_as_hex: true });
    modules.push(RpcModuleKind::Web3);
    assert(modules@ =~= full_rpc_modules(*deps));
    proof {
        full_rpc_modules_take_node_settings(*deps);
        eth_filter_served_iff_filter_pool(*deps);
    }
    modules
}

/// Whether a list of modules holds an Ethereum filter module.
pub open spec fn serves_eth_filter(modules: Seq<RpcModuleKind>) -> bool {
    exists|i: int| 0 <= i < modules.len() && (#[trigger] modules[i]) is EthFilter
}

/// A full node serves Ethereum log filters exactly when it keeps a filter pool, and each
/// module at most once.
pub proof fn eth_filter_served_iff_filter_pool(deps: FullDeps)
    ensures
        serves_eth_filter(full_rpc_modules(deps)) <==> deps.has_filter_pool,
        forall|i: int, j: int|
            0 <= i < j < full_rpc_modules(deps).len() ==> full_rpc_modules(deps)[i]
                != full_rpc_modules(deps)[j],
{
    let m = full_rpc_modules(deps);
    if deps.has_filter_pool {
        assert(m[7] is EthFilter);
    } else {
        assert(forall|i: int| 0 <= i < m.len() ==> !(#[trigger] m[i] is EthFilter));
    }
}

/// The versions of the Ethereum storage schema.
#[derive(Clone, Copy, Debug, PartialEq, Eq, Structural)]
pub enum EthereumStorageSchema {
    V1,
    V2,
    V3,
}

/// How state of the Ethereum pallet is read.
#[derive(Clone, Copy, Debug, PartialEq, Eq, Structural)]
pub enum StorageOverrideKind {
    SchemaV1,
    SchemaV2,
    SchemaV3,
    RuntimeApi,
}

/// The storage overrides of a node: one per schema version, ordered by version, and a
/// fallback.
#[derive(Debug)]
pub struct StorageOverrides {
    pub schemas: Vec<(EthereumStorageSchema, StorageOverrideKind)>,
    pub fallback: StorageOverrideKind,
}

/// The override that reads a schema version directly from storage.
pub open spec fn override_for(schema: EthereumStorageSchema) -> StorageOverrideKind {
    match schema {
        EthereumStorageSchema::V1 => StorageOverrideKind::SchemaV1,
        EthereumStorageSchema::V2 => StorageOverrideKind::SchemaV2,
        EthereumStorageSchema::V3 => StorageOverrideKind::SchemaV3,
    }
}

/// The storage overrides: each schema version is read by its own override, and everything
/// else through the runtime API.
pub fn overrides_handle() -> (overrides: StorageOverrides)
    ensures
        overrides.schemas@ == seq![
            (EthereumStorageSchema::V1, StorageOverrideKind::SchemaV1),
            (EthereumStorageSchema::V2, StorageOverrideKind::SchemaV2),
            (EthereumStorageSchema::V3, StorageOverrideKind::SchemaV3),
        ],
        forall|i: int|
            0 <= i < overrides.schemas@.len() ==> (#[trigger] overrides.schemas@[i]).1
                == override_for(overrides.schemas@[i].0),
        overrides.fallback == StorageOverrideKind::RuntimeApi,
{
    let mut schemas: Vec<(EthereumStorageSchema, StorageOverrideKind)> = Vec::new();
    schemas.push((EthereumStorageSchema::V1, StorageOverrideKind::SchemaV1));
    schemas.push((EthereumStorageSchema::V2, StorageOverrideKind::SchemaV2));
    schemas.push((EthereumStorageSchema::V3, StorageOverrideKind::SchemaV3));
    assert(schemas@ =~= seq![
        (EthereumStorageSchema::V1, StorageOverrideKind::SchemaV1),
        (EthereumStorageSchema::V2, StorageOverrideKind::SchemaV2),
        (EthereumStorageSchema::V3, StorageOverrideKind::SchemaV3),
    ]);
    StorageOverrides { schemas, fallback: StorageOverrideKind::RuntimeApi }
}

} // verus!
