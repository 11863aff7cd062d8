use vine_service::remote_tests::{
    default_command, remote_test_action, Cli, Command, RemoteTestAction, Runtime, DEFAULT_URI,
};
use vine_service::rpc::{
    create_full, overrides_handle, DenyUnsafe, EthereumStorageSchema, FullDeps, RpcModuleKind,
    StorageOverrideKind, TaskExecutor, MAX_STORED_FILTERS,
};

fn deps(has_filter_pool: bool, enable_dev_signer: bool) -> FullDeps {
    FullDeps {
        deny_unsafe: DenyUnsafe::Yes,
        is_authority: true,
        enable_dev_signer,
        has_filter_pool,
        max_past_logs: 10_000,
        fee_history_cache_limit: 2048,
        execute_gas_limit_multiplier: 10,
    }
}

#[test]
fn full_rpc_with_filter_pool() {
    let m = create_full(&deps(true, false));
    assert_eq!(m.len(), 11);
    assert_eq!(m[0], RpcModuleKind::System { deny_unsafe: DenyUnsafe::Yes });
    assert_eq!(
        m[6],
        RpcModuleKind::Eth {
            is_authority: true,
            dev_signer: false,
            fee_history_cache_limit: 2048,
            execute_gas_limit_multiplier: 10
        }
    );
    assert_eq!(m[7], RpcModuleKind::EthFilter { max_stored_filters: 500, max_past_logs: 10_000 });
    assert_eq!(m[9], RpcModuleKind::Net { peer_count_as_hex: true });
    assert_eq!(m[10], RpcModuleKind::Web3);
    assert_eq!(MAX_STORED_FILTERS, 500);
}

#[test]
fn full_rpc_without_filter_pool() {
    let m = create_full(&deps(false, true));
    assert_eq!(m.len(), 10);
    assert!(!m.iter().any(|x| matches!(x, RpcModuleKind::EthFilter { .. })));
    assert!(matches!(m[6], RpcModuleKind::Eth { dev_signer: true, .. }));
    assert_eq!(m[7], RpcModuleKind::EthPubSub { executor: TaskExecutor::Subscription });
    assert_eq!(m[3], RpcModuleKind::Grandpa { executor: TaskExecutor::Grandpa });
    assert_eq!(m[5], RpcModuleKind::Beefy { executor: TaskExecutor::Beefy });
}

#[test]
fn overrides() {
    let o = overrides_handle();
    assert_eq!(
        o.schemas,
        vec![
            (EthereumStorageSchema::V1, StorageOverrideKind::SchemaV1),
            (EthereumStorageSchema::V2, StorageOverrideKind::SchemaV2),
            (EthereumStorageSchema::V3, StorageOverrideKind::SchemaV3),
        ]
    );
    assert_eq!(o.fallback, StorageOverrideKind::RuntimeApi);
}

#[test]
fn remote_test_actions() {
    let cli = Cli {
        uri: DEFAULT_URI.to_string(),
        runtime: Runtime::Vine,
        command: default_command(),
        snapshot_limit: None,
    };
    match remote_test_action(&cli) {
        RemoteTestAction::SanityCheck { currency_unit, network, uri } => {
            assert_eq!(currency_unit, 1_000_000_000_000_000_000);
            assert_eq!(network, "vine");
            assert_eq!(uri, "wss://-rpc.vine.io:443");
        }
        _ => panic!("sanity check expected"),
    }
    let cli = Cli { uri: "ws://x".to_string(), runtime: Runtime::Vine, command: Command::Snapshot, snapshot_limit: Some(5) };
    match remote_test_action(&cli) {
        RemoteTestAction::Snapshot { snapshot_limit, currency_unit, uri } => {
            assert_eq!(snapshot_limit, Some(5));
            assert_eq!(currency_unit, 1_000_000_000_000_000_000);
            assert_eq!(uri, "ws://x");
        }
        _ => panic!("snapshot expected"),
    }
    let cli = Cli { uri: "ws://y".to_string(), runtime: Runtime::Vine, command: Command::CheckMigration, snapshot_limit: None };
    assert!(matches!(remote_test_action(&cli), RemoteTestAction::CheckMigration { .. }));
}
