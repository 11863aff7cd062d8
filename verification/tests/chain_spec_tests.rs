use vine_service::chain_spec::{try_vine_local_testnet_config, try_vine_staging_testnet_config};
use vine_service::chain_spec::{
    try_vine_development_config, vine_chain_spec_properties, vine_development_config,
    vine_local_testnet_config, vine_staging_testnet_config, ChainType, PropertyValue,
};

#[test]
fn properties() {
    let p = vine_chain_spec_properties();
    assert_eq!(p.len(), 2);
    assert_eq!(p[0].0, "tokenDecimals");
    assert!(matches!(p[0].1, PropertyValue::Number(18)));
    assert_eq!(p[1].0, "tokenSymbol");
    match &p[1].1 {
        PropertyValue::Text(t) => assert_eq!(t, "VNE"),
        _ => panic!("symbol is text"),
    }
}

#[test]
fn staging_without_wasm_fails() {
    let r = vine_staging_testnet_config(None);
    assert_eq!(r.err(), Some("Vine development wasm not available".to_string()));
}

#[test]
fn development_without_wasm_fails() {
    assert_eq!(
        vine_development_config(None).err(),
        Some("vine development wasm not available".to_string())
    );
    assert_eq!(
        vine_local_testnet_config(None).err(),
        Some("vine development wasm not available".to_string())
    );
}

#[test]
fn staging_config() {
    let cs = vine_staging_testnet_config(Some(&[1, 2])).unwrap();
    assert_eq!(cs.name, "Vine Mainnet");
    assert_eq!(cs.id, "Vine_mainnet");
    assert!(matches!(cs.chain_type, ChainType::Live));
    assert!(cs.boot_nodes.is_empty());
    assert_eq!(
        cs.telemetry_endpoints,
        Some(vec![("wss://telemetry.vine.io/submit/".to_string(), 0)])
    );
    assert_eq!(cs.protocol_id, Some("Vine".to_string()));
    assert_eq!(cs.fork_id, None);
    assert!(cs.extensions.fork_blocks.is_none());
    assert_eq!(cs.genesis.code, vec![1, 2]);
    assert_eq!(cs.genesis.evm_chain_id, 100);
}

#[test]
fn development_config() {
    let cs = vine_development_config(Some(&[3])).unwrap();
    assert_eq!(cs.name, "Development");
    assert_eq!(cs.id, "dev");
    assert!(matches!(cs.chain_type, ChainType::Development));
    assert_eq!(cs.telemetry_endpoints, None);
    assert_eq!(cs.genesis.staking.validator_count, 1);
    let checked = try_vine_development_config(Some(&[3])).unwrap().unwrap();
    assert_eq!(checked.genesis.balances, cs.genesis.balances);
}

#[test]
fn local_testnet_config() {
    let cs = vine_local_testnet_config(Some(&[3])).unwrap();
    assert_eq!(cs.name, "Local Testnet");
    assert_eq!(cs.id, "local_testnet");
    assert!(matches!(cs.chain_type, ChainType::Local));
    assert_eq!(cs.genesis.staking.validator_count, 2);
    assert_eq!(cs.properties.unwrap().len(), 2);
}

#[test]
fn checked_configs() {
    assert!(matches!(try_vine_staging_testnet_config(Some(&[1])), Some(Ok(_))));
    assert!(matches!(try_vine_staging_testnet_config(None), Some(Err(_))));
    assert!(matches!(try_vine_local_testnet_config(Some(&[1])), Some(Ok(_))));
    assert!(matches!(try_vine_development_config(None), Some(Err(_))));
}
