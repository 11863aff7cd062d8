use vine_service::genesis::{babe_genesis_epoch_config, AllowedSlots};
use vine_service::evm::{evm_genesis_accounts, parse_h160, parse_u256};
use vine_service::genesis::{
    vine_development_config_genesis, vine_local_testnet_genesis, vine_session_keys,
    vine_staging_testnet_config_genesis, vine_testnet_genesis, Forcing, Perbill, StakerStatus,
    STASH, TESTNET_ENDOWMENT, UNITS,
};
use vine_service::host_config::{default_parachains_host_configuration, Weight, MAX_POV_SIZE};
use vine_service::keys::{get_account_id_from_seed, get_authority_keys_from_seed_no_beefy};

#[test]
fn perbill_from_percent() {
    assert_eq!(Perbill::from_percent(10).parts, 100_000_000);
    assert_eq!(Perbill::from_percent(100).parts, 1_000_000_000);
    assert_eq!(Perbill::from_percent(250).parts, 1_000_000_000);
    assert_eq!(Perbill::from_percent(0).parts, 0);
}

#[test]
fn weight_builders() {
    let w = Weight::from_ref_time(7).set_proof_size(9);
    assert_eq!(w, Weight { ref_time: 7, proof_size: 9 });
}

#[test]
fn host_configuration_values() {
    let c = default_parachains_host_configuration();
    assert_eq!(c.max_code_size, 3 * 1024 * 1024);
    assert_eq!(c.max_pov_size, MAX_POV_SIZE);
    assert_eq!(c.max_head_data_size, 32768);
    assert_eq!(c.ump_service_total_weight.ref_time, 100_000_000_000);
    assert_eq!(c.ump_service_total_weight.proof_size, 5 * 1024 * 1024);
    assert_eq!(c.max_upward_message_size, 51200);
    assert_eq!(c.n_delay_tranches, 25);
    assert_eq!(c.minimum_validation_upgrade_delay, 5);
}

#[test]
fn parse_h160_reads_hex_big_endian() {
    let a = parse_h160("0x00112233445566778899aabbccddeeff00010203");
    assert_eq!(a[0], 0x00);
    assert_eq!(a[1], 0x11);
    assert_eq!(a[10], 0xaa);
    assert_eq!(a[19], 0x03);
    let b = parse_h160("CB90cad4fafd23eb939c028263520156aa078831");
    assert_eq!(b[0], 0xcb);
}

#[test]
fn parse_u256_values() {
    assert_eq!(parse_u256("0x0"), [0, 0, 0, 0]);
    assert_eq!(parse_u256("ff"), [255, 0, 0, 0]);
    assert_eq!(parse_u256("0x10000000000000000"), [0, 1, 0, 0]);
}

#[test]
fn evm_accounts_of_the_genesis() {
    let accounts = evm_genesis_accounts();
    assert_eq!(accounts.len(), 2);
    assert_eq!(accounts[0].0[0], 0xcb);
    assert_eq!(accounts[1].0[0], 0xd4);
    for (_, a) in accounts.iter() {
        assert_eq!(a.balance, [0, 0, 0, 0]);
        assert_eq!(a.nonce, [0, 0, 0, 0]);
        assert!(a.code.is_empty());
        assert!(a.storage.is_empty());
    }
}

#[test]
fn alice_evm_address_is_prefix_of_her_account() {
    let accounts = evm_genesis_accounts();
    let alice = get_account_id_from_seed("Alice");
    assert_eq!(accounts[1].0.to_vec(), alice[..20].to_vec());
}

#[test]
fn session_keys_grouping() {
    let k = vine_session_keys([1; 32], [2; 32], [3; 32], [4; 32], [5; 32], [6; 32]);
    assert_eq!(k.babe, [1; 32]);
    assert_eq!(k.grandpa, [2; 32]);
    assert_eq!(k.authority_discovery, [6; 32]);
}

#[test]
fn staging_genesis() {
    let g = vine_staging_testnet_config_genesis(&[1, 2, 3], 100);
    assert_eq!(g.code, vec![1, 2, 3]);
    assert!(g.balances.is_empty());
    assert!(g.session_keys.is_empty());
    assert!(g.staking.stakers.is_empty());
    assert!(g.staking.invulnerables.is_empty());
    assert_eq!(g.staking.validator_count, 50);
    assert_eq!(g.staking.minimum_validator_count, 4);
    assert_eq!(g.staking.force_era, Forcing::ForceNone);
    assert_eq!(g.staking.slash_reward_fraction.parts, 100_000_000);
    assert_eq!(g.sudo_key, Some(get_account_id_from_seed("Alice")));
    assert_eq!(g.evm_chain_id, 100);
    assert_eq!(g.evm_accounts.len(), 2);
}

#[test]
fn testnet_genesis_with_given_accounts() {
    let authorities = vec![
        get_authority_keys_from_seed_no_beefy("Alice"),
        get_authority_keys_from_seed_no_beefy("Bob"),
        get_authority_keys_from_seed_no_beefy("Charlie"),
    ];
    let endowed = vec![[7u8; 32], [8u8; 32]];
    let g = vine_testnet_genesis(&[9], authorities.clone(), [0; 32], Some(endowed), 42);
    assert_eq!(g.balances, vec![([7u8; 32], TESTNET_ENDOWMENT), ([8u8; 32], TESTNET_ENDOWMENT)]);
    assert_eq!(g.staking.validator_count, 3);
    assert_eq!(g.staking.minimum_validator_count, 1);
    assert_eq!(g.staking.force_era, Forcing::NotForcing);
    assert_eq!(g.staking.stakers.len(), 3);
    for (i, s) in g.staking.stakers.iter().enumerate() {
        assert_eq!(s.0, authorities[i].0);
        assert_eq!(s.1, authorities[i].1);
        assert_eq!(s.2, STASH);
        assert!(matches!(s.3, StakerStatus::Validator));
        assert_eq!(g.session_keys[i].0, authorities[i].0);
        assert_eq!(g.session_keys[i].1, authorities[i].0);
        assert_eq!(g.session_keys[i].2.grandpa, authorities[i].3);
        assert_eq!(g.staking.invulnerables[i], authorities[i].0);
    }
    assert_eq!(g.evm_chain_id, 42);
    let total: u128 = g.balances.iter().map(|b| b.1).sum();
    assert_eq!(total, 2 * TESTNET_ENDOWMENT);
    assert!(g.indices.is_empty() && g.council_members.is_empty());
}

#[test]
fn development_genesis() {
    let g = vine_development_config_genesis(&[0xab]);
    assert_eq!(g.balances.len(), 12);
    assert!(g.balances.iter().all(|b| b.1 == 1_000_000 * UNITS));
    let total: u128 = g.balances.iter().map(|b| b.1).sum();
    assert_eq!(total, 12 * TESTNET_ENDOWMENT);
    assert_eq!(g.staking.validator_count, 1);
    assert_eq!(g.staking.stakers.len(), 1);
    let alice = get_authority_keys_from_seed_no_beefy("Alice");
    assert_eq!(g.staking.stakers[0].0, alice.0);
    assert!(g.balances.iter().any(|b| b.0 == alice.0 && b.1 >= STASH));
    assert_eq!(g.evm_chain_id, 100);
}

#[test]
fn local_testnet_genesis() {
    let g = vine_local_testnet_genesis(&[]);
    assert_eq!(g.staking.validator_count, 2);
    let bob = get_authority_keys_from_seed_no_beefy("Bob");
    assert_eq!(g.staking.stakers[1].0, bob.0);
    assert_eq!(g.staking.stakers[1].1, bob.1);
    assert!(g.balances.iter().any(|b| b.0 == bob.0));
}

#[test]
fn babe_starts_at_genesis_epoch() {
    let c = babe_genesis_epoch_config();
    assert_eq!(c.c, (1, 4));
    assert_eq!(c.allowed_slots, AllowedSlots::PrimaryAndSecondaryVRFSlots);
    let g = vine_development_config_genesis(&[]);
    assert!(g.babe_authorities.is_empty());
    assert_eq!(g.babe_epoch_config.map(|c| (c.c, c.allowed_slots)), Some(((1, 4), AllowedSlots::PrimaryAndSecondaryVRFSlots)));
    let s = vine_staging_testnet_config_genesis(&[], 100);
    assert!(s.babe_epoch_config.is_some());
}

#[test]
fn development_stashes_and_controllers_endowed() {
    let g = vine_local_testnet_genesis(&[]);
    for s in g.staking.stakers.iter() {
        assert!(g.balances.iter().any(|b| b.0 == s.0 && b.1 == TESTNET_ENDOWMENT));
        assert!(g.balances.iter().any(|b| b.0 == s.1 && b.1 == TESTNET_ENDOWMENT));
        assert!(s.2 <= TESTNET_ENDOWMENT);
    }
}

#[test]
fn testnet_accounts_are_distinct() {
    let a = vine_service::keys::testnet_accounts();
    for i in 0..a.len() {
        for j in 0..a.len() {
            if i != j {
                assert_ne!(a[i], a[j]);
            }
        }
    }
}
