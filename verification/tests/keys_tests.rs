use vine_service::keys::{try_get_authority_keys_from_seed, try_get_authority_keys_from_seed_no_beefy};
use vine_service::keys::{
    dev_key_is_derivable, get_account_id_from_seed, get_authority_keys_from_seed,
    get_authority_keys_from_seed_no_beefy, get_from_seed, testnet_accounts, try_get_from_seed,
    try_testnet_accounts, KeyScheme, PublicKey,
};

fn hex(s: &str) -> Vec<u8> {
    (0..s.len() / 2).map(|i| u8::from_str_radix(&s[2 * i..2 * i + 2], 16).unwrap()).collect()
}

const ALICE_SR: &str = "d43593c715fdd31c61141abd04a99fd6822c8558854ccde39a5684e7a56da27d";
const BOB_SR: &str = "8eaf04151687736326c9fea17e25fc5287613693c912909cb226aa4794f26a48";
const ALICE_STASH_SR: &str = "be5ddb1579b72e84524fc29e78609e3caf42e85aa118ebfe0b0ad404b5bdd25f";
const ALICE_ED: &str = "88dc3417d5058ec4b4503e0c12ea1a0a89be200fe98922423d4334014fa6b0ee";
const ALICE_ECDSA: &str = "020a1091341fe5664bfa1782d5e04779689068c916b04cb365ec3153755684d9a1";

#[test]
fn alice_account_is_her_sr25519_key() {
    let a = get_account_id_from_seed("Alice");
    assert_eq!(a.to_vec(), hex(ALICE_SR));
}

#[test]
fn bob_account_differs_from_alice() {
    let b = get_account_id_from_seed("Bob");
    assert_eq!(b.to_vec(), hex(BOB_SR));
    assert_ne!(b, get_account_id_from_seed("Alice"));
}

#[test]
fn get_from_seed_uses_the_scheme() {
    match get_from_seed(KeyScheme::Sr25519, "Alice") {
        PublicKey::Sr25519(k) => assert_eq!(k.to_vec(), hex(ALICE_SR)),
        _ => panic!("wrong scheme"),
    }
    match get_from_seed(KeyScheme::Ed25519, "Alice") {
        PublicKey::Ed25519(k) => assert_eq!(k.to_vec(), hex(ALICE_ED)),
        _ => panic!("wrong scheme"),
    }
    match get_from_seed(KeyScheme::Ecdsa, "Alice") {
        PublicKey::Ecdsa(k) => assert_eq!(k.to_vec(), hex(ALICE_ECDSA)),
        _ => panic!("wrong scheme"),
    }
}

#[test]
fn authority_keys_of_alice() {
    let k = get_authority_keys_from_seed_no_beefy("Alice");
    assert_eq!(k.0.to_vec(), hex(ALICE_STASH_SR));
    assert_eq!(k.1.to_vec(), hex(ALICE_SR));
    assert_eq!(k.2.to_vec(), hex(ALICE_SR));
    assert_eq!(k.3.to_vec(), hex(ALICE_ED));
    assert_eq!(k.4, k.1);
    assert_eq!(k.5, k.1);
    assert_eq!(k.6, k.1);
    assert_eq!(k.7, k.1);
}

#[test]
fn authority_keys_with_beefy_extend_the_others() {
    let k = get_authority_keys_from_seed("Alice");
    let n = get_authority_keys_from_seed_no_beefy("Alice");
    assert_eq!((k.0, k.1, k.2, k.3, k.4, k.5, k.6, k.7), n);
    assert_eq!(k.8.to_vec(), hex(ALICE_ECDSA));
}

#[test]
fn empty_seed_does_not_derive() {
    assert!(try_get_from_seed(KeyScheme::Sr25519, "").is_none());
    assert!(!dev_key_is_derivable(KeyScheme::Ed25519, ""));
}

#[test]
fn soft_junction_derives_only_for_sr25519() {
    assert!(try_get_from_seed(KeyScheme::Sr25519, "Alice/soft").is_some());
    assert!(try_get_from_seed(KeyScheme::Ed25519, "Alice/soft").is_none());
    assert!(try_get_from_seed(KeyScheme::Ecdsa, "Alice/soft").is_none());
}

#[test]
fn testnet_accounts_are_the_dev_seeds() {
    let a = testnet_accounts();
    assert_eq!(a.len(), 12);
    assert_eq!(a[0].to_vec(), hex(ALICE_SR));
    assert_eq!(a[1].to_vec(), hex(BOB_SR));
    assert_eq!(a[6].to_vec(), hex(ALICE_STASH_SR));
    assert_eq!(a[6], get_authority_keys_from_seed_no_beefy("Alice").0);
    assert_eq!(try_testnet_accounts(), Some(a));
}

#[test]
fn checked_authority_keys() {
    assert!(try_get_authority_keys_from_seed_no_beefy("").is_none());
    assert!(try_get_authority_keys_from_seed("Bob/soft").is_none());
    assert_eq!(
        try_get_authority_keys_from_seed_no_beefy("Bob"),
        Some(get_authority_keys_from_seed_no_beefy("Bob"))
    );
}
