//! Development keys derived from seed words.
//!
//! A development key is derived from the secret URI `//<seed>` on top of the
//! well-known development phrase.  The derivation itself is done by `sp_core`;
//! this module assembles the URIs, picks the key scheme of each authority role
//! and collects the well-known test accounts.
use sp_core::Pair;
use vstd::prelude::*;
use vstd::string::*;

verus! {

/// An account id.  For an sr25519 key it is the 32 bytes of the public key.
pub type AccountId = [u8; 32];

/// BABE block production key (sr25519).
pub type BabeId = [u8; 32];

/// GRANDPA finality key (ed25519).
pub type GrandpaId = [u8; 32];

/// I'm-online heartbeat key (sr25519).
pub type ImOnlineId = [u8; 32];

/// Parachain validator key (sr25519).
pub type ValidatorId = [u8; 32];

/// Parachain approval assignment key (sr25519).
pub type AssignmentId = [u8; 32];

/// Authority discovery key (sr25519).
pub type AuthorityDiscoveryId = [u8; 32];

/// BEEFY key (compressed ecdsa, 33 bytes).
pub type BeefyId = [u8; 33];

/// Stash, controller and session keys of one authority.
pub type AuthorityKeys = (
    AccountId,
    AccountId,
    BabeId,
    GrandpaId,
    ImOnlineId,
    ValidatorId,
    AssignmentId,
    AuthorityDiscoveryId,
);

/// The authority keys together with the BEEFY key.
pub type AuthorityKeysWithBeefy = (
    AccountId,
    AccountId,
    BabeId,
    GrandpaId,
    ImOnlineId,
    ValidatorId,
    AssignmentId,
    AuthorityDiscoveryId,
    BeefyId,
);

/// The signature schemes that development keys are derived for.
#[derive(Clone, Copy, Debug, PartialEq, Eq, Structural)]
pub enum KeyScheme {
    Sr25519,
    Ed25519,
    Ecdsa,
}

/// A public key of one of the supported schemes.
#[derive(Clone, Copy, Debug)]
pub enum PublicKey {
    Sr25519([u8; 32]),
    Ed25519([u8; 32]),
    Ecdsa([u8; 33]),
}

impl PublicKey {
    /// The scheme of the key.
    pub open spec fn scheme(self) -> KeyScheme {
        match self {
            PublicKey::Sr25519(_) => KeyScheme::Sr25519,
            PublicKey::Ed25519(_) => KeyScheme::Ed25519,
            PublicKey::Ecdsa(_) => KeyScheme::Ecdsa,
        }
    }

    /// The bytes of the key.
    pub open spec fn bytes(self) -> Seq<u8> {
        match self {
            PublicKey::Sr25519(b) => b@,
            PublicKey::Ed25519(b) => b@,
            PublicKey::Ecdsa(b) => b@,
        }
    }
}

/// The public key that `sp_core::sr25519::Pair::from_string` derives from a secret URI,
/// or `None` where that call fails.
pub uninterp spec fn sr25519_public_from_suri(suri: Seq<char>) -> Option<Seq<u8>>;

/// The public key that `sp_core::ed25519::Pair::from_string` derives from a secret URI,
/// or `None` where that call fails.
pub uninterp spec fn ed25519_public_from_suri(suri: Seq<char>) -> Option<Seq<u8>>;

/// The public key that `sp_core::ecdsa::Pair::from_string` derives from a secret URI,
/// or `None` where that call fails.
pub uninterp spec fn ecdsa_public_from_suri(suri: Seq<char>) -> Option<Seq<u8>>;

/// View of an optional 32-byte key.
pub open spec fn opt_bytes32_view(k: Option<[u8; 32]>) -> Option<Seq<u8>> {
    match k {
        Some(b) => Some(b@),
        None => None,
    }
}

/// View of an optional 33-byte key.
pub open spec fn opt_bytes33_view(k: Option<[u8; 33]>) -> Option<Seq<u8>> {
    match k {
        Some(b) => Some(b@),
        None => None,
    }
}

/// Calls `sp_core::sr25519::Pair::from_string(suri, None)` and keeps the public key of
/// the pair.  The contract claims only that the result is a function of the URI alone.
#[verifier::external_body]
fn sr25519_pair_public(suri: &str) -> (public: Option<[u8; 32]>)
    ensures
        opt_bytes32_view(public) == sr25519_public_from_suri(suri@),
{
    match sp_core::sr25519::Pair::from_string(suri, None) {
        Ok(pair) => Some(pair.public().0),
        Err(_) => None,
    }
}

/// Calls `sp_core::ed25519::Pair::from_string(suri, None)` and keeps the public key of
/// the pair.  The contract claims only that the result is a function of the URI alone.
#[verifier::external_body]
fn ed25519_pair_public(suri: &str) -> (public: Option<[u8; 32]>)
    ensures
        opt_bytes32_view(public) == ed25519_public_from_suri(suri@),
{
    match sp_core::ed25519::Pair::from_string(suri, None) {
        Ok(pair) => Some(pair.public().0),
        Err(_) => None,
    }
}

/// Whether a secret URI starts with a hard junction (`//`), so that it derives from the
/// development phrase rather than from a seed written in hexadecimal.
pub open spec fn starts_with_hard_junction(suri: Seq<char>) -> bool {
    suri.len() >= 2 && suri[0] == '/' && suri[1] == '/'
}

/// Calls `sp_core::ecdsa::Pair::from_string(suri, None)` and keeps the compressed public
/// key of the pair.  The contract claims only that the result is a function of the URI alone.
/// It admits only URIs that start with `//`: for a seed written in hexadecimal that is no
/// valid secp256k1 secret (such as all zeros) the call panics.
#[verifier::external_body]
fn ecdsa_pair_public(suri: &str) -> (public: Option<[u8; 33]>)
    requires
        starts_with_hard_junction(suri@),
    ensures
        opt_bytes33_view(public) == ecdsa_public_from_suri(suri@),
{
    match sp_core::ecdsa::Pair::from_string(suri, None) {
        Ok(pair) => Some(pair.public().0),
        Err(_) => None,
    }
}

/// The secret URI of a development key: `//` followed by the seed.
pub open spec fn dev_suri(seed: Seq<char>) -> Seq<char> {
    "//"@ + seed
}

/// The seed of the stash account of an authority: the seed followed by `//stash`.
pub open spec fn stash_seed(seed: Seq<char>) -> Seq<char> {
    seed + "//stash"@
}

/// The development key of a scheme derived from a seed, where the derivation succeeds.
pub open spec fn dev_public(scheme: KeyScheme, seed: Seq<char>) -> Option<Seq<u8>> {
    match scheme {
        KeyScheme::Sr25519 => sr25519_public_from_suri(dev_suri(seed)),
        KeyScheme::Ed25519 => ed25519_public_from_suri(dev_suri(seed)),
        KeyScheme::Ecdsa => ecdsa_public_from_suri(dev_suri(seed)),
    }
}

/// Whether the development key of a scheme can be derived from a seed.
pub open spec fn dev_key_derivable(scheme: KeyScheme, seed: Seq<char>) -> bool {
    dev_public(scheme, seed) is Some
}

/// The development key of a scheme derived from a seed (meaningful where derivable).
pub open spec fn dev_key(scheme: KeyScheme, seed: Seq<char>) -> Seq<u8> {
    dev_public(scheme, seed)->0
}

/// The URI `//<seed>`.
pub fn dev_suri_string(seed: &str) -> (s: String)
    ensures
        s@ == dev_suri(seed@),
        starts_with_hard_junction(s@),
{
    let prefix = String::from_str("//");
    proof {
        reveal_strlit("//");
    }
    prefix.concat(seed)
}

/// The seed `<seed>//stash`.
pub fn stash_seed_string(seed: &str) -> (s: String)
    ensures
        s@ == stash_seed(seed@),
{
    let s = String::from_str(seed);
    proof {
        reveal_strlit("//stash");
    }
    s.concat("//stash")
}

/// Derives the development key of a scheme from a seed through `sp_core`.
fn derive_dev_key(scheme: KeyScheme, seed: &str) -> (key: Option<PublicKey>)
    ensures
        match key {
            Some(k) => dev_public(scheme, seed@) == Some(k.bytes()) && k.scheme() == scheme,
            None => dev_public(scheme, seed@) is None,
        },
{
    let suri = dev_suri_string(seed);
    match scheme {
        KeyScheme::Sr25519 => match sr25519_pair_public(suri.as_str()) {
            Some(b) => Some(PublicKey::Sr25519(b)),
            None => None,
        },
        KeyScheme::Ed25519 => match ed25519_pair_public(suri.as_str()) {
            Some(b) => Some(PublicKey::Ed25519(b)),
            None => None,
        },
        KeyScheme::Ecdsa => match ecdsa_pair_public(suri.as_str()) {
            Some(b) => Some(PublicKey::Ecdsa(b)),
            None => None,
        },
    }
}

/// Whether the development key of a scheme can be derived from a seed.
pub fn dev_key_is_derivable(scheme: KeyScheme, seed: &str) -> (ok: bool)
    ensures
        ok == dev_key_derivable(scheme, seed@),
{
    derive_dev_key(scheme, seed).is_some()
}

/// Derives the development key of a scheme from a seed; `None` where the derivation fails.
pub fn try_get_from_seed(scheme: KeyScheme, seed: &str) -> (key: Option<PublicKey>)
    ensures
        match key {
            Some(k) => dev_public(scheme, seed@) == Some(k.bytes()) && k.scheme() == scheme,
            None => dev_public(scheme, seed@) is None,
        },
{
    if dev_key_is_derivable(scheme, seed) {
        Some(get_from_seed(scheme, seed))
    } else {
        None
    }
}

/// The sr25519 development key of a seed.
pub fn sr25519_from_seed(seed: &str) -> (key: [u8; 32])
    requires
        dev_key_derivable(KeyScheme::Sr25519, seed@),
    ensures
        key@ == dev_key(KeyScheme::Sr25519, seed@),
{
    let suri = dev_suri_string(seed);
    match sr25519_pair_public(suri.as_str()) {
        Some(b) => b,
        None => [0u8; 32],  // not reached: the key is derivable
    }
}

/// The ed25519 development key of a seed.
pub fn ed25519_from_seed(seed: &str) -> (key: [u8; 32])
    requires
        dev_key_derivable(KeyScheme::Ed25519, seed@),
    ensures
        key@ == dev_key(KeyScheme::Ed25519, seed@),
{
    let suri = dev_suri_string(seed);
    match ed25519_pair_public(suri.as_str()) {
        Some(b) => b,
        None => [0u8; 32],  // not reached: the key is derivable
    }
}

/// The ecdsa development key of a seed.
pub fn ecdsa_from_seed(seed: &str) -> (key: [u8; 33])
    requires
        dev_key_derivable(KeyScheme::Ecdsa, seed@),
    ensures
        key@ == dev_key(KeyScheme::Ecdsa, seed@),
{
    let suri = dev_suri_string(seed);
    match ecdsa_pair_public(suri.as_str()) {
        Some(b) => b,
        None => [0u8; 33],  // not reached: the key is derivable
    }
}

/// Generates a public key of the given scheme from a seed.
pub fn get_from_seed(scheme: KeyScheme, seed: &str) -> (key: PublicKey)
    requires
        dev_key_derivable(scheme, seed@),
    ensures
        key.scheme() == scheme,
        key.bytes() == dev_key(scheme, seed@),
{
    match scheme {
        KeyScheme::Sr25519 => PublicKey::Sr25519(sr25519_from_seed(seed)),
        KeyScheme::Ed25519 => PublicKey::Ed25519(ed25519_from_seed(seed)),
        KeyScheme::Ecdsa => PublicKey::Ecdsa(ecdsa_from_seed(seed)),
    }
}

/// Generates an account id from a seed: the account of an sr25519 key is its public key.
pub fn get_account_id_from_seed(seed: &str) -> (account: AccountId)
    requires
        dev_key_derivable(KeyScheme::Sr25519, seed@),
    ensures
        account@ == dev_key(KeyScheme::Sr25519, seed@),
{
    sr25519_from_seed(seed)
}

/// Whether all keys of the authority of a seed can be derived.
pub open spec fn authority_keys_derivable(seed: Seq<char>) -> bool {
    &&& dev_key_derivable(KeyScheme::Sr25519, stash_seed(seed))
    &&& dev_key_derivable(KeyScheme::Sr25519, seed)
    &&& dev_key_derivable(KeyScheme::Ed25519, seed)
}

/// The authority keys of a seed: the stash account from `<seed>//stash`, the controller
/// account and the sr25519 session keys from `<seed>`, and the GRANDPA key as ed25519 from
/// `<seed>`.
pub open spec fn is_authority_keys_of(keys: AuthorityKeys, seed: Seq<char>) -> bool {
    let sr = dev_key(KeyScheme::Sr25519, seed);
    &&& keys.0@ == dev_key(KeyScheme::Sr25519, stash_seed(seed))
    &&& keys.1@ == sr
    &&& keys.2@ == sr
    &&& keys.3@ == dev_key(KeyScheme::Ed25519, seed)
    &&& keys.4@ == sr
    &&& keys.5@ == sr
    &&& keys.6@ == sr
    &&& keys.7@ == sr
}

/// Generates the stash, controller and session keys of an authority from a seed.
pub fn get_authority_keys_from_seed_no_beefy(seed: &str) -> (keys: AuthorityKeys)
    requires
        authority_keys_derivable(seed@),
    ensures
        is_authority_keys_of(keys, seed@),
{
    let stash = stash_seed_string(seed);
    let stash_account = get_account_id_from_seed(stash.as_str());
    let controller = get_account_id_from_seed(seed);
    let babe = sr25519_from_seed(seed);
    let grandpa = ed25519_from_seed(seed);
    let im_online = sr25519_from_seed(seed);
    let para_validator = sr25519_from_seed(seed);
    let para_assignment = sr25519_from_seed(seed);
    let authority_discovery = sr25519_from_seed(seed);
    (
        stash_account,
        controller,
        babe,
        grandpa,
        im_online,
        para_validator,
        para_assignment,
        authority_discovery,
    )
}

/// Generates the authority keys of a seed where all of them can be derived.
pub fn try_get_authority_keys_from_seed_no_beefy(seed: &str) -> (keys: Option<AuthorityKeys>)
    ensures
        keys is Some <==> authority_keys_derivable(seed@),
        keys matches Some(k) ==> is_authority_keys_of(k, seed@),
{
    let stash = stash_seed_string(seed);
    if dev_key_is_derivable(KeyScheme::Sr25519, stash.as_str())
        && dev_key_is_derivable(KeyScheme::Sr25519, seed)
        && dev_key_is_derivable(KeyScheme::Ed25519, seed) {
        Some(get_authority_keys_from_seed_no_beefy(seed))
    } else {
        None
    }
}

/// The first eight members of the keys with BEEFY.
pub open spec fn without_beefy(keys: AuthorityKeysWithBeefy) -> AuthorityKeys {
    (keys.0, keys.1, keys.2, keys.3, keys.4, keys.5, keys.6, keys.7)
}

/// Generates the stash, controller and session keys of an authority from a seed, with the
/// BEEFY key derived as ecdsa from `<seed>`.
pub fn get_authority_keys_from_seed(seed: &str) -> (keys: AuthorityKeysWithBeefy)
    requires
        authority_keys_derivable(seed@),
        dev_key_derivable(KeyScheme::Ecdsa, seed@),
    ensures
        is_authority_keys_of(without_beefy(keys), seed@),
        keys.8@ == dev_key(KeyScheme::Ecdsa, seed@),
{
    let k = get_authority_keys_from_seed_no_beefy(seed);
    let beefy = ecdsa_from_seed(seed);
    (k.0, k.1, k.2, k.3, k.4, k.5, k.6, k.7, beefy)
}

/// Generates the authority keys with BEEFY of a seed where all of them can be derived.
pub fn try_get_authority_keys_from_seed(seed: &str) -> (keys: Option<AuthorityKeysWithBeefy>)
    ensures
        keys is Some <==> authority_keys_derivable(seed@) && dev_key_derivable(
            KeyScheme::Ecdsa,
            seed@,
        ),
        keys matches Some(k) ==> is_authority_keys_of(without_beefy(k), seed@) && k.8@ == dev_key(
            KeyScheme::Ecdsa,
            seed@,
        ),
{
    match try_get_authority_keys_from_seed_no_beefy(seed) {
        Some(_) => {
            if dev_key_is_derivable(KeyScheme::Ecdsa, seed) {
                Some(get_authority_keys_from_seed(seed))
            } else {
                None
            }
        },
        None => None,
    }
}

/// Two 32-byte keys with the same bytes are the same key.
proof fn lemma_bytes32_eq(a: [u8; 32], b: [u8; 32])
    requires
        a@ == b@,
    ensures
        a == b,
{
    assert(a =~= b);
}

/// The authority keys of a seed are determined by the seed: every two derivations agree,
/// and the keys with BEEFY extend the keys without.
pub proof fn authority_keys_determined_by_seed(k1: AuthorityKeys, k2: AuthorityKeys, seed: Seq<char>)
    requires
        is_authority_keys_of(k1, seed),
        is_authority_keys_of(k2, seed),
    ensures
        k1 == k2,
{
    lemma_bytes32_eq(k1.0, k2.0);
    lemma_bytes32_eq(k1.1, k2.1);
    lemma_bytes32_eq(k1.2, k2.2);
    lemma_bytes32_eq(k1.3, k2.3);
    lemma_bytes32_eq(k1.4, k2.4);
    lemma_bytes32_eq(k1.5, k2.5);
    lemma_bytes32_eq(k1.6, k2.6);
    lemma_bytes32_eq(k1.7, k2.7);
}

/// The seeds of the well-known test accounts, in order.
pub open spec fn testnet_seeds() -> Seq<Seq<char>> {
    seq![
        "Alice"@,
        "Bob"@,
        "Charlie"@,
        "Dave"@,
        "Eve"@,
        "Ferdie"@,
        "Alice//stash"@,
        "Bob//stash"@,
        "Charlie//stash"@,
        "Dave//stash"@,
        "Eve//stash"@,
        "Ferdie//stash"@,
    ]
}

/// Whether every test account can be derived.
pub open spec fn testnet_accounts_derivable() -> bool {
    forall|i: int|
        0 <= i < testnet_seeds().len() ==> #[trigger] dev_key_derivable(
            KeyScheme::Sr25519,
            testnet_seeds()[i],
        )
}

/// The accounts of the well-known test seeds, in the order of the seeds.
pub open spec fn is_testnet_accounts(accounts: Seq<AccountId>) -> bool {
    &&& accounts.len() == testnet_seeds().len()
    &&& forall|i: int|
        0 <= i < accounts.len() ==> (#[trigger] accounts[i])@ == dev_key(
            KeyScheme::Sr25519,
            testnet_seeds()[i],
        )
}

/// The development accounts are, in order, the sr25519 accounts of Alice, Bob, Charlie,
/// Dave, Eve and Ferdie, followed by the accounts of the stash seeds of the same names in
/// the same order: the `k + 6`-th account is the stash of the `k`-th name.
pub proof fn testnet_accounts_are_the_named_dev_accounts(accounts: Seq<AccountId>)
    requires
        is_testnet_accounts(accounts),
    ensures
        accounts.len() == 12,
        accounts[0]@ == dev_key(KeyScheme::Sr25519, "Alice"@),
        accounts[1]@ == dev_key(KeyScheme::Sr25519, "Bob"@),
        accounts[2]@ == dev_key(KeyScheme::Sr25519, "Charlie"@),
        accounts[3]@ == dev_key(KeyScheme::Sr25519, "Dave"@),
        accounts[4]@ == dev_key(KeyScheme::Sr25519, "Eve"@),
        accounts[5]@ == dev_key(KeyScheme::Sr25519, "Ferdie"@),
        accounts[6]@ == dev_key(KeyScheme::Sr25519, "Alice//stash"@),
        accounts[7]@ == dev_key(KeyScheme::Sr25519, "Bob//stash"@),
        accounts[8]@ == dev_key(KeyScheme::Sr25519, "Charlie//stash"@),
        accounts[9]@ == dev_key(KeyScheme::Sr25519, "Dave//stash"@),
        accounts[10]@ == dev_key(KeyScheme::Sr25519, "Eve//stash"@),
        accounts[11]@ == dev_key(KeyScheme::Sr25519, "Ferdie//stash"@),
        forall|k: int|
            0 <= k < 6 ==> (#[trigger] accounts[k + 6])@ == dev_key(
                KeyScheme::Sr25519,
                stash_seed(testnet_seeds()[k]),
            ),
{
    reveal_strlit("//stash");
    reveal_strlit("Alice");
    reveal_strlit("Bob");
    reveal_strlit("Charlie");
    reveal_strlit("Dave");
    reveal_strlit("Eve");
    reveal_strlit("Ferdie");
    reveal_strlit("Alice//stash");
    reveal_strlit("Bob//stash");
    reveal_strlit("Charlie//stash");
    reveal_strlit("Dave//stash");
    reveal_strlit("Eve//stash");
    reveal_strlit("Ferdie//stash");
    assert(accounts[0]@ == dev_key(KeyScheme::Sr25519, testnet_seeds()[0]));
    assert(accounts[5]@ == dev_key(KeyScheme::Sr25519, testnet_seeds()[5]));
    assert(accounts[11]@ == dev_key(KeyScheme::Sr25519, testnet_seeds()[11]));
    assert forall|k: int| 0 <= k < 6 implies (#[trigger] accounts[k + 6])@ == dev_key(
        KeyScheme::Sr25519,
        stash_seed(testnet_seeds()[k]),
    ) by {
        assert(accounts[k + 6]@ == dev_key(KeyScheme::Sr25519, testnet_seeds()[k + 6]));
        assert(stash_seed(testnet_seeds()[k]) =~= testnet_seeds()[k + 6]);
    }
}

/// The development accounts: the six well-known names and their stash accounts.
pub fn testnet_accounts() -> (accounts: Vec<AccountId>)
    requires
        testnet_accounts_derivable(),
    ensures
        is_testnet_accounts(accounts@),
{
    let seeds: [&str; 12] = [
        "Alice",
        "Bob",
        "Charlie",
        "Dave",
        "Eve",
        "Ferdie",
        "Alice//stash",
        "Bob//stash",
        "Charlie//stash",
        "Dave//stash",
        "Eve//stash",
        "Ferdie//stash",
    ];
    assert(seeds@.map_values(|s: &str| s@) =~= testnet_seeds());
    let mut accounts: Vec<AccountId> = Vec::new();
    for i in 0..12
        invariant
            seeds@.map_values(|s: &str| s@) == testnet_seeds(),
            testnet_accounts_derivable(),
            accounts@.len() == i,
            forall|j: int|
                0 <= j < i ==> (#[trigger] accounts@[j])@ == dev_key(
                    KeyScheme::Sr25519,
                    testnet_seeds()[j],
                ),
    {
        assert(seeds@[i as int]@ == testnet_seeds()[i as int]);
        assert(dev_key_derivable(KeyScheme::Sr25519, testnet_seeds()[i as int]));
        let account = get_account_id_from_seed(seeds[i]);
        accounts.push(account);
    }
    accounts
}

/// The development accounts where all of them can be derived.
pub fn try_testnet_accounts() -> (accounts: Option<Vec<AccountId>>)
    ensures
        accounts is Some <==> testnet_accounts_derivable(),
        accounts matches Some(a) ==> is_testnet_accounts(a@),
{
    let seeds: [&str; 12] = [
        "Alice",
        "Bob",
        "Charlie",
        "Dave",
        "Eve",
        "Ferdie",
        "Alice//stash",
        "Bob//stash",
        "Charlie//stash",
        "Dave//stash",
        "Eve//stash",
        "Ferdie//stash",
    ];
    assert(seeds@.map_values(|s: &str| s@) =~= testnet_seeds());
    for i in 0..12
        invariant
            seeds@.map_values(|s: &str| s@) == testnet_seeds(),
            forall|j: int|
                0 <= j < i ==> #[trigger] dev_key_derivable(
                    KeyScheme::Sr25519,
                    testnet_seeds()[j],
                ),
    {
        assert(seeds@[i as int]@ == testnet_seeds()[i as int]);
        if !dev_key_is_derivable(KeyScheme::Sr25519, seeds[i]) {
            return None;
        }
    }
    Some(testnet_accounts())
}

} // verus!
