//! Laws that relate the genesis builders to each other: what a genesis depends on, how the
//! development and local genesis are test network genesis, how a genesis splits over its
//! authorities, and that the development authorities are endowed.
use crate::evm::{u256_value, GenesisAccount, H160};
use crate::genesis::{
    accounts_of, endowed_balances, genesis_authorities, is_staging_genesis, is_staker_entries,
    is_testnet_genesis, session_entries, stash_accounts, stash_balances, stakers_funded,
    total_issuance, GenesisConfig, StakerStatus, EVM_CHAIN_ID, TESTNET_ENDOWMENT,
};
use crate::host_config::{default_host_configuration_is_consistent, meets_consistency_bounds};
use crate::keys::{testnet_accounts_are_the_named_dev_accounts};
use crate::keys::{
    authority_keys_determined_by_seed, dev_key, is_authority_keys_of, is_testnet_accounts,
    opt_bytes32_view, stash_seed, testnet_seeds, without_beefy, AccountId, AuthorityKeys,
    AuthorityKeysWithBeefy, KeyScheme,
};
use vstd::prelude::*;

verus! {

/// The balances of a genesis by account bytes.
pub open spec fn balances_view(b: Seq<(AccountId, u128)>) -> Seq<(Seq<u8>, u128)> {
    b.map_values(|x: (AccountId, u128)| (x.0@, x.1))
}

/// The stakers of a genesis by account bytes: stash, controller, bond and whether a validator.
pub open spec fn stakers_view(s: Seq<(AccountId, AccountId, u128, StakerStatus)>) -> Seq<
    (Seq<u8>, Seq<u8>, u128, bool),
> {
    s.map_values(|x: (AccountId, AccountId, u128, StakerStatus)| (x.0@, x.1@, x.2, x.3 is Validator))
}

/// The EVM accounts of a genesis by address bytes: balance, code, nonce and storage.
pub open spec fn evm_accounts_view(a: Seq<(H160, GenesisAccount)>) -> Seq<
    (Seq<u8>, nat, Seq<u8>, nat, Seq<([u8; 32], [u8; 32])>),
> {
    a.map_values(
        |x: (H160, GenesisAccount)|
            (x.0@, u256_value(x.1.balance), x.1.code@, u256_value(x.1.nonce), x.1.storage@),
    )
}

/// Two genesis agree in everything but their runtime code and EVM chain id.
pub open spec fn same_genesis_but_code_and_chain(g1: GenesisConfig, g2: GenesisConfig) -> bool {
    &&& opt_bytes32_view(g1.sudo_key) == opt_bytes32_view(g2.sudo_key)
    &&& balances_view(g1.balances@) == balances_view(g2.balances@)
    &&& g1.indices@ == g2.indices@
    &&& g1.session_keys@ == g2.session_keys@
    &&& g1.staking.validator_count == g2.staking.validator_count
    &&& g1.staking.minimum_validator_count == g2.staking.minimum_validator_count
    &&& stakers_view(g1.staking.stakers@) == stakers_view(g2.staking.stakers@)
    &&& g1.staking.invulnerables@ == g2.staking.invulnerables@
    &&& g1.staking.force_era == g2.staking.force_era
    &&& g1.staking.slash_reward_fraction == g2.staking.slash_reward_fraction
    &&& g1.council_members@ == g2.council_members@
    &&& g1.technical_committee_members@ == g2.technical_committee_members@
    &&& g1.babe_authorities@ == g2.babe_authorities@
    &&& g1.babe_epoch_config == g2.babe_epoch_config
    &&& g1.authority_discovery_keys@ == g2.authority_discovery_keys@
    &&& g1.configuration == g2.configuration
    &&& evm_accounts_view(g1.evm_accounts@) == evm_accounts_view(g2.evm_accounts@)
}

/// Two genesis agree in every field.
pub open spec fn same_genesis(g1: GenesisConfig, g2: GenesisConfig) -> bool {
    &&& same_genesis_but_code_and_chain(g1, g2)
    &&& g1.code@ == g2.code@
    &&& g1.evm_chain_id == g2.evm_chain_id
}

/// The EVM accounts of any two genesis agree.
proof fn lemma_evm_accounts_agree(g1: GenesisConfig, g2: GenesisConfig)
    requires
        crate::evm::is_evm_genesis_accounts(g1.evm_accounts@),
        crate::evm::is_evm_genesis_accounts(g2.evm_accounts@),
    ensures
        evm_accounts_view(g1.evm_accounts@) == evm_accounts_view(g2.evm_accounts@),
{
    let a1 = g1.evm_accounts@;
    let a2 = g2.evm_accounts@;
    assert forall|i: int| 0 <= i < 2 implies evm_accounts_view(a1)[i] == evm_accounts_view(a2)[i] by {
        assert(u256_value(a1[i].1.balance) == 0 && u256_value(a2[i].1.balance) == 0);
        assert(a1[i].1.code@ =~= a2[i].1.code@);
        assert(a1[i].1.storage@ =~= a2[i].1.storage@);
    }
    assert(evm_accounts_view(a1) =~= evm_accounts_view(a2));
}

/// The stakers of two genesis over the same authorities agree.
proof fn lemma_stakers_agree(
    s1: Seq<(AccountId, AccountId, u128, StakerStatus)>,
    s2: Seq<(AccountId, AccountId, u128, StakerStatus)>,
    authorities: Seq<AuthorityKeys>,
    bond: u128,
)
    requires
        is_staker_entries(s1, authorities, bond),
        is_staker_entries(s2, authorities, bond),
    ensures
        stakers_view(s1) == stakers_view(s2),
{
    assert forall|i: int| 0 <= i < s1.len() implies stakers_view(s1)[i] == stakers_view(s2)[i] by {
        assert(s1[i].0 == authorities[i].0 && s2[i].0 == authorities[i].0);
    }
    assert(stakers_view(s1) =~= stakers_view(s2));
}

/// The balances of two test network genesis with the same endowed accounts agree.
proof fn lemma_testnet_balances_agree(
    g1: GenesisConfig,
    g2: GenesisConfig,
    w1: Seq<u8>,
    w2: Seq<u8>,
    a1: Seq<AuthorityKeys>,
    a2: Seq<AuthorityKeys>,
    endowed: Option<Seq<AccountId>>,
    c1: u64,
    c2: u64,
)
    requires
        is_testnet_genesis(g1, w1, a1, endowed, c1),
        is_testnet_genesis(g2, w2, a2, endowed, c2),
    ensures
        balances_view(g1.balances@) == balances_view(g2.balances@),
{
    let b1 = g1.balances@;
    let b2 = g2.balances@;
    assert(accounts_of(b1).len() == b1.len());
    assert(accounts_of(b2).len() == b2.len());
    assert forall|i: int| 0 <= i < b1.len() implies balances_view(b1)[i] == balances_view(b2)[i] by {
        assert(b1[i] == endowed_balances(accounts_of(b1), TESTNET_ENDOWMENT)[i]);
        assert(b2[i] == endowed_balances(accounts_of(b2), TESTNET_ENDOWMENT)[i]);
        assert(accounts_of(b1)[i] == b1[i].0);
        assert(accounts_of(b2)[i] == b2[i].0);
    }
    assert(balances_view(b1) =~= balances_view(b2));
}

/// A test network genesis is determined by the runtime code, the authorities, the endowed
/// accounts and the EVM chain id: the root key handed to `vine_testnet_genesis` takes no part,
/// and Alice is sudo whatever it is.
pub proof fn testnet_genesis_determined_by_its_inputs(
    g1: GenesisConfig,
    g2: GenesisConfig,
    wasm: Seq<u8>,
    authorities: Seq<AuthorityKeys>,
    endowed: Option<Seq<AccountId>>,
    chain_id: u64,
)
    requires
        is_testnet_genesis(g1, wasm, authorities, endowed, chain_id),
        is_testnet_genesis(g2, wasm, authorities, endowed, chain_id),
    ensures
        same_genesis(g1, g2),
        opt_bytes32_view(g1.sudo_key) == Some(dev_key(KeyScheme::Sr25519, "Alice"@)),
{
    lemma_testnet_balances_agree(g1, g2, wasm, wasm, authorities, authorities, endowed, chain_id, chain_id);
    lemma_stakers_agree(g1.staking.stakers@, g2.staking.stakers@, authorities, crate::genesis::STASH);
    lemma_evm_accounts_agree(g1, g2);
    assert(g1.indices@ =~= g2.indices@);
    assert(g1.council_members@ =~= g2.council_members@);
    assert(g1.technical_committee_members@ =~= g2.technical_committee_members@);
    assert(g1.babe_authorities@ =~= g2.babe_authorities@);
    assert(g1.authority_discovery_keys@ =~= g2.authority_discovery_keys@);
}

/// A staging genesis is determined by its authorities and endowed accounts up to its runtime
/// code and EVM chain id, which it takes as they are given: two staging genesis built from
/// different code or chain ids differ in nothing else.
pub proof fn staging_genesis_depends_only_on_code_and_chain(
    g1: GenesisConfig,
    g2: GenesisConfig,
    w1: Seq<u8>,
    w2: Seq<u8>,
    authorities: Seq<AuthorityKeys>,
    endowed: Seq<AccountId>,
    c1: u64,
    c2: u64,
)
    requires
        is_staging_genesis(g1, w1, authorities, endowed, c1),
        is_staging_genesis(g2, w2, authorities, endowed, c2),
    ensures
        same_genesis_but_code_and_chain(g1, g2),
        g1.code@ == w1,
        g1.evm_chain_id == c1,
        w1 == w2 && c1 == c2 ==> same_genesis(g1, g2),
{
    lemma_stakers_agree(g1.staking.stakers@, g2.staking.stakers@, authorities, crate::genesis::STASH);
    lemma_evm_accounts_agree(g1, g2);
    assert(balances_view(g1.balances@) =~= balances_view(g2.balances@));
    assert(g1.indices@ =~= g2.indices@);
    assert(g1.council_members@ =~= g2.council_members@);
    assert(g1.technical_committee_members@ =~= g2.technical_committee_members@);
    assert(g1.babe_authorities@ =~= g2.babe_authorities@);
    assert(g1.authority_discovery_keys@ =~= g2.authority_discovery_keys@);
}

/// The genesis of the development network: the test network genesis of Alice as single
/// authority on the development accounts and EVM chain 100.
pub open spec fn is_development_genesis(g: GenesisConfig, wasm: Seq<u8>) -> bool {
    &&& is_testnet_genesis(g, wasm, genesis_authorities(g), None, EVM_CHAIN_ID)
    &&& genesis_authorities(g).len() == 1
    &&& is_authority_keys_of(genesis_authorities(g)[0], "Alice"@)
}

/// The genesis of the local test network: the test network genesis of Alice and Bob as
/// authorities on the development accounts and EVM chain 100.
pub open spec fn is_local_testnet_genesis(g: GenesisConfig, wasm: Seq<u8>) -> bool {
    &&& is_testnet_genesis(g, wasm, genesis_authorities(g), None, EVM_CHAIN_ID)
    &&& genesis_authorities(g).len() == 2
    &&& is_authority_keys_of(genesis_authorities(g)[0], "Alice"@)
    &&& is_authority_keys_of(genesis_authorities(g)[1], "Bob"@)
}

/// The development genesis is `vine_testnet_genesis` of the runtime code with Alice's
/// authority keys, no endowed accounts given, and EVM chain 100.
pub proof fn development_genesis_is_testnet_genesis(
    g: GenesisConfig,
    t: GenesisConfig,
    wasm: Seq<u8>,
    alice: AuthorityKeys,
)
    requires
        is_development_genesis(g, wasm),
        is_authority_keys_of(alice, "Alice"@),
        is_testnet_genesis(t, wasm, seq![alice], None, EVM_CHAIN_ID),
    ensures
        same_genesis(g, t),
{
    authority_keys_determined_by_seed(genesis_authorities(g)[0], alice, "Alice"@);
    assert(genesis_authorities(g) =~= seq![alice]);
    testnet_genesis_determined_by_its_inputs(g, t, wasm, seq![alice], None, EVM_CHAIN_ID);
}

/// The local test network genesis is `vine_testnet_genesis` of the runtime code with the
/// authority keys of Alice and Bob, no endowed accounts given, and EVM chain 100.
pub proof fn local_testnet_genesis_is_testnet_genesis(
    g: GenesisConfig,
    t: GenesisConfig,
    wasm: Seq<u8>,
    alice: AuthorityKeys,
    bob: AuthorityKeys,
)
    requires
        is_local_testnet_genesis(g, wasm),
        is_authority_keys_of(alice, "Alice"@),
        is_authority_keys_of(bob, "Bob"@),
        is_testnet_genesis(t, wasm, seq![alice, bob], None, EVM_CHAIN_ID),
    ensures
        same_genesis(g, t),
{
    authority_keys_determined_by_seed(genesis_authorities(g)[0], alice, "Alice"@);
    authority_keys_determined_by_seed(genesis_authorities(g)[1], bob, "Bob"@);
    assert(genesis_authorities(g) =~= seq![alice, bob]);
    testnet_genesis_determined_by_its_inputs(g, t, wasm, seq![alice, bob], None, EVM_CHAIN_ID);
}

/// A test network genesis splits over a concatenation of authorities: its session keys,
/// stakers and invulnerables are those of each part in turn, its validator count is the sum
/// of theirs, and its balances are theirs (they do not depend on the authorities).  Stated
/// where the authorities together number at most `u32::MAX`, beyond which the count wraps.
pub proof fn testnet_genesis_splits_over_authorities(
    gab: GenesisConfig,
    ga: GenesisConfig,
    gb: GenesisConfig,
    wasm: Seq<u8>,
    a: Seq<AuthorityKeys>,
    b: Seq<AuthorityKeys>,
    endowed: Option<Seq<AccountId>>,
    chain_id: u64,
)
    requires
        is_testnet_genesis(gab, wasm, a + b, endowed, chain_id),
        is_testnet_genesis(ga, wasm, a, endowed, chain_id),
        is_testnet_genesis(gb, wasm, b, endowed, chain_id),
        a.len() + b.len() <= u32::MAX,
    ensures
        gab.session_keys@ == ga.session_keys@ + gb.session_keys@,
        stakers_view(gab.staking.stakers@) == stakers_view(ga.staking.stakers@) + stakers_view(
            gb.staking.stakers@,
        ),
        gab.staking.invulnerables@ == ga.staking.invulnerables@ + gb.staking.invulnerables@,
        gab.staking.validator_count == ga.staking.validator_count + gb.staking.validator_count,
        balances_view(gab.balances@) == balances_view(ga.balances@),
{
    assert(session_entries(a + b) =~= session_entries(a) + session_entries(b));
    assert(stash_accounts(a + b) =~= stash_accounts(a) + stash_accounts(b));
    let sab = gab.staking.stakers@;
    let sa = ga.staking.stakers@;
    let sb = gb.staking.stakers@;
    assert forall|i: int| 0 <= i < sab.len() implies stakers_view(sab)[i] == (stakers_view(sa)
        + stakers_view(sb))[i] by {
        if i < a.len() {
            assert((a + b)[i] == a[i]);
            assert(sa[i].0 == a[i].0);
        } else {
            assert((a + b)[i] == b[i - a.len()]);
            assert(sb[i - a.len()].0 == b[i - a.len()].0);
        }
    }
    assert(stakers_view(sab) =~= stakers_view(sa) + stakers_view(sb));
    lemma_testnet_balances_agree(gab, ga, wasm, wasm, a + b, a, endowed, chain_id, chain_id);
}

/// The development accounts hold the controller and the stash of the authority of each of
/// the six development names: the controller of the `k`-th name is the `k`-th account and its
/// stash the `k + 6`-th.
pub proof fn testnet_accounts_hold_dev_authorities(
    accounts: Seq<AccountId>,
    keys: AuthorityKeys,
    k: int,
)
    requires
        is_testnet_accounts(accounts),
        0 <= k < 6,
        is_authority_keys_of(keys, testnet_seeds()[k]),
    ensures
        accounts[k]@ == keys.1@,
        accounts[k + 6]@ == keys.0@,
{
    reveal_strlit("//stash");
    reveal_strlit("Alice");
    reveal_strlit("Bob");
    reveal_strlit("Charlie");
    reveal_strlit("Dave");
    reveal_strlit("Eve");
    reveal_strlit("Ferdie");
    reveal_strlit("Alice//stash");
    reveal_strlit("Bob//stash");
    reveal_strlit("Charlie//stash");
    reveal_strlit("Dave//stash");
    reveal_strlit("Eve//stash");
    reveal_strlit("Ferdie//stash");
    assert(stash_seed(testnet_seeds()[k]) =~= testnet_seeds()[k + 6]);
}

/// Whether the `j`-th balance of a genesis endows the given account with the test endowment.
pub open spec fn endowed_at(g: GenesisConfig, j: int, account: Seq<u8>) -> bool {
    0 <= j < g.balances@.len() && g.balances@[j].0@ == account && g.balances@[j].1
        == TESTNET_ENDOWMENT
}

/// Whether the stash and the controller of the `i`-th staker are endowed with the test
/// endowment, and the bond is covered by it.
pub open spec fn staker_endowed(g: GenesisConfig, i: int) -> bool {
    &&& exists|j: int| #[trigger] endowed_at(g, j, g.staking.stakers@[i].0@)
    &&& exists|j: int| #[trigger] endowed_at(g, j, g.staking.stakers@[i].1@)
    &&& g.staking.stakers@[i].2 <= TESTNET_ENDOWMENT
}

/// In a test network genesis on the development accounts whose authorities are those of the
/// six development names, every staker's stash and controller are endowed with the test
/// endowment, which covers the bond.
pub proof fn testnet_dev_authorities_endowed(
    g: GenesisConfig,
    wasm: Seq<u8>,
    authorities: Seq<AuthorityKeys>,
    chain_id: u64,
)
    requires
        is_testnet_genesis(g, wasm, authorities, None, chain_id),
        forall|i: int|
            0 <= i < authorities.len() ==> exists|k: int|
                0 <= k < 6 && is_authority_keys_of(#[trigger] authorities[i], testnet_seeds()[k]),
    ensures
        forall|i: int|
            0 <= i < g.staking.stakers@.len() ==> #[trigger] staker_endowed(g, i),
        stakers_funded(g),
{
    let b = g.balances@;
    let accounts = accounts_of(b);
    assert(accounts.len() == b.len());
    assert forall|i: int| 0 <= i < g.staking.stakers@.len() implies #[trigger] staker_endowed(
        g,
        i,
    ) by {
        let a = authorities[i];
        let k = choose|k: int| 0 <= k < 6 && is_authority_keys_of(a, testnet_seeds()[k]);
        testnet_accounts_hold_dev_authorities(accounts, a, k);
        assert(b[k] == endowed_balances(accounts, TESTNET_ENDOWMENT)[k]);
        assert(b[k + 6] == endowed_balances(accounts, TESTNET_ENDOWMENT)[k + 6]);
        assert(accounts[k] == b[k].0);
        assert(accounts[k + 6] == b[k + 6].0);
        assert(endowed_at(g, k + 6, g.staking.stakers@[i].0@));
        assert(endowed_at(g, k, g.staking.stakers@[i].1@));
    }
    assert forall|i: int| 0 <= i < g.staking.stakers@.len() implies #[trigger]
        crate::genesis::staker_funded(g, i) by {
        let a = authorities[i];
        let k = choose|k: int| 0 <= k < 6 && is_authority_keys_of(a, testnet_seeds()[k]);
        testnet_accounts_hold_dev_authorities(accounts, a, k);
        assert(b[k + 6] == endowed_balances(accounts, TESTNET_ENDOWMENT)[k + 6]);
        assert(accounts[k + 6] == b[k + 6].0);
        assert(g.balances@[k + 6].0@ == g.staking.stakers@[i].0@);
    }
}

/// A test network genesis on the development accounts endows, in order, the accounts of
/// Alice, Bob, Charlie, Dave, Eve and Ferdie and then their stash accounts, each with the
/// test endowment; and like every test network genesis it starts with a consistent host
/// configuration.
pub proof fn dev_accounts_genesis_endows_the_named_accounts(
    g: GenesisConfig,
    wasm: Seq<u8>,
    authorities: Seq<AuthorityKeys>,
    chain_id: u64,
)
    requires
        is_testnet_genesis(g, wasm, authorities, None, chain_id),
    ensures
        g.balances@.len() == 12,
        forall|j: int| 0 <= j < 12 ==> (#[trigger] g.balances@[j]).1 == TESTNET_ENDOWMENT,
        g.balances@[0].0@ == dev_key(KeyScheme::Sr25519, "Alice"@),
        g.balances@[1].0@ == dev_key(KeyScheme::Sr25519, "Bob"@),
        g.balances@[2].0@ == dev_key(KeyScheme::Sr25519, "Charlie"@),
        g.balances@[3].0@ == dev_key(KeyScheme::Sr25519, "Dave"@),
        g.balances@[4].0@ == dev_key(KeyScheme::Sr25519, "Eve"@),
        g.balances@[5].0@ == dev_key(KeyScheme::Sr25519, "Ferdie"@),
        g.balances@[6].0@ == dev_key(KeyScheme::Sr25519, "Alice//stash"@),
        g.balances@[7].0@ == dev_key(KeyScheme::Sr25519, "Bob//stash"@),
        g.balances@[8].0@ == dev_key(KeyScheme::Sr25519, "Charlie//stash"@),
        g.balances@[9].0@ == dev_key(KeyScheme::Sr25519, "Dave//stash"@),
        g.balances@[10].0@ == dev_key(KeyScheme::Sr25519, "Eve//stash"@),
        g.balances@[11].0@ == dev_key(KeyScheme::Sr25519, "Ferdie//stash"@),
        meets_consistency_bounds(g.configuration),
{
    let b = g.balances@;
    let accounts = accounts_of(b);
    testnet_accounts_are_the_named_dev_accounts(accounts);
    assert forall|j: int| 0 <= j < 12 implies (#[trigger] g.balances@[j]).1 == TESTNET_ENDOWMENT
        && g.balances@[j].0 == accounts[j] by {
        assert(b[j] == endowed_balances(accounts, TESTNET_ENDOWMENT)[j]);
    }
    assert(g.balances@[5].0 == accounts[5]);
    assert(g.balances@[11].0 == accounts[11]);
    default_host_configuration_is_consistent(g.configuration);
}

/// Every staging genesis starts with a consistent host configuration.
pub proof fn staging_genesis_host_configuration_is_consistent(
    g: GenesisConfig,
    wasm: Seq<u8>,
    authorities: Seq<AuthorityKeys>,
    endowed: Seq<AccountId>,
    chain_id: u64,
)
    requires
        is_staging_genesis(g, wasm, authorities, endowed, chain_id),
    ensures
        meets_consistency_bounds(g.configuration),
{
    default_host_configuration_is_consistent(g.configuration);
}

/// The keys with BEEFY of a seed extend its keys without: the first eight agree.
pub proof fn beefy_keys_extend_authority_keys(
    with_beefy: AuthorityKeysWithBeefy,
    keys: AuthorityKeys,
    seed: Seq<char>,
)
    requires
        is_authority_keys_of(without_beefy(with_beefy), seed),
        is_authority_keys_of(keys, seed),
    ensures
        without_beefy(with_beefy) == keys,
{
    authority_keys_determined_by_seed(without_beefy(with_beefy), keys, seed);
}

} // verus!
