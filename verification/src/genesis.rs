//! The genesis state of the vine chain: balances, session keys, staking, the parachains
//! host configuration and the EVM accounts.
use crate::evm::{evm_genesis_accounts, is_evm_genesis_accounts, GenesisAccount, H160};
use crate::host_config::{
    default_parachains_host_configuration, spec_default_parachains_host_configuration,
    HostConfiguration,
};
use crate::keys::{
    dev_key, dev_key_derivable, get_account_id_from_seed, get_authority_keys_from_seed_no_beefy,
    is_authority_keys_of, is_testnet_accounts, stash_seed, testnet_accounts,
    testnet_accounts_derivable, testnet_seeds, authority_keys_derivable, AccountId,
    AssignmentId, AuthorityDiscoveryId, AuthorityKeys, BabeId, GrandpaId, ImOnlineId, KeyScheme,
    ValidatorId,
};
use vstd::prelude::*;
use vstd::slice::slice_to_vec;

verus! {

/// The number of decimals of the native token.
pub const TOKEN_DECIMALS: u32 = 18;

/// One native token in base units: ten to the power of the token decimals.
pub const UNITS: u128 = 1_000_000_000_000_000_000;

/// The balance of each endowed account of a test network.
pub const TESTNET_ENDOWMENT: u128 = 1_000_000 * UNITS;

/// The balance of each endowed account of the staging network.
pub const STAGING_ENDOWMENT: u128 = 1_000_000_000 * UNITS;

/// The bond of each initial validator, and the balance its stash gets on the staging network.
pub const STASH: u128 = 100 * UNITS;

/// The chain id of the EVM of the vine networks.
pub const EVM_CHAIN_ID: u64 = 100;

/// Ten to the power of `n`.
pub open spec fn pow10(n: nat) -> nat
    decreases n,
{
    if n == 0 {
        1
    } else {
        10 * pow10((n - 1) as nat)
    }
}

/// One token is ten to the power of the token decimals base units.
pub proof fn units_match_token_decimals()
    ensures
        UNITS == pow10(TOKEN_DECIMALS as nat),
{
    reveal_with_fuel(pow10, 19);
}

/// A fraction in parts per billion.
#[derive(Clone, Copy, Debug, PartialEq, Eq, Structural)]
pub struct Perbill {
    pub parts: u32,
}

impl Perbill {
    /// The fraction of a whole percentage, capped at one hundred percent.
    pub fn from_percent(x: u32) -> (p: Perbill)
        ensures
            p.parts == (if x < 100 { x } else { 100 }) * 10_000_000,
    {
        let v = if x < 100 { x } else { 100 };
        Perbill { parts: v * 10_000_000 }
    }
}

/// When new eras are forced.
#[derive(Clone, Copy, Debug, PartialEq, Eq, Structural)]
pub enum Forcing {
    NotForcing,
    ForceNew,
    ForceNone,
    ForceAlways,
}

/// The role of a genesis staker.
#[derive(Clone, Debug)]
pub enum StakerStatus {
    Idle,
    Validator,
    Nominator(Vec<AccountId>),
}

/// Which slots BABE lets authorities claim.
#[derive(Clone, Copy, Debug, PartialEq, Eq, Structural)]
pub enum AllowedSlots {
    PrimarySlots,
    PrimaryAndSecondaryPlainSlots,
    PrimaryAndSecondaryVRFSlots,
}

/// The BABE epoch configuration: the probability `c` (numerator, denominator) that a slot
/// has a primary author, and which slots may be claimed.
#[derive(Clone, Copy, Debug)]
pub struct BabeEpochConfiguration {
    pub c: (u64, u64),
    pub allowed_slots: AllowedSlots,
}

/// The epoch configuration BABE starts with: a slot has a primary author with probability
/// one in four, and secondary slots are claimed by VRF.
pub open spec fn spec_babe_genesis_epoch_config() -> BabeEpochConfiguration {
    BabeEpochConfiguration { c: (1, 4), allowed_slots: AllowedSlots::PrimaryAndSecondaryVRFSlots }
}

/// The epoch configuration BABE starts with.
pub fn babe_genesis_epoch_config() -> (config: BabeEpochConfiguration)
    ensures
        config == spec_babe_genesis_epoch_config(),
{
    BabeEpochConfiguration { c: (1, 4), allowed_slots: AllowedSlots::PrimaryAndSecondaryVRFSlots }
}

/// The session keys of one authority.
#[derive(Clone, Copy, Debug)]
pub struct SessionKeys {
    pub babe: BabeId,
    pub grandpa: GrandpaId,
    pub im_online: ImOnlineId,
    pub para_validator: ValidatorId,
    pub para_assignment: AssignmentId,
    pub authority_discovery: AuthorityDiscoveryId,
}

/// The staking configuration of the genesis.
#[derive(Clone, Debug)]
pub struct StakingConfig {
    pub validator_count: u32,
    pub minimum_validator_count: u32,
    pub stakers: Vec<(AccountId, AccountId, u128, StakerStatus)>,
    pub invulnerables: Vec<AccountId>,
    pub force_era: Forcing,
    pub slash_reward_fraction: Perbill,
}

/// The genesis state of the chain.
#[derive(Clone, Debug)]
pub struct GenesisConfig {
    pub sudo_key: Option<AccountId>,
    pub code: Vec<u8>,
    pub balances: Vec<(AccountId, u128)>,
    pub indices: Vec<(u32, AccountId)>,
    pub session_keys: Vec<(AccountId, AccountId, SessionKeys)>,
    pub staking: StakingConfig,
    pub council_members: Vec<AccountId>,
    pub technical_committee_members: Vec<AccountId>,
    pub babe_authorities: Vec<(BabeId, u64)>,
    pub babe_epoch_config: Option<BabeEpochConfiguration>,
    pub authority_discovery_keys: Vec<AuthorityDiscoveryId>,
    pub configuration: HostConfiguration,
    pub evm_chain_id: u64,
    pub evm_accounts: Vec<(H160, GenesisAccount)>,
}

/// Groups the session keys of an authority.
pub fn vine_session_keys(
    babe: BabeId,
    grandpa: GrandpaId,
    im_online: ImOnlineId,
    para_validator: ValidatorId,
    para_assignment: AssignmentId,
    authority_discovery: AuthorityDiscoveryId,
) -> (keys: SessionKeys)
    ensures
        keys == (SessionKeys {
            babe,
            grandpa,
            im_online,
            para_validator,
            para_assignment,
            authority_discovery,
        }),
{
    SessionKeys { babe, grandpa, im_online, para_validator, para_assignment, authority_discovery }
}

/// The session keys of an authority.
pub open spec fn session_keys_of(k: AuthorityKeys) -> SessionKeys {
    SessionKeys {
        babe: k.2,
        grandpa: k.3,
        im_online: k.4,
        para_validator: k.5,
        para_assignment: k.6,
        authority_discovery: k.7,
    }
}

/// Each account with the same balance.
pub open spec fn endowed_balances(accounts: Seq<AccountId>, amount: u128) -> Seq<
    (AccountId, u128),
> {
    accounts.map_values(|a: AccountId| (a, amount))
}

/// Each authority's stash with the same balance.
pub open spec fn stash_balances(authorities: Seq<AuthorityKeys>, amount: u128) -> Seq<
    (AccountId, u128),
> {
    authorities.map_values(|k: AuthorityKeys| (k.0, amount))
}

/// The session entry of each authority: its stash as account and validator id, and its keys.
pub open spec fn session_entries(authorities: Seq<AuthorityKeys>) -> Seq<
    (AccountId, AccountId, SessionKeys),
> {
    authorities.map_values(|k: AuthorityKeys| (k.0, k.0, session_keys_of(k)))
}

/// Whether the stakers are the authorities, in order, each a validator bonded with `bond`
/// from its stash and controlled by its controller.
pub open spec fn is_staker_entries(
    stakers: Seq<(AccountId, AccountId, u128, StakerStatus)>,
    authorities: Seq<AuthorityKeys>,
    bond: u128,
) -> bool {
    &&& stakers.len() == authorities.len()
    &&& forall|i: int|
        0 <= i < stakers.len() ==> {
            &&& (#[trigger] stakers[i]).0 == authorities[i].0
            &&& stakers[i].1 == authorities[i].1
            &&& stakers[i].2 == bond
            &&& stakers[i].3 is Validator
        }
}

/// The stash of each authority.
pub open spec fn stash_accounts(authorities: Seq<AuthorityKeys>) -> Seq<AccountId> {
    authorities.map_values(|k: AuthorityKeys| k.0)
}

/// The accounts of a list of balances.
pub open spec fn accounts_of(balances: Seq<(AccountId, u128)>) -> Seq<AccountId> {
    balances.map_values(|b: (AccountId, u128)| b.0)
}

/// The sum of a list of balances.
pub open spec fn total_issuance(balances: Seq<(AccountId, u128)>) -> int
    decreases balances.len(),
{
    if balances.len() == 0 {
        0
    } else {
        total_issuance(balances.drop_last()) + balances.last().1
    }
}

/// The authorities that a genesis records: stash and session keys from the session entries,
/// controllers from the stakers.
pub open spec fn genesis_authorities(g: GenesisConfig) -> Seq<AuthorityKeys> {
    g.session_keys@.map(
        |i: int, s: (AccountId, AccountId, SessionKeys)|
            (
                s.0,
                g.staking.stakers@[i].1,
                s.2.babe,
                s.2.grandpa,
                s.2.im_online,
                s.2.para_validator,
                s.2.para_assignment,
                s.2.authority_discovery,
            ),
    )
}

/// Whether the stash of the `i`-th staker holds at least its bond.
pub open spec fn staker_funded(g: GenesisConfig, i: int) -> bool {
    exists|j: int|
        0 <= j < g.balances@.len() && #[trigger] g.balances@[j].0@ == g.staking.stakers@[i].0@
            && g.balances@[j].1 >= g.staking.stakers@[i].2
}

/// Whether every staker's stash holds at least its bond.
pub open spec fn stakers_funded(g: GenesisConfig) -> bool {
    forall|i: int| 0 <= i < g.staking.stakers@.len() ==> #[trigger] staker_funded(g, i)
}

/// Whether the account indices, the council, the technical committee and the authority
/// discovery keys of a genesis start empty.
pub open spec fn starts_without_governance(g: GenesisConfig) -> bool {
    &&& g.indices@.len() == 0
    &&& g.council_members@.len() == 0
    &&& g.technical_committee_members@.len() == 0
    &&& g.authority_discovery_keys@.len() == 0
}

/// Whether BABE starts with no authorities of its own (they come from the session keys) and
/// with its genesis epoch configuration.
pub open spec fn babe_starts_at_genesis_epoch(g: GenesisConfig) -> bool {
    &&& g.babe_authorities@.len() == 0
    &&& g.babe_epoch_config == Some(spec_babe_genesis_epoch_config())
}

/// The genesis of a test network: Alice is sudo, the endowed accounts (the development
/// accounts where none are given) hold the test endowment, and the authorities are the
/// session holders, validators and invulnerables.
pub open spec fn is_testnet_genesis(
    g: GenesisConfig,
    wasm: Seq<u8>,
    authorities: Seq<AuthorityKeys>,
    endowed: Option<Seq<AccountId>>,
    chain_id: u64,
) -> bool {
    &&& g.sudo_key matches Some(k) && k@ == dev_key(KeyScheme::Sr25519, "Alice"@)
    &&& g.code@ == wasm
    &&& g.balances@ == endowed_balances(accounts_of(g.balances@), TESTNET_ENDOWMENT)
    &&& match endowed {
        Some(e) => accounts_of(g.balances@) == e,
        None => is_testnet_accounts(accounts_of(g.balances@)),
    }
    &&& g.session_keys@ == session_entries(authorities)
    &&& g.staking.validator_count == authorities.len() as u32
    &&& g.staking.minimum_validator_count == 1
    &&& is_staker_entries(g.staking.stakers@, authorities, STASH)
    &&& g.staking.invulnerables@ == stash_accounts(authorities)
    &&& g.staking.force_era == Forcing::NotForcing
    &&& g.staking.slash_reward_fraction == (Perbill { parts: 100_000_000 })
    &&& g.configuration == spec_default_parachains_host_configuration()
    &&& g.evm_chain_id == chain_id
    &&& is_evm_genesis_accounts(g.evm_accounts@)
    &&& starts_without_governance(g)
    &&& babe_starts_at_genesis_epoch(g)
}

/// The genesis of the staging network: Alice is sudo, the endowed accounts hold the staging
/// endowment and the stashes of the authorities hold their bond.
pub open spec fn is_staging_genesis(
    g: GenesisConfig,
    wasm: Seq<u8>,
    authorities: Seq<AuthorityKeys>,
    endowed: Seq<AccountId>,
    chain_id: u64,
) -> bool {
    &&& g.sudo_key matches Some(k) && k@ == dev_key(KeyScheme::Sr25519, "Alice"@)
    &&& g.code@ == wasm
    &&& g.balances@ == endowed_balances(endowed, STAGING_ENDOWMENT) + stash_balances(
        authorities,
        STASH,
    )
    &&& g.session_keys@ == session_entries(authorities)
    &&& g.staking.validator_count == 50
    &&& g.staking.minimum_validator_count == 4
    &&& is_staker_entries(g.staking.stakers@, authorities, STASH)
    &&& g.staking.invulnerables@ == stash_accounts(authorities)
    &&& g.staking.force_era == Forcing::ForceNone
    &&& g.staking.slash_reward_fraction == (Perbill { parts: 100_000_000 })
    &&& g.configuration == spec_default_parachains_host_configuration()
    &&& g.evm_chain_id == chain_id
    &&& is_evm_genesis_accounts(g.evm_accounts@)
    &&& starts_without_governance(g)
    &&& babe_starts_at_genesis_epoch(g)
}

/// Every account with the same balance.
fn endow(accounts: &Vec<AccountId>, amount: u128) -> (balances: Vec<(AccountId, u128)>)
    ensures
        balances@ == endowed_balances(accounts@, amount),
{
    let mut balances: Vec<(AccountId, u128)> = Vec::new();
    for i in 0..accounts.len()
        invariant
            balances@ == endowed_balances(accounts@.take(i as int), amount),
    {
        balances.push((accounts[i], amount));
        assert(accounts@.take(i + 1) =~= accounts@.take(i as int).push(accounts@[i as int]));
        assert(endowed_balances(accounts@.take(i + 1), amount) =~= balances@);
    }
    assert(accounts@.take(accounts@.len() as int) =~= accounts@);
    balances
}

/// Appends every authority's stash with the same balance.
fn endow_stashes(
    balances: &mut Vec<(AccountId, u128)>,
    authorities: &Vec<AuthorityKeys>,
    amount: u128,
)
    ensures
        final(balances)@ == old(balances)@ + stash_balances(authorities@, amount),
{
    let ghost start = balances@;
    for i in 0..authorities.len()
        invariant
            balances@ == start + stash_balances(authorities@.take(i as int), amount),
    {
        balances.push((authorities[i].0, amount));
        assert(authorities@.take(i + 1) =~= authorities@.take(i as int).push(
            authorities@[i as int],
        ));
        assert(start + stash_balances(authorities@.take(i + 1), amount) =~= balances@);
    }
    assert(authorities@.take(authorities@.len() as int) =~= authorities@);
}

/// The session entries of the authorities.
fn session_keys_for(authorities: &Vec<AuthorityKeys>) -> (entries: Vec<
    (AccountId, AccountId, SessionKeys),
>)
    ensures
        entries@ == session_entries(authorities@),
{
    let mut entries: Vec<(AccountId, AccountId, SessionKeys)> = Vec::new();
    for i in 0..authorities.len()
        invariant
            entries@ == session_entries(authorities@.take(i as int)),
    {
        let x = authorities[i];
        entries.push((x.0, x.0, vine_session_keys(x.2, x.3, x.4, x.5, x.6, x.7)));
        assert(authorities@.take(i + 1) =~= authorities@.take(i as int).push(
            authorities@[i as int],
        ));
        assert(session_entries(authorities@.take(i + 1)) =~= entries@);
    }
    assert(authorities@.take(authorities@.len() as int) =~= authorities@);
    entries
}

/// The authorities as validators bonded with `bond`.
fn stakers_for(authorities: &Vec<AuthorityKeys>, bond: u128) -> (stakers: Vec<
    (AccountId, AccountId, u128, StakerStatus),
>)
    ensures
        is_staker_entries(stakers@, authorities@, bond),
{
    let mut stakers: Vec<(AccountId, AccountId, u128, StakerStatus)> = Vec::new();
    for i in 0..authorities.len()
        invariant
            is_staker_entries(stakers@, authorities@.take(i as int), bond),
            i <= authorities@.len(),
    {
        let x = authorities[i];
        stakers.push((x.0, x.1, bond, StakerStatus::Validator));
        assert(authorities@.take(i + 1)[i as int] == authorities@[i as int]);
        assert forall|j: int| 0 <= j < i implies authorities@.take(i + 1)[j] == authorities@.take(
            i as int,
        )[j] by {}
    }
    assert(authorities@.take(authorities@.len() as int) =~= authorities@);
    stakers
}

/// The stashes of the authorities.
fn invulnerables_for(authorities: &Vec<AuthorityKeys>) -> (stashes: Vec<AccountId>)
    ensures
        stashes@ == stash_accounts(authorities@),
{
    let mut stashes: Vec<AccountId> = Vec::new();
    for i in 0..authorities.len()
        invariant
            stashes@ == stash_accounts(authorities@.take(i as int)),
    {
        stashes.push(authorities[i].0);
        assert(authorities@.take(i + 1) =~= authorities@.take(i as int).push(
            authorities@[i as int],
        ));
        assert(stash_accounts(authorities@.take(i + 1)) =~= stashes@);
    }
    assert(authorities@.take(authorities@.len() as int) =~= authorities@);
    stashes
}

/// The genesis of the vine staging network.
pub fn vine_staging_testnet_config_genesis(wasm_binary: &[u8], chain_id: u64) -> (g:
    GenesisConfig)
    requires
        dev_key_derivable(KeyScheme::Sr25519, "Alice"@),
    ensures
        is_staging_genesis(g, wasm_binary@, Seq::empty(), Seq::empty(), chain_id),
        g.balances@.len() == 0,
        g.staking.stakers@.len() == 0,
{
    let endowed_accounts: Vec<AccountId> = Vec::new();
    let initial_authorities: Vec<AuthorityKeys> = Vec::new();
    let mut balances = endow(&endowed_accounts, STAGING_ENDOWMENT);
    endow_stashes(&mut balances, &initial_authorities, STASH);
    let g = GenesisConfig {
        sudo_key: Some(get_account_id_from_seed("Alice")),
        code: slice_to_vec(wasm_binary),
        balances,
        indices: Vec::new(),
        session_keys: session_keys_for(&initial_authorities),
        staking: StakingConfig {
            validator_count: 50,
            minimum_validator_count: 4,
            stakers: stakers_for(&initial_authorities, STASH),
            invulnerables: invulnerables_for(&initial_authorities),
            force_era: Forcing::ForceNone,
            slash_reward_fraction: Perbill::from_percent(10),
        },
        council_members: Vec::new(),
        technical_committee_members: Vec::new(),
        babe_authorities: Vec::new(),
        babe_epoch_config: Some(babe_genesis_epoch_config()),
        authority_discovery_keys: Vec::new(),
        configuration: default_parachains_host_configuration(),
        evm_chain_id: chain_id,
        evm_accounts: evm_genesis_accounts(),
    };
    assert(endowed_accounts@ =~= Seq::<AccountId>::empty());
    assert(initial_authorities@ =~= Seq::<AuthorityKeys>::empty());
    g
}

/// Creates the genesis of a vine test network.
pub fn vine_testnet_genesis(
    wasm_binary: &[u8],
    initial_authorities: Vec<AuthorityKeys>,
    _root_key: AccountId,
    endowed_accounts: Option<Vec<AccountId>>,
    chain_id: u64,
) -> (g: GenesisConfig)
    requires
        dev_key_derivable(KeyScheme::Sr25519, "Alice"@),
        endowed_accounts is None ==> testnet_accounts_derivable(),
    ensures
        is_testnet_genesis(
            g,
            wasm_binary@,
            initial_authorities@,
            match endowed_accounts {
                Some(e) => Some(e@),
                None => None,
            },
            chain_id,
        ),
{
    let endowed_accounts: Vec<AccountId> = match endowed_accounts {
        Some(e) => e,
        None => testnet_accounts(),
    };
    let balances = endow(&endowed_accounts, TESTNET_ENDOWMENT);
    assert(accounts_of(balances@) =~= endowed_accounts@);
    let validator_count = initial_authorities.len() as u32;
    GenesisConfig {
        sudo_key: Some(get_account_id_from_seed("Alice")),
        code: slice_to_vec(wasm_binary),
        balances,
        indices: Vec::new(),
        session_keys: session_keys_for(&initial_authorities),
        staking: StakingConfig {
            validator_count,
            minimum_validator_count: 1,
            stakers: stakers_for(&initial_authorities, STASH),
            invulnerables: invulnerables_for(&initial_authorities),
            force_era: Forcing::NotForcing,
            slash_reward_fraction: Perbill::from_percent(10),
        },
        council_members: Vec::new(),
        technical_committee_members: Vec::new(),
        babe_authorities: Vec::new(),
        babe_epoch_config: Some(babe_genesis_epoch_config()),
        authority_discovery_keys: Vec::new(),
        configuration: default_parachains_host_configuration(),
        evm_chain_id: chain_id,
        evm_accounts: evm_genesis_accounts(),
    }
}

/// The authorities recorded by a genesis are the ones it was built from.
proof fn lemma_genesis_authorities(g: GenesisConfig, authorities: Seq<AuthorityKeys>, bond: u128)
    requires
        g.session_keys@ == session_entries(authorities),
        is_staker_entries(g.staking.stakers@, authorities, bond),
    ensures
        genesis_authorities(g) == authorities,
{
    assert forall|i: int| 0 <= i < authorities.len() implies genesis_authorities(g)[i]
        == authorities[i] by {
        assert(g.session_keys@[i] == session_entries(authorities)[i]);
        assert(g.staking.stakers@[i].1 == authorities[i].1);
    }
    assert(genesis_authorities(g) =~= authorities);
}

/// Each stash of a test network genesis built on the development accounts is funded when it
/// is one of the development accounts.
proof fn lemma_testnet_stashes_funded(
    g: GenesisConfig,
    wasm: Seq<u8>,
    authorities: Seq<AuthorityKeys>,
    chain_id: u64,
)
    requires
        is_testnet_genesis(g, wasm, authorities, None, chain_id),
        forall|i: int|
            0 <= i < authorities.len() ==> exists|j: int|
                0 <= j < testnet_seeds().len() && (#[trigger] authorities[i]).0@ == dev_key(
                    KeyScheme::Sr25519,
                    testnet_seeds()[j],
                ),
    ensures
        stakers_funded(g),
{
    assert forall|i: int| 0 <= i < g.staking.stakers@.len() implies #[trigger] staker_funded(
        g,
        i,
    ) by {
        let a = authorities[i];
        let j = choose|j: int|
            0 <= j < testnet_seeds().len() && a.0@ == dev_key(
                KeyScheme::Sr25519,
                testnet_seeds()[j],
            );
        assert(accounts_of(g.balances@)[j] == g.balances@[j].0);
        assert(g.balances@[j] == endowed_balances(accounts_of(g.balances@), TESTNET_ENDOWMENT)[j]);
        assert(g.balances@[j].0@ == g.staking.stakers@[i].0@);
    }
}

/// Total issuance of a list in which every account holds the same balance.
proof fn lemma_total_issuance_uniform(accounts: Seq<AccountId>, amount: u128)
    ensures
        total_issuance(endowed_balances(accounts, amount)) == accounts.len() * amount,
    decreases accounts.len(),
{
    let b = endowed_balances(accounts, amount);
    if accounts.len() > 0 {
        assert(total_issuance(b) == total_issuance(b.drop_last()) + b.last().1);
        assert(endowed_balances(accounts, amount).drop_last() =~= endowed_balances(
            accounts.drop_last(),
            amount,
        ));
        lemma_total_issuance_uniform(accounts.drop_last(), amount);
        assert(endowed_balances(accounts, amount).last().1 == amount);
        assert(accounts.len() * amount == (accounts.len() - 1) * amount + amount) by (
        nonlinear_arith);
    } else {
        assert(b.len() == 0);
    }
}

/// The stash of the authority of a development seed is the development account of its
/// stash seed.
proof fn lemma_stash_is_testnet_account(k: AuthorityKeys, seed: Seq<char>, j: int)
    requires
        is_authority_keys_of(k, seed),
        0 <= j < testnet_seeds().len(),
        testnet_seeds()[j] == stash_seed(seed),
    ensures
        exists|j: int|
            0 <= j < testnet_seeds().len() && k.0@ == dev_key(
                KeyScheme::Sr25519,
                testnet_seeds()[j],
            ),
{
}

/// The total issuance of two lists of balances together is the sum of theirs.
proof fn lemma_total_issuance_concat(a: Seq<(AccountId, u128)>, b: Seq<(AccountId, u128)>)
    ensures
        total_issuance(a + b) == total_issuance(a) + total_issuance(b),
    decreases b.len(),
{
    if b.len() == 0 {
        assert(a + b =~= a);
    } else {
        assert((a + b).drop_last() =~= a + b.drop_last());
        assert((a + b).last() == b.last());
        lemma_total_issuance_concat(a, b.drop_last());
    }
}

/// The total issuance of a list in which every stash holds the same balance.
proof fn lemma_total_issuance_stashes(authorities: Seq<AuthorityKeys>, amount: u128)
    ensures
        total_issuance(stash_balances(authorities, amount)) == authorities.len() * amount,
{
    assert(stash_balances(authorities, amount) =~= endowed_balances(
        stash_accounts(authorities),
        amount,
    ));
    lemma_total_issuance_uniform(stash_accounts(authorities), amount);
}

/// In a staging genesis the endowed accounts hold the staging endowment and each
/// authority's stash holds the bond: the total issuance is the sum of both, and every
/// staker can pay its bond.
pub proof fn staging_genesis_issuance_and_bonds(
    g: GenesisConfig,
    wasm: Seq<u8>,
    authorities: Seq<AuthorityKeys>,
    endowed: Seq<AccountId>,
    chain_id: u64,
)
    requires
        is_staging_genesis(g, wasm, authorities, endowed, chain_id),
    ensures
        total_issuance(g.balances@) == endowed.len() * STAGING_ENDOWMENT + authorities.len()
            * STASH,
        stakers_funded(g),
{
    lemma_total_issuance_concat(
        endowed_balances(endowed, STAGING_ENDOWMENT),
        stash_balances(authorities, STASH),
    );
    lemma_total_issuance_uniform(endowed, STAGING_ENDOWMENT);
    lemma_total_issuance_stashes(authorities, STASH);
    assert forall|i: int| 0 <= i < g.staking.stakers@.len() implies #[trigger] staker_funded(
        g,
        i,
    ) by {
        let j = endowed.len() + i;
        assert(g.balances@[j] == stash_balances(authorities, STASH)[i]);
        assert(g.balances@[j].0@ == g.staking.stakers@[i].0@);
    }
}

/// In a test network genesis every staker whose stash is an endowed account can pay its
/// bond, and the total issuance is the test endowment of each endowed account.
pub proof fn testnet_genesis_issuance_and_bonds(
    g: GenesisConfig,
    wasm: Seq<u8>,
    authorities: Seq<AuthorityKeys>,
    endowed: Option<Seq<AccountId>>,
    chain_id: u64,
)
    requires
        is_testnet_genesis(g, wasm, authorities, endowed, chain_id),
    ensures
        total_issuance(g.balances@) == g.balances@.len() * TESTNET_ENDOWMENT,
        forall|i: int|
            0 <= i < authorities.len() && accounts_of(g.balances@).contains(
                #[trigger] authorities[i].0,
            ) ==> staker_funded(g, i),
{
    lemma_total_issuance_uniform(accounts_of(g.balances@), TESTNET_ENDOWMENT);
    assert(accounts_of(g.balances@).len() == g.balances@.len());
    assert forall|i: int|
        0 <= i < authorities.len() && accounts_of(g.balances@).contains(
            #[trigger] authorities[i].0,
        ) implies staker_funded(g, i) by {
        let j = choose|j: int|
            0 <= j < accounts_of(g.balances@).len() && accounts_of(g.balances@)[j]
                == authorities[i].0;
        assert(g.balances@[j] == endowed_balances(accounts_of(g.balances@), TESTNET_ENDOWMENT)[j]);
        assert(g.balances@[j].0@ == g.staking.stakers@[i].0@);
    }
}

/// The genesis of the development network: Alice is its only authority.
pub fn vine_development_config_genesis(wasm_binary: &[u8]) -> (g: GenesisConfig)
    requires
        authority_keys_derivable("Alice"@),
        testnet_accounts_derivable(),
    ensures
        is_testnet_genesis(g, wasm_binary@, genesis_authorities(g), None, EVM_CHAIN_ID),
        genesis_authorities(g).len() == 1,
        is_authority_keys_of(genesis_authorities(g)[0], "Alice"@),
        stakers_funded(g),
        total_issuance(g.balances@) == 12 * TESTNET_ENDOWMENT,
{
    let alice = get_authority_keys_from_seed_no_beefy("Alice");
    let mut authorities: Vec<AuthorityKeys> = Vec::new();
    authorities.push(alice);
    let ghost auth = authorities@;
    let g = vine_testnet_genesis(
        wasm_binary,
        authorities,
        get_account_id_from_seed("Alice"),
        None,
        EVM_CHAIN_ID,
    );
    proof {
        lemma_genesis_authorities(g, auth, STASH);
        reveal_strlit("Alice");
        reveal_strlit("//stash");
        reveal_strlit("Alice//stash");
        assert(testnet_seeds()[6] =~= stash_seed("Alice"@));
        lemma_stash_is_testnet_account(auth[0], "Alice"@, 6);
        lemma_testnet_stashes_funded(g, wasm_binary@, auth, EVM_CHAIN_ID);
        lemma_total_issuance_uniform(accounts_of(g.balances@), TESTNET_ENDOWMENT);
    }
    g
}

/// The genesis of the local test network: Alice and Bob are its authorities.
pub fn vine_local_testnet_genesis(wasm_binary: &[u8]) -> (g: GenesisConfig)
    requires
        authority_keys_derivable("Alice"@),
        authority_keys_derivable("Bob"@),
        testnet_accounts_derivable(),
    ensures
        is_testnet_genesis(g, wasm_binary@, genesis_authorities(g), None, EVM_CHAIN_ID),
        genesis_authorities(g).len() == 2,
        is_authority_keys_of(genesis_authorities(g)[0], "Alice"@),
        is_authority_keys_of(genesis_authorities(g)[1], "Bob"@),
        stakers_funded(g),
        total_issuance(g.balances@) == 12 * TESTNET_ENDOWMENT,
{
    let alice = get_authority_keys_from_seed_no_beefy("Alice");
    let bob = get_authority_keys_from_seed_no_beefy("Bob");
    let mut authorities: Vec<AuthorityKeys> = Vec::new();
    authorities.push(alice);
    authorities.push(bob);
    let ghost auth = authorities@;
    let g = vine_testnet_genesis(
        wasm_binary,
        authorities,
        get_account_id_from_seed("Alice"),
        None,
        EVM_CHAIN_ID,
    );
    proof {
        lemma_genesis_authorities(g, auth, STASH);
        reveal_strlit("Alice");
        reveal_strlit("Bob");
        reveal_strlit("//stash");
        reveal_strlit("Alice//stash");
        reveal_strlit("Bob//stash");
        assert(testnet_seeds()[6] =~= stash_seed("Alice"@));
        assert(testnet_seeds()[7] =~= stash_seed("Bob"@));
        lemma_stash_is_testnet_account(auth[0], "Alice"@, 6);
        lemma_stash_is_testnet_account(auth[1], "Bob"@, 7);
        lemma_testnet_stashes_funded(g, wasm_binary@, auth, EVM_CHAIN_ID);
        lemma_total_issuance_uniform(accounts_of(g.balances@), TESTNET_ENDOWMENT);
    }
    g
}

} // verus!
