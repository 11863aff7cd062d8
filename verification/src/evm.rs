//! The EVM accounts of the vine genesis.
use std::str::FromStr;
use vstd::prelude::*;

verus! {

/// A 20-byte EVM address.
pub type H160 = [u8; 20];

/// An EVM genesis account.  Balance and nonce are 256-bit numbers held as four 64-bit
/// words, least significant first.
#[derive(Clone, Debug)]
pub struct GenesisAccount {
    pub balance: [u64; 4],
    pub code: Vec<u8>,
    pub nonce: [u64; 4],
    pub storage: Vec<([u8; 32], [u8; 32])>,
}

/// Whether a character is a hexadecimal digit (either case).
pub open spec fn is_hex_digit(c: char) -> bool {
    let v = c as u32;
    (48 <= v <= 57) || (97 <= v <= 102) || (65 <= v <= 70)
}

/// The value of a hexadecimal digit.
pub open spec fn hex_digit_value(c: char) -> nat {
    let v = c as u32;
    if 48 <= v <= 57 {
        (v - 48) as nat
    } else if 97 <= v <= 102 {
        (v - 87) as nat
    } else {
        (v - 55) as nat
    }
}

/// Whether every character of a string is a hexadecimal digit.
pub open spec fn all_hex_digits(s: Seq<char>) -> bool {
    forall|i: int| 0 <= i < s.len() ==> #[trigger] is_hex_digit(s[i])
}

/// A string without a leading `0x`.
pub open spec fn strip_hex_prefix(s: Seq<char>) -> Seq<char> {
    if s.len() >= 2 && s[0] == '0' && s[1] == 'x' {
        s.subrange(2, s.len() as int)
    } else {
        s
    }
}

/// The bytes that pairs of hexadecimal digits spell, big endian.
pub open spec fn hex_to_bytes(s: Seq<char>) -> Seq<u8> {
    Seq::new(
        s.len() / 2,
        |i: int| (hex_digit_value(s[2 * i]) * 16 + hex_digit_value(s[2 * i + 1])) as u8,
    )
}

/// The number that a string of hexadecimal digits spells.
pub open spec fn hex_value(s: Seq<char>) -> nat
    decreases s.len(),
{
    if s.len() == 0 {
        0
    } else {
        hex_value(s.drop_last()) * 16 + hex_digit_value(s.last())
    }
}

/// The number that four 64-bit words hold, least significant first.
pub open spec fn u256_value(words: [u64; 4]) -> nat {
    (words[0] + words[1] * 0x1_0000_0000_0000_0000 + words[2]
        * 0x1_0000_0000_0000_0000_0000_0000_0000_0000 + words[3]
        * 0x1_0000_0000_0000_0000_0000_0000_0000_0000_0000_0000_0000_0000) as nat
}

/// Whether a character is white space that the hexadecimal parser of `H160` skips.
pub open spec fn is_hex_whitespace(c: char) -> bool {
    c == ' ' || c == '\t' || c == '\r' || c == '\n'
}

/// A string with the white space that the hexadecimal parser skips taken out.
pub open spec fn without_hex_whitespace(s: Seq<char>) -> Seq<char>
    decreases s.len(),
{
    if s.len() == 0 {
        s
    } else if is_hex_whitespace(s.last()) {
        without_hex_whitespace(s.drop_last())
    } else {
        without_hex_whitespace(s.drop_last()).push(s.last())
    }
}

/// The address that `H160::from_str` parses from a string: after a leading `0x` is dropped
/// and white space is skipped, exactly forty hexadecimal digits, read in pairs, big endian;
/// `None` for anything else.
pub open spec fn h160_parsed(s: Seq<char>) -> Option<Seq<u8>> {
    let digits = without_hex_whitespace(strip_hex_prefix(s));
    if digits.len() == 40 && all_hex_digits(digits) {
        Some(hex_to_bytes(digits))
    } else {
        None
    }
}

/// A string of hexadecimal digits holds no white space to skip.
proof fn lemma_hex_digits_without_whitespace(s: Seq<char>)
    requires
        all_hex_digits(s),
    ensures
        without_hex_whitespace(s) == s,
    decreases s.len(),
{
    if s.len() > 0 {
        assert(is_hex_digit(s[s.len() - 1]));
        assert(all_hex_digits(s.drop_last()));
        lemma_hex_digits_without_whitespace(s.drop_last());
        assert(s.drop_last().push(s.last()) =~= s);
    }
}

/// View of an optional address.
pub open spec fn opt_bytes20_view(a: Option<[u8; 20]>) -> Option<Seq<u8>> {
    match a {
        Some(b) => Some(b@),
        None => None,
    }
}

/// Calls `H160::from_str` (fixed-hash, as re-exported by `sp_core`).  The parser drops a
/// leading `0x`, skips spaces, tabs, carriage returns and line feeds, and reads pairs of
/// hexadecimal digits, big endian; it fails unless exactly forty digits and nothing else
/// remain.
#[verifier::external_body]
fn h160_parse(s: &str) -> (address: Option<H160>)
    ensures
        opt_bytes20_view(address) == h160_parsed(s@),
{
    match sp_core::H160::from_str(s) {
        Ok(h) => Some(h.0),
        Err(_) => None,
    }
}

/// Calls `U256::from_str` (uint, as re-exported by `sp_core`).  After dropping a leading `0x`
/// it accepts at most 64 hexadecimal digits and returns the number they spell; it fails on
/// anything else.
#[verifier::external_body]
fn u256_parse(s: &str) -> (value: Option<[u64; 4]>)
    ensures
        value is Some <==> (strip_hex_prefix(s@).len() <= 64
            && all_hex_digits(strip_hex_prefix(s@))),
        value matches Some(w) ==> u256_value(w) == hex_value(strip_hex_prefix(s@)),
{
    match sp_core::U256::from_str(s) {
        Ok(v) => Some(v.0),
        Err(_) => None,
    }
}

/// The EVM address of the Alice development account: the first twenty bytes of her
/// sr25519 public key.
pub const ALICE_EVM_ADDRESS: &'static str = "d43593c715fdd31c61141abd04a99fd6822c8558";

/// The EVM address of the CI test runner account.
pub const CI_EVM_ADDRESS: &'static str = "cb90cAD4fafD23Eb939c028263520156AA078831";

/// The balance of the genesis EVM accounts, in hexadecimal.
pub const EVM_GENESIS_BALANCE: &'static str = "0x0";

/// Parses an address written as forty hexadecimal digits.
pub fn parse_h160(s: &str) -> (address: H160)
    requires
        strip_hex_prefix(s@).len() == 40,
        all_hex_digits(strip_hex_prefix(s@)),
    ensures
        address@ == hex_to_bytes(strip_hex_prefix(s@)),
{
    proof {
        lemma_hex_digits_without_whitespace(strip_hex_prefix(s@));
    }
    match h160_parse(s) {
        Some(a) => a,
        None => [0u8; 20],  // not reached: forty hexadecimal digits always parse
    }
}

/// Parses a 256-bit number written in at most 64 hexadecimal digits.
pub fn parse_u256(s: &str) -> (value: [u64; 4])
    requires
        strip_hex_prefix(s@).len() <= 64,
        all_hex_digits(strip_hex_prefix(s@)),
    ensures
        u256_value(value) == hex_value(strip_hex_prefix(s@)),
{
    match u256_parse(s) {
        Some(v) => v,
        None => [0u64; 4],  // not reached: the digits always parse
    }
}

/// Whether an account has no code, a zero nonce and empty storage.
pub open spec fn is_plain_account(account: GenesisAccount) -> bool {
    &&& account.code@.len() == 0
    &&& u256_value(account.nonce) == 0
    &&& account.storage@.len() == 0
}

/// The EVM accounts of the genesis, keyed by address and in ascending order of address, as
/// a map iterates them: the CI test runner and Alice, both plain and with a zero balance.
pub open spec fn is_evm_genesis_accounts(accounts: Seq<(H160, GenesisAccount)>) -> bool {
    &&& accounts.len() == 2
    &&& accounts[0].0@ == hex_to_bytes(CI_EVM_ADDRESS@)
    &&& accounts[1].0@ == hex_to_bytes(ALICE_EVM_ADDRESS@)
    &&& accounts[0].0@[0] < accounts[1].0@[0]
    &&& forall|i: int|
        0 <= i < 2 ==> u256_value((#[trigger] accounts[i]).1.balance) == 0 && is_plain_account(
            accounts[i].1,
        )
}

/// An account with the given balance and nothing else.
fn plain_account(balance: [u64; 4]) -> (account: GenesisAccount)
    ensures
        account.balance == balance,
        is_plain_account(account),
{
    GenesisAccount { balance, code: Vec::new(), nonce: [0u64; 4], storage: Vec::new() }
}

/// The EVM accounts that the genesis funds.
pub fn evm_genesis_accounts() -> (accounts: Vec<(H160, GenesisAccount)>)
    ensures
        is_evm_genesis_accounts(accounts@),
{
    proof {
        reveal_strlit("d43593c715fdd31c61141abd04a99fd6822c8558");
        reveal_strlit("cb90cAD4fafD23Eb939c028263520156AA078831");
        reveal_strlit("0x0");
        reveal_strlit("0x");
    }
    assert(strip_hex_prefix(ALICE_EVM_ADDRESS@) == ALICE_EVM_ADDRESS@);
    assert(strip_hex_prefix(CI_EVM_ADDRESS@) == CI_EVM_ADDRESS@);
    assert(all_hex_digits(ALICE_EVM_ADDRESS@));
    assert(all_hex_digits(CI_EVM_ADDRESS@));
    let ci = parse_h160(CI_EVM_ADDRESS);
    let alice = parse_h160(ALICE_EVM_ADDRESS);
    assert(strip_hex_prefix(EVM_GENESIS_BALANCE@) =~= seq!['0']);
    assert(hex_value(seq!['0']) == 0) by {
        reveal_with_fuel(hex_value, 2);
        assert(seq!['0'].drop_last() =~= Seq::<char>::empty());
        assert(seq!['0'].last() == '0');
    }
    let balance_ci = parse_u256(EVM_GENESIS_BALANCE);
    let balance_alice = parse_u256(EVM_GENESIS_BALANCE);
    assert(hex_to_bytes(CI_EVM_ADDRESS@)[0] == 0xcb);
    assert(hex_to_bytes(ALICE_EVM_ADDRESS@)[0] == 0xd4);
    let mut accounts: Vec<(H160, GenesisAccount)> = Vec::new();
    accounts.push((ci, plain_account(balance_ci)));
    accounts.push((alice, plain_account(balance_alice)));
    accounts
}

} // verus!
