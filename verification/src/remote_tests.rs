//! The remote tests of the bags-list pallet: which test runs against which network.
use crate::genesis::UNITS;
use vstd::prelude::*;
use vstd::string::*;

verus! {

/// The node that the tests connect to unless told otherwise.
pub const DEFAULT_URI: &'static str = "wss://-rpc.vine.io:443";

/// The name under which the vine network is reported.
pub const NETWORK_NAME: &'static str = "vine";

/// The test to run.
#[derive(Clone, Copy, Debug, PartialEq, Eq, Structural)]
pub enum Command {
    CheckMigration,
    SanityCheck,
    Snapshot,
}

/// The runtime of the network under test.
#[derive(Clone, Copy, Debug, PartialEq, Eq, Structural)]
pub enum Runtime {
    Vine,
}

/// The command line of the remote tests.
#[derive(Debug)]
pub struct Cli {
    pub uri: String,
    pub runtime: Runtime,
    pub command: Command,
    pub snapshot_limit: Option<usize>,
}

/// The test that is run unless told otherwise.
pub fn default_command() -> (c: Command)
    ensures
        c == Command::SanityCheck,
{
    Command::SanityCheck
}

/// The runtime that is tested unless told otherwise.
pub fn default_runtime() -> (r: Runtime)
    ensures
        r == Runtime::Vine,
{
    Runtime::Vine
}

/// A remote test with its arguments.
#[derive(Debug)]
pub enum RemoteTestAction {
    /// Check the migration of the bags list, with the currency unit of the network.
    CheckMigration { currency_unit: u64, network: String, uri: String },
    /// Check the bags list's invariants, with the currency unit of the network.
    SanityCheck { currency_unit: u64, network: String, uri: String },
    /// Take a snapshot of at most `snapshot_limit` voters.
    Snapshot { snapshot_limit: Option<usize>, currency_unit: u64, uri: String },
}

/// The currency unit of a network, as the tests take it.
pub open spec fn currency_unit(runtime: Runtime) -> u64 {
    match runtime {
        Runtime::Vine => UNITS as u64,
    }
}

/// The test that a command line asks for: the command, run against the network of the
/// runtime at the given node.
pub fn remote_test_action(cli: &Cli) -> (action: RemoteTestAction)
    ensures
        match action {
            RemoteTestAction::CheckMigration { currency_unit: u, network, uri } => {
                &&& cli.command == Command::CheckMigration
                &&& u == currency_unit(cli.runtime)
                &&& network@ == NETWORK_NAME@
                &&& uri@ == cli.uri@
            },
            RemoteTestAction::SanityCheck { currency_unit: u, network, uri } => {
                &&& cli.command == Command::SanityCheck
                &&& u == currency_unit(cli.runtime)
                &&& network@ == NETWORK_NAME@
                &&& uri@ == cli.uri@
            },
            RemoteTestAction::Snapshot { snapshot_limit, currency_unit: u, uri } => {
                &&& cli.command == Command::Snapshot
                &&& snapshot_limit == cli.snapshot_limit
                &&& u == currency_unit(cli.runtime)
                &&& uri@ == cli.uri@
            },
        },
{
    match (cli.runtime, cli.command) {
        (Runtime::Vine, Command::CheckMigration) => RemoteTestAction::CheckMigration {
            currency_unit: UNITS as u64,
            network: String::from_str(NETWORK_NAME),
            uri: cli.uri.clone(),
        },
        (Runtime::Vine, Command::SanityCheck) => RemoteTestAction::SanityCheck {
            currency_unit: UNITS as u64,
            network: String::from_str(NETWORK_NAME),
            uri: cli.uri.clone(),
        },
        (Runtime::Vine, Command::Snapshot) => RemoteTestAction::Snapshot {
            snapshot_limit: cli.snapshot_limit,
            currency_unit: UNITS as u64,
            uri: cli.uri.clone(),
        },
    }
}

/// The currency unit that the tests take is the whole token unit: it fits in 64 bits.
pub proof fn currency_unit_is_whole_token(runtime: Runtime)
    ensures
        currency_unit(runtime) as u128 == UNITS,
{
}

} // verus!
