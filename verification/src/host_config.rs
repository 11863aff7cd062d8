//! The parachains host configuration that the vine genesis starts with.
use vstd::prelude::*;

verus! {

/// The largest validation code a parachain may have, in bytes.
pub const MAX_CODE_SIZE: u32 = 3 * 1024 * 1024;

/// The largest proof of validity a candidate may have, in bytes.
pub const MAX_POV_SIZE: u32 = 5 * 1024 * 1024;

/// A two-dimensional weight: computation time and proof size.
#[derive(Clone, Copy, Debug, PartialEq, Eq, Structural)]
pub struct Weight {
    pub ref_time: u64,
    pub proof_size: u64,
}

impl Weight {
    /// A weight of the given computation time and no proof size.
    pub fn from_ref_time(ref_time: u64) -> (w: Weight)
        ensures
            w == (Weight { ref_time, proof_size: 0 }),
    {
        Weight { ref_time, proof_size: 0 }
    }

    /// The same weight with its proof size replaced.
    pub fn set_proof_size(self, proof_size: u64) -> (w: Weight)
        ensures
            w == (Weight { ref_time: self.ref_time, proof_size }),
    {
        Weight { ref_time: self.ref_time, proof_size }
    }
}

/// The parachains host configuration fields that the vine genesis sets; every other field
/// keeps the runtime's default.
#[derive(Clone, Copy, Debug, PartialEq, Eq, Structural)]
pub struct HostConfiguration {
    pub validation_upgrade_cooldown: u32,
    pub validation_upgrade_delay: u32,
    pub code_retention_period: u32,
    pub max_code_size: u32,
    pub max_pov_size: u32,
    pub max_head_data_size: u32,
    pub group_rotation_frequency: u32,
    pub chain_availability_period: u32,
    pub thread_availability_period: u32,
    pub max_upward_queue_count: u32,
    pub max_upward_queue_size: u32,
    pub max_downward_message_size: u32,
    pub ump_service_total_weight: Weight,
    pub max_upward_message_size: u32,
    pub max_upward_message_num_per_candidate: u32,
    pub hrmp_sender_deposit: u128,
    pub hrmp_recipient_deposit: u128,
    pub hrmp_channel_max_capacity: u32,
    pub hrmp_channel_max_total_size: u32,
    pub hrmp_max_parachain_inbound_channels: u32,
    pub hrmp_max_parathread_inbound_channels: u32,
    pub hrmp_channel_max_message_size: u32,
    pub hrmp_max_parachain_outbound_channels: u32,
    pub hrmp_max_parathread_outbound_channels: u32,
    pub hrmp_max_message_num_per_candidate: u32,
    pub dispute_period: u32,
    pub no_show_slots: u32,
    pub n_delay_tranches: u32,
    pub needed_approvals: u32,
    pub relay_vrf_modulo_samples: u32,
    pub zeroth_delay_tranche_width: u32,
    pub minimum_validation_upgrade_delay: u32,
}

/// The default parachains host configuration of the vine genesis.
pub open spec fn spec_default_parachains_host_configuration() -> HostConfiguration {
    HostConfiguration {
        validation_upgrade_cooldown: 2,
        validation_upgrade_delay: 2,
        code_retention_period: 1200,
        max_code_size: MAX_CODE_SIZE,
        max_pov_size: MAX_POV_SIZE,
        max_head_data_size: (32 * 1024) as u32,
        group_rotation_frequency: 20,
        chain_availability_period: 4,
        thread_availability_period: 4,
        max_upward_queue_count: 8,
        max_upward_queue_size: (1024 * 1024) as u32,
        max_downward_message_size: (1024 * 1024) as u32,
        ump_service_total_weight: Weight {
            ref_time: 100_000_000_000,
            proof_size: MAX_POV_SIZE as u64,
        },
        max_upward_message_size: (50 * 1024) as u32,
        max_upward_message_num_per_candidate: 5,
        hrmp_sender_deposit: 0,
        hrmp_recipient_deposit: 0,
        hrmp_channel_max_capacity: 8,
        hrmp_channel_max_total_size: (8 * 1024) as u32,
        hrmp_max_parachain_inbound_channels: 4,
        hrmp_max_parathread_inbound_channels: 4,
        hrmp_channel_max_message_size: (1024 * 1024) as u32,
        hrmp_max_parachain_outbound_channels: 4,
        hrmp_max_parathread_outbound_channels: 4,
        hrmp_max_message_num_per_candidate: 5,
        dispute_period: 6,
        no_show_slots: 2,
        n_delay_tranches: 25,
        needed_approvals: 2,
        relay_vrf_modulo_samples: 2,
        zeroth_delay_tranche_width: 0,
        minimum_validation_upgrade_delay: 5,
    }
}

/// The largest head data a parachain may have, in bytes.
pub const MAX_HEAD_DATA_SIZE: u32 = 1024 * 1024;

/// Whether a host configuration meets the bounds that the runtime's consistency check puts
/// on the fields the vine genesis sets: validator groups rotate and candidates become
/// available within a positive number of blocks, approval checkers have a positive number of
/// slots before they count as no-shows, a code upgrade is delayed more than one block and
/// more than either availability period, code, proof and head data stay within their
/// bounds, and the upward message service weight carries a whole proof of validity.
pub open spec fn meets_consistency_bounds(c: HostConfiguration) -> bool {
    &&& c.group_rotation_frequency > 0
    &&& c.chain_availability_period > 0
    &&& c.thread_availability_period > 0
    &&& c.no_show_slots > 0
    &&& c.validation_upgrade_delay > 1
    &&& c.minimum_validation_upgrade_delay > c.chain_availability_period
    &&& c.minimum_validation_upgrade_delay > c.thread_availability_period
    &&& c.max_code_size <= MAX_CODE_SIZE
    &&& c.max_pov_size <= MAX_POV_SIZE
    &&& c.max_head_data_size <= MAX_HEAD_DATA_SIZE
    &&& c.ump_service_total_weight.proof_size == c.max_pov_size as u64
}

/// The default host configuration is consistent: every genesis starts with validator groups
/// that rotate every 20 blocks, availability periods of 4 blocks and 2 no-show slots, and
/// within the bounds of the consistency check.
pub proof fn default_host_configuration_is_consistent(c: HostConfiguration)
    requires
        c == spec_default_parachains_host_configuration(),
    ensures
        meets_consistency_bounds(c),
        c.group_rotation_frequency == 20,
        c.no_show_slots == 2,
        c.chain_availability_period == 4 && c.thread_availability_period == 4,
{
}

/// The default parachains host configuration.
pub fn default_parachains_host_configuration() -> (config: HostConfiguration)
    ensures
        config == spec_default_parachains_host_configuration(),
        meets_consistency_bounds(config),
{
    HostConfiguration {
        validation_upgrade_cooldown: 2u32,
        validation_upgrade_delay: 2,
        code_retention_period: 1200,
        max_code_size: MAX_CODE_SIZE,
        max_pov_size: MAX_POV_SIZE,
        max_head_data_size: 32 * 1024,
        group_rotation_frequency: 20,
        chain_availability_period: 4,
        thread_availability_period: 4,
        max_upward_queue_count: 8,
        max_upward_queue_size: 1024 * 1024,
        max_downward_message_size: 1024 * 1024,
        ump_service_total_weight: Weight::from_ref_time(100_000_000_000).set_proof_size(
            MAX_POV_SIZE as u64,
        ),
        max_upward_message_size: 50 * 1024,
        max_upward_message_num_per_candidate: 5,
        hrmp_sender_deposit: 0,
        hrmp_recipient_deposit: 0,
        hrmp_channel_max_capacity: 8,
        hrmp_channel_max_total_size: 8 * 1024,
        hrmp_max_parachain_inbound_channels: 4,
        hrmp_max_parathread_inbound_channels: 4,
        hrmp_channel_max_message_size: 1024 * 1024,
        hrmp_max_parachain_outbound_channels: 4,
        hrmp_max_parathread_outbound_channels: 4,
        hrmp_max_message_num_per_candidate: 5,
        dispute_period: 6,
        no_show_slots: 2,
        n_delay_tranches: 25,
        needed_approvals: 2,
        relay_vrf_modulo_samples: 2,
        zeroth_delay_tranche_width: 0,
        minimum_validation_upgrade_delay: 5,
    }
}

} // verus!
