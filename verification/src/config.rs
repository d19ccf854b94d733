//! Static configuration of the execution environment: subnet-wide capacity
//! limits and feature flags, with the stock values used when nothing else is
//! supplied.

use vstd::prelude::*;
use crate::types::FlagStatus;

verus! {

/// One gibibyte.
pub const GB: u64 = 1024 * 1024 * 1024;

/// Upper limit on how much logical storage units can request on a subnet.
pub const SUBNET_MEMORY_CAPACITY: u64 = 350 * GB;

/// Upper limit on how much memory all unit messages on a subnet may use.
pub const SUBNET_MESSAGE_MEMORY_CAPACITY: u64 = 25 * GB;

/// Upper limit on how much memory the ingress history of a subnet may use.
pub const INGRESS_HISTORY_MEMORY_CAPACITY: u64 = 10 * GB;

/// Upper limit on the heap delta all units together may produce between two
/// checkpoints.
pub const SUBNET_HEAP_DELTA_CAPACITY: u64 = 150 * GB;

/// The most instructions one message execution may use.
pub const MAX_INSTRUCTIONS_PER_MESSAGE: u64 = 5_000_000_000;

/// The most stable memory a single unit may hold.
pub const MAX_STABLE_MEMORY_IN_BYTES: u64 = 8 * GB;

/// The most linear memory a single unit may hold.
pub const MAX_WASM_MEMORY_IN_BYTES: u64 = 4 * GB;

/// How many threads serve queries.
pub const QUERY_EXECUTION_THREADS: usize = 2;

/// Number of seconds in thirty days, the stock freeze threshold.
pub const DEFAULT_FREEZE_THRESHOLD_SECONDS: u64 = 30 * 24 * 60 * 60;

/// Configuration of the execution environment.
#[derive(Clone, Debug, PartialEq, Eq)]
pub struct Config {
    /// No longer read by the code; kept so that existing configurations
    /// still deserialize.
    pub create_funds_whitelist: String,

    /// The most instructions the methods invoked to check message acceptance
    /// may run for.
    pub max_instructions_for_message_acceptance_calls: u64,

    /// The most logical storage available to all units on the subnet.
    pub subnet_memory_capacity: u64,

    /// The most logical storage available to unit messages across the whole
    /// subnet.
    pub subnet_message_memory_capacity: u64,

    /// The most logical storage available to the ingress history across the
    /// whole subnet.
    pub ingress_history_memory_capacity: u64,

    /// The most memory a single unit may use.
    pub max_canister_memory_size: u64,

    /// Cycle balance given to a freshly provisioned unit when no amount was
    /// asked for.
    pub default_provisional_cycles_balance: u128,

    /// Seconds after which a unit freezes by default.
    pub default_freeze_threshold: u64,

    /// The most controllers one unit can have.
    pub max_controllers: usize,

    /// Whether units run inside a sandbox process.
    pub canister_sandboxing_flag: FlagStatus,

    /// How many threads serve queries.
    pub query_execution_threads: usize,

    /// Whether output of debug printing is rate limited.
    pub rate_limiting_of_debug_prints: FlagStatus,

    /// Whether message execution is rate limited by modified memory.
    pub rate_limiting_of_heap_delta: FlagStatus,

    /// Whether message execution is rate limited by executed instructions.
    pub rate_limiting_of_instructions: FlagStatus,

    /// Percentage of subnet compute capacity that units may allocate.
    pub allocatable_compute_capacity_in_percent: usize,

    /// Whether deterministic time slicing is enabled.
    pub deterministic_time_slicing: FlagStatus,

    /// Whether compiled modules are shared between units with byte-identical
    /// module content.
    pub module_sharing: FlagStatus,
}

impl Default for Config {
    /// The stock configuration.
    fn default() -> (r: Config)
        ensures
            r.create_funds_whitelist@ == Seq::<char>::empty(),
            r.max_instructions_for_message_acceptance_calls == MAX_INSTRUCTIONS_PER_MESSAGE,
            r.subnet_memory_capacity == SUBNET_MEMORY_CAPACITY,
            r.subnet_message_memory_capacity == SUBNET_MESSAGE_MEMORY_CAPACITY,
            r.ingress_history_memory_capacity == INGRESS_HISTORY_MEMORY_CAPACITY,
            r.max_canister_memory_size == MAX_STABLE_MEMORY_IN_BYTES + MAX_WASM_MEMORY_IN_BYTES,
            r.default_provisional_cycles_balance == 100_000_000_000_000u128,
            r.default_freeze_threshold == DEFAULT_FREEZE_THRESHOLD_SECONDS,
            r.max_controllers == 10usize,
            r.canister_sandboxing_flag == FlagStatus::Enabled,
            r.query_execution_threads == QUERY_EXECUTION_THREADS,
            r.rate_limiting_of_debug_prints == FlagStatus::Enabled,
            r.rate_limiting_of_heap_delta == FlagStatus::Enabled,
            r.rate_limiting_of_instructions == FlagStatus::Enabled,
            r.allocatable_compute_capacity_in_percent == 50usize,
            r.deterministic_time_slicing == FlagStatus::Disabled,
            r.module_sharing == FlagStatus::Enabled,
    {
        Config {
            create_funds_whitelist: String::new(),
            max_instructions_for_message_acceptance_calls: MAX_INSTRUCTIONS_PER_MESSAGE,
            subnet_memory_capacity: SUBNET_MEMORY_CAPACITY,
            subnet_message_memory_capacity: SUBNET_MESSAGE_MEMORY_CAPACITY,
            ingress_history_memory_capacity: INGRESS_HISTORY_MEMORY_CAPACITY,
            max_canister_memory_size: MAX_STABLE_MEMORY_IN_BYTES + MAX_WASM_MEMORY_IN_BYTES,
            default_provisional_cycles_balance: 100_000_000_000_000,
            default_freeze_threshold: DEFAULT_FREEZE_THRESHOLD_SECONDS,
            max_controllers: 10,
            canister_sandboxing_flag: FlagStatus::Enabled,
            query_execution_threads: QUERY_EXECUTION_THREADS,
            rate_limiting_of_debug_prints: FlagStatus::Enabled,
            rate_limiting_of_heap_delta: FlagStatus::Enabled,
            rate_limiting_of_instructions: FlagStatus::Enabled,
            allocatable_compute_capacity_in_percent: 50,
            deterministic_time_slicing: FlagStatus::Disabled,
            module_sharing: FlagStatus::Enabled,
        }
    }
}

} // verus!
