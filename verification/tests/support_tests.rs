//! Tests of the supporting pieces: the round ledger, the instruction
//! limits, the module decoder, the sharing cache, the change log, the
//! configuration, and the proto-path arithmetic.

use dts_install::cache::CompilationCache;
use dts_install::canister_state::{SystemState, SystemStateChanges};
use dts_install::config::Config;
use dts_install::execution_parameters::InstructionLimits;
use dts_install::module::{parse_module, OP_STORE_BYTE, OP_TRAP, OP_WORK};
use dts_install::proto::{swap_proto_file, ProtoPaths};
use dts_install::round_limits::{RoundLimits, SubnetAvailableMemory};
use dts_install::types::{FlagStatus, MemoryAllocation};

fn instr9(op: u8, a: u32, b: u32) -> Vec<u8> {
    let mut v = vec![op];
    v.extend_from_slice(&a.to_le_bytes());
    v.extend_from_slice(&b.to_le_bytes());
    v
}

fn one_init_module(body: &[Vec<u8>]) -> Vec<u8> {
    let mut v = vec![1u8, 2u8, 1u8, 0u8];
    v.extend_from_slice(&(body.len() as u16).to_le_bytes());
    for i in body {
        v.extend_from_slice(i);
    }
    v
}

#[test]
fn try_decrement_is_all_or_nothing() {
    let mut mem = SubnetAvailableMemory::new(100, 50);
    assert!(mem.try_decrement(60, 20).is_ok());
    assert_eq!(mem.total_memory, 40);
    assert_eq!(mem.message_memory, 30);
    // Too many message bytes: nothing changes at all.
    assert!(mem.try_decrement(10, 40).is_err());
    assert_eq!(mem.total_memory, 40);
    assert_eq!(mem.message_memory, 30);
}

#[test]
fn instruction_charges_stop_at_zero() {
    let mut limits = RoundLimits::new(5, 100, 100, 100);
    limits.charge_instructions(3);
    assert_eq!(limits.instructions, 2);
    limits.charge_instructions(10);
    assert_eq!(limits.instructions, 0);
    limits.charge_heap_delta(150);
    assert_eq!(limits.heap_delta_remaining, 0);
}

#[test]
fn slice_budget_never_exceeds_the_operation_budget() {
    let mut l = InstructionLimits::new(100, 30);
    assert_eq!(l.message(), 100);
    assert_eq!(l.slice(), 30);
    l.reduce_by(80);
    assert_eq!(l.message(), 20);
    assert_eq!(l.slice(), 20);
    l.reduce_by(50);
    assert_eq!(l.message(), 0);
    l.update(0);
    assert_eq!(l.slice(), 0);
}

#[test]
fn decoder_accepts_exactly_the_format() {
    // A minimal module with no exports.
    let m = parse_module(&vec![1, 0, 3, 0]).expect("header-only module");
    assert_eq!(m.initial_pages, 3);
    assert!(m.start.is_none());
    assert!(m.init.is_none());

    // One init export with two instructions.
    let bytes = one_init_module(&[instr9(OP_WORK, 7, 0), instr9(OP_STORE_BYTE, 4, 0xCC)]);
    let m = parse_module(&bytes).expect("well-formed module");
    assert_eq!(m.init.as_ref().unwrap().len(), 2);
    assert!(m.start.is_none());

    // Malformed: bad version, trailing bytes, bad opcode, zero-unit work.
    assert!(parse_module(&vec![2, 0, 1, 0]).is_none());
    assert!(parse_module(&vec![1, 0, 1, 0, 9]).is_none());
    assert!(parse_module(&one_init_module(&[instr9(77, 0, 0)])).is_none());
    assert!(parse_module(&one_init_module(&[instr9(OP_WORK, 0, 0)])).is_none());
    assert!(parse_module(&vec![]).is_none());
}

#[test]
fn cache_round_trip_and_invalidation() {
    let mut cache = CompilationCache::new();
    let bytes = one_init_module(&[instr9(OP_TRAP, 0, 0)]);
    assert!(cache.lookup(&bytes).is_none());
    let module = parse_module(&bytes).unwrap();
    cache.insert(&bytes, module, 1234);
    let (found, cost) = cache.lookup(&bytes).expect("resident after insert");
    assert_eq!(cost, 1234);
    assert!(found.init.is_some());
    let other = one_init_module(&[instr9(OP_WORK, 1, 0)]);
    assert!(cache.lookup(&other).is_none());
    cache.clear();
    assert!(cache.lookup(&bytes).is_none());
}

#[test]
fn change_log_application_saturates() {
    let mut sys = SystemState {
        canister_id: 1,
        cycles_balance: 50,
        freeze_threshold: 0,
        memory_allocation: MemoryAllocation::BestEffort,
        controllers: vec![],
    };
    let ch = SystemStateChanges { cycles_debited: 100, cycles_credited: 0 };
    ch.apply_changes(&mut sys);
    assert_eq!(sys.cycles_balance, 0);
    let ch2 = SystemStateChanges { cycles_debited: 0, cycles_credited: 7 };
    ch2.apply_changes(&mut sys);
    assert_eq!(sys.cycles_balance, 7);
    let none = SystemStateChanges::new();
    none.apply_changes(&mut sys);
    assert_eq!(sys.cycles_balance, 7);
}

#[test]
fn stock_configuration_values() {
    let c = Config::default();
    assert_eq!(c.create_funds_whitelist, "");
    assert_eq!(c.max_instructions_for_message_acceptance_calls, 5_000_000_000);
    assert_eq!(c.subnet_memory_capacity, 350 * 1024 * 1024 * 1024);
    assert_eq!(c.subnet_message_memory_capacity, 25 * 1024 * 1024 * 1024);
    assert_eq!(c.ingress_history_memory_capacity, 10 * 1024 * 1024 * 1024);
    assert_eq!(c.max_canister_memory_size, 12 * 1024 * 1024 * 1024);
    assert_eq!(c.default_provisional_cycles_balance, 100_000_000_000_000);
    assert_eq!(c.default_freeze_threshold, 30 * 24 * 60 * 60);
    assert_eq!(c.max_controllers, 10);
    assert_eq!(c.canister_sandboxing_flag, FlagStatus::Enabled);
    assert_eq!(c.query_execution_threads, 2);
    assert_eq!(c.rate_limiting_of_debug_prints, FlagStatus::Enabled);
    assert_eq!(c.rate_limiting_of_heap_delta, FlagStatus::Enabled);
    assert_eq!(c.rate_limiting_of_instructions, FlagStatus::Enabled);
    assert_eq!(c.allocatable_compute_capacity_in_percent, 50);
    assert_eq!(c.deterministic_time_slicing, FlagStatus::Disabled);
    assert_eq!(c.module_sharing, FlagStatus::Enabled);
}

#[test]
fn swap_proto_file_joins_the_fixed_location() {
    let paths = ProtoPaths { swap: "/repo/proto", base_types: "/repo/base" };
    assert_eq!(swap_proto_file(&paths), "/repo/proto/ic_sns_swap/pb/v1/swap.proto");
}
