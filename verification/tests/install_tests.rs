//! End-to-end tests of the install-code state machine: the three stages,
//! deterministic time slicing, rollback on failure, resource accounting,
//! and compiled-module sharing.

use dts_install::canister_state::{CanisterState, SchedulerState, SystemState};
use dts_install::execution_parameters::{ExecutionParameters, InstructionLimits};
use dts_install::hypervisor::Hypervisor;
use dts_install::install::{
    execute_install, CompilationCostHandling, InstallCodeContext, InstallCodeRoutineResult,
};
use dts_install::module::{
    OP_ALLOC, OP_ALLOC_MSG, OP_CREDIT, OP_DEBIT, OP_REPLY, OP_STORE_ARG, OP_STORE_BYTE, OP_TRAP,
    OP_WORK,
};
use dts_install::round_limits::RoundLimits;
use dts_install::types::{
    CanisterManagerError, FlagStatus, HypervisorError, MemoryAllocation, TrapCode,
};

fn enc_instr(op: u8, a: u32, b: u32) -> Vec<u8> {
    let mut v = vec![op];
    v.extend_from_slice(&a.to_le_bytes());
    v.extend_from_slice(&b.to_le_bytes());
    v
}

fn module_bytes(pages: u16, start: Option<&[Vec<u8>]>, init: Option<&[Vec<u8>]>) -> Vec<u8> {
    let mut flags = 0u8;
    if start.is_some() {
        flags |= 1;
    }
    if init.is_some() {
        flags |= 2;
    }
    let mut v = vec![1u8, flags];
    v.extend_from_slice(&pages.to_le_bytes());
    for sec in [start, init].iter().copied().flatten() {
        v.extend_from_slice(&(sec.len() as u16).to_le_bytes());
        for i in sec {
            v.extend_from_slice(i);
        }
    }
    v
}

fn compile_cost(bytes: &[u8]) -> u64 {
    1000 + 2 * bytes.len() as u64
}

fn test_canister(id: u64) -> CanisterState {
    CanisterState::new(
        SystemState {
            canister_id: id,
            cycles_balance: 1_000_000,
            freeze_threshold: 0,
            memory_allocation: MemoryAllocation::BestEffort,
            controllers: vec![7],
        },
        None,
        SchedulerState { compute_allocation: 0, accumulated_priority: 0 },
    )
}

fn ample_limits() -> RoundLimits {
    RoundLimits::new(1_000_000_000, 1_000_000_000, 1_000_000_000, 1_000_000_000)
}

fn params(message: u64, slice: u64) -> ExecutionParameters {
    ExecutionParameters {
        instruction_limits: InstructionLimits::new(message, slice),
        canister_memory_limit: 1 << 30,
    }
}

fn ctx(id: u64, wasm: Vec<u8>, arg: Vec<u8>) -> InstallCodeContext {
    InstallCodeContext { canister_id: id, wasm_module: wasm, arg, sender: 1, memory_allocation: None }
}

fn run_to_completion(
    mut r: InstallCodeRoutineResult,
    limits: &mut RoundLimits,
) -> (u64, Result<(CanisterState, u64), CanisterManagerError>) {
    loop {
        match r {
            InstallCodeRoutineResult::Finished { instructions_left, result } => {
                return (instructions_left, result);
            }
            InstallCodeRoutineResult::Paused { paused_execution } => {
                r = paused_execution.resume(limits);
            }
        }
    }
}

#[test]
fn scenario_init_stores_argument() {
    // An init export that stores its 4-byte argument at offset 0.
    let wasm = module_bytes(1, None, Some(&[enc_instr(OP_STORE_ARG, 0, 0)]));
    let cost = compile_cost(&wasm);
    let old = test_canister(42);
    let mut hyp = Hypervisor::new(FlagStatus::Enabled, 0);
    let mut limits = ample_limits();
    let r = execute_install(
        ctx(42, wasm, vec![1, 2, 3, 4]),
        &old,
        0,
        params(10_000, 10_000),
        &mut hyp,
        &mut limits,
        CompilationCostHandling::Charge,
    );
    match r {
        InstallCodeRoutineResult::Finished { instructions_left, result } => {
            let (canister, heap_delta) = result.expect("install should succeed");
            assert_eq!(instructions_left, 10_000 - cost - 1);
            assert!(heap_delta > 0);
            assert_eq!(heap_delta, 4096);
            let mem = &canister.execution_state.as_ref().unwrap().wasm_memory;
            assert_eq!(&mem[0..4], &[1, 2, 3, 4]);
            assert_eq!(canister.system_state.cycles_balance, 1_000_000);
        }
        InstallCodeRoutineResult::Paused { .. } => panic!("unexpected pause"),
    }
}

#[test]
fn scenario_trapping_init_leaves_unit_unchanged() {
    // An init export that debits cycles and then traps: terminal error,
    // no mutation of the durable state, no side effect applied.
    let wasm = module_bytes(
        1,
        None,
        Some(&[enc_instr(OP_DEBIT, 500, 0), enc_instr(OP_TRAP, 0, 0)]),
    );
    let old = test_canister(7);
    let mut hyp = Hypervisor::new(FlagStatus::Enabled, 0);
    let mut limits = ample_limits();
    let r = execute_install(
        ctx(7, wasm, vec![]),
        &old,
        0,
        params(10_000, 10_000),
        &mut hyp,
        &mut limits,
        CompilationCostHandling::Ignore,
    );
    match r {
        InstallCodeRoutineResult::Finished { instructions_left, result } => {
            assert_eq!(
                result.unwrap_err(),
                CanisterManagerError::Hypervisor(7, HypervisorError::Trapped(TrapCode::Explicit))
            );
            assert_eq!(instructions_left, 10_000 - 2);
        }
        InstallCodeRoutineResult::Paused { .. } => panic!("unexpected pause"),
    }
    // The old unit is exactly as it was before the call.
    assert_eq!(old.system_state.cycles_balance, 1_000_000);
    assert!(old.execution_state.is_none());
    // No memory was reserved for the failed attempt's side.
    assert_eq!(limits.subnet_available_memory.total_memory, 1_000_000_000);
}

#[test]
fn scenario_sharing_charges_compilation_once() {
    // Same bytes twice with sharing enabled: the engine compiles once,
    // and the second install's charged instructions exclude compilation.
    let wasm = module_bytes(1, None, Some(&[enc_instr(OP_WORK, 5, 0)]));
    let cost = compile_cost(&wasm);
    let mut hyp = Hypervisor::new(FlagStatus::Enabled, 0);
    let mut limits = ample_limits();

    let old1 = test_canister(1);
    let r1 = execute_install(
        ctx(1, wasm.clone(), vec![]),
        &old1,
        0,
        params(10_000, 10_000),
        &mut hyp,
        &mut limits,
        CompilationCostHandling::Charge,
    );
    let left1 = match r1 {
        InstallCodeRoutineResult::Finished { instructions_left, result } => {
            result.expect("first install should succeed");
            instructions_left
        }
        _ => panic!("unexpected pause"),
    };
    assert_eq!(hyp.compilations, 1);
    assert_eq!(left1, 10_000 - cost - 5);

    let old2 = test_canister(2);
    let r2 = execute_install(
        ctx(2, wasm.clone(), vec![]),
        &old2,
        0,
        params(10_000, 10_000),
        &mut hyp,
        &mut limits,
        CompilationCostHandling::Ignore,
    );
    let left2 = match r2 {
        InstallCodeRoutineResult::Finished { instructions_left, result } => {
            result.expect("second install should succeed");
            instructions_left
        }
        _ => panic!("unexpected pause"),
    };
    // Compilation triggered exactly once; the second charge excludes it.
    assert_eq!(hyp.compilations, 1);
    assert_eq!(left2, 10_000 - 5);
    assert_eq!(left2 - left1, cost);
}

#[test]
fn scenario_without_sharing_every_install_compiles() {
    let wasm = module_bytes(1, None, Some(&[enc_instr(OP_WORK, 5, 0)]));
    let cost = compile_cost(&wasm);
    let mut hyp = Hypervisor::new(FlagStatus::Disabled, 0);
    let mut limits = ample_limits();
    for id in [1u64, 2u64] {
        let old = test_canister(id);
        let r = execute_install(
            ctx(id, wasm.clone(), vec![]),
            &old,
            0,
            params(10_000, 10_000),
            &mut hyp,
            &mut limits,
            CompilationCostHandling::Charge,
        );
        match r {
            InstallCodeRoutineResult::Finished { instructions_left, result } => {
                result.expect("install should succeed");
                // Every install's charged instructions include compilation.
                assert_eq!(instructions_left, 10_000 - cost - 5);
            }
            _ => panic!("unexpected pause"),
        }
    }
    assert_eq!(hyp.compilations, 2);
}

#[test]
fn checkpoint_boundary_forces_recompilation() {
    let wasm = module_bytes(1, None, None);
    let mut hyp = Hypervisor::new(FlagStatus::Enabled, 0);
    let mut limits = ample_limits();
    for id in [1u64, 2u64] {
        let old = test_canister(id);
        let r = execute_install(
            ctx(id, wasm.clone(), vec![]),
            &old,
            0,
            params(10_000, 10_000),
            &mut hyp,
            &mut limits,
            CompilationCostHandling::Charge,
        );
        match r {
            InstallCodeRoutineResult::Finished { result, .. } => {
                result.expect("install should succeed");
            }
            _ => panic!("unexpected pause"),
        }
        // A checkpoint boundary wipes the sharing cache.
        hyp.clear_compilation_cache();
    }
    // Even byte-identical content compiled twice across the boundary.
    assert_eq!(hyp.compilations, 2);
}

#[test]
fn slicing_is_transparent() {
    // The same install, in one big slice and in unit slices, yields an
    // identical final state, identical instructions, identical heap delta.
    let wasm = module_bytes(
        1,
        Some(&[enc_instr(OP_WORK, 3, 0), enc_instr(OP_STORE_BYTE, 5, 0xAB)]),
        Some(&[enc_instr(OP_WORK, 4, 0), enc_instr(OP_STORE_ARG, 0, 0)]),
    );
    let mut outcomes = Vec::new();
    for slice in [100_000u64, 1u64, 3u64] {
        let old = test_canister(9);
        let mut hyp = Hypervisor::new(FlagStatus::Enabled, 0);
        let mut limits = ample_limits();
        let r = execute_install(
            ctx(9, wasm.clone(), vec![1, 2, 3, 4]),
            &old,
            0,
            params(1_000, slice),
            &mut hyp,
            &mut limits,
            CompilationCostHandling::Ignore,
        );
        let (left, result) = run_to_completion(r, &mut limits);
        let (canister, heap_delta) = result.expect("install should succeed");
        let mem = canister.execution_state.as_ref().unwrap().wasm_memory.clone();
        outcomes.push((left, heap_delta, mem, limits.instructions));
    }
    // start: 3 + 1 units; init: 4 + 1 units; nine units in all.
    assert_eq!(outcomes[0].0, 1_000 - 9);
    assert_eq!(outcomes[0].1, 2 * 4096);
    assert_eq!(outcomes[0].2[5], 0xAB);
    assert_eq!(&outcomes[0].2[0..4], &[1, 2, 3, 4]);
    assert_eq!(outcomes[0], outcomes[1]);
    assert_eq!(outcomes[0], outcomes[2]);
}

#[test]
fn missing_export_is_a_zero_cost_no_op() {
    // A module without `start` behaves exactly like one exporting an
    // empty-body `start`.
    let without = module_bytes(1, None, Some(&[enc_instr(OP_WORK, 2, 0)]));
    let with_empty = module_bytes(1, Some(&[]), Some(&[enc_instr(OP_WORK, 2, 0)]));
    let mut results = Vec::new();
    for wasm in [without, with_empty] {
        let old = test_canister(3);
        let mut hyp = Hypervisor::new(FlagStatus::Enabled, 0);
        let mut limits = ample_limits();
        let r = execute_install(
            ctx(3, wasm, vec![]),
            &old,
            0,
            params(1_000, 1_000),
            &mut hyp,
            &mut limits,
            CompilationCostHandling::Ignore,
        );
        let (left, result) = run_to_completion(r, &mut limits);
        let (canister, heap_delta) = result.expect("install should succeed");
        results.push((
            left,
            heap_delta,
            canister.execution_state.as_ref().unwrap().wasm_memory.clone(),
            canister.system_state.cycles_balance,
        ));
    }
    assert_eq!(results[0].0, 1_000 - 2);
    assert_eq!(results[0], results[1]);
}

#[test]
fn ledger_counters_never_increase() {
    let wasm = module_bytes(
        1,
        Some(&[enc_instr(OP_WORK, 5, 0)]),
        Some(&[enc_instr(OP_WORK, 5, 0), enc_instr(OP_STORE_ARG, 0, 0)]),
    );
    let old = test_canister(5);
    let mut hyp = Hypervisor::new(FlagStatus::Enabled, 0);
    let mut limits = ample_limits();
    let mut prev = limits;
    let mut r = execute_install(
        ctx(5, wasm, vec![9]),
        &old,
        0,
        params(10_000, 2),
        &mut hyp,
        &mut limits,
        CompilationCostHandling::Charge,
    );
    loop {
        assert!(limits.instructions <= prev.instructions);
        assert!(
            limits.subnet_available_memory.total_memory
                <= prev.subnet_available_memory.total_memory
        );
        assert!(
            limits.subnet_available_memory.message_memory
                <= prev.subnet_available_memory.message_memory
        );
        assert!(limits.heap_delta_remaining <= prev.heap_delta_remaining);
        prev = limits;
        match r {
            InstallCodeRoutineResult::Finished { result, .. } => {
                result.expect("install should succeed");
                break;
            }
            InstallCodeRoutineResult::Paused { paused_execution } => {
                r = paused_execution.resume(&mut limits);
            }
        }
    }
}

#[test]
fn malformed_module_is_a_terminal_compile_error() {
    let old = test_canister(11);
    let mut hyp = Hypervisor::new(FlagStatus::Enabled, 0);
    let mut limits = ample_limits();
    let r = execute_install(
        ctx(11, vec![9, 9, 9], vec![]),
        &old,
        0,
        params(500, 500),
        &mut hyp,
        &mut limits,
        CompilationCostHandling::Charge,
    );
    match r {
        InstallCodeRoutineResult::Finished { instructions_left, result } => {
            assert_eq!(instructions_left, 500);
            assert_eq!(
                result.unwrap_err(),
                CanisterManagerError::Hypervisor(11, HypervisorError::InvalidWasm)
            );
        }
        _ => panic!("unexpected pause"),
    }
    assert_eq!(limits.instructions, 1_000_000_000);
}

#[test]
fn insufficient_reservation_fails_before_any_code_runs() {
    let wasm = module_bytes(2, None, Some(&[enc_instr(OP_TRAP, 0, 0)]));
    let cost = compile_cost(&wasm);
    let old = test_canister(12);
    let mut hyp = Hypervisor::new(FlagStatus::Enabled, 0);
    let mut limits = ample_limits();
    let mut context = ctx(12, wasm, vec![]);
    context.memory_allocation = Some(MemoryAllocation::Reserved(100));
    let r = execute_install(
        context,
        &old,
        0,
        params(10_000, 10_000),
        &mut hyp,
        &mut limits,
        CompilationCostHandling::Charge,
    );
    match r {
        InstallCodeRoutineResult::Finished { instructions_left, result } => {
            assert_eq!(instructions_left, 10_000 - cost);
            assert_eq!(
                result.unwrap_err(),
                CanisterManagerError::NotEnoughMemoryAllocationGiven {
                    canister_id: 12,
                    memory_allocation_given: MemoryAllocation::Reserved(100),
                    memory_usage_needed: 2 * 4096,
                }
            );
        }
        _ => panic!("unexpected pause"),
    }
}

#[test]
fn exhausted_subnet_memory_is_a_terminal_error() {
    let wasm = module_bytes(1, None, Some(&[enc_instr(OP_ALLOC, 50_000, 0)]));
    let old = test_canister(13);
    let mut hyp = Hypervisor::new(FlagStatus::Enabled, 0);
    let mut limits = RoundLimits::new(1_000_000, 10_000, 10_000, 10_000);
    let r = execute_install(
        ctx(13, wasm, vec![]),
        &old,
        0,
        params(10_000, 10_000),
        &mut hyp,
        &mut limits,
        CompilationCostHandling::Ignore,
    );
    match r {
        InstallCodeRoutineResult::Finished { result, .. } => {
            assert_eq!(
                result.unwrap_err(),
                CanisterManagerError::SubnetMemoryExhausted {
                    canister_id: 13,
                    requested_bytes: 50_000,
                    requested_message_bytes: 0,
                }
            );
        }
        _ => panic!("unexpected pause"),
    }
    // The failed reservation left the memory budget untouched.
    assert_eq!(limits.subnet_available_memory.total_memory, 10_000);
    assert_eq!(limits.subnet_available_memory.message_memory, 10_000);
}

#[test]
fn reply_from_a_system_method_is_a_contract_violation() {
    let wasm = module_bytes(1, None, Some(&[enc_instr(OP_REPLY, 0, 0)]));
    let old = test_canister(14);
    let mut hyp = Hypervisor::new(FlagStatus::Enabled, 0);
    let mut limits = ample_limits();
    let r = execute_install(
        ctx(14, wasm, vec![]),
        &old,
        0,
        params(10_000, 10_000),
        &mut hyp,
        &mut limits,
        CompilationCostHandling::Ignore,
    );
    match r {
        InstallCodeRoutineResult::Finished { result, .. } => {
            assert_eq!(
                result.unwrap_err(),
                CanisterManagerError::Hypervisor(14, HypervisorError::ContractViolation)
            );
        }
        _ => panic!("unexpected pause"),
    }
}

#[test]
fn exhausted_operation_budget_is_a_terminal_error() {
    let wasm = module_bytes(1, None, Some(&[enc_instr(OP_WORK, 100, 0)]));
    let old = test_canister(15);
    let mut hyp = Hypervisor::new(FlagStatus::Enabled, 0);
    let mut limits = ample_limits();
    let r = execute_install(
        ctx(15, wasm, vec![]),
        &old,
        0,
        params(10, 10_000),
        &mut hyp,
        &mut limits,
        CompilationCostHandling::Ignore,
    );
    match r {
        InstallCodeRoutineResult::Finished { instructions_left, result } => {
            assert_eq!(instructions_left, 0);
            assert_eq!(
                result.unwrap_err(),
                CanisterManagerError::Hypervisor(15, HypervisorError::InstructionLimitExceeded)
            );
        }
        _ => panic!("unexpected pause"),
    }
}

#[test]
fn change_log_applies_only_on_success() {
    // Success: debits and credits land on the new unit's balance.
    let good = module_bytes(
        1,
        None,
        Some(&[enc_instr(OP_DEBIT, 100, 0), enc_instr(OP_CREDIT, 30, 0)]),
    );
    let old = test_canister(16);
    let mut hyp = Hypervisor::new(FlagStatus::Enabled, 0);
    let mut limits = ample_limits();
    let r = execute_install(
        ctx(16, good, vec![]),
        &old,
        0,
        params(10_000, 10_000),
        &mut hyp,
        &mut limits,
        CompilationCostHandling::Ignore,
    );
    match r {
        InstallCodeRoutineResult::Finished { result, .. } => {
            let (canister, _) = result.expect("install should succeed");
            assert_eq!(canister.system_state.cycles_balance, 1_000_000 - 100 + 30);
        }
        _ => panic!("unexpected pause"),
    }
    // A start method's change log is discarded even on success.
    let start_debit = module_bytes(1, Some(&[enc_instr(OP_DEBIT, 100, 0)]), None);
    let old2 = test_canister(17);
    let r2 = execute_install(
        ctx(17, start_debit, vec![]),
        &old2,
        0,
        params(10_000, 10_000),
        &mut hyp,
        &mut limits,
        CompilationCostHandling::Ignore,
    );
    match r2 {
        InstallCodeRoutineResult::Finished { result, .. } => {
            let (canister, _) = result.expect("install should succeed");
            assert_eq!(canister.system_state.cycles_balance, 1_000_000);
        }
        _ => panic!("unexpected pause"),
    }
}

#[test]
fn store_crossing_a_page_boundary_dirties_both_pages() {
    // Four bytes at offset 4094 touch pages 0 and 1.
    let wasm = module_bytes(2, None, Some(&[enc_instr(OP_STORE_ARG, 4094, 0)]));
    let old = test_canister(20);
    let mut hyp = Hypervisor::new(FlagStatus::Enabled, 0);
    let mut limits = ample_limits();
    let r = execute_install(
        ctx(20, wasm, vec![1, 2, 3, 4]),
        &old,
        0,
        params(1_000, 1_000),
        &mut hyp,
        &mut limits,
        CompilationCostHandling::Ignore,
    );
    match r {
        InstallCodeRoutineResult::Finished { result, .. } => {
            let (canister, heap_delta) = result.expect("install should succeed");
            assert_eq!(heap_delta, 2 * 4096);
            let mem = &canister.execution_state.as_ref().unwrap().wasm_memory;
            assert_eq!(&mem[4094..4098], &[1, 2, 3, 4]);
        }
        _ => panic!("unexpected pause"),
    }
}

#[test]
fn store_outside_linear_memory_traps() {
    let wasm = module_bytes(1, None, Some(&[enc_instr(OP_STORE_BYTE, 4096, 0x01)]));
    let old = test_canister(21);
    let mut hyp = Hypervisor::new(FlagStatus::Enabled, 0);
    let mut limits = ample_limits();
    let r = execute_install(
        ctx(21, wasm, vec![]),
        &old,
        0,
        params(1_000, 1_000),
        &mut hyp,
        &mut limits,
        CompilationCostHandling::Ignore,
    );
    match r {
        InstallCodeRoutineResult::Finished { result, .. } => {
            assert_eq!(
                result.unwrap_err(),
                CanisterManagerError::Hypervisor(
                    21,
                    HypervisorError::Trapped(TrapCode::HeapOutOfBounds)
                )
            );
        }
        _ => panic!("unexpected pause"),
    }
}

#[test]
fn exhausted_message_memory_is_a_terminal_error() {
    let wasm = module_bytes(1, None, Some(&[enc_instr(OP_ALLOC_MSG, 9_999, 0)]));
    let old = test_canister(22);
    let mut hyp = Hypervisor::new(FlagStatus::Enabled, 0);
    let mut limits = RoundLimits::new(1_000_000, 100_000, 5_000, 10_000);
    let r = execute_install(
        ctx(22, wasm, vec![]),
        &old,
        0,
        params(1_000, 1_000),
        &mut hyp,
        &mut limits,
        CompilationCostHandling::Ignore,
    );
    match r {
        InstallCodeRoutineResult::Finished { result, .. } => {
            assert_eq!(
                result.unwrap_err(),
                CanisterManagerError::SubnetMemoryExhausted {
                    canister_id: 22,
                    requested_bytes: 0,
                    requested_message_bytes: 9_999,
                }
            );
        }
        _ => panic!("unexpected pause"),
    }
    assert_eq!(limits.subnet_available_memory.message_memory, 5_000);
}

#[test]
fn successful_reservation_is_taken_from_the_round_budget() {
    let wasm = module_bytes(
        1,
        None,
        Some(&[enc_instr(OP_ALLOC, 3_000, 0), enc_instr(OP_ALLOC_MSG, 2_000, 0)]),
    );
    let old = test_canister(23);
    let mut hyp = Hypervisor::new(FlagStatus::Enabled, 0);
    let mut limits = RoundLimits::new(1_000_000, 100_000, 50_000, 10_000);
    let r = execute_install(
        ctx(23, wasm, vec![]),
        &old,
        0,
        params(1_000, 1_000),
        &mut hyp,
        &mut limits,
        CompilationCostHandling::Ignore,
    );
    match r {
        InstallCodeRoutineResult::Finished { result, .. } => {
            result.expect("install should succeed");
        }
        _ => panic!("unexpected pause"),
    }
    assert_eq!(limits.subnet_available_memory.total_memory, 100_000 - 3_000);
    assert_eq!(limits.subnet_available_memory.message_memory, 50_000 - 2_000);
}

#[test]
fn aborting_a_paused_install_discards_it() {
    let wasm = module_bytes(1, Some(&[enc_instr(OP_WORK, 100, 0)]), None);
    let old = test_canister(18);
    let mut hyp = Hypervisor::new(FlagStatus::Enabled, 0);
    let mut limits = ample_limits();
    let r = execute_install(
        ctx(18, wasm, vec![]),
        &old,
        0,
        params(1_000, 10),
        &mut hyp,
        &mut limits,
        CompilationCostHandling::Ignore,
    );
    match r {
        InstallCodeRoutineResult::Paused { paused_execution } => {
            paused_execution.abort();
        }
        _ => panic!("expected a pause"),
    }
    // The durable state never changed.
    assert_eq!(old.system_state.cycles_balance, 1_000_000);
    assert!(old.execution_state.is_none());
}
