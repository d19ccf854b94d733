//! The deterministic-time-slicing install-code state machine.
//!
//! Installing code runs in three stages: compile the raw module bytes and
//! bind them into a fresh execution state; run the module's `start` method
//! if it exports one; run its `canister_init` method if it exports one.
//! Stages 2 and 3 may be interrupted at slice boundaries; the machine then
//! returns a stage-tagged continuation which the scheduler resumes later,
//! re-entering the identical post-processing path a same-round completion
//! takes.
//!
//! The whole operation's visible outcome — the returned unit state, the
//! heap delta, the instructions left, and every error — is the spec
//! function [`spec_install`], which mentions no slice: however the work is
//! cut, the outcome is the same.  A failed operation returns only an
//! error: the old unit, which the machine received by shared reference and
//! never touched, remains the durable state.

use vstd::prelude::*;
use crate::canister_state::{
    canister_wf, spec_apply_cycles, CanisterState, CanisterStateView, ExecutionStateView,
    SchedulerState, SystemStateChanges, SystemStateView,
};
use crate::engine::{
    init_run_state, is_done, run, spec_changes, spec_final_mem, spec_output, PausedWasmExecution,
    WasmExecutionOutput, WasmExecutionResult,
};
use crate::execution_parameters::{reduced, ExecutionParameters};
use crate::hypervisor::{
    hypervisor_wf, spec_compile, spec_hypervisor_after, zero_mem, Hypervisor, HypervisorView,
};
use crate::module::ModuleView;
use crate::round_limits::{ledger_le, RoundLimits, SubnetAvailableMemory};
use crate::types::{
    CanisterId, CanisterManagerError, HypervisorError, MemoryAllocation, PrincipalId, SystemMethod,
    Time, WasmMethod, PAGE_SIZE,
};

verus! {

/// One install request: the target, the raw module bytes, the init
/// argument, the sender, and an optional desired memory allocation.
/// Immutable for the operation's lifetime.
pub struct InstallCodeContext {
    /// The unit whose code is replaced.
    pub canister_id: CanisterId,
    /// The raw module bytes to install.
    pub wasm_module: Vec<u8>,
    /// The argument handed to `canister_init`.
    pub arg: Vec<u8>,
    /// The principal that requested the install.
    pub sender: PrincipalId,
    /// The memory allocation the request asks for, if any.
    pub memory_allocation: Option<MemoryAllocation>,
}

/// The mathematical content of an [`InstallCodeContext`].
pub struct InstallCodeContextView {
    /// The unit whose code is replaced.
    pub canister_id: CanisterId,
    /// The raw module bytes to install.
    pub wasm_module: Seq<u8>,
    /// The argument handed to `canister_init`.
    pub arg: Seq<u8>,
    /// The principal that requested the install.
    pub sender: PrincipalId,
    /// The memory allocation the request asks for, if any.
    pub memory_allocation: Option<MemoryAllocation>,
}

impl View for InstallCodeContext {
    type V = InstallCodeContextView;

    open spec fn view(&self) -> InstallCodeContextView {
        InstallCodeContextView {
            canister_id: self.canister_id,
            wasm_module: self.wasm_module@,
            arg: self.arg@,
            sender: self.sender,
            memory_allocation: self.memory_allocation,
        }
    }
}

/// Whether the instruction cost of compilation is charged against the
/// operation budget.  `Ignore` is used only when the same content is known
/// compiled earlier in the same checkpoint interval.
#[derive(Clone, Copy, Debug, PartialEq, Eq, Structural)]
pub enum CompilationCostHandling {
    /// Book zero for compilation.
    Ignore,
    /// Book the engine's reported compilation cost.
    Charge,
}

/// What one invocation of the machine hands back to the scheduler: the
/// operation finished, or it was interrupted and can be resumed.
pub enum InstallCodeRoutineResult {
    /// The operation is over, for good or ill.
    Finished {
        /// What is left of the operation-level instruction budget.
        instructions_left: u64,
        /// The freshly installed unit and its heap delta, or the terminal
        /// error.
        result: Result<(CanisterState, u64), CanisterManagerError>,
    },
    /// The operation was interrupted at a slice boundary.
    Paused {
        /// The stage-tagged continuation to resume with.
        paused_execution: PausedInstallCodeRoutine,
    },
}

/// A paused install operation, tagged with the stage it was interrupted
/// in.
pub enum PausedInstallCodeRoutine {
    /// Interrupted while running `start`.
    StartDuringInstall(PausedStartExecutionDuringInstall),
    /// Interrupted while running `canister_init`.
    Init(PausedInitExecution),
}

/// An install interrupted while running the module's `start` method.
pub struct PausedStartExecutionDuringInstall {
    /// The engine's own resumable handle.
    pub paused_wasm_execution: PausedWasmExecution,
    /// The unit being built, including the interrupted execution state.
    pub new_canister: CanisterState,
    /// The operation's execution parameters.
    pub execution_parameters: ExecutionParameters,
    /// Heap delta accumulated so far by this operation.
    pub total_heap_delta: u64,
    /// The sender, kept for the init stage.
    pub context_sender: PrincipalId,
    /// The init argument, kept for the init stage.
    pub context_arg: Vec<u8>,
    /// The time the operation was started at.
    pub time: Time,
}

/// An install interrupted while running the module's `canister_init`
/// method.
pub struct PausedInitExecution {
    /// The engine's own resumable handle.
    pub paused_wasm_execution: PausedWasmExecution,
    /// The unit being built, including the interrupted execution state.
    pub new_canister: CanisterState,
    /// The operation's execution parameters.
    pub execution_parameters: ExecutionParameters,
    /// Heap delta accumulated so far by this operation.
    pub total_heap_delta: u64,
}

/// The visible result of a whole install operation, at the spec level.
pub enum SpecInstallResult {
    /// The operation succeeded.
    Installed {
        /// The freshly installed unit.
        canister: CanisterStateView,
        /// The heap delta the operation produced.
        heap_delta: int,
    },
    /// The operation failed; the old unit stands untouched.
    Failed {
        /// The terminal error.
        error: CanisterManagerError,
    },
}

/// Everything a finished install operation reports and reserves.
pub struct SpecInstallOutcome {
    /// What is left of the operation-level instruction budget.
    pub instructions_left: int,
    /// The unit and heap delta, or the terminal error.
    pub result: SpecInstallResult,
    /// Subnet memory bytes the operation reserved from the round ledger.
    pub reserved_bytes: int,
    /// Subnet message-memory bytes the operation reserved.
    pub reserved_message_bytes: int,
}

/// A freshly installed unit: the given system state, the compiled module
/// with the memory its methods left behind, an empty stable memory, and
/// the scheduler state carried over.
pub open spec fn installed_canister(
    sys: SystemStateView,
    module: ModuleView,
    mem: Seq<u8>,
    sched: SchedulerState,
) -> CanisterStateView {
    CanisterStateView {
        system_state: sys,
        execution_state: Some(
            ExecutionStateView { module, wasm_memory: mem, stable_memory: Seq::<u8>::empty() },
        ),
        scheduler_state: sched,
    }
}

/// Whether an executable result is the spec-level result.
pub open spec fn result_matches(
    r: Result<(CanisterState, u64), CanisterManagerError>,
    s: SpecInstallResult,
) -> bool {
    match s {
        SpecInstallResult::Installed { canister, heap_delta } => r matches Ok(p) && p.0@ == canister
            && p.1 == heap_delta,
        SpecInstallResult::Failed { error } => r matches Err(e) && e == error,
    }
}

/// Post-processing of a finished `canister_init` execution: an illegal
/// reply or a trap is terminal; otherwise the allocated memory is
/// reserved against the round ledger (failure is terminal), the buffered
/// change log is applied, and the operation succeeds.
pub open spec fn spec_finish_init(
    id: CanisterId,
    module: ModuleView,
    sys: SystemStateView,
    sched: SchedulerState,
    out: WasmExecutionOutput,
    ch: SystemStateChanges,
    memf: Seq<u8>,
    heap1: int,
    avail: SubnetAvailableMemory,
) -> SpecInstallOutcome {
    match out.wasm_result {
        Err(e) => SpecInstallOutcome {
            instructions_left: out.num_instructions_left as int,
            result: SpecInstallResult::Failed {
                error: CanisterManagerError::Hypervisor(id, e),
            },
            reserved_bytes: 0,
            reserved_message_bytes: 0,
        },
        Ok(opt) => {
            if opt is Some {
                SpecInstallOutcome {
                    instructions_left: out.num_instructions_left as int,
                    result: SpecInstallResult::Failed {
                        error: CanisterManagerError::Hypervisor(
                            id,
                            HypervisorError::ContractViolation,
                        ),
                    },
                    reserved_bytes: 0,
                    reserved_message_bytes: 0,
                }
            } else if out.allocated_bytes > avail.total_memory || out.allocated_message_bytes
                > avail.message_memory {
                SpecInstallOutcome {
                    instructions_left: out.num_instructions_left as int,
                    result: SpecInstallResult::Failed {
                        error: CanisterManagerError::SubnetMemoryExhausted {
                            canister_id: id,
                            requested_bytes: out.allocated_bytes,
                            requested_message_bytes: out.allocated_message_bytes,
                        },
                    },
                    reserved_bytes: 0,
                    reserved_message_bytes: 0,
                }
            } else {
                let sys2 = SystemStateView {
                    cycles_balance: spec_apply_cycles(
                        sys.cycles_balance,
                        ch.cycles_debited,
                        ch.cycles_credited,
                    ),
                    ..sys
                };
                SpecInstallOutcome {
                    instructions_left: out.num_instructions_left as int,
                    result: SpecInstallResult::Installed {
                        canister: installed_canister(sys2, module, memf, sched),
                        heap_delta: heap1 + out.dirty_pages * (PAGE_SIZE as int),
                    },
                    reserved_bytes: out.allocated_bytes as int,
                    reserved_message_bytes: out.allocated_message_bytes as int,
                }
            }
        },
    }
}

/// Stage 3 from its start: a module without `canister_init` completes the
/// stage at zero instruction cost; otherwise the method runs to its
/// slice-independent end and is post-processed.
pub open spec fn spec_outcome_from_init(
    id: CanisterId,
    arg: Seq<u8>,
    module: ModuleView,
    sys: SystemStateView,
    sched: SchedulerState,
    mem1: Seq<u8>,
    left2: u64,
    heap1: int,
    avail: SubnetAvailableMemory,
) -> SpecInstallOutcome {
    match module.init {
        None => SpecInstallOutcome {
            instructions_left: left2 as int,
            result: SpecInstallResult::Installed {
                canister: installed_canister(sys, module, mem1, sched),
                heap_delta: heap1,
            },
            reserved_bytes: 0,
            reserved_message_bytes: 0,
        },
        Some(ibody) => spec_finish_init(
            id,
            module,
            sys,
            sched,
            spec_output(ibody, arg, mem1, left2),
            spec_changes(ibody, arg, mem1, left2),
            spec_final_mem(ibody, arg, mem1, left2),
            heap1,
            avail,
        ),
    }
}

/// Post-processing of a finished `start` execution: an illegal reply or a
/// trap is terminal; otherwise the allocated memory is reserved against
/// the round ledger (failure is terminal), dirtied pages accrue to the
/// heap delta, and stage 3 follows.
pub open spec fn spec_finish_start(
    id: CanisterId,
    init_arg: Seq<u8>,
    module: ModuleView,
    sys: SystemStateView,
    sched: SchedulerState,
    out: WasmExecutionOutput,
    memf: Seq<u8>,
    heap0: int,
    avail: SubnetAvailableMemory,
) -> SpecInstallOutcome {
    match out.wasm_result {
        Err(e) => SpecInstallOutcome {
            instructions_left: out.num_instructions_left as int,
            result: SpecInstallResult::Failed {
                error: CanisterManagerError::Hypervisor(id, e),
            },
            reserved_bytes: 0,
            reserved_message_bytes: 0,
        },
        Ok(opt) => {
            if opt is Some {
                SpecInstallOutcome {
                    instructions_left: out.num_instructions_left as int,
                    result: SpecInstallResult::Failed {
                        error: CanisterManagerError::Hypervisor(
                            id,
                            HypervisorError::ContractViolation,
                        ),
                    },
                    reserved_bytes: 0,
                    reserved_message_bytes: 0,
                }
            } else if out.allocated_bytes > avail.total_memory || out.allocated_message_bytes
                > avail.message_memory {
                SpecInstallOutcome {
                    instructions_left: out.num_instructions_left as int,
                    result: SpecInstallResult::Failed {
                        error: CanisterManagerError::SubnetMemoryExhausted {
                            canister_id: id,
                            requested_bytes: out.allocated_bytes,
                            requested_message_bytes: out.allocated_message_bytes,
                        },
                    },
                    reserved_bytes: 0,
                    reserved_message_bytes: 0,
                }
            } else {
                let avail1 = SubnetAvailableMemory {
                    total_memory: (avail.total_memory - out.allocated_bytes) as u64,
                    message_memory: (avail.message_memory - out.allocated_message_bytes) as u64,
                };
                let inner = spec_outcome_from_init(
                    id,
                    init_arg,
                    module,
                    sys,
                    sched,
                    memf,
                    out.num_instructions_left,
                    heap0 + out.dirty_pages * (PAGE_SIZE as int),
                    avail1,
                );
                SpecInstallOutcome {
                    reserved_bytes: out.allocated_bytes + inner.reserved_bytes,
                    reserved_message_bytes: out.allocated_message_bytes
                        + inner.reserved_message_bytes,
                    ..inner
                }
            }
        },
    }
}

/// Stage 2 from its start: a module without `start` completes the stage
/// at zero instruction cost; otherwise the method runs on the fresh
/// zeroed memory to its slice-independent end and is post-processed.
pub open spec fn spec_outcome_from_start(
    id: CanisterId,
    init_arg: Seq<u8>,
    module: ModuleView,
    sys: SystemStateView,
    sched: SchedulerState,
    m1: u64,
    avail: SubnetAvailableMemory,
) -> SpecInstallOutcome {
    let mem0 = zero_mem(module.initial_pages as int);
    match module.start {
        None => spec_outcome_from_init(id, init_arg, module, sys, sched, mem0, m1, 0, avail),
        Some(sbody) => spec_finish_start(
            id,
            init_arg,
            module,
            sys,
            sched,
            spec_output(sbody, Seq::<u8>::empty(), mem0, m1),
            spec_final_mem(sbody, Seq::<u8>::empty(), mem0, m1),
            0,
            avail,
        ),
    }
}

/// The memory allocation the operation ends up with: the requested one,
/// or the unit's current one when the request names none.
pub open spec fn spec_desired_allocation(
    ctx: InstallCodeContextView,
    old_sys: SystemStateView,
) -> MemoryAllocation {
    match ctx.memory_allocation {
        Some(a) => a,
        None => old_sys.memory_allocation,
    }
}

/// The compilation charge the operation books: the compile cost under
/// `Charge`, nothing under `Ignore` or when compilation fails.
pub open spec fn spec_compile_charge(
    h: HypervisorView,
    wasm: Seq<u8>,
    handling: CompilationCostHandling,
) -> u64 {
    match spec_compile(h, wasm) {
        None => 0u64,
        Some(c) => match handling {
            CompilationCostHandling::Ignore => 0u64,
            CompilationCostHandling::Charge => c.1 as u64,
        },
    }
}

/// The visible outcome of one whole install operation, as a function of
/// the request, the old unit, the execution parameters, the engine state,
/// the cost handling, and the round's available memory — and of nothing
/// else.  In particular no per-slice limit appears: the outcome is
/// independent of how the operation was sliced.
pub open spec fn spec_install(
    ctx: InstallCodeContextView,
    old_c: CanisterStateView,
    params: ExecutionParameters,
    h: HypervisorView,
    handling: CompilationCostHandling,
    avail: SubnetAvailableMemory,
) -> SpecInstallOutcome {
    match spec_compile(h, ctx.wasm_module) {
        None => SpecInstallOutcome {
            instructions_left: params.instruction_limits.message as int,
            result: SpecInstallResult::Failed {
                error: CanisterManagerError::Hypervisor(
                    ctx.canister_id,
                    HypervisorError::InvalidWasm,
                ),
            },
            reserved_bytes: 0,
            reserved_message_bytes: 0,
        },
        Some(c) => {
            let charge = spec_compile_charge(h, ctx.wasm_module, handling);
            let m1 = reduced(params.instruction_limits.message, charge);
            let module = c.0;
            let desired = spec_desired_allocation(ctx, old_c.system_state);
            let usage = module.initial_pages * (PAGE_SIZE as int);
            if (desired matches MemoryAllocation::Reserved(bytes) && bytes < usage) {
                SpecInstallOutcome {
                    instructions_left: m1 as int,
                    result: SpecInstallResult::Failed {
                        error: CanisterManagerError::NotEnoughMemoryAllocationGiven {
                            canister_id: ctx.canister_id,
                            memory_allocation_given: desired,
                            memory_usage_needed: usage as u64,
                        },
                    },
                    reserved_bytes: 0,
                    reserved_message_bytes: 0,
                }
            } else {
                let sys1 = SystemStateView { memory_allocation: desired, ..old_c.system_state };
                spec_outcome_from_start(
                    ctx.canister_id,
                    ctx.arg,
                    module,
                    sys1,
                    old_c.scheduler_state,
                    m1,
                    avail,
                )
            }
        },
    }
}

impl PausedInitExecution {
    /// What this continuation maintains between rounds.
    pub open spec fn wf(self) -> bool {
        let c = self.new_canister@;
        let p = self.paused_wasm_execution;
        &&& canister_wf(c)
        &&& c.execution_state is Some
        &&& {
            let e = c.execution_state->Some_0;
            &&& e.module.init == Some(p.body@)
            &&& p.paused_wf(e.wasm_memory)
            &&& e.stable_memory == Seq::<u8>::empty()
        }
        &&& p.consumed + p.message_left == self.execution_parameters.instruction_limits.message
        &&& p.slice_limit == self.execution_parameters.instruction_limits.max_slice
        &&& self.total_heap_delta <= 0x10000000
    }

    /// The outcome this continuation resolves to when driven to
    /// `Finished`, as a function of its own state and the available
    /// memory at the completing slice.
    pub open spec fn outcome(self, avail: SubnetAvailableMemory) -> SpecInstallOutcome {
        let c = self.new_canister@;
        let e = c.execution_state->Some_0;
        let p = self.paused_wasm_execution;
        let m0 = (p.consumed + p.message_left) as u64;
        spec_finish_init(
            c.system_state.canister_id,
            e.module,
            c.system_state,
            c.scheduler_state,
            spec_output(p.body@, p.arg@, p.initial_mem@, m0),
            spec_changes(p.body@, p.arg@, p.initial_mem@, m0),
            spec_final_mem(p.body@, p.arg@, p.initial_mem@, m0),
            self.total_heap_delta as int,
            avail,
        )
    }
}

impl PausedStartExecutionDuringInstall {
    /// What this continuation maintains between rounds.
    pub open spec fn wf(self) -> bool {
        let c = self.new_canister@;
        let p = self.paused_wasm_execution;
        &&& canister_wf(c)
        &&& c.execution_state is Some
        &&& {
            let e = c.execution_state->Some_0;
            &&& e.module.start == Some(p.body@)
            &&& p.arg@ == Seq::<u8>::empty()
            &&& p.paused_wf(e.wasm_memory)
            &&& e.stable_memory == Seq::<u8>::empty()
        }
        &&& p.consumed + p.message_left == self.execution_parameters.instruction_limits.message
        &&& p.slice_limit == self.execution_parameters.instruction_limits.max_slice
        &&& self.total_heap_delta == 0
    }

    /// The outcome this continuation resolves to when driven to
    /// `Finished`, as a function of its own state and the available
    /// memory from the completing slice on.
    pub open spec fn outcome(self, avail: SubnetAvailableMemory) -> SpecInstallOutcome {
        let c = self.new_canister@;
        let e = c.execution_state->Some_0;
        let p = self.paused_wasm_execution;
        let m0 = (p.consumed + p.message_left) as u64;
        spec_finish_start(
            c.system_state.canister_id,
            self.context_arg@,
            e.module,
            c.system_state,
            c.scheduler_state,
            spec_output(p.body@, p.arg@, p.initial_mem@, m0),
            spec_final_mem(p.body@, p.arg@, p.initial_mem@, m0),
            self.total_heap_delta as int,
            avail,
        )
    }
}

/// The contract of launching stage 3 with `instructions_left` budget on
/// the unit built so far: either the operation finishes with the
/// slice-independent outcome, or it pauses in `canister_init` with a
/// continuation that resolves to the very same outcome.
pub open spec fn init_launched(
    id: CanisterId,
    arg: Seq<u8>,
    module: ModuleView,
    sys: SystemStateView,
    sched: SchedulerState,
    max_slice: u64,
    instructions_left: u64,
    heap1: int,
    mem1: Seq<u8>,
    limits0: RoundLimits,
    r: InstallCodeRoutineResult,
    limits1: RoundLimits,
) -> bool {
    let o = spec_outcome_from_init(
        id,
        arg,
        module,
        sys,
        sched,
        mem1,
        instructions_left,
        heap1,
        limits0.subnet_available_memory,
    );
    &&& limits1.heap_delta_remaining == limits0.heap_delta_remaining
    &&& match r {
        InstallCodeRoutineResult::Finished { instructions_left: left, result } => {
            &&& left == o.instructions_left
            &&& result_matches(result, o.result)
            &&& limits1.subnet_available_memory.total_memory
                == limits0.subnet_available_memory.total_memory - o.reserved_bytes
            &&& limits1.subnet_available_memory.message_memory
                == limits0.subnet_available_memory.message_memory - o.reserved_message_bytes
            &&& limits1.instructions == reduced(
                limits0.instructions,
                (instructions_left - o.instructions_left) as u64,
            )
        },
        InstallCodeRoutineResult::Paused { paused_execution } => match paused_execution {
            PausedInstallCodeRoutine::Init(p) => {
                &&& p.wf()
                &&& (forall|av: SubnetAvailableMemory| #[trigger]
                    p.outcome(av) == spec_outcome_from_init(
                        id,
                        arg,
                        module,
                        sys,
                        sched,
                        mem1,
                        instructions_left,
                        heap1,
                        av,
                    ))
                &&& p.execution_parameters.instruction_limits.max_slice == max_slice
                &&& limits1.subnet_available_memory == limits0.subnet_available_memory
                &&& limits1.instructions == reduced(
                    limits0.instructions,
                    if max_slice <= instructions_left {
                        max_slice
                    } else {
                        instructions_left
                    },
                )
            },
            PausedInstallCodeRoutine::StartDuringInstall(_) => false,
        },
    }
}

/// The contract of post-processing a finished `start` execution: either
/// the operation finishes with the slice-independent outcome, or `start`
/// succeeded, its allocations were reserved, and the operation pauses in
/// `canister_init` with a continuation that resolves to the rest of the
/// outcome.
pub open spec fn start_result_processed(
    id: CanisterId,
    init_arg: Seq<u8>,
    module: ModuleView,
    sys: SystemStateView,
    sched: SchedulerState,
    max_slice: u64,
    output: WasmExecutionOutput,
    memf: Seq<u8>,
    heap0: int,
    limits0: RoundLimits,
    r: InstallCodeRoutineResult,
    limits1: RoundLimits,
) -> bool {
    let o = spec_finish_start(
        id,
        init_arg,
        module,
        sys,
        sched,
        output,
        memf,
        heap0,
        limits0.subnet_available_memory,
    );
    &&& limits1.heap_delta_remaining == limits0.heap_delta_remaining
    &&& match r {
        InstallCodeRoutineResult::Finished { instructions_left: left, result } => {
            &&& left == o.instructions_left
            &&& result_matches(result, o.result)
            &&& limits1.subnet_available_memory.total_memory
                == limits0.subnet_available_memory.total_memory - o.reserved_bytes
            &&& limits1.subnet_available_memory.message_memory
                == limits0.subnet_available_memory.message_memory - o.reserved_message_bytes
            &&& limits1.instructions == reduced(
                limits0.instructions,
                (output.num_instructions_left - o.instructions_left) as u64,
            )
        },
        InstallCodeRoutineResult::Paused { paused_execution } => match paused_execution {
            PausedInstallCodeRoutine::Init(p) => {
                &&& p.wf()
                &&& (output.wasm_result matches Ok(opt) && opt is None)
                &&& (forall|av: SubnetAvailableMemory| #[trigger]
                    p.outcome(av) == spec_outcome_from_init(
                        id,
                        init_arg,
                        module,
                        sys,
                        sched,
                        memf,
                        output.num_instructions_left,
                        heap0 + output.dirty_pages * (PAGE_SIZE as int),
                        av,
                    ))
                &&& p.execution_parameters.instruction_limits.max_slice == max_slice
                &&& limits1.subnet_available_memory.total_memory
                    == limits0.subnet_available_memory.total_memory - output.allocated_bytes
                &&& limits1.subnet_available_memory.message_memory
                    == limits0.subnet_available_memory.message_memory
                    - output.allocated_message_bytes
                &&& limits1.instructions == reduced(
                    limits0.instructions,
                    if max_slice <= output.num_instructions_left {
                        max_slice
                    } else {
                        output.num_instructions_left
                    },
                )
            },
            PausedInstallCodeRoutine::StartDuringInstall(_) => false,
        },
    }
}

/// The contract of one whole invocation of [`execute_install`]: the
/// engine state evolves as one compile-and-bind demands, the ledger is
/// charged exactly, and the result is the slice-independent outcome — or
/// a stage-tagged continuation that resolves to it.
pub open spec fn install_result_ok(
    ctx: InstallCodeContextView,
    old_c: CanisterStateView,
    params: ExecutionParameters,
    h0: HypervisorView,
    handling: CompilationCostHandling,
    limits0: RoundLimits,
    r: InstallCodeRoutineResult,
    limits1: RoundLimits,
) -> bool {
    let o = spec_install(ctx, old_c, params, h0, handling, limits0.subnet_available_memory);
    let charge = spec_compile_charge(h0, ctx.wasm_module, handling);
    let m1 = reduced(params.instruction_limits.message, charge);
    let max_slice = params.instruction_limits.max_slice;
    &&& limits1.heap_delta_remaining == limits0.heap_delta_remaining
    &&& match r {
        InstallCodeRoutineResult::Finished { instructions_left, result } => {
            &&& instructions_left == o.instructions_left
            &&& result_matches(result, o.result)
            &&& limits1.subnet_available_memory.total_memory
                == limits0.subnet_available_memory.total_memory - o.reserved_bytes
            &&& limits1.subnet_available_memory.message_memory
                == limits0.subnet_available_memory.message_memory - o.reserved_message_bytes
            &&& limits1.instructions == reduced(
                reduced(limits0.instructions, charge),
                (m1 - o.instructions_left) as u64,
            )
        },
        InstallCodeRoutineResult::Paused { paused_execution } => {
            &&& spec_compile(h0, ctx.wasm_module) is Some
            &&& match paused_execution {
                PausedInstallCodeRoutine::StartDuringInstall(p) => {
                    &&& p.wf()
                    &&& (forall|av: SubnetAvailableMemory| #[trigger]
                        p.outcome(av) == spec_install(ctx, old_c, params, h0, handling, av))
                    &&& p.execution_parameters.instruction_limits.max_slice == max_slice
                    &&& p.context_arg@ == ctx.arg
                    &&& limits1.subnet_available_memory == limits0.subnet_available_memory
                    &&& limits1.instructions == reduced(
                        reduced(limits0.instructions, charge),
                        if max_slice <= m1 {
                            max_slice
                        } else {
                            m1
                        },
                    )
                },
                PausedInstallCodeRoutine::Init(p) => {
                    let module = spec_compile(h0, ctx.wasm_module)->Some_0.0;
                    let sys1 = SystemStateView {
                        memory_allocation: spec_desired_allocation(ctx, old_c.system_state),
                        ..old_c.system_state
                    };
                    &&& p.wf()
                    &&& match module.start {
                        None => {
                            // the no-op start stage cost nothing; the
                            // whole remaining outcome is the operation's
                            &&& (forall|av: SubnetAvailableMemory| #[trigger]
                                p.outcome(av) == spec_install(
                                    ctx,
                                    old_c,
                                    params,
                                    h0,
                                    handling,
                                    av,
                                ))
                            &&& limits1.subnet_available_memory
                                == limits0.subnet_available_memory
                            &&& limits1.instructions == reduced(
                                reduced(limits0.instructions, charge),
                                if max_slice <= m1 {
                                    max_slice
                                } else {
                                    m1
                                },
                            )
                        },
                        Some(sbody) => {
                            let mem0 = zero_mem(module.initial_pages as int);
                            let out_s = spec_output(sbody, Seq::<u8>::empty(), mem0, m1);
                            let memf = spec_final_mem(sbody, Seq::<u8>::empty(), mem0, m1);
                            &&& (forall|av: SubnetAvailableMemory| #[trigger]
                                p.outcome(av) == spec_outcome_from_init(
                                    ctx.canister_id,
                                    ctx.arg,
                                    module,
                                    sys1,
                                    old_c.scheduler_state,
                                    memf,
                                    out_s.num_instructions_left,
                                    out_s.dirty_pages * (PAGE_SIZE as int),
                                    av,
                                ))
                            &&& limits1.subnet_available_memory.total_memory
                                == limits0.subnet_available_memory.total_memory
                                - out_s.allocated_bytes
                            &&& limits1.subnet_available_memory.message_memory
                                == limits0.subnet_available_memory.message_memory
                                - out_s.allocated_message_bytes
                            &&& limits1.instructions == reduced(
                                reduced(
                                    reduced(limits0.instructions, charge),
                                    (m1 - out_s.num_instructions_left) as u64,
                                ),
                                if max_slice <= out_s.num_instructions_left {
                                    max_slice
                                } else {
                                    out_s.num_instructions_left
                                },
                            )
                        },
                    }
                },
            }
        },
    }
}

/// Post-processing a finished `start` never reports more budget left
/// than the `start` execution itself left.
proof fn lemma_finish_start_left_bound(
    id: CanisterId,
    init_arg: Seq<u8>,
    module: ModuleView,
    sys: SystemStateView,
    sched: SchedulerState,
    out: WasmExecutionOutput,
    memf: Seq<u8>,
    heap0: int,
    avail: SubnetAvailableMemory,
)
    ensures
        0 <= spec_finish_start(
            id,
            init_arg,
            module,
            sys,
            sched,
            out,
            memf,
            heap0,
            avail,
        ).instructions_left <= out.num_instructions_left,
{
    match out.wasm_result {
        Ok(opt) => {
            if opt is None && out.allocated_bytes <= avail.total_memory
                && out.allocated_message_bytes <= avail.message_memory {
                match module.init {
                    Some(ibody) => {
                        crate::engine::lemma_output_left(
                            ibody,
                            init_arg,
                            memf,
                            out.num_instructions_left,
                        );
                    },
                    None => {},
                }
            }
        },
        Err(_) => {},
    }
}

/// Stage 3 post-processing: takes the finished `canister_init` execution's
/// output, reserves its allocations against the round ledger, applies the
/// buffered change log, and finishes the operation.
fn install_stage_3_process_init_result(
    new_canister: CanisterState,
    output: WasmExecutionOutput,
    system_state_changes: SystemStateChanges,
    execution_parameters: ExecutionParameters,
    total_heap_delta: u64,
    round_limits: &mut RoundLimits,
) -> (r: InstallCodeRoutineResult)
    requires
        canister_wf(new_canister@),
        new_canister@.execution_state is Some,
        new_canister@.execution_state->Some_0.stable_memory == Seq::<u8>::empty(),
        output.dirty_pages <= 65535,
        total_heap_delta <= 0x10000000,
    ensures
        ({
            let c = new_canister@;
            let e = c.execution_state->Some_0;
            let o = spec_finish_init(
                c.system_state.canister_id,
                e.module,
                c.system_state,
                c.scheduler_state,
                output,
                system_state_changes,
                e.wasm_memory,
                total_heap_delta as int,
                old(round_limits).subnet_available_memory,
            );
            &&& match r {
                InstallCodeRoutineResult::Finished { instructions_left, result } => {
                    &&& instructions_left == o.instructions_left
                    &&& result_matches(result, o.result)
                },
                InstallCodeRoutineResult::Paused { .. } => false,
            }
            &&& final(round_limits).subnet_available_memory.total_memory == old(
                round_limits,
            ).subnet_available_memory.total_memory - o.reserved_bytes
            &&& final(round_limits).subnet_available_memory.message_memory == old(
                round_limits,
            ).subnet_available_memory.message_memory - o.reserved_message_bytes
            &&& final(round_limits).instructions == old(round_limits).instructions
            &&& final(round_limits).heap_delta_remaining == old(round_limits).heap_delta_remaining
        }),
        ledger_le(*final(round_limits), *old(round_limits)),
{
    let mut new_canister = new_canister;
    let mut total_heap_delta = total_heap_delta;
    let canister_id = new_canister.canister_id();
    match output.wasm_result {
        Ok(opt_result) => {
            if opt_result.is_some() {
                return InstallCodeRoutineResult::Finished {
                    instructions_left: output.num_instructions_left,
                    result: Err(
                        CanisterManagerError::Hypervisor(
                            canister_id,
                            HypervisorError::ContractViolation,
                        ),
                    ),
                };
            }
            match round_limits.subnet_available_memory.try_decrement(
                output.allocated_bytes,
                output.allocated_message_bytes,
            ) {
                Ok(()) => {},
                Err(_) => {
                    return InstallCodeRoutineResult::Finished {
                        instructions_left: output.num_instructions_left,
                        result: Err(
                            CanisterManagerError::SubnetMemoryExhausted {
                                canister_id,
                                requested_bytes: output.allocated_bytes,
                                requested_message_bytes: output.allocated_message_bytes,
                            },
                        ),
                    };
                },
            }
            system_state_changes.apply_changes(&mut new_canister.system_state);
            total_heap_delta = total_heap_delta + output.dirty_pages * PAGE_SIZE;
            InstallCodeRoutineResult::Finished {
                instructions_left: output.num_instructions_left,
                result: Ok((new_canister, total_heap_delta)),
            }
        },
        Err(err) => InstallCodeRoutineResult::Finished {
            instructions_left: output.num_instructions_left,
            result: Err(CanisterManagerError::Hypervisor(canister_id, err)),
        },
    }
}

/// Stage 3 launch: records how much budget `start` left, then runs
/// `canister_init` — absent export, a zero-cost no-op — and either
/// post-processes it synchronously or pauses.
fn install_stage_2b_continue_install_after_start(
    context_sender: PrincipalId,
    context_arg: Vec<u8>,
    new_canister: CanisterState,
    execution_parameters: ExecutionParameters,
    instructions_left: u64,
    total_heap_delta: u64,
    time: Time,
    round_limits: &mut RoundLimits,
) -> (r: InstallCodeRoutineResult)
    requires
        canister_wf(new_canister@),
        new_canister@.execution_state is Some,
        new_canister@.execution_state->Some_0.stable_memory == Seq::<u8>::empty(),
        instructions_left <= execution_parameters.instruction_limits.message,
        execution_parameters.instruction_limits.max_slice >= 1,
        total_heap_delta <= 0x10000000,
    ensures
        ({
            let c = new_canister@;
            let e = c.execution_state->Some_0;
            init_launched(
                c.system_state.canister_id,
                context_arg@,
                e.module,
                c.system_state,
                c.scheduler_state,
                execution_parameters.instruction_limits.max_slice,
                instructions_left,
                total_heap_delta as int,
                e.wasm_memory,
                *old(round_limits),
                r,
                *final(round_limits),
            )
        }),
        ledger_le(*final(round_limits), *old(round_limits)),
{
    let mut new_canister = new_canister;
    let mut execution_parameters = execution_parameters;
    execution_parameters.instruction_limits.update(instructions_left);
    let method = WasmMethod::System(SystemMethod::CanisterInit);
    let exports_init = match &new_canister.execution_state {
        Some(es) => es.exports_method(&method),
        None => false,
    };
    if !exports_init {
        return InstallCodeRoutineResult::Finished {
            instructions_left,
            result: Ok((new_canister, total_heap_delta)),
        };
    }
    let ghost c0 = new_canister@;
    let ghost e0 = c0.execution_state->Some_0;
    let ghost ibody = e0.module.init->Some_0;
    let max_slice = execution_parameters.instruction_limits.max_slice;
    let wasm_execution_result;
    match &mut new_canister.execution_state {
        Some(es) => {
            wasm_execution_result = match &es.module.init {
                Some(body) => crate::engine::execute_dts(
                    body,
                    &context_arg,
                    &mut es.wasm_memory,
                    instructions_left,
                    max_slice,
                ),
                None => vstd::pervasive::unreached(),
            };
        },
        None => {
            wasm_execution_result = vstd::pervasive::unreached();
        },
    }
    proof {
        crate::engine::lemma_output_bounds(ibody, context_arg@, e0.wasm_memory, instructions_left);
        crate::engine::lemma_run_mem_wf(
            ibody,
            context_arg@,
            e0.wasm_memory,
            instructions_left as nat,
        );
    }
    match wasm_execution_result {
        WasmExecutionResult::Finished(slice, output, system_state_changes) => {
            proof {
                let budget = if max_slice <= instructions_left {
                    max_slice
                } else {
                    instructions_left
                };
                let init0 = init_run_state(e0.wasm_memory);
                let reach = run(ibody, context_arg@, init0, budget as nat);
                if is_done(ibody, reach) {
                    crate::engine::lemma_run_add(
                        ibody,
                        context_arg@,
                        init0,
                        budget as nat,
                        (instructions_left - budget) as nat,
                    );
                    crate::engine::lemma_run_frozen(
                        ibody,
                        context_arg@,
                        reach,
                        (instructions_left - budget) as nat,
                    );
                }
            }
            round_limits.charge_instructions(slice.executed_instructions);
            install_stage_3_process_init_result(
                new_canister,
                output,
                system_state_changes,
                execution_parameters,
                total_heap_delta,
                round_limits,
            )
        },
        WasmExecutionResult::Paused(slice, paused_wasm_execution) => {
            proof {
                let budget = if max_slice <= instructions_left {
                    max_slice
                } else {
                    instructions_left
                };
                crate::engine::lemma_run_mem_wf(ibody, context_arg@, e0.wasm_memory, budget as nat);
            }
            round_limits.charge_instructions(slice.executed_instructions);
            let paused = PausedInitExecution {
                new_canister,
                paused_wasm_execution,
                execution_parameters,
                total_heap_delta,
            };
            InstallCodeRoutineResult::Paused {
                paused_execution: PausedInstallCodeRoutine::Init(paused),
            }
        },
    }
}

/// Stage 2 post-processing: takes the finished `start` execution's
/// output, reserves its allocations against the round ledger, accrues the
/// dirtied pages to the heap delta, and moves on to stage 3.
fn install_stage_2a_process_start_result(
    output: WasmExecutionOutput,
    context_sender: PrincipalId,
    context_arg: Vec<u8>,
    new_canister: CanisterState,
    execution_parameters: ExecutionParameters,
    total_heap_delta: u64,
    time: Time,
    round_limits: &mut RoundLimits,
) -> (r: InstallCodeRoutineResult)
    requires
        canister_wf(new_canister@),
        new_canister@.execution_state is Some,
        new_canister@.execution_state->Some_0.stable_memory == Seq::<u8>::empty(),
        output.dirty_pages <= 65535,
        output.num_instructions_left <= execution_parameters.instruction_limits.message,
        execution_parameters.instruction_limits.max_slice >= 1,
        total_heap_delta + output.dirty_pages * PAGE_SIZE <= 0x10000000,
    ensures
        ({
            let c = new_canister@;
            let e = c.execution_state->Some_0;
            start_result_processed(
                c.system_state.canister_id,
                context_arg@,
                e.module,
                c.system_state,
                c.scheduler_state,
                execution_parameters.instruction_limits.max_slice,
                output,
                e.wasm_memory,
                total_heap_delta as int,
                *old(round_limits),
                r,
                *final(round_limits),
            )
        }),
        ledger_le(*final(round_limits), *old(round_limits)),
{
    let canister_id = new_canister.canister_id();
    let instructions_left = output.num_instructions_left;
    match output.wasm_result {
        Ok(opt_result) => {
            if opt_result.is_some() {
                return InstallCodeRoutineResult::Finished {
                    instructions_left,
                    result: Err(
                        CanisterManagerError::Hypervisor(
                            canister_id,
                            HypervisorError::ContractViolation,
                        ),
                    ),
                };
            }
            match round_limits.subnet_available_memory.try_decrement(
                output.allocated_bytes,
                output.allocated_message_bytes,
            ) {
                Ok(()) => {},
                Err(_) => {
                    return InstallCodeRoutineResult::Finished {
                        instructions_left,
                        result: Err(
                            CanisterManagerError::SubnetMemoryExhausted {
                                canister_id,
                                requested_bytes: output.allocated_bytes,
                                requested_message_bytes: output.allocated_message_bytes,
                            },
                        ),
                    };
                },
            }
            let total_heap_delta = total_heap_delta + output.dirty_pages * PAGE_SIZE;
            install_stage_2b_continue_install_after_start(
                context_sender,
                context_arg,
                new_canister,
                execution_parameters,
                instructions_left,
                total_heap_delta,
                time,
                round_limits,
            )
        },
        Err(err) => InstallCodeRoutineResult::Finished {
            instructions_left,
            result: Err(CanisterManagerError::Hypervisor(canister_id, err)),
        },
    }
}

/// The contract of launching stage 2 on a freshly bound unit whose module
/// exports `start`: the operation finishes with the slice-independent
/// outcome, pauses in `start`, or completes `start` and pauses in
/// `canister_init` — in every case resolving to the same outcome.
pub open spec fn start_launched(
    id: CanisterId,
    init_arg: Seq<u8>,
    module: ModuleView,
    sys: SystemStateView,
    sched: SchedulerState,
    max_slice: u64,
    m1: u64,
    limits0: RoundLimits,
    r: InstallCodeRoutineResult,
    limits1: RoundLimits,
) -> bool {
    let o = spec_outcome_from_start(
        id,
        init_arg,
        module,
        sys,
        sched,
        m1,
        limits0.subnet_available_memory,
    );
    let sbody = module.start->Some_0;
    let mem0 = zero_mem(module.initial_pages as int);
    let out_s = spec_output(sbody, Seq::<u8>::empty(), mem0, m1);
    let memf = spec_final_mem(sbody, Seq::<u8>::empty(), mem0, m1);
    &&& limits1.heap_delta_remaining == limits0.heap_delta_remaining
    &&& match r {
        InstallCodeRoutineResult::Finished { instructions_left, result } => {
            &&& instructions_left == o.instructions_left
            &&& result_matches(result, o.result)
            &&& limits1.subnet_available_memory.total_memory
                == limits0.subnet_available_memory.total_memory - o.reserved_bytes
            &&& limits1.subnet_available_memory.message_memory
                == limits0.subnet_available_memory.message_memory - o.reserved_message_bytes
            &&& limits1.instructions == reduced(
                limits0.instructions,
                (m1 - o.instructions_left) as u64,
            )
        },
        InstallCodeRoutineResult::Paused { paused_execution } => match paused_execution {
            PausedInstallCodeRoutine::StartDuringInstall(p) => {
                &&& p.wf()
                &&& (forall|av: SubnetAvailableMemory| #[trigger]
                    p.outcome(av) == spec_outcome_from_start(
                        id,
                        init_arg,
                        module,
                        sys,
                        sched,
                        m1,
                        av,
                    ))
                &&& p.execution_parameters.instruction_limits.max_slice == max_slice
                &&& p.context_arg@ == init_arg
                &&& limits1.subnet_available_memory == limits0.subnet_available_memory
                &&& limits1.instructions == reduced(
                    limits0.instructions,
                    if max_slice <= m1 {
                        max_slice
                    } else {
                        m1
                    },
                )
            },
            PausedInstallCodeRoutine::Init(p) => {
                &&& p.wf()
                &&& (forall|av: SubnetAvailableMemory| #[trigger]
                    p.outcome(av) == spec_outcome_from_init(
                        id,
                        init_arg,
                        module,
                        sys,
                        sched,
                        memf,
                        out_s.num_instructions_left,
                        out_s.dirty_pages * (PAGE_SIZE as int),
                        av,
                    ))
                &&& p.execution_parameters.instruction_limits.max_slice == max_slice
                &&& limits1.subnet_available_memory.total_memory
                    == limits0.subnet_available_memory.total_memory - out_s.allocated_bytes
                &&& limits1.subnet_available_memory.message_memory
                    == limits0.subnet_available_memory.message_memory
                    - out_s.allocated_message_bytes
                &&& limits1.instructions == reduced(
                    reduced(limits0.instructions, (m1 - out_s.num_instructions_left) as u64),
                    if max_slice <= out_s.num_instructions_left {
                        max_slice
                    } else {
                        out_s.num_instructions_left
                    },
                )
            },
        },
    }
}

/// Stage 2 launch: runs the first slice of the module's `start` method on
/// the freshly bound execution state and post-processes or pauses.
#[verifier::rlimit(60)]
fn install_stage_2_run_start(
    context_sender: PrincipalId,
    context_arg: Vec<u8>,
    new_canister: CanisterState,
    execution_parameters: ExecutionParameters,
    total_heap_delta: u64,
    time: Time,
    round_limits: &mut RoundLimits,
) -> (r: InstallCodeRoutineResult)
    requires
        canister_wf(new_canister@),
        new_canister@.execution_state is Some,
        ({
            let e = new_canister@.execution_state->Some_0;
            &&& e.module.start is Some
            &&& e.wasm_memory == zero_mem(e.module.initial_pages as int)
            &&& e.stable_memory == Seq::<u8>::empty()
        }),
        execution_parameters.instruction_limits.max_slice >= 1,
        total_heap_delta == 0,
    ensures
        ({
            let c = new_canister@;
            let e = c.execution_state->Some_0;
            start_launched(
                c.system_state.canister_id,
                context_arg@,
                e.module,
                c.system_state,
                c.scheduler_state,
                execution_parameters.instruction_limits.max_slice,
                execution_parameters.instruction_limits.message,
                *old(round_limits),
                r,
                *final(round_limits),
            )
        }),
        ledger_le(*final(round_limits), *old(round_limits)),
{
    let mut new_canister = new_canister;
    let ghost c0 = new_canister@;
    let ghost e0 = c0.execution_state->Some_0;
    let ghost sbody = e0.module.start->Some_0;
    let max_slice = execution_parameters.instruction_limits.max_slice;
    let instructions_left = execution_parameters.instruction_limits.message();
    let empty_arg: Vec<u8> = Vec::new();
    proof {
        assert(empty_arg@ =~= Seq::<u8>::empty());
    }
    let wasm_execution_result;
    match &mut new_canister.execution_state {
        Some(es) => {
            wasm_execution_result = match &es.module.start {
                Some(body) => crate::engine::execute_dts(
                    body,
                    &empty_arg,
                    &mut es.wasm_memory,
                    instructions_left,
                    max_slice,
                ),
                None => vstd::pervasive::unreached(),
            };
        },
        None => {
            wasm_execution_result = vstd::pervasive::unreached();
        },
    }
    proof {
        crate::engine::lemma_output_bounds(
            sbody,
            Seq::<u8>::empty(),
            e0.wasm_memory,
            instructions_left,
        );
    }
    match wasm_execution_result {
        WasmExecutionResult::Finished(slice, output, _system_state_changes) => {
            // A system method's change log is discarded: only
            // `canister_init`'s side effects become durable.
            proof {
                let budget = if max_slice <= instructions_left {
                    max_slice
                } else {
                    instructions_left
                };
                let init0 = init_run_state(e0.wasm_memory);
                let reach = run(sbody, Seq::<u8>::empty(), init0, budget as nat);
                if is_done(sbody, reach) {
                    crate::engine::lemma_run_add(
                        sbody,
                        Seq::<u8>::empty(),
                        init0,
                        budget as nat,
                        (instructions_left - budget) as nat,
                    );
                    crate::engine::lemma_run_frozen(
                        sbody,
                        Seq::<u8>::empty(),
                        reach,
                        (instructions_left - budget) as nat,
                    );
                }
                crate::engine::lemma_run_mem_wf(
                    sbody,
                    Seq::<u8>::empty(),
                    e0.wasm_memory,
                    instructions_left as nat,
                );
            }
            round_limits.charge_instructions(slice.executed_instructions);
            let ghost c1 = new_canister@;
            let ghost limits_b = *round_limits;
            let r = install_stage_2a_process_start_result(
                output,
                context_sender,
                context_arg,
                new_canister,
                execution_parameters,
                total_heap_delta,
                time,
                round_limits,
            );
            proof {
                let e1 = c1.execution_state->Some_0;
                crate::engine::lemma_output_left(
                    sbody,
                    Seq::<u8>::empty(),
                    e0.wasm_memory,
                    instructions_left,
                );
                lemma_finish_start_left_bound(
                    c1.system_state.canister_id,
                    context_arg@,
                    e1.module,
                    c1.system_state,
                    c1.scheduler_state,
                    output,
                    e1.wasm_memory,
                    0,
                    limits_b.subnet_available_memory,
                );
                let o2 = spec_finish_start(
                    c1.system_state.canister_id,
                    context_arg@,
                    e1.module,
                    c1.system_state,
                    c1.scheduler_state,
                    output,
                    e1.wasm_memory,
                    0,
                    limits_b.subnet_available_memory,
                );
                crate::execution_parameters::lemma_reduced_twice(
                    old(round_limits).instructions,
                    slice.executed_instructions,
                    (output.num_instructions_left - o2.instructions_left) as u64,
                );
            }
            r
        },
        WasmExecutionResult::Paused(slice, paused_wasm_execution) => {
            proof {
                let budget = if max_slice <= instructions_left {
                    max_slice
                } else {
                    instructions_left
                };
                crate::engine::lemma_run_mem_wf(
                    sbody,
                    Seq::<u8>::empty(),
                    e0.wasm_memory,
                    budget as nat,
                );
            }
            round_limits.charge_instructions(slice.executed_instructions);
            let paused = PausedStartExecutionDuringInstall {
                paused_wasm_execution,
                new_canister,
                execution_parameters,
                total_heap_delta,
                context_sender,
                context_arg,
                time,
            };
            InstallCodeRoutineResult::Paused {
                paused_execution: PausedInstallCodeRoutine::StartDuringInstall(paused),
            }
        },
    }
}

/// Installs new code in a unit.  Stage 1 compiles the raw module bytes
/// and binds them into a fresh execution state — atomic, not
/// interruptible; a requested reserved allocation smaller than the
/// module's footprint fails here, before any code runs.  Stage 2 runs
/// `start()` (absent export: zero-cost no-op), stage 3 runs
/// `canister_init()` likewise; either may pause at a slice boundary and
/// hand back a stage-tagged continuation.
///
/// The old unit is read through a shared reference and never mutated: a
/// failed operation returns only its error, and the durable state is
/// exactly what it was before the call.  Everything the operation
/// returns, reserves, and charges is pinned by [`install_result_ok`]
/// against the slice-free [`spec_install`].
#[verifier::rlimit(60)]
pub fn execute_install(
    context: InstallCodeContext,
    old_canister: &CanisterState,
    time: Time,
    execution_parameters: ExecutionParameters,
    hypervisor: &mut Hypervisor,
    round_limits: &mut RoundLimits,
    compilation_cost_handling: CompilationCostHandling,
) -> (r: InstallCodeRoutineResult)
    requires
        hypervisor_wf(*old(hypervisor)),
        canister_wf(old_canister@),
        old_canister@.system_state.canister_id == context@.canister_id,
        execution_parameters.instruction_limits.max_slice >= 1,
    ensures
        hypervisor_wf(*final(hypervisor)),
        final(hypervisor)@ == spec_hypervisor_after(old(hypervisor)@, context.wasm_module@),
        install_result_ok(
            context@,
            old_canister@,
            execution_parameters,
            old(hypervisor)@,
            compilation_cost_handling,
            *old(round_limits),
            r,
            *final(round_limits),
        ),
        ledger_le(*final(round_limits), *old(round_limits)),
{
    let mut execution_parameters = execution_parameters;
    let canister_id = context.canister_id;

    // Stage 1: create a new execution state from the raw module bytes.
    let (instructions_from_compilation, execution_state) = match hypervisor.create_execution_state(
        &context.wasm_module,
    ) {
        Ok(p) => p,
        Err(err) => {
            return InstallCodeRoutineResult::Finished {
                instructions_left: execution_parameters.instruction_limits.message(),
                result: Err(CanisterManagerError::Hypervisor(canister_id, err)),
            };
        },
    };
    let charge = match compilation_cost_handling {
        CompilationCostHandling::Ignore => 0,
        CompilationCostHandling::Charge => instructions_from_compilation,
    };
    execution_parameters.instruction_limits.reduce_by(charge);
    round_limits.charge_instructions(charge);

    let system_state = old_canister.system_state.clone_state();
    let scheduler_state = old_canister.scheduler_state;
    let mut new_canister = CanisterState::new(system_state, Some(execution_state), scheduler_state);

    // Resolve the memory allocation, now that the new module's footprint
    // is known: an insufficient reserved allocation fails before any code
    // runs.
    let desired_memory_allocation = match context.memory_allocation {
        Some(allocation) => allocation,
        None => new_canister.system_state.memory_allocation,
    };
    match desired_memory_allocation {
        MemoryAllocation::Reserved(bytes) => {
            let memory_usage = new_canister.memory_usage();
            if bytes < memory_usage {
                return InstallCodeRoutineResult::Finished {
                    instructions_left: execution_parameters.instruction_limits.message(),
                    result: Err(
                        CanisterManagerError::NotEnoughMemoryAllocationGiven {
                            canister_id,
                            memory_allocation_given: desired_memory_allocation,
                            memory_usage_needed: memory_usage,
                        },
                    ),
                };
            }
            execution_parameters.canister_memory_limit = bytes;
        },
        MemoryAllocation::BestEffort => {},
    }
    new_canister.system_state.memory_allocation = desired_memory_allocation;

    let total_heap_delta: u64 = 0;

    // Stage 2: run the `start()` method, if the module exports one.
    let method = WasmMethod::System(SystemMethod::CanisterStart);
    let exports_start = match &new_canister.execution_state {
        Some(es) => es.exports_method(&method),
        None => false,
    };
    let instructions_left = execution_parameters.instruction_limits.message();
    if !exports_start {
        install_stage_2b_continue_install_after_start(
            context.sender,
            context.arg,
            new_canister,
            execution_parameters,
            instructions_left,
            total_heap_delta,
            time,
            round_limits,
        )
    } else {
        install_stage_2_run_start(
            context.sender,
            context.arg,
            new_canister,
            execution_parameters,
            total_heap_delta,
            time,
            round_limits,
        )
    }
}

/// The contract of resuming an install paused in `canister_init`: the
/// next slice either pauses again — preserving the outcome the
/// continuation resolves to — or finishes the operation with exactly that
/// outcome.
pub open spec fn resume_init_ok(
    p0: PausedInitExecution,
    limits0: RoundLimits,
    r: InstallCodeRoutineResult,
    limits1: RoundLimits,
) -> bool {
    let p = p0.paused_wasm_execution;
    let m0 = (p.consumed + p.message_left) as u64;
    let budget = if p.slice_limit <= p.message_left {
        p.slice_limit
    } else {
        p.message_left
    };
    let reach = run(p.body@, p.arg@, init_run_state(p.initial_mem@), (p.consumed + budget) as nat);
    let o = p0.outcome(limits0.subnet_available_memory);
    &&& limits1.heap_delta_remaining == limits0.heap_delta_remaining
    &&& if !is_done(p.body@, reach) && budget < p.message_left {
        match r {
            InstallCodeRoutineResult::Paused {
                paused_execution: PausedInstallCodeRoutine::Init(p2),
            } => {
                &&& p2.wf()
                &&& (forall|av: SubnetAvailableMemory| #[trigger] p2.outcome(av) == p0.outcome(av))
                &&& p2.execution_parameters == p0.execution_parameters
                &&& p2.total_heap_delta == p0.total_heap_delta
                &&& limits1.subnet_available_memory == limits0.subnet_available_memory
                &&& limits1.instructions == reduced(limits0.instructions, budget)
            },
            _ => false,
        }
    } else {
        match r {
            InstallCodeRoutineResult::Finished { instructions_left, result } => {
                &&& instructions_left == o.instructions_left
                &&& result_matches(result, o.result)
                &&& limits1.subnet_available_memory.total_memory
                    == limits0.subnet_available_memory.total_memory - o.reserved_bytes
                &&& limits1.subnet_available_memory.message_memory
                    == limits0.subnet_available_memory.message_memory - o.reserved_message_bytes
                &&& limits1.instructions == reduced(
                    limits0.instructions,
                    (m0 - p.consumed - o.instructions_left) as u64,
                )
            },
            _ => false,
        }
    }
}

/// The contract of resuming an install paused in `start`: the next slice
/// either pauses again in `start` — preserving the outcome the
/// continuation resolves to — or finishes `start` and post-processes it
/// exactly as a same-round completion would.
pub open spec fn resume_start_ok(
    p0: PausedStartExecutionDuringInstall,
    limits0: RoundLimits,
    r: InstallCodeRoutineResult,
    limits1: RoundLimits,
) -> bool {
    let p = p0.paused_wasm_execution;
    let m0 = (p.consumed + p.message_left) as u64;
    let budget = if p.slice_limit <= p.message_left {
        p.slice_limit
    } else {
        p.message_left
    };
    let reach = run(p.body@, p.arg@, init_run_state(p.initial_mem@), (p.consumed + budget) as nat);
    let c = p0.new_canister@;
    let e = c.execution_state->Some_0;
    if !is_done(p.body@, reach) && budget < p.message_left {
        match r {
            InstallCodeRoutineResult::Paused {
                paused_execution: PausedInstallCodeRoutine::StartDuringInstall(p2),
            } => {
                &&& p2.wf()
                &&& (forall|av: SubnetAvailableMemory| #[trigger] p2.outcome(av) == p0.outcome(av))
                &&& p2.execution_parameters == p0.execution_parameters
                &&& p2.context_arg@ == p0.context_arg@
                &&& p2.context_sender == p0.context_sender
                &&& p2.time == p0.time
                &&& limits1.subnet_available_memory == limits0.subnet_available_memory
                &&& limits1.instructions == reduced(limits0.instructions, budget)
                &&& limits1.heap_delta_remaining == limits0.heap_delta_remaining
            },
            _ => false,
        }
    } else {
        let out = spec_output(p.body@, p.arg@, p.initial_mem@, m0);
        let memf = spec_final_mem(p.body@, p.arg@, p.initial_mem@, m0);
        let limits_mid = RoundLimits {
            instructions: reduced(
                limits0.instructions,
                (m0 - p.consumed - out.num_instructions_left) as u64,
            ),
            ..limits0
        };
        start_result_processed(
            c.system_state.canister_id,
            p0.context_arg@,
            e.module,
            c.system_state,
            c.scheduler_state,
            p0.execution_parameters.instruction_limits.max_slice,
            out,
            memf,
            p0.total_heap_delta as int,
            limits_mid,
            r,
            limits1,
        )
    }
}

impl PausedInitExecution {
    /// Resumes the paused `canister_init` execution with the next slice,
    /// re-entering the identical post-processing path a same-round
    /// completion takes.
    pub fn resume(self, round_limits: &mut RoundLimits) -> (r: InstallCodeRoutineResult)
        requires
            self.wf(),
        ensures
            resume_init_ok(self, *old(round_limits), r, *final(round_limits)),
            ledger_le(*final(round_limits), *old(round_limits)),
    {
        let ghost self0 = self;
        let mut new_canister = self.new_canister;
        let execution_parameters = self.execution_parameters;
        let total_heap_delta = self.total_heap_delta;
        let paused_wasm_execution = self.paused_wasm_execution;
        let ghost p = self0.paused_wasm_execution;
        let ghost m0 = (p.consumed + p.message_left) as u64;
        let wasm_execution_result;
        match &mut new_canister.execution_state {
            Some(es) => {
                wasm_execution_result = paused_wasm_execution.resume(&mut es.wasm_memory);
            },
            None => {
                wasm_execution_result = vstd::pervasive::unreached();
            },
        }
        proof {
            crate::engine::lemma_output_bounds(p.body@, p.arg@, p.initial_mem@, m0);
            crate::engine::lemma_output_left(p.body@, p.arg@, p.initial_mem@, m0);
        }
        match wasm_execution_result {
            WasmExecutionResult::Finished(slice, output, system_state_changes) => {
                proof {
                    let budget = if p.slice_limit <= p.message_left {
                        p.slice_limit
                    } else {
                        p.message_left
                    };
                    let init0 = init_run_state(p.initial_mem@);
                    let reach = run(p.body@, p.arg@, init0, (p.consumed + budget) as nat);
                    if is_done(p.body@, reach) {
                        crate::engine::lemma_run_add(
                            p.body@,
                            p.arg@,
                            init0,
                            (p.consumed + budget) as nat,
                            (m0 - p.consumed - budget) as nat,
                        );
                        crate::engine::lemma_run_frozen(
                            p.body@,
                            p.arg@,
                            reach,
                            (m0 - p.consumed - budget) as nat,
                        );
                    }
                    crate::engine::lemma_run_mem_wf(p.body@, p.arg@, p.initial_mem@, m0 as nat);
                }
                round_limits.charge_instructions(slice.executed_instructions);
                install_stage_3_process_init_result(
                    new_canister,
                    output,
                    system_state_changes,
                    execution_parameters,
                    total_heap_delta,
                    round_limits,
                )
            },
            WasmExecutionResult::Paused(slice, paused_next) => {
                proof {
                    crate::engine::lemma_run_mem_wf(
                        p.body@,
                        p.arg@,
                        p.initial_mem@,
                        paused_next.consumed as nat,
                    );
                }
                round_limits.charge_instructions(slice.executed_instructions);
                let paused = PausedInitExecution {
                    new_canister,
                    paused_wasm_execution: paused_next,
                    execution_parameters,
                    total_heap_delta,
                };
                InstallCodeRoutineResult::Paused {
                    paused_execution: PausedInstallCodeRoutine::Init(paused),
                }
            },
        }
    }

    /// Abandons the paused operation; the unit's durable state is
    /// untouched, since only the discarded clone was ever mutated.
    pub fn abort(self) {
        self.paused_wasm_execution.abort();
    }
}

impl PausedStartExecutionDuringInstall {
    /// Resumes the paused `start` execution with the next slice,
    /// re-entering the identical post-processing path a same-round
    /// completion takes.
    pub fn resume(self, round_limits: &mut RoundLimits) -> (r: InstallCodeRoutineResult)
        requires
            self.wf(),
        ensures
            resume_start_ok(self, *old(round_limits), r, *final(round_limits)),
            ledger_le(*final(round_limits), *old(round_limits)),
    {
        let ghost self0 = self;
        let mut new_canister = self.new_canister;
        let execution_parameters = self.execution_parameters;
        let total_heap_delta = self.total_heap_delta;
        let context_sender = self.context_sender;
        let context_arg = self.context_arg;
        let time = self.time;
        let paused_wasm_execution = self.paused_wasm_execution;
        let ghost p = self0.paused_wasm_execution;
        let ghost m0 = (p.consumed + p.message_left) as u64;
        let wasm_execution_result;
        match &mut new_canister.execution_state {
            Some(es) => {
                wasm_execution_result = paused_wasm_execution.resume(&mut es.wasm_memory);
            },
            None => {
                wasm_execution_result = vstd::pervasive::unreached();
            },
        }
        proof {
            crate::engine::lemma_output_bounds(p.body@, p.arg@, p.initial_mem@, m0);
            crate::engine::lemma_output_left(p.body@, p.arg@, p.initial_mem@, m0);
        }
        match wasm_execution_result {
            WasmExecutionResult::Finished(slice, output, _system_state_changes) => {
                // A system method's change log is discarded: only
                // `canister_init`'s side effects become durable.
                proof {
                    let budget = if p.slice_limit <= p.message_left {
                        p.slice_limit
                    } else {
                        p.message_left
                    };
                    let init0 = init_run_state(p.initial_mem@);
                    let reach = run(p.body@, p.arg@, init0, (p.consumed + budget) as nat);
                    if is_done(p.body@, reach) {
                        crate::engine::lemma_run_add(
                            p.body@,
                            p.arg@,
                            init0,
                            (p.consumed + budget) as nat,
                            (m0 - p.consumed - budget) as nat,
                        );
                        crate::engine::lemma_run_frozen(
                            p.body@,
                            p.arg@,
                            reach,
                            (m0 - p.consumed - budget) as nat,
                        );
                    }
                    crate::engine::lemma_run_mem_wf(p.body@, p.arg@, p.initial_mem@, m0 as nat);
                }
                round_limits.charge_instructions(slice.executed_instructions);
                install_stage_2a_process_start_result(
                    output,
                    context_sender,
                    context_arg,
                    new_canister,
                    execution_parameters,
                    total_heap_delta,
                    time,
                    round_limits,
                )
            },
            WasmExecutionResult::Paused(slice, paused_next) => {
                proof {
                    crate::engine::lemma_run_mem_wf(
                        p.body@,
                        p.arg@,
                        p.initial_mem@,
                        paused_next.consumed as nat,
                    );
                }
                round_limits.charge_instructions(slice.executed_instructions);
                let paused = PausedStartExecutionDuringInstall {
                    paused_wasm_execution: paused_next,
                    new_canister,
                    execution_parameters,
                    total_heap_delta,
                    context_sender,
                    context_arg,
                    time,
                };
                InstallCodeRoutineResult::Paused {
                    paused_execution: PausedInstallCodeRoutine::StartDuringInstall(paused),
                }
            },
        }
    }

    /// Abandons the paused operation; the unit's durable state is
    /// untouched, since only the discarded clone was ever mutated.
    pub fn abort(self) {
        self.paused_wasm_execution.abort();
    }
}

impl PausedInstallCodeRoutine {
    /// Resumes the paused operation with the next slice, whichever stage
    /// it was interrupted in.
    pub fn resume(self, round_limits: &mut RoundLimits) -> (r: InstallCodeRoutineResult)
        requires
            match self {
                PausedInstallCodeRoutine::StartDuringInstall(p) => p.wf(),
                PausedInstallCodeRoutine::Init(p) => p.wf(),
            },
        ensures
            match self {
                PausedInstallCodeRoutine::StartDuringInstall(p) => resume_start_ok(
                    p,
                    *old(round_limits),
                    r,
                    *final(round_limits),
                ),
                PausedInstallCodeRoutine::Init(p) => resume_init_ok(
                    p,
                    *old(round_limits),
                    r,
                    *final(round_limits),
                ),
            },
            ledger_le(*final(round_limits), *old(round_limits)),
    {
        match self {
            PausedInstallCodeRoutine::StartDuringInstall(p) => p.resume(round_limits),
            PausedInstallCodeRoutine::Init(p) => p.resume(round_limits),
        }
    }

    /// Abandons the paused operation for external teardown; the unit's
    /// durable state is untouched.
    pub fn abort(self) {
        match self {
            PausedInstallCodeRoutine::StartDuringInstall(p) => p.abort(),
            PausedInstallCodeRoutine::Init(p) => p.abort(),
        }
    }
}

/// Slicing transparency: the visible outcome of a whole install
/// operation is a function of the request, the old unit, the operation
/// budget, the engine state, the cost handling, and the available memory
/// — the per-slice limit never enters.  Two operations that differ only
/// in how finely they slice resolve identically: same final unit, same
/// instructions left, same heap delta, same reservations, same errors.
pub proof fn lemma_slicing_transparency(
    ctx: InstallCodeContextView,
    old_c: CanisterStateView,
    params1: ExecutionParameters,
    params2: ExecutionParameters,
    h: HypervisorView,
    handling: CompilationCostHandling,
    avail: SubnetAvailableMemory,
)
    requires
        params1.instruction_limits.message == params2.instruction_limits.message,
    ensures
        spec_install(ctx, old_c, params1, h, handling, avail) == spec_install(
            ctx,
            old_c,
            params2,
            h,
            handling,
            avail,
        ),
{
}

/// Whether two install results describe the same behaviour, leaving only
/// the stored compiled artifact out of the comparison.
pub open spec fn results_agree_up_to_module(a: SpecInstallResult, b: SpecInstallResult) -> bool {
    match (a, b) {
        (
            SpecInstallResult::Installed { canister: c1, heap_delta: h1 },
            SpecInstallResult::Installed { canister: c2, heap_delta: h2 },
        ) => {
            &&& h1 == h2
            &&& c1.system_state == c2.system_state
            &&& c1.scheduler_state == c2.scheduler_state
            &&& c1.execution_state is Some
            &&& c2.execution_state is Some
            &&& c1.execution_state->Some_0.wasm_memory == c2.execution_state->Some_0.wasm_memory
            &&& c1.execution_state->Some_0.stable_memory
                == c2.execution_state->Some_0.stable_memory
        },
        (SpecInstallResult::Failed { error: e1 }, SpecInstallResult::Failed { error: e2 }) => e1
            == e2,
        _ => false,
    }
}

/// Both outcomes behave the same: equal budget left, equal reservations,
/// and results that agree up to the stored artifact.
pub open spec fn outcomes_agree_up_to_module(a: SpecInstallOutcome, b: SpecInstallOutcome) -> bool {
    &&& a.instructions_left == b.instructions_left
    &&& a.reserved_bytes == b.reserved_bytes
    &&& a.reserved_message_bytes == b.reserved_message_bytes
    &&& results_agree_up_to_module(a.result, b.result)
}

/// No-op start stage: a module lacking a `start` export completes stage 2
/// at zero instruction cost, and everything downstream is identical to a
/// module exporting an empty-body `start`.
pub proof fn lemma_no_op_start_stage(
    id: CanisterId,
    init_arg: Seq<u8>,
    m_none: ModuleView,
    m_empty: ModuleView,
    sys: SystemStateView,
    sched: SchedulerState,
    m1: u64,
    avail: SubnetAvailableMemory,
)
    requires
        m_none.start is None,
        m_empty.start == Some(Seq::<crate::module::Instr>::empty()),
        m_none.init == m_empty.init,
        m_none.initial_pages == m_empty.initial_pages,
    ensures
        outcomes_agree_up_to_module(
            spec_outcome_from_start(id, init_arg, m_none, sys, sched, m1, avail),
            spec_outcome_from_start(id, init_arg, m_empty, sys, sched, m1, avail),
        ),
{
    let mem0 = zero_mem(m_none.initial_pages as int);
    let empty_body = Seq::<crate::module::Instr>::empty();
    let init0 = init_run_state(mem0);
    crate::engine::lemma_run_frozen(empty_body, Seq::<u8>::empty(), init0, m1 as nat);
    let avail1 = SubnetAvailableMemory {
        total_memory: (avail.total_memory - 0) as u64,
        message_memory: (avail.message_memory - 0) as u64,
    };
    assert(avail1 == avail);
}

/// No-op init stage: a module lacking a `canister_init` export completes
/// stage 3 at zero instruction cost, and the operation ends exactly as it
/// would for a module exporting an empty-body `canister_init`.
pub proof fn lemma_no_op_init_stage(
    id: CanisterId,
    arg: Seq<u8>,
    m_none: ModuleView,
    m_empty: ModuleView,
    sys: SystemStateView,
    sched: SchedulerState,
    mem1: Seq<u8>,
    left2: u64,
    heap1: int,
    avail: SubnetAvailableMemory,
)
    requires
        m_none.init is None,
        m_empty.init == Some(Seq::<crate::module::Instr>::empty()),
        m_none.start == m_empty.start,
        m_none.initial_pages == m_empty.initial_pages,
    ensures
        outcomes_agree_up_to_module(
            spec_outcome_from_init(id, arg, m_none, sys, sched, mem1, left2, heap1, avail),
            spec_outcome_from_init(id, arg, m_empty, sys, sched, mem1, left2, heap1, avail),
        ),
{
    let empty_body = Seq::<crate::module::Instr>::empty();
    let init0 = init_run_state(mem1);
    crate::engine::lemma_run_frozen(empty_body, arg, init0, left2 as nat);
    let sys2 = SystemStateView {
        cycles_balance: spec_apply_cycles(sys.cycles_balance, 0, 0),
        ..sys
    };
    assert(sys2 == sys);
}

} // verus!
