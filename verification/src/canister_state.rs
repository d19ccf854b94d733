//! The durable record of one compute unit: its system state, its optional
//! execution state, and its scheduler state; together with the buffered
//! change log through which a successful execution's side effects become
//! durable.

use vstd::prelude::*;
use crate::module::{copy_vec, mem_wf, module_wf, Module, ModuleView};
use crate::types::{CanisterId, MemoryAllocation, SystemMethod, WasmMethod};
use crate::config::MAX_STABLE_MEMORY_IN_BYTES;

verus! {

/// Scheduling bookkeeping of a unit.  The install machine copies it
/// unchanged from the old unit to the new one.
#[derive(Clone, Copy, Debug, PartialEq, Eq, Structural)]
pub struct SchedulerState {
    /// Share of an execution round promised to the unit.
    pub compute_allocation: u64,
    /// Priority accumulated while waiting to be scheduled.
    pub accumulated_priority: i64,
}

/// The part of a unit's durable state that exists independently of its
/// code: balance, freezing, memory accounting mode, and controllers.
///
/// During an execution it is mutated only through the buffered
/// [`SystemStateChanges`], never directly.
#[derive(Debug)]
pub struct SystemState {
    /// The unit this state belongs to.
    pub canister_id: CanisterId,
    /// The unit's cycle balance.
    pub cycles_balance: u128,
    /// Seconds of inactivity after which the unit freezes.
    pub freeze_threshold: u64,
    /// How memory for the unit is accounted.
    pub memory_allocation: MemoryAllocation,
    /// Principals that may manage the unit.
    pub controllers: Vec<u64>,
}

/// The mathematical content of a [`SystemState`].
pub struct SystemStateView {
    /// The unit this state belongs to.
    pub canister_id: CanisterId,
    /// The unit's cycle balance.
    pub cycles_balance: u128,
    /// Seconds of inactivity after which the unit freezes.
    pub freeze_threshold: u64,
    /// How memory for the unit is accounted.
    pub memory_allocation: MemoryAllocation,
    /// Principals that may manage the unit.
    pub controllers: Seq<u64>,
}

impl View for SystemState {
    type V = SystemStateView;

    open spec fn view(&self) -> SystemStateView {
        SystemStateView {
            canister_id: self.canister_id,
            cycles_balance: self.cycles_balance,
            freeze_threshold: self.freeze_threshold,
            memory_allocation: self.memory_allocation,
            controllers: self.controllers@,
        }
    }
}

impl SystemState {
    /// An identical copy of this state.
    pub fn clone_state(&self) -> (r: SystemState)
        ensures
            r@ == self@,
    {
        SystemState {
            canister_id: self.canister_id,
            cycles_balance: self.cycles_balance,
            freeze_threshold: self.freeze_threshold,
            memory_allocation: self.memory_allocation,
            controllers: copy_vec(&self.controllers),
        }
    }
}

/// A unit's code and memories: the compiled module, its linear memory, and
/// its stable memory.  Exclusively owned by the unit's state; the machine
/// moves it out for one slice and puts it back afterwards.
#[derive(Debug)]
pub struct ExecutionState {
    /// The compiled module.
    pub module: Module,
    /// The unit's linear memory.
    pub wasm_memory: Vec<u8>,
    /// The unit's stable memory.
    pub stable_memory: Vec<u8>,
}

/// The mathematical content of an [`ExecutionState`].
pub struct ExecutionStateView {
    /// The compiled module.
    pub module: ModuleView,
    /// The unit's linear memory.
    pub wasm_memory: Seq<u8>,
    /// The unit's stable memory.
    pub stable_memory: Seq<u8>,
}

impl View for ExecutionState {
    type V = ExecutionStateView;

    open spec fn view(&self) -> ExecutionStateView {
        ExecutionStateView {
            module: self.module@,
            wasm_memory: self.wasm_memory@,
            stable_memory: self.stable_memory@,
        }
    }
}

/// An execution state the engine can run: a well-formed module, a linear
/// memory of whole pages, and a bounded stable memory.
pub open spec fn execution_state_wf(e: ExecutionStateView) -> bool {
    &&& module_wf(e.module)
    &&& mem_wf(e.wasm_memory)
    &&& e.stable_memory.len() <= MAX_STABLE_MEMORY_IN_BYTES
}

/// Whether the module of this execution state exports `method`.
pub open spec fn spec_exports_method(e: ExecutionStateView, method: WasmMethod) -> bool {
    match method {
        WasmMethod::System(SystemMethod::CanisterStart) => e.module.start is Some,
        WasmMethod::System(SystemMethod::CanisterInit) => e.module.init is Some,
    }
}

impl ExecutionState {
    /// Whether the module exports `method`; absent exports make that stage
    /// of an install a zero-cost no-op.
    pub fn exports_method(&self, method: &WasmMethod) -> (r: bool)
        ensures
            r == spec_exports_method(self@, *method),
    {
        match method {
            WasmMethod::System(SystemMethod::CanisterStart) => self.module.start.is_some(),
            WasmMethod::System(SystemMethod::CanisterInit) => self.module.init.is_some(),
        }
    }

    /// Bytes of memory this execution state occupies.
    pub fn memory_usage(&self) -> (r: u64)
        requires
            execution_state_wf(self@),
        ensures
            r == self@.wasm_memory.len() + self@.stable_memory.len(),
    {
        self.wasm_memory.len() as u64 + self.stable_memory.len() as u64
    }
}

/// The durable record of one unit.  Exclusively owned by its keeper; the
/// install machine receives a clone, mutates the clone, and returns it only
/// on success — atomic replace-or-nothing.
#[derive(Debug)]
pub struct CanisterState {
    /// Balance, freezing, memory accounting, controllers.
    pub system_state: SystemState,
    /// Code and memories, if the unit has code installed.
    pub execution_state: Option<ExecutionState>,
    /// Scheduling bookkeeping.
    pub scheduler_state: SchedulerState,
}

/// The mathematical content of a [`CanisterState`].
pub struct CanisterStateView {
    /// Balance, freezing, memory accounting, controllers.
    pub system_state: SystemStateView,
    /// Code and memories, if the unit has code installed.
    pub execution_state: Option<ExecutionStateView>,
    /// Scheduling bookkeeping.
    pub scheduler_state: SchedulerState,
}

impl View for CanisterState {
    type V = CanisterStateView;

    open spec fn view(&self) -> CanisterStateView {
        CanisterStateView {
            system_state: self.system_state@,
            execution_state: match self.execution_state {
                Some(e) => Some(e@),
                None => None,
            },
            scheduler_state: self.scheduler_state,
        }
    }
}

/// A unit state the machine can work on.
pub open spec fn canister_wf(c: CanisterStateView) -> bool {
    c.execution_state matches Some(e) ==> execution_state_wf(e)
}

impl CanisterState {
    /// Assembles a unit state from its three parts.
    pub fn new(
        system_state: SystemState,
        execution_state: Option<ExecutionState>,
        scheduler_state: SchedulerState,
    ) -> (r: CanisterState)
        ensures
            r@.system_state == system_state@,
            r@.scheduler_state == scheduler_state,
            execution_state matches Some(e) ==> r@.execution_state == Some(e@),
            execution_state is None ==> r@.execution_state is None,
    {
        CanisterState { system_state, execution_state, scheduler_state }
    }

    /// The unit this state belongs to.
    pub fn canister_id(&self) -> (r: CanisterId)
        ensures
            r == self@.system_state.canister_id,
    {
        self.system_state.canister_id
    }

    /// Bytes of memory the unit occupies: its execution state's memories,
    /// or nothing when no code is installed.
    pub fn memory_usage(&self) -> (r: u64)
        requires
            canister_wf(self@),
        ensures
            r == spec_memory_usage(self@),
    {
        match &self.execution_state {
            Some(e) => e.memory_usage(),
            None => 0,
        }
    }
}

/// Bytes of memory a unit occupies.
pub open spec fn spec_memory_usage(c: CanisterStateView) -> int {
    match c.execution_state {
        Some(e) => e.wasm_memory.len() + e.stable_memory.len() as int,
        None => 0,
    }
}

/// Side effects one slice wants to make durable: cycle debits and credits.
/// Buffered during execution and applied to the unit's system state exactly
/// once, only when the whole operation succeeds.
#[derive(Clone, Copy, Debug, PartialEq, Eq, Structural)]
pub struct SystemStateChanges {
    /// Cycles the execution debited from the unit.
    pub cycles_debited: u64,
    /// Cycles the execution credited to the unit.
    pub cycles_credited: u64,
}

/// A balance after crediting and then debiting, each stopping at the edge
/// of the representable range.
pub open spec fn spec_apply_cycles(balance: u128, debited: u64, credited: u64) -> u128 {
    let credited_balance: u128 = if balance + credited <= u128::MAX {
        (balance + credited) as u128
    } else {
        u128::MAX
    };
    if debited <= credited_balance {
        (credited_balance - debited) as u128
    } else {
        0u128
    }
}

impl SystemStateChanges {
    /// An empty change log.
    pub fn new() -> (r: SystemStateChanges)
        ensures
            r == (SystemStateChanges { cycles_debited: 0u64, cycles_credited: 0u64 }),
    {
        SystemStateChanges { cycles_debited: 0, cycles_credited: 0 }
    }

    /// Applies the buffered side effects to a unit's system state.  This is
    /// the sole path by which a slice's effects become durable, and it is
    /// called exactly once per successful operation.
    pub fn apply_changes(&self, system_state: &mut SystemState)
        ensures
            final(system_state)@ == (SystemStateView {
                cycles_balance: spec_apply_cycles(
                    old(system_state)@.cycles_balance,
                    self.cycles_debited,
                    self.cycles_credited,
                ),
                ..old(system_state)@
            }),
    {
        let credited_balance: u128 = if system_state.cycles_balance <= u128::MAX - (
        self.cycles_credited as u128) {
            system_state.cycles_balance + (self.cycles_credited as u128)
        } else {
            u128::MAX
        };
        let debited_balance: u128 = if (self.cycles_debited as u128) <= credited_balance {
            credited_balance - (self.cycles_debited as u128)
        } else {
            0
        };
        system_state.cycles_balance = debited_balance;
    }
}

} // verus!
