//! Plain value types shared by the whole crate: identifiers, feature flags,
//! memory-allocation modes, and the error taxonomy of the install machine.

use vstd::prelude::*;

verus! {

/// Bytes in one page of linear memory.  Heap-delta accounting and dirty-page
/// tracking are done at this granularity.
pub const PAGE_SIZE: u64 = 4096;

/// Identifier of a compute unit (canister).
pub type CanisterId = u64;

/// Identifier of a principal (the sender of an install request).
pub type PrincipalId = u64;

/// Nanoseconds since the epoch, as the scheduler hands it to an operation.
pub type Time = u64;

/// Whether a configurable capability is switched on.
#[derive(Clone, Copy, Debug, PartialEq, Eq, Structural)]
pub enum FlagStatus {
    Enabled,
    Disabled,
}

/// How memory for a unit is accounted: taken from the subnet pool as needed,
/// or reserved up front as a fixed number of bytes.
#[derive(Clone, Copy, Debug, PartialEq, Eq, Structural)]
pub enum MemoryAllocation {
    /// Memory is taken from the subnet pool on demand.
    BestEffort,
    /// Exactly this many bytes are set aside for the unit; an install whose
    /// module needs more than this fails up front.
    Reserved(u64),
}

/// Why a module failed to execute (or to compile) inside the engine.
#[derive(Clone, Copy, Debug, PartialEq, Eq, Structural)]
pub enum HypervisorError {
    /// The raw module bytes do not form a well-formed module.
    InvalidWasm,
    /// The module trapped while running a system method.
    Trapped(TrapCode),
    /// A system entry point (`start` or `canister_init`) produced a reply,
    /// which the protocol forbids.
    ContractViolation,
    /// The operation-level instruction budget was exhausted before the
    /// method completed.
    InstructionLimitExceeded,
}

/// The precise cause of a trap.
#[derive(Clone, Copy, Debug, PartialEq, Eq, Structural)]
pub enum TrapCode {
    /// The module executed an explicit trap instruction.
    Explicit,
    /// A store touched an address outside the unit's linear memory.
    HeapOutOfBounds,
}

/// A method a module may export.
#[derive(Clone, Copy, Debug, PartialEq, Eq, Structural)]
pub enum WasmMethod {
    /// A system method, invoked by the protocol rather than by a message.
    System(SystemMethod),
}

/// The system methods the install machine invokes.
#[derive(Clone, Copy, Debug, PartialEq, Eq, Structural)]
pub enum SystemMethod {
    /// The module's `start` method, run right after compilation.
    CanisterStart,
    /// The module's `canister_init` method, run after `start`.
    CanisterInit,
}

/// Terminal errors of one install operation.  Every failure is returned as
/// part of a `Finished` outcome, wrapped with the identity of the unit it
/// concerns; none is raised mid-flight.
#[derive(Clone, Copy, Debug, PartialEq, Eq, Structural)]
pub enum CanisterManagerError {
    /// Compilation or execution failed inside the engine.
    Hypervisor(CanisterId, HypervisorError),
    /// A reserved memory allocation is smaller than the module's actual
    /// memory footprint; nothing was executed.
    NotEnoughMemoryAllocationGiven {
        canister_id: CanisterId,
        memory_allocation_given: MemoryAllocation,
        memory_usage_needed: u64,
    },
    /// The round's subnet memory budget could not cover the memory the
    /// finished execution had allocated.
    SubnetMemoryExhausted {
        canister_id: CanisterId,
        requested_bytes: u64,
        requested_message_bytes: u64,
    },
}

} // verus!
