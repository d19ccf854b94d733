//! Per-operation execution parameters: the instruction budget of the whole
//! multi-slice operation, the per-slice budget, and the unit's memory limit.

use vstd::prelude::*;

verus! {

/// Instruction limits of one operation under deterministic time slicing.
///
/// `message` is the budget of the whole logical operation and only ever
/// decreases across slices and resumptions; `max_slice` caps how much one
/// slice may execute and stays fixed for the operation's lifetime.
#[derive(Clone, Copy, Debug, PartialEq, Eq, Structural)]
pub struct InstructionLimits {
    /// Instructions the whole operation may still use.
    pub message: u64,
    /// The most instructions one slice may use.
    pub max_slice: u64,
}

impl InstructionLimits {
    /// Limits for a fresh operation.
    pub fn new(message: u64, max_slice: u64) -> (r: InstructionLimits)
        ensures
            r == (InstructionLimits { message, max_slice }),
    {
        InstructionLimits { message, max_slice }
    }

    /// The remaining budget of the whole operation.
    pub fn message(&self) -> (r: u64)
        ensures
            r == self.message,
    {
        self.message
    }

    /// The budget of the next slice: the per-slice cap, but never more than
    /// what the whole operation still has.
    pub fn slice(&self) -> (r: u64)
        ensures
            r == spec_slice(*self),
    {
        if self.max_slice <= self.message {
            self.max_slice
        } else {
            self.message
        }
    }

    /// Charges `delta` instructions against the operation budget, stopping
    /// at zero.
    pub fn reduce_by(&mut self, delta: u64)
        ensures
            final(self).message == reduced(old(self).message, delta),
            final(self).max_slice == old(self).max_slice,
    {
        if delta <= self.message {
            self.message = self.message - delta;
        } else {
            self.message = 0;
        }
    }

    /// Records how much budget an execution reported as left.  The budget of
    /// an operation never grows.
    pub fn update(&mut self, left: u64)
        requires
            left <= old(self).message,
        ensures
            final(self).message == left,
            final(self).max_slice == old(self).max_slice,
    {
        self.message = left;
    }
}

/// The per-slice budget as a spec-level value.
pub open spec fn spec_slice(l: InstructionLimits) -> u64 {
    if l.max_slice <= l.message {
        l.max_slice
    } else {
        l.message
    }
}

/// `m` less `delta`, stopping at zero.
pub open spec fn reduced(m: u64, delta: u64) -> u64 {
    if delta <= m {
        (m - delta) as u64
    } else {
        0u64
    }
}

/// Two charges in a row land where one combined charge lands.
pub proof fn lemma_reduced_twice(x: u64, a: u64, b: u64)
    requires
        a + b <= u64::MAX,
    ensures
        reduced(reduced(x, a), b) == reduced(x, (a + b) as u64),
{
}

/// Per-operation configuration handed in by the scheduler: instruction
/// limits and the memory limit of the unit being installed.
#[derive(Clone, Copy, Debug, PartialEq, Eq, Structural)]
pub struct ExecutionParameters {
    /// Instruction budgets of the operation.
    pub instruction_limits: InstructionLimits,
    /// The most memory the unit may occupy.
    pub canister_memory_limit: u64,
}

} // verus!
