//! The round ledger: mutable, round-scoped resource counters shared by every
//! unit executing in a round.  Counters only ever go down, never below zero;
//! an attempt to take more than is left fails the triggering operation and
//! leaves the ledger unchanged.

use vstd::prelude::*;

verus! {

/// Returned when a requested memory reservation does not fit into what is
/// left of the round's subnet memory budget.
#[derive(Clone, Copy, Debug, PartialEq, Eq, Structural)]
pub struct InsufficientMemory;

/// What is left of the subnet-wide memory budget in the current round:
/// total bytes and, separately, bytes for unit messages.
#[derive(Clone, Copy, Debug, PartialEq, Eq, Structural)]
pub struct SubnetAvailableMemory {
    /// Remaining bytes of the subnet memory budget.
    pub total_memory: u64,
    /// Remaining bytes of the subnet message-memory budget.
    pub message_memory: u64,
}

impl SubnetAvailableMemory {
    /// A fresh budget for one round.
    pub fn new(total_memory: u64, message_memory: u64) -> (r: SubnetAvailableMemory)
        ensures
            r == (SubnetAvailableMemory { total_memory, message_memory }),
    {
        SubnetAvailableMemory { total_memory, message_memory }
    }

    /// Takes `bytes` and `message_bytes` out of the budget, all or nothing:
    /// if either amount is not covered, nothing changes and the caller's
    /// operation fails.
    pub fn try_decrement(&mut self, bytes: u64, message_bytes: u64) -> (r: Result<
        (),
        InsufficientMemory,
    >)
        ensures
            r is Ok <==> bytes <= old(self).total_memory && message_bytes <= old(
                self,
            ).message_memory,
            r is Ok ==> *final(self) == (SubnetAvailableMemory {
                total_memory: (old(self).total_memory - bytes) as u64,
                message_memory: (old(self).message_memory - message_bytes) as u64,
            }),
            r is Err ==> *final(self) == *old(self),
    {
        if bytes <= self.total_memory && message_bytes <= self.message_memory {
            self.total_memory = self.total_memory - bytes;
            self.message_memory = self.message_memory - message_bytes;
            Ok(())
        } else {
            Err(InsufficientMemory)
        }
    }
}

/// Per-round shared counters: the remaining instruction budget, the
/// remaining subnet memory budget, and the remaining heap-delta budget.
#[derive(Clone, Copy, Debug, PartialEq, Eq, Structural)]
pub struct RoundLimits {
    /// Instructions the round may still execute.  Updated after every slice
    /// regardless of its outcome.
    pub instructions: u64,
    /// What is left of the subnet memory budget.
    pub subnet_available_memory: SubnetAvailableMemory,
    /// Heap-delta bytes the round may still produce.
    pub heap_delta_remaining: u64,
}

/// `a` is covered by `b` in every counter: the ledger can only move down.
pub open spec fn ledger_le(a: RoundLimits, b: RoundLimits) -> bool {
    &&& a.instructions <= b.instructions
    &&& a.subnet_available_memory.total_memory <= b.subnet_available_memory.total_memory
    &&& a.subnet_available_memory.message_memory <= b.subnet_available_memory.message_memory
    &&& a.heap_delta_remaining <= b.heap_delta_remaining
}

impl RoundLimits {
    /// A fresh ledger for one round.
    pub fn new(instructions: u64, total_memory: u64, message_memory: u64, heap_delta: u64) -> (r:
        RoundLimits)
        ensures
            r == (RoundLimits {
                instructions,
                subnet_available_memory: SubnetAvailableMemory { total_memory, message_memory },
                heap_delta_remaining: heap_delta,
            }),
    {
        RoundLimits {
            instructions,
            subnet_available_memory: SubnetAvailableMemory { total_memory, message_memory },
            heap_delta_remaining: heap_delta,
        }
    }

    /// Charges one slice's executed instructions against the round budget,
    /// stopping at zero.
    pub fn charge_instructions(&mut self, executed: u64)
        ensures
            final(self).instructions == if executed <= old(self).instructions {
                (old(self).instructions - executed) as u64
            } else {
                0u64
            },
            final(self).subnet_available_memory == old(self).subnet_available_memory,
            final(self).heap_delta_remaining == old(self).heap_delta_remaining,
            ledger_le(*final(self), *old(self)),
    {
        if executed <= self.instructions {
            self.instructions = self.instructions - executed;
        } else {
            self.instructions = 0;
        }
    }

    /// Charges produced heap delta against the round budget, stopping at
    /// zero.
    pub fn charge_heap_delta(&mut self, bytes: u64)
        ensures
            final(self).heap_delta_remaining == if bytes <= old(self).heap_delta_remaining {
                (old(self).heap_delta_remaining - bytes) as u64
            } else {
                0u64
            },
            final(self).subnet_available_memory == old(self).subnet_available_memory,
            final(self).instructions == old(self).instructions,
            ledger_le(*final(self), *old(self)),
    {
        if bytes <= self.heap_delta_remaining {
            self.heap_delta_remaining = self.heap_delta_remaining - bytes;
        } else {
            self.heap_delta_remaining = 0;
        }
    }
}

/// Ledger monotonicity is transitive: a chain of slices, each of which only
/// moves the ledger down, moves the ledger down overall.
pub proof fn lemma_ledger_le_trans(a: RoundLimits, b: RoundLimits, c: RoundLimits)
    requires
        ledger_le(a, b),
        ledger_le(b, c),
    ensures
        ledger_le(a, c),
{
}

} // verus!
