//! The deterministic execution engine behind the install machine.
//!
//! The engine runs one exported body of a compiled module against the
//! unit's linear memory, metering instructions as it goes.  Its complete
//! behaviour is a mathematical function of the body, the call argument, the
//! initial memory, and the operation-level instruction budget — and of
//! nothing else.  Slicing only decides *when* the work is done, never
//! *what* is done: one call runs at most one slice and either finishes, or
//! hands back a [`PausedWasmExecution`] whose later resumption continues
//! the very same mathematical run.
//!
//! [`run`] is that mathematical function: a small-step interpreter whose
//! fuel is the operation budget.  Every contract of the executable engine
//! is stated against it.

use vstd::prelude::*;
use crate::canister_state::SystemStateChanges;
use crate::module::{body_wf, copy_vec, instr_wf, mem_wf, Instr};
use crate::types::{HypervisorError, TrapCode, PAGE_SIZE};

verus! {

/// The complete state of one method execution, at instruction-unit
/// granularity.  Purely mathematical; the executable engine mirrors it.
pub struct RunState {
    /// Index of the next instruction of the body.
    pub pc: int,
    /// Work units already spent inside the current `Work` instruction.
    pub sub: int,
    /// The unit's linear memory.
    pub mem: Seq<u8>,
    /// Which pages have been written by this execution.
    pub dirty: Seq<bool>,
    /// How many pages have been written by this execution.
    pub dirty_count: int,
    /// Instruction units consumed so far.
    pub consumed: int,
    /// Bytes of subnet memory the execution allocated.
    pub allocated_bytes: int,
    /// Bytes of subnet message memory the execution allocated.
    pub allocated_message_bytes: int,
    /// Cycles the execution debited, buffered in the change log.
    pub debited: int,
    /// Cycles the execution credited, buffered in the change log.
    pub credited: int,
    /// Whether the execution produced a reply.
    pub replied: bool,
    /// Whether and why the execution trapped.
    pub trap: Option<TrapCode>,
}

/// How many true flags a dirty map holds.
pub open spec fn count_trues(s: Seq<bool>) -> int
    decreases s.len(),
{
    if s.len() == 0 {
        0
    } else {
        count_trues(s.drop_last()) + if s.last() {
            1int
        } else {
            0int
        }
    }
}

/// A dirty map never counts more pages than it has.
pub proof fn lemma_count_trues_bounds(s: Seq<bool>)
    ensures
        0 <= count_trues(s) <= s.len(),
    decreases s.len(),
{
    if s.len() > 0 {
        lemma_count_trues_bounds(s.drop_last());
    }
}

/// Marking one flag true raises the count by one exactly when the flag was
/// not yet set.
pub proof fn lemma_count_trues_update(s: Seq<bool>, i: int)
    requires
        0 <= i < s.len(),
    ensures
        count_trues(s.update(i, true)) == count_trues(s) + if s[i] {
            0int
        } else {
            1int
        },
    decreases s.len(),
{
    let t = s.update(i, true);
    if i == s.len() - 1 {
        assert(t.drop_last() =~= s.drop_last());
    } else {
        assert(t.drop_last() =~= s.drop_last().update(i, true));
        lemma_count_trues_update(s.drop_last(), i);
    }
}

/// A map of all-clean flags counts zero.
pub proof fn lemma_count_trues_all_false(n: nat)
    ensures
        count_trues(Seq::new(n, |i: int| false)) == 0,
    decreases n,
{
    if n > 0 {
        let s = Seq::new(n, |i: int| false);
        assert(s.drop_last() =~= Seq::new((n - 1) as nat, |i: int| false));
        lemma_count_trues_all_false((n - 1) as nat);
    }
}

/// The state in which a method execution begins: nothing consumed, nothing
/// written, the given memory in place.
pub open spec fn init_run_state(mem: Seq<u8>) -> RunState {
    RunState {
        pc: 0,
        sub: 0,
        mem: mem,
        dirty: Seq::new((mem.len() as int / (PAGE_SIZE as int)) as nat, |i: int| false),
        dirty_count: 0,
        consumed: 0,
        allocated_bytes: 0,
        allocated_message_bytes: 0,
        debited: 0,
        credited: 0,
        replied: false,
        trap: None,
    }
}

/// Whether the run can take no further step: it trapped, or it ran past
/// the end of the body.
pub open spec fn is_done(body: Seq<Instr>, s: RunState) -> bool {
    s.trap is Some || s.pc >= body.len()
}

/// One byte stored: the memory is updated and the touched page is marked
/// dirty, raising the dirty count if the page was clean.
pub open spec fn write_byte(s: RunState, addr: int, val: u8) -> RunState {
    let p = addr / (PAGE_SIZE as int);
    RunState {
        mem: s.mem.update(addr, val),
        dirty: s.dirty.update(p, true),
        dirty_count: s.dirty_count + if s.dirty[p] {
            0int
        } else {
            1int
        },
        ..s
    }
}

/// The first `j` bytes of `data` stored at `off`, byte by byte.
pub open spec fn write_bytes_prefix(s: RunState, off: int, data: Seq<u8>, j: int) -> RunState
    decreases j,
{
    if j <= 0 {
        s
    } else {
        write_byte(write_bytes_prefix(s, off, data, j - 1), off + j - 1, data[j - 1])
    }
}

/// One instruction unit of execution.  A finished run is left unchanged;
/// otherwise one unit of the instruction at `pc` is performed and one
/// instruction is consumed.
pub open spec fn step(body: Seq<Instr>, arg: Seq<u8>, s: RunState) -> RunState {
    if is_done(body, s) {
        s
    } else {
        let s1 = RunState { consumed: s.consumed + 1, ..s };
        match body[s.pc] {
            Instr::Work { units } => {
                if s.sub + 1 < units {
                    RunState { sub: s.sub + 1, ..s1 }
                } else {
                    RunState { pc: s.pc + 1, sub: 0, ..s1 }
                }
            },
            Instr::StoreArg { offset } => {
                if arg.len() == 0 {
                    RunState { pc: s.pc + 1, ..s1 }
                } else if offset + arg.len() > s.mem.len() {
                    RunState { trap: Some(TrapCode::HeapOutOfBounds), ..s1 }
                } else {
                    write_bytes_prefix(
                        RunState { pc: s.pc + 1, ..s1 },
                        offset as int,
                        arg,
                        arg.len() as int,
                    )
                }
            },
            Instr::StoreByte { offset, value } => {
                if offset + 1 > s.mem.len() {
                    RunState { trap: Some(TrapCode::HeapOutOfBounds), ..s1 }
                } else {
                    write_byte(RunState { pc: s.pc + 1, ..s1 }, offset as int, value)
                }
            },
            Instr::Trap => RunState { trap: Some(TrapCode::Explicit), ..s1 },
            Instr::Reply => RunState { pc: s.pc + 1, replied: true, ..s1 },
            Instr::Alloc { bytes } => RunState {
                pc: s.pc + 1,
                allocated_bytes: s.allocated_bytes + bytes,
                ..s1
            },
            Instr::AllocMsg { bytes } => RunState {
                pc: s.pc + 1,
                allocated_message_bytes: s.allocated_message_bytes + bytes,
                ..s1
            },
            Instr::Debit { cycles } => RunState { pc: s.pc + 1, debited: s.debited + cycles, ..s1 },
            Instr::Credit { cycles } => RunState {
                pc: s.pc + 1,
                credited: s.credited + cycles,
                ..s1
            },
        }
    }
}

/// The run after `fuel` instruction units.  This function is the whole
/// truth about a method execution: it mentions no slice, so anything
/// stated through it is independent of how the work was sliced.
pub open spec fn run(body: Seq<Instr>, arg: Seq<u8>, s: RunState, fuel: nat) -> RunState
    decreases fuel,
{
    if fuel == 0 {
        s
    } else {
        run(body, arg, step(body, arg, s), (fuel - 1) as nat)
    }
}

/// Peeling one step off the back of a run.
pub proof fn lemma_run_unfold_back(body: Seq<Instr>, arg: Seq<u8>, s: RunState, n: nat)
    ensures
        run(body, arg, s, n + 1) == step(body, arg, run(body, arg, s, n)),
    decreases n,
{
    let s1 = step(body, arg, s);
    assert(run(body, arg, s, n + 1) == run(body, arg, s1, n));
    if n == 0 {
        assert(run(body, arg, s1, 0) == s1);
    } else {
        lemma_run_unfold_back(body, arg, s1, (n - 1) as nat);
        assert(run(body, arg, s, n) == run(body, arg, s1, (n - 1) as nat));
    }
}

/// Fuel splits: running `a + b` units is running `a`, then `b`.
pub proof fn lemma_run_add(body: Seq<Instr>, arg: Seq<u8>, s: RunState, a: nat, b: nat)
    ensures
        run(body, arg, s, a + b) == run(body, arg, run(body, arg, s, a), b),
    decreases a,
{
    if a > 0 {
        lemma_run_add(body, arg, step(body, arg, s), (a - 1) as nat, b);
    }
}

/// A finished run is frozen: further fuel changes nothing.
pub proof fn lemma_run_frozen(body: Seq<Instr>, arg: Seq<u8>, s: RunState, n: nat)
    requires
        is_done(body, s),
    ensures
        run(body, arg, s, n) == s,
    decreases n,
{
    if n > 0 {
        lemma_run_frozen(body, arg, s, (n - 1) as nat);
    }
}

/// Storing bytes touches only memory and dirty tracking; all other
/// registers ride along unchanged.
pub proof fn lemma_write_prefix_regs(s: RunState, off: int, data: Seq<u8>, j: int)
    ensures
        ({
            let t = write_bytes_prefix(s, off, data, j);
            &&& t.pc == s.pc
            &&& t.sub == s.sub
            &&& t.consumed == s.consumed
            &&& t.allocated_bytes == s.allocated_bytes
            &&& t.allocated_message_bytes == s.allocated_message_bytes
            &&& t.debited == s.debited
            &&& t.credited == s.credited
            &&& t.replied == s.replied
            &&& t.trap == s.trap
        }),
    decreases j,
{
    if j > 0 {
        lemma_write_prefix_regs(s, off, data, j - 1);
    }
}

/// One live step consumes exactly one instruction unit.
pub proof fn lemma_step_consumed(body: Seq<Instr>, arg: Seq<u8>, s: RunState)
    requires
        !is_done(body, s),
    ensures
        step(body, arg, s).consumed == s.consumed + 1,
{
    match body[s.pc] {
        Instr::StoreArg { offset } => {
            if arg.len() > 0 && offset + arg.len() <= s.mem.len() {
                lemma_write_prefix_regs(
                    RunState { pc: s.pc + 1, consumed: s.consumed + 1, ..s },
                    offset as int,
                    arg,
                    arg.len() as int,
                );
            }
        },
        _ => {},
    }
}

/// Consumption is bounded by fuel, and exact while the run has not
/// finished.
pub proof fn lemma_run_consumed(body: Seq<Instr>, arg: Seq<u8>, s: RunState, n: nat)
    ensures
        s.consumed <= run(body, arg, s, n).consumed <= s.consumed + n,
        !is_done(body, run(body, arg, s, n)) ==> run(body, arg, s, n).consumed == s.consumed + n,
    decreases n,
{
    if n > 0 {
        let s1 = step(body, arg, s);
        assert(run(body, arg, s, n) == run(body, arg, s1, (n - 1) as nat));
        lemma_run_consumed(body, arg, s1, (n - 1) as nat);
        if is_done(body, s) {
            assert(s1 == s);
            lemma_run_frozen(body, arg, s, n);
        } else {
            lemma_step_consumed(body, arg, s);
        }
    } else {
        assert(run(body, arg, s, 0) == s);
    }
}

/// The well-formedness the engine maintains at every unit of execution.
pub open spec fn run_state_wf(body: Seq<Instr>, s: RunState, pages: int) -> bool {
    &&& 0 <= s.pc <= body.len()
    &&& s.mem.len() == pages * (PAGE_SIZE as int)
    &&& s.dirty.len() == pages
    &&& s.dirty_count == count_trues(s.dirty)
    &&& 0 <= s.sub
    &&& (s.pc < body.len() ==> (body[s.pc] matches Instr::Work { units } ==> s.sub < units))
    &&& (s.pc < body.len() && !(body[s.pc] is Work) ==> s.sub == 0)
    &&& (s.pc >= body.len() ==> s.sub == 0)
    &&& 0 <= s.consumed
    &&& 0 <= s.allocated_bytes <= s.pc * 4294967296
    &&& 0 <= s.allocated_message_bytes <= s.pc * 4294967296
    &&& 0 <= s.debited <= s.pc * 4294967296
    &&& 0 <= s.credited <= s.pc * 4294967296
}

/// A byte address inside a whole-page memory lies on a page of that
/// memory.
pub proof fn lemma_page_of_bound(addr: int, pages: int)
    requires
        0 <= addr < pages * (PAGE_SIZE as int),
    ensures
        0 <= addr / (PAGE_SIZE as int) < pages,
{
    vstd::arithmetic::div_mod::lemma_div_pos_is_pos(addr, PAGE_SIZE as int);
    vstd::arithmetic::div_mod::lemma_multiply_divide_lt(addr, PAGE_SIZE as int, pages);
}

/// Writing a prefix of the argument touches only memory and dirty
/// tracking, keeps both the right size, and keeps the count honest.
pub proof fn lemma_write_prefix_props(s: RunState, off: int, data: Seq<u8>, j: int)
    requires
        0 <= j <= data.len(),
        0 <= off,
        off + data.len() <= s.mem.len(),
        s.dirty.len() * (PAGE_SIZE as int) == s.mem.len(),
        s.dirty_count == count_trues(s.dirty),
    ensures
        ({
            let t = write_bytes_prefix(s, off, data, j);
            &&& t.mem.len() == s.mem.len()
            &&& t.dirty.len() == s.dirty.len()
            &&& t.dirty_count == count_trues(t.dirty)
            &&& t.pc == s.pc
            &&& t.sub == s.sub
            &&& t.consumed == s.consumed
            &&& t.allocated_bytes == s.allocated_bytes
            &&& t.allocated_message_bytes == s.allocated_message_bytes
            &&& t.debited == s.debited
            &&& t.credited == s.credited
            &&& t.replied == s.replied
            &&& t.trap == s.trap
        }),
    decreases j,
{
    if j > 0 {
        lemma_write_prefix_props(s, off, data, j - 1);
        let t0 = write_bytes_prefix(s, off, data, j - 1);
        let addr = off + j - 1;
        lemma_page_of_bound(addr, s.dirty.len() as int);
        lemma_count_trues_update(t0.dirty, addr / (PAGE_SIZE as int));
    }
}

/// One step keeps the run state well formed.
pub proof fn lemma_step_wf(body: Seq<Instr>, arg: Seq<u8>, s: RunState, pages: int)
    requires
        body_wf(body),
        run_state_wf(body, s, pages),
    ensures
        run_state_wf(body, step(body, arg, s), pages),
{
    if !is_done(body, s) {
        let s1 = RunState { consumed: s.consumed + 1, ..s };
        assert(instr_wf(body[s.pc]));
        match body[s.pc] {
            Instr::StoreArg { offset } => {
                if arg.len() > 0 && offset + arg.len() <= s.mem.len() {
                    let adv = RunState { pc: s.pc + 1, ..s1 };
                    lemma_write_prefix_props(adv, offset as int, arg, arg.len() as int);
                }
            },
            Instr::StoreByte { offset, value } => {
                if offset + 1 <= s.mem.len() {
                    let adv = RunState { pc: s.pc + 1, ..s1 };
                    lemma_page_of_bound(offset as int, pages);
                    lemma_count_trues_update(adv.dirty, offset as int / (PAGE_SIZE as int));
                }
            },
            _ => {},
        }
    }
}

/// A whole run keeps the run state well formed.
pub proof fn lemma_run_wf(body: Seq<Instr>, arg: Seq<u8>, s: RunState, pages: int, n: nat)
    requires
        body_wf(body),
        run_state_wf(body, s, pages),
    ensures
        run_state_wf(body, run(body, arg, s, n), pages),
    decreases n,
{
    if n > 0 {
        lemma_step_wf(body, arg, s, pages);
        lemma_run_wf(body, arg, step(body, arg, s), pages, (n - 1) as nat);
    }
}

/// What one slice reports back: how many instructions it executed.  The
/// caller charges this against the round ledger after every slice,
/// whatever the outcome.
#[derive(Clone, Copy, Debug, PartialEq, Eq, Structural)]
pub struct SliceExecutionOutput {
    /// Instructions this slice executed.
    pub executed_instructions: u64,
}

/// What a finished method execution reports back.
#[derive(Clone, Copy, Debug, PartialEq, Eq)]
pub struct WasmExecutionOutput {
    /// The method's result: `Ok(None)` for a clean completion, `Ok(Some(_))`
    /// when it produced a reply, `Err(_)` when it trapped or exhausted the
    /// operation budget.
    pub wasm_result: Result<Option<()>, HypervisorError>,
    /// What is left of the operation-level instruction budget.
    pub num_instructions_left: u64,
    /// Bytes of subnet memory the execution allocated.
    pub allocated_bytes: u64,
    /// Bytes of subnet message memory the execution allocated.
    pub allocated_message_bytes: u64,
    /// Pages the execution wrote.
    pub dirty_pages: u64,
}

/// A method execution interrupted at a slice boundary: everything needed
/// to continue the very same mathematical run later.  Opaque to the
/// scheduler that stores it between rounds.
pub struct PausedWasmExecution {
    /// The body being executed.
    pub body: Vec<Instr>,
    /// The call argument.
    pub arg: Vec<u8>,
    /// Index of the next instruction.
    pub pc: usize,
    /// Work units already spent inside the current `Work` instruction.
    pub sub: u32,
    /// Which pages this execution has written.
    pub dirty: Vec<bool>,
    /// How many pages this execution has written.
    pub dirty_count: u64,
    /// Instruction units consumed so far.
    pub consumed: u64,
    /// Bytes of subnet memory allocated so far.
    pub allocated_bytes: u64,
    /// Bytes of subnet message memory allocated so far.
    pub allocated_message_bytes: u64,
    /// Cycles debited so far, buffered in the change log.
    pub debited: u64,
    /// Cycles credited so far, buffered in the change log.
    pub credited: u64,
    /// Whether a reply has been produced.
    pub replied: bool,
    /// What is left of the operation-level instruction budget.
    pub message_left: u64,
    /// The most instructions one slice may execute; fixed for the
    /// operation's lifetime.
    pub slice_limit: u64,
    /// The linear memory as it was when the method was entered.
    pub initial_mem: Ghost<Seq<u8>>,
}

/// The outcome of running one slice: the whole method finished (cleanly,
/// trapped, or out of budget), or it was interrupted and can be resumed.
pub enum WasmExecutionResult {
    /// The method execution is over; the operation can post-process it.
    Finished(SliceExecutionOutput, WasmExecutionOutput, SystemStateChanges),
    /// The slice budget ran out mid-method; resume later.
    Paused(SliceExecutionOutput, PausedWasmExecution),
}

impl PausedWasmExecution {
    /// The run state this record stands at.
    pub open spec fn cur(self) -> RunState {
        run(self.body@, self.arg@, init_run_state(self.initial_mem@), self.consumed as nat)
    }

    /// Pages of the memory this execution runs on.
    pub open spec fn pages(self) -> int {
        self.initial_mem@.len() as int / (PAGE_SIZE as int)
    }

    /// This record faithfully mirrors the mathematical run, and `mem` is
    /// the run's current memory.
    pub open spec fn invariant_on(self, mem: Seq<u8>) -> bool {
        let s = self.cur();
        &&& body_wf(self.body@)
        &&& mem_wf(self.initial_mem@)
        &&& self.slice_limit >= 1
        &&& self.consumed + self.message_left <= u64::MAX
        &&& s.consumed == self.consumed
        &&& s.pc == self.pc
        &&& s.sub == self.sub
        &&& s.mem == mem
        &&& s.dirty == self.dirty@
        &&& s.dirty_count == self.dirty_count
        &&& s.allocated_bytes == self.allocated_bytes
        &&& s.allocated_message_bytes == self.allocated_message_bytes
        &&& s.debited == self.debited
        &&& s.credited == self.credited
        &&& s.replied == self.replied
        &&& s.trap is None
    }

    /// What a paused execution guarantees between slices: it mirrors the
    /// run, the run is not over, and there is budget left to resume with.
    pub open spec fn paused_wf(self, mem: Seq<u8>) -> bool {
        &&& self.invariant_on(mem)
        &&& !is_done(self.body@, self.cur())
        &&& self.message_left >= 1
    }
}

/// The final run state of a method given its operation budget.
pub open spec fn spec_final(body: Seq<Instr>, arg: Seq<u8>, mem0: Seq<u8>, m0: nat) -> RunState {
    run(body, arg, init_run_state(mem0), m0)
}

/// How a finished run classifies: a trap, a clean completion (with or
/// without an illegal reply), or an exhausted operation budget.
pub open spec fn spec_wasm_result(body: Seq<Instr>, s: RunState) -> Result<
    Option<()>,
    HypervisorError,
> {
    if s.trap is Some {
        Err(HypervisorError::Trapped(s.trap->Some_0))
    } else if s.pc >= body.len() {
        Ok(
            if s.replied {
                Some(())
            } else {
                None
            },
        )
    } else {
        Err(HypervisorError::InstructionLimitExceeded)
    }
}

/// The output a method execution reports once finished.  A function of the
/// body, argument, initial memory, and operation budget alone: no slice
/// pattern appears here.
pub open spec fn spec_output(body: Seq<Instr>, arg: Seq<u8>, mem0: Seq<u8>, m0: u64) -> WasmExecutionOutput {
    let s = spec_final(body, arg, mem0, m0 as nat);
    WasmExecutionOutput {
        wasm_result: spec_wasm_result(body, s),
        num_instructions_left: (m0 - s.consumed) as u64,
        allocated_bytes: s.allocated_bytes as u64,
        allocated_message_bytes: s.allocated_message_bytes as u64,
        dirty_pages: s.dirty_count as u64,
    }
}

/// The change log a method execution buffers, once finished.
pub open spec fn spec_changes(body: Seq<Instr>, arg: Seq<u8>, mem0: Seq<u8>, m0: u64) -> SystemStateChanges {
    let s = spec_final(body, arg, mem0, m0 as nat);
    SystemStateChanges { cycles_debited: s.debited as u64, cycles_credited: s.credited as u64 }
}

/// The linear memory a method execution leaves behind.
pub open spec fn spec_final_mem(body: Seq<Instr>, arg: Seq<u8>, mem0: Seq<u8>, m0: u64) -> Seq<u8> {
    spec_final(body, arg, mem0, m0 as nat).mem
}

/// The full contract of running one slice of the method whose run stands
/// at `consumed0` units, with `message_left0` budget left and a per-slice
/// cap of `slice_limit`, on the memory that becomes `mem1`.
///
/// Either the method finishes — and everything it reports is the
/// slice-independent function of body, argument, initial memory, and
/// operation budget — or it pauses having executed exactly the slice
/// budget, leaving a record that stands one slice further along the very
/// same run.
pub open spec fn slice_result_ok(
    body: Seq<Instr>,
    arg: Seq<u8>,
    mem0: Seq<u8>,
    consumed0: nat,
    message_left0: u64,
    slice_limit: u64,
    r: WasmExecutionResult,
    mem1: Seq<u8>,
) -> bool {
    let m0 = (consumed0 + message_left0) as u64;
    let budget = if slice_limit <= message_left0 {
        slice_limit
    } else {
        message_left0
    };
    let reach = run(body, arg, init_run_state(mem0), (consumed0 + budget) as nat);
    match r {
        WasmExecutionResult::Finished(sl, out, ch) => {
            &&& is_done(body, reach) || budget == message_left0
            &&& out == spec_output(body, arg, mem0, m0)
            &&& ch == spec_changes(body, arg, mem0, m0)
            &&& mem1 == spec_final_mem(body, arg, mem0, m0)
            &&& sl.executed_instructions == reach.consumed - consumed0
            &&& sl.executed_instructions <= budget
        },
        WasmExecutionResult::Paused(sl, p2) => {
            &&& !is_done(body, reach)
            &&& budget < message_left0
            &&& sl.executed_instructions == budget
            &&& p2.body@ == body
            &&& p2.arg@ == arg
            &&& p2.initial_mem@ == mem0
            &&& p2.consumed == consumed0 + budget
            &&& p2.message_left == message_left0 - budget
            &&& p2.slice_limit == slice_limit
            &&& p2.paused_wf(mem1)
        },
    }
}

/// The initial run state over a whole-page memory is well formed.
pub proof fn lemma_init_run_state_wf(body: Seq<Instr>, mem: Seq<u8>)
    requires
        body_wf(body),
        mem_wf(mem),
    ensures
        run_state_wf(body, init_run_state(mem), mem.len() as int / (PAGE_SIZE as int)),
{
    let pages = mem.len() as int / (PAGE_SIZE as int);
    lemma_count_trues_all_false(pages as nat);
    assert(pages * (PAGE_SIZE as int) == mem.len()) by {
        vstd::arithmetic::div_mod::lemma_fundamental_div_mod(mem.len() as int, PAGE_SIZE as int);
    }
    let s = init_run_state(mem);
    if s.pc < body.len() {
        assert(instr_wf(body[0]));
    }
}

/// A vector of `n` clean page flags.
fn make_false_vec(n: usize) -> (r: Vec<bool>)
    ensures
        r@ == Seq::new(n as nat, |i: int| false),
{
    let mut out: Vec<bool> = Vec::new();
    let mut i: usize = 0;
    while i < n
        invariant
            0 <= i <= n,
            out@ == Seq::new(i as nat, |k: int| false),
        decreases n - i,
    {
        out.push(false);
        proof {
            assert(out@ =~= Seq::new((i + 1) as nat, |k: int| false));
        }
        i = i + 1;
    }
    out
}

/// Runs one slice of the method execution `p` stands at, against the
/// unit's linear memory.  The slice executes at most
/// `min(slice_limit, message_left)` instruction units; see
/// [`slice_result_ok`] for everything it guarantees.
#[verifier::rlimit(50)]
fn run_slice(p: PausedWasmExecution, mem: &mut Vec<u8>) -> (r: WasmExecutionResult)
    requires
        p.invariant_on(old(mem)@),
    ensures
        slice_result_ok(
            p.body@,
            p.arg@,
            p.initial_mem@,
            p.consumed as nat,
            p.message_left,
            p.slice_limit,
            r,
            final(mem)@,
        ),
{
    let ghost p0 = p;
    let ghost body_s = p.body@;
    let ghost arg_s = p.arg@;
    let ghost mem0 = p.initial_mem@;
    let ghost init0 = init_run_state(mem0);
    let ghost pages = mem0.len() as int / (PAGE_SIZE as int);
    let ghost m0 = p.consumed + p.message_left;
    let budget: u64 = if p.slice_limit <= p.message_left {
        p.slice_limit
    } else {
        p.message_left
    };
    let ghost target = p.consumed + budget;
    proof {
        lemma_init_run_state_wf(body_s, mem0);
        lemma_run_wf(body_s, arg_s, init0, pages, p.consumed as nat);
    }
    let mut q = p;
    let mut trap: Option<TrapCode> = None;
    let mut used: u64 = 0;
    let mut done: bool = q.pc >= q.body.len();
    while used < budget && !done
        invariant
            body_wf(body_s),
            mem_wf(mem0),
            pages == mem0.len() as int / (PAGE_SIZE as int),
            pages <= 65535,
            init0 == init_run_state(mem0),
            m0 == p0.consumed + p0.message_left,
            m0 <= u64::MAX,
            budget <= p0.message_left,
            budget <= p0.slice_limit,
            target == p0.consumed + budget,
            q.body@ == body_s,
            q.arg@ == arg_s,
            q.initial_mem@ == mem0,
            q.slice_limit == p0.slice_limit,
            p0.slice_limit >= 1,
            used <= budget,
            q.consumed == p0.consumed + used,
            q.message_left == p0.message_left - used,
            ({
                let s = run(body_s, arg_s, init0, q.consumed as nat);
                &&& run_state_wf(body_s, s, pages)
                &&& s.pc == q.pc
                &&& s.sub == q.sub
                &&& s.mem == mem@
                &&& s.dirty == q.dirty@
                &&& s.dirty_count == q.dirty_count
                &&& s.consumed == q.consumed
                &&& s.allocated_bytes == q.allocated_bytes
                &&& s.allocated_message_bytes == q.allocated_message_bytes
                &&& s.debited == q.debited
                &&& s.credited == q.credited
                &&& s.replied == q.replied
                &&& s.trap == trap
                &&& done == is_done(body_s, s)
            }),
        decreases budget - used,
    {
        let ghost s_cur = run(body_s, arg_s, init0, q.consumed as nat);
        proof {
            lemma_run_unfold_back(body_s, arg_s, init0, q.consumed as nat);
            lemma_step_wf(body_s, arg_s, s_cur, pages);
            lemma_step_consumed(body_s, arg_s, s_cur);
        }
        let ghost s_next = step(body_s, arg_s, s_cur);
        let instr = q.body[q.pc];
        match instr {
            Instr::Work { units } => {
                if q.sub + 1 < units {
                    q.sub = q.sub + 1;
                } else {
                    q.pc = q.pc + 1;
                    q.sub = 0;
                }
            },
            Instr::StoreArg { offset } => {
                if q.arg.len() == 0 {
                    q.pc = q.pc + 1;
                } else if q.arg.len() > mem.len() || (offset as usize) > mem.len() - q.arg.len() {
                    trap = Some(TrapCode::HeapOutOfBounds);
                } else {
                    let ghost s_adv = RunState { pc: s_cur.pc + 1, consumed: s_cur.consumed + 1, ..s_cur };
                    proof {
                        assert(write_bytes_prefix(s_adv, offset as int, arg_s, 0) == s_adv);
                    }
                    let mut j: usize = 0;
                    while j < q.arg.len()
                        invariant
                            0 <= j <= arg_s.len(),
                            1 <= arg_s.len(),
                            q.body@ == body_s,
                            q.arg@ == arg_s,
                            q.initial_mem@ == mem0,
                            q.slice_limit == p0.slice_limit,
                            q.pc == s_cur.pc,
                            q.sub == s_cur.sub,
                            q.consumed == s_cur.consumed,
                            q.message_left == p0.message_left - used,
                            q.allocated_bytes == s_cur.allocated_bytes,
                            q.allocated_message_bytes == s_cur.allocated_message_bytes,
                            q.debited == s_cur.debited,
                            q.credited == s_cur.credited,
                            q.replied == s_cur.replied,
                            offset + arg_s.len() <= s_adv.mem.len(),
                            s_adv.dirty.len() == pages,
                            pages <= 65535,
                            s_adv.mem.len() == pages * (PAGE_SIZE as int),
                            s_adv.dirty_count == count_trues(s_adv.dirty),
                            ({
                                let t = write_bytes_prefix(s_adv, offset as int, arg_s, j as int);
                                &&& mem@ == t.mem
                                &&& q.dirty@ == t.dirty
                                &&& q.dirty_count == t.dirty_count
                            }),
                        decreases arg_s.len() - j,
                    {
                        let ghost t = write_bytes_prefix(s_adv, offset as int, arg_s, j as int);
                        proof {
                            lemma_write_prefix_props(s_adv, offset as int, arg_s, j as int);
                            lemma_page_of_bound(offset + j as int, pages);
                            lemma_count_trues_bounds(t.dirty);
                            lemma_count_trues_update(t.dirty, (offset + j as int) / (PAGE_SIZE as int));
                        }
                        let addr = (offset as usize) + j;
                        let b = q.arg[j];
                        mem.set(addr, b);
                        let page = addr / (PAGE_SIZE as usize);
                        if !q.dirty[page] {
                            q.dirty.set(page, true);
                            q.dirty_count = q.dirty_count + 1;
                        }
                        j = j + 1;
                        proof {
                            assert(write_bytes_prefix(s_adv, offset as int, arg_s, j as int)
                                == write_byte(t, offset + (j - 1) as int, arg_s[(j - 1) as int]));
                        }
                    }
                    q.pc = q.pc + 1;
                    proof {
                        lemma_write_prefix_regs(s_adv, offset as int, arg_s, arg_s.len() as int);
                        assert(s_next == write_bytes_prefix(s_adv, offset as int, arg_s, arg_s.len() as int));
                    }
                }
            },
            Instr::StoreByte { offset, value } => {
                if (offset as usize) >= mem.len() {
                    trap = Some(TrapCode::HeapOutOfBounds);
                } else {
                    proof {
                        lemma_page_of_bound(offset as int, pages);
                        lemma_count_trues_bounds(s_cur.dirty);
                        lemma_count_trues_update(s_cur.dirty, offset as int / (PAGE_SIZE as int));
                    }
                    mem.set(offset as usize, value);
                    let page = (offset as usize) / (PAGE_SIZE as usize);
                    if !q.dirty[page] {
                        q.dirty.set(page, true);
                        q.dirty_count = q.dirty_count + 1;
                    }
                    q.pc = q.pc + 1;
                }
            },
            Instr::Trap => {
                trap = Some(TrapCode::Explicit);
            },
            Instr::Reply => {
                q.replied = true;
                q.pc = q.pc + 1;
            },
            Instr::Alloc { bytes } => {
                q.allocated_bytes = q.allocated_bytes + bytes as u64;
                q.pc = q.pc + 1;
            },
            Instr::AllocMsg { bytes } => {
                q.allocated_message_bytes = q.allocated_message_bytes + bytes as u64;
                q.pc = q.pc + 1;
            },
            Instr::Debit { cycles } => {
                q.debited = q.debited + cycles as u64;
                q.pc = q.pc + 1;
            },
            Instr::Credit { cycles } => {
                q.credited = q.credited + cycles as u64;
                q.pc = q.pc + 1;
            },
        }
        q.consumed = q.consumed + 1;
        q.message_left = q.message_left - 1;
        used = used + 1;
        done = trap.is_some() || q.pc >= q.body.len();
    }
    let ghost s_end = run(body_s, arg_s, init0, q.consumed as nat);
    if done {
        proof {
            lemma_run_add(body_s, arg_s, init0, q.consumed as nat, (m0 - q.consumed) as nat);
            lemma_run_frozen(body_s, arg_s, s_end, (m0 - q.consumed) as nat);
            lemma_run_add(body_s, arg_s, init0, q.consumed as nat, (target - q.consumed) as nat);
            lemma_run_frozen(body_s, arg_s, s_end, (target - q.consumed) as nat);
        }
        let out = WasmExecutionOutput {
            wasm_result: match trap {
                Some(t) => Err(HypervisorError::Trapped(t)),
                None => if q.replied {
                    Ok(Some(()))
                } else {
                    Ok(None)
                },
            },
            num_instructions_left: q.message_left,
            allocated_bytes: q.allocated_bytes,
            allocated_message_bytes: q.allocated_message_bytes,
            dirty_pages: q.dirty_count,
        };
        let ch = SystemStateChanges { cycles_debited: q.debited, cycles_credited: q.credited };
        WasmExecutionResult::Finished(
            SliceExecutionOutput { executed_instructions: used },
            out,
            ch,
        )
    } else if q.message_left == 0 {
        let out = WasmExecutionOutput {
            wasm_result: Err(HypervisorError::InstructionLimitExceeded),
            num_instructions_left: 0,
            allocated_bytes: q.allocated_bytes,
            allocated_message_bytes: q.allocated_message_bytes,
            dirty_pages: q.dirty_count,
        };
        let ch = SystemStateChanges { cycles_debited: q.debited, cycles_credited: q.credited };
        WasmExecutionResult::Finished(
            SliceExecutionOutput { executed_instructions: used },
            out,
            ch,
        )
    } else {
        WasmExecutionResult::Paused(SliceExecutionOutput { executed_instructions: used }, q)
    }
}

/// Runs the first slice of a fresh method execution: `body` with argument
/// `arg`, over the unit's linear memory, under an operation budget of
/// `message_limit` instructions metered in slices of at most
/// `slice_limit`.  See [`slice_result_ok`] for everything the result
/// guarantees.
pub fn execute_dts(
    body: &Vec<Instr>,
    arg: &Vec<u8>,
    wasm_memory: &mut Vec<u8>,
    message_limit: u64,
    slice_limit: u64,
) -> (r: WasmExecutionResult)
    requires
        body_wf(body@),
        mem_wf(old(wasm_memory)@),
        slice_limit >= 1,
    ensures
        slice_result_ok(
            body@,
            arg@,
            old(wasm_memory)@,
            0,
            message_limit,
            slice_limit,
            r,
            final(wasm_memory)@,
        ),
{
    let pages = wasm_memory.len() / (PAGE_SIZE as usize);
    let p = PausedWasmExecution {
        body: copy_vec(body),
        arg: copy_vec(arg),
        pc: 0,
        sub: 0,
        dirty: make_false_vec(pages),
        dirty_count: 0,
        consumed: 0,
        allocated_bytes: 0,
        allocated_message_bytes: 0,
        debited: 0,
        credited: 0,
        replied: false,
        message_left: message_limit,
        slice_limit: slice_limit,
        initial_mem: Ghost(wasm_memory@),
    };
    proof {
        assert(p.cur() == init_run_state(wasm_memory@));
    }
    run_slice(p, wasm_memory)
}

impl PausedWasmExecution {
    /// Runs the next slice of this paused execution against the unit's
    /// linear memory, continuing the very same mathematical run.  See
    /// [`slice_result_ok`] for everything the result guarantees.
    pub fn resume(self, wasm_memory: &mut Vec<u8>) -> (r: WasmExecutionResult)
        requires
            self.paused_wf(old(wasm_memory)@),
        ensures
            slice_result_ok(
                self.body@,
                self.arg@,
                self.initial_mem@,
                self.consumed as nat,
                self.message_left,
                self.slice_limit,
                r,
                final(wasm_memory)@,
            ),
    {
        run_slice(self, wasm_memory)
    }

    /// Abandons this paused execution.  Used when external teardown
    /// discards the operation; the unit's durable state is untouched.
    pub fn abort(self) {
    }
}

/// A run never resizes the linear memory: it stays whole pages of the
/// same length.
pub proof fn lemma_run_mem_wf(body: Seq<Instr>, arg: Seq<u8>, mem0: Seq<u8>, n: nat)
    requires
        body_wf(body),
        mem_wf(mem0),
    ensures
        run(body, arg, init_run_state(mem0), n).mem.len() == mem0.len(),
        mem_wf(run(body, arg, init_run_state(mem0), n).mem),
{
    let init0 = init_run_state(mem0);
    let pages = mem0.len() as int / (PAGE_SIZE as int);
    lemma_init_run_state_wf(body, mem0);
    lemma_run_wf(body, arg, init0, pages, n);
    assert(pages * (PAGE_SIZE as int) == mem0.len()) by {
        vstd::arithmetic::div_mod::lemma_fundamental_div_mod(mem0.len() as int, PAGE_SIZE as int);
    }
    assert((run(body, arg, init0, n).mem.len() as int) % (PAGE_SIZE as int) == 0) by {
        vstd::arithmetic::div_mod::lemma_mod_multiples_basic(pages, PAGE_SIZE as int);
    }
}

/// Bounds every finished execution's report obeys, for the arithmetic of
/// the callers that post-process it.
pub proof fn lemma_output_bounds(body: Seq<Instr>, arg: Seq<u8>, mem0: Seq<u8>, m0: u64)
    requires
        body_wf(body),
        mem_wf(mem0),
    ensures
        ({
            let out = spec_output(body, arg, mem0, m0);
            let ch = spec_changes(body, arg, mem0, m0);
            &&& out.dirty_pages <= 65535
            &&& out.num_instructions_left <= m0
            &&& out.allocated_bytes <= 0xffff0000ffff0000
            &&& out.allocated_message_bytes <= 0xffff0000ffff0000
            &&& ch.cycles_debited <= 0xffff0000ffff0000
            &&& ch.cycles_credited <= 0xffff0000ffff0000
            &&& spec_final_mem(body, arg, mem0, m0).len() == mem0.len()
            &&& mem_wf(spec_final_mem(body, arg, mem0, m0))
        }),
{
    let init0 = init_run_state(mem0);
    let pages = mem0.len() as int / (PAGE_SIZE as int);
    lemma_init_run_state_wf(body, mem0);
    lemma_run_wf(body, arg, init0, pages, m0 as nat);
    lemma_run_consumed(body, arg, init0, m0 as nat);
    let s = spec_final(body, arg, mem0, m0 as nat);
    lemma_count_trues_bounds(s.dirty);
    assert(pages * (PAGE_SIZE as int) == mem0.len()) by {
        vstd::arithmetic::div_mod::lemma_fundamental_div_mod(mem0.len() as int, PAGE_SIZE as int);
    }
    assert(s.pc * 4294967296 <= 65535 * 4294967296);
    assert((s.mem.len() as int) % (PAGE_SIZE as int) == 0) by {
        vstd::arithmetic::div_mod::lemma_mod_multiples_basic(pages, PAGE_SIZE as int);
    }
}

/// A finished execution never reports more budget left than it was
/// given.
pub proof fn lemma_output_left(body: Seq<Instr>, arg: Seq<u8>, mem0: Seq<u8>, m0: u64)
    ensures
        spec_output(body, arg, mem0, m0).num_instructions_left <= m0,
        spec_final(body, arg, mem0, m0 as nat).consumed == m0 - spec_output(
            body,
            arg,
            mem0,
            m0,
        ).num_instructions_left,
{
    lemma_run_consumed(body, arg, init_run_state(mem0), m0 as nat);
}

/// Slicing transparency at the engine level: everything a finished
/// execution reports — its output, its change log, and the memory it
/// leaves behind — is the same function of the body, the argument, the
/// initial memory, and the operation budget, however the slices fell.  In
/// particular a pause preserves the operation budget `consumed +
/// message_left`, so the eventual outputs computed before and after the
/// pause agree.
pub proof fn lemma_slicing_transparent(
    body: Seq<Instr>,
    arg: Seq<u8>,
    mem0: Seq<u8>,
    consumed0: nat,
    message_left0: u64,
    slice_limit: u64,
    r: WasmExecutionResult,
    mem1: Seq<u8>,
)
    requires
        slice_result_ok(body, arg, mem0, consumed0, message_left0, slice_limit, r, mem1),
    ensures
        r matches WasmExecutionResult::Paused(_, p2) ==> {
            &&& p2.consumed + p2.message_left == consumed0 + message_left0
            &&& spec_output(body, arg, mem0, (p2.consumed + p2.message_left) as u64)
                == spec_output(body, arg, mem0, (consumed0 + message_left0) as u64)
            &&& spec_changes(body, arg, mem0, (p2.consumed + p2.message_left) as u64)
                == spec_changes(body, arg, mem0, (consumed0 + message_left0) as u64)
            &&& spec_final_mem(body, arg, mem0, (p2.consumed + p2.message_left) as u64)
                == spec_final_mem(body, arg, mem0, (consumed0 + message_left0) as u64)
        },
        r matches WasmExecutionResult::Finished(_, out, ch) ==> out == spec_output(
            body,
            arg,
            mem0,
            (consumed0 + message_left0) as u64,
        ) && ch == spec_changes(body, arg, mem0, (consumed0 + message_left0) as u64),
{
}

} // verus!
