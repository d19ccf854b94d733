//! The raw-module format and its decoder.
//!
//! A unit's code arrives as raw bytes.  The engine compiles those bytes into
//! a [`Module`]: an optional `start` body, an optional `canister_init` body,
//! and an initial linear-memory size.  A body is a sequence of fixed-width
//! instructions; malformed bytes are a terminal compilation error.
//!
//! Layout of the raw bytes:
//! - byte 0: format version, must be [`MODULE_VERSION`];
//! - byte 1: export flags, bit 0 for `start`, bit 1 for `canister_init`;
//! - bytes 2-3: initial linear-memory pages, little endian;
//! - then one section per exported body, in order `start`, `canister_init`:
//!   a little-endian instruction count on 2 bytes, then 9 bytes per
//!   instruction (opcode, two little-endian 32-bit operands);
//! - nothing may follow the last section.

use vstd::prelude::*;
use crate::types::PAGE_SIZE;

verus! {

/// A linear memory the engine can run on: whole pages, and no more pages
/// than a module can declare.
pub open spec fn mem_wf(mem: Seq<u8>) -> bool {
    &&& (mem.len() as int) % (PAGE_SIZE as int) == 0
    &&& mem.len() <= 65535 * (PAGE_SIZE as int)
}

/// The format version this decoder accepts.
pub const MODULE_VERSION: u8 = 1;

/// Opcode of [`Instr::Work`].
pub const OP_WORK: u8 = 1;

/// Opcode of [`Instr::StoreArg`].
pub const OP_STORE_ARG: u8 = 2;

/// Opcode of [`Instr::StoreByte`].
pub const OP_STORE_BYTE: u8 = 3;

/// Opcode of [`Instr::Trap`].
pub const OP_TRAP: u8 = 4;

/// Opcode of [`Instr::Reply`].
pub const OP_REPLY: u8 = 5;

/// Opcode of [`Instr::Alloc`].
pub const OP_ALLOC: u8 = 6;

/// Opcode of [`Instr::AllocMsg`].
pub const OP_ALLOC_MSG: u8 = 7;

/// Opcode of [`Instr::Debit`].
pub const OP_DEBIT: u8 = 8;

/// Opcode of [`Instr::Credit`].
pub const OP_CREDIT: u8 = 9;

/// Bytes of one encoded instruction.
pub const INSTR_BYTES: usize = 9;

/// The longest raw module the format admits: the header plus two maximal
/// sections.
pub const MAX_MODULE_BYTES: usize = 1_179_638;

/// One instruction of a compiled body.  Executing an instruction consumes
/// `units` instructions for [`Instr::Work`] and one instruction otherwise.
#[derive(Clone, Copy, Debug, PartialEq, Eq, Structural)]
pub enum Instr {
    /// Pure computation: consumes `units` instructions (at least one) and
    /// does nothing else.  Its progress can be split across slices.
    Work { units: u32 },
    /// Stores the call argument at `offset` in linear memory.
    StoreArg { offset: u32 },
    /// Stores one byte at `offset` in linear memory.
    StoreByte { offset: u32, value: u8 },
    /// Traps unconditionally.
    Trap,
    /// Produces a reply, which is a protocol violation inside a system
    /// method.
    Reply,
    /// Allocates this many bytes of subnet memory.
    Alloc { bytes: u32 },
    /// Allocates this many bytes of subnet message memory.
    AllocMsg { bytes: u32 },
    /// Debits this many cycles from the unit's balance, through the change
    /// log.
    Debit { cycles: u32 },
    /// Credits this many cycles to the unit's balance, through the change
    /// log.
    Credit { cycles: u32 },
}

/// A compiled, shareable module artifact.
#[derive(Debug)]
pub struct Module {
    /// Pages of linear memory the module starts with.
    pub initial_pages: u16,
    /// The `start` body, if the module exports one.
    pub start: Option<Vec<Instr>>,
    /// The `canister_init` body, if the module exports one.
    pub init: Option<Vec<Instr>>,
}

/// The mathematical content of a [`Module`].
pub struct ModuleView {
    /// Pages of linear memory the module starts with.
    pub initial_pages: u16,
    /// The `start` body, if the module exports one.
    pub start: Option<Seq<Instr>>,
    /// The `canister_init` body, if the module exports one.
    pub init: Option<Seq<Instr>>,
}

impl View for Module {
    type V = ModuleView;

    open spec fn view(&self) -> ModuleView {
        ModuleView {
            initial_pages: self.initial_pages,
            start: match self.start {
                Some(b) => Some(b@),
                None => None,
            },
            init: match self.init {
                Some(b) => Some(b@),
                None => None,
            },
        }
    }
}

/// An instruction the engine can run: a work instruction always has at
/// least one unit of work in it.
pub open spec fn instr_wf(i: Instr) -> bool {
    i matches Instr::Work { units } ==> units >= 1
}

/// A body the engine can run: bounded length, well-formed instructions.
pub open spec fn body_wf(body: Seq<Instr>) -> bool {
    &&& body.len() <= 65535
    &&& forall|k: int| 0 <= k < body.len() ==> instr_wf(#[trigger] body[k])
}

/// A module the engine can run.
pub open spec fn module_wf(m: ModuleView) -> bool {
    &&& (m.start matches Some(b) ==> body_wf(b))
    &&& (m.init matches Some(b) ==> body_wf(b))
}

/// The little-endian 16-bit value at `i`.
pub open spec fn le16(b: Seq<u8>, i: int) -> int {
    b[i] + 256 * b[i + 1]
}

/// The little-endian 32-bit value at `i`.
pub open spec fn le32(b: Seq<u8>, i: int) -> int {
    b[i] + 256 * b[i + 1] + 65536 * b[i + 2] + 16777216 * b[i + 3]
}

/// Decodes the 9-byte instruction at `i`, or nothing if it is malformed.
pub open spec fn spec_parse_instr(b: Seq<u8>, i: int) -> Option<Instr> {
    let op = b[i];
    let a = le32(b, i + 1);
    let c = le32(b, i + 5);
    if op == OP_WORK {
        if a >= 1 {
            Some(Instr::Work { units: a as u32 })
        } else {
            None
        }
    } else if op == OP_STORE_ARG {
        Some(Instr::StoreArg { offset: a as u32 })
    } else if op == OP_STORE_BYTE {
        if c < 256 {
            Some(Instr::StoreByte { offset: a as u32, value: c as u8 })
        } else {
            None
        }
    } else if op == OP_TRAP {
        Some(Instr::Trap)
    } else if op == OP_REPLY {
        Some(Instr::Reply)
    } else if op == OP_ALLOC {
        Some(Instr::Alloc { bytes: a as u32 })
    } else if op == OP_ALLOC_MSG {
        Some(Instr::AllocMsg { bytes: a as u32 })
    } else if op == OP_DEBIT {
        Some(Instr::Debit { cycles: a as u32 })
    } else if op == OP_CREDIT {
        Some(Instr::Credit { cycles: a as u32 })
    } else {
        None
    }
}

/// Decodes the section at `off`: an instruction count followed by that many
/// instructions.  Yields the body and the offset just past the section.
pub open spec fn spec_parse_section(b: Seq<u8>, off: int) -> Option<(Seq<Instr>, int)> {
    if off + 2 > b.len() {
        None
    } else {
        let n = le16(b, off);
        if b.len() - (off + 2) < 9 * n {
            None
        } else if exists|k: int|
            0 <= k < n && #[trigger] spec_parse_instr(b, off + 2 + 9 * k) is None {
            None
        } else {
            Some(
                (
                    Seq::new(n as nat, |k: int| spec_parse_instr(b, off + 2 + 9 * k)->Some_0),
                    off + 2 + 9 * n,
                ),
            )
        }
    }
}

/// Decodes a whole raw module, or nothing if any part of it is malformed or
/// if bytes follow the last section.
pub open spec fn spec_parse_module(b: Seq<u8>) -> Option<ModuleView> {
    if b.len() < 4 || b[0] != MODULE_VERSION || b[1] > 3 {
        None
    } else {
        let has_start = b[1] == 1 || b[1] == 3;
        let has_init = b[1] == 2 || b[1] == 3;
        let pages = le16(b, 2) as u16;
        if has_start {
            match spec_parse_section(b, 4) {
                None => None,
                Some((sbody, off2)) => {
                    if has_init {
                        match spec_parse_section(b, off2) {
                            None => None,
                            Some((ibody, off3)) => {
                                if b.len() == off3 {
                                    Some(
                                        ModuleView {
                                            initial_pages: pages,
                                            start: Some(sbody),
                                            init: Some(ibody),
                                        },
                                    )
                                } else {
                                    None
                                }
                            },
                        }
                    } else if b.len() == off2 {
                        Some(ModuleView { initial_pages: pages, start: Some(sbody), init: None })
                    } else {
                        None
                    }
                },
            }
        } else if has_init {
            match spec_parse_section(b, 4) {
                None => None,
                Some((ibody, off2)) => {
                    if b.len() == off2 {
                        Some(ModuleView { initial_pages: pages, start: None, init: Some(ibody) })
                    } else {
                        None
                    }
                },
            }
        } else if b.len() == 4 {
            Some(ModuleView { initial_pages: pages, start: None, init: None })
        } else {
            None
        }
    }
}

/// A decoded module is always one the engine can run, and its raw form is
/// never longer than [`MAX_MODULE_BYTES`].
pub proof fn lemma_parsed_module_wf(b: Seq<u8>)
    requires
        spec_parse_module(b) is Some,
    ensures
        module_wf(spec_parse_module(b)->Some_0),
        b.len() <= MAX_MODULE_BYTES,
{
    let m = spec_parse_module(b)->Some_0;
    if m.start is Some {
        lemma_parsed_section_wf(b, 4);
    }
    if m.init is Some {
        if m.start is Some {
            let off2 = spec_parse_section(b, 4)->Some_0.1;
            lemma_parsed_section_wf(b, off2);
        } else {
            lemma_parsed_section_wf(b, 4);
        }
    }
}

/// A decoded section is a body the engine can run, ending within bounds.
proof fn lemma_parsed_section_wf(b: Seq<u8>, off: int)
    requires
        spec_parse_section(b, off) is Some,
    ensures
        body_wf(spec_parse_section(b, off)->Some_0.0),
        off + 2 <= spec_parse_section(b, off)->Some_0.1 <= off + 2 + 9 * 65535,
        spec_parse_section(b, off)->Some_0.1 <= b.len(),
{
    let (body, end) = spec_parse_section(b, off)->Some_0;
    let n = le16(b, off);
    assert(n <= 65535);
    assert(body.len() == n);
    assert forall|k: int| 0 <= k < body.len() implies instr_wf(#[trigger] body[k]) by {
        let i = spec_parse_instr(b, off + 2 + 9 * k);
        assert(i is Some);
        assert(body[k] == i->Some_0);
    }
}

/// Copies a vector of plain values.
pub fn copy_vec<T: Copy>(v: &Vec<T>) -> (r: Vec<T>)
    ensures
        r@ == v@,
{
    let mut out: Vec<T> = Vec::new();
    let mut i: usize = 0;
    while i < v.len()
        invariant
            0 <= i <= v.len(),
            out@ == v@.subrange(0, i as int),
        decreases v.len() - i,
    {
        out.push(v[i]);
        proof {
            assert(out@ =~= v@.subrange(0, i + 1));
        }
        i = i + 1;
    }
    proof {
        assert(out@ =~= v@);
    }
    out
}

impl Module {
    /// A second handle on the same compiled artifact.
    pub fn duplicate(&self) -> (r: Module)
        ensures
            r@ == self@,
    {
        Module {
            initial_pages: self.initial_pages,
            start: match &self.start {
                Some(b) => Some(copy_vec(b)),
                None => None,
            },
            init: match &self.init {
                Some(b) => Some(copy_vec(b)),
                None => None,
            },
        }
    }
}

/// Reads the little-endian 16-bit value at `i`.
fn read_le16(bytes: &Vec<u8>, i: usize) -> (r: u16)
    requires
        i + 2 <= bytes.len(),
    ensures
        r == le16(bytes@, i as int),
{
    bytes[i] as u16 + 256 * (bytes[i + 1] as u16)
}

/// Reads the little-endian 32-bit value at `i`.
fn read_le32(bytes: &Vec<u8>, i: usize) -> (r: u32)
    requires
        i + 4 <= bytes.len(),
    ensures
        r == le32(bytes@, i as int),
{
    bytes[i] as u32 + 256 * (bytes[i + 1] as u32) + 65536 * (bytes[i + 2] as u32) + 16777216 * (
    bytes[i + 3] as u32)
}

/// Decodes the 9-byte instruction at `i`.
fn parse_instr_at(bytes: &Vec<u8>, i: usize) -> (r: Option<Instr>)
    requires
        i + 9 <= bytes.len(),
    ensures
        r == spec_parse_instr(bytes@, i as int),
{
    let op = bytes[i];
    let a = read_le32(bytes, i + 1);
    let c = read_le32(bytes, i + 5);
    if op == OP_WORK {
        if a >= 1 {
            Some(Instr::Work { units: a })
        } else {
            None
        }
    } else if op == OP_STORE_ARG {
        Some(Instr::StoreArg { offset: a })
    } else if op == OP_STORE_BYTE {
        if c < 256 {
            Some(Instr::StoreByte { offset: a, value: c as u8 })
        } else {
            None
        }
    } else if op == OP_TRAP {
        Some(Instr::Trap)
    } else if op == OP_REPLY {
        Some(Instr::Reply)
    } else if op == OP_ALLOC {
        Some(Instr::Alloc { bytes: a })
    } else if op == OP_ALLOC_MSG {
        Some(Instr::AllocMsg { bytes: a })
    } else if op == OP_DEBIT {
        Some(Instr::Debit { cycles: a })
    } else if op == OP_CREDIT {
        Some(Instr::Credit { cycles: a })
    } else {
        None
    }
}

/// Decodes the section at `off`.
fn parse_section_at(bytes: &Vec<u8>, off: usize) -> (r: Option<(Vec<Instr>, usize)>)
    ensures
        r matches Some(p) ==> spec_parse_section(bytes@, off as int) == Some((p.0@, p.1 as int)),
        r is None ==> spec_parse_section(bytes@, off as int) is None,
{
    if off > bytes.len() || bytes.len() - off < 2 {
        return None;
    }
    let n = read_le16(bytes, off) as usize;
    if bytes.len() - (off + 2) < 9 * n {
        return None;
    }
    let mut body: Vec<Instr> = Vec::new();
    let mut k: usize = 0;
    while k < n
        invariant
            0 <= k <= n,
            n <= 65535,
            n == le16(bytes@, off as int),
            off + 2 + 9 * n <= bytes.len(),
            body@.len() == k,
            forall|j: int|
                0 <= j < k ==> #[trigger] spec_parse_instr(bytes@, off + 2 + 9 * j) == Some(
                    body@[j],
                ),
        decreases n - k,
    {
        match parse_instr_at(bytes, off + 2 + 9 * k) {
            Some(i) => {
                body.push(i);
            },
            None => {
                return None;
            },
        }
        k = k + 1;
    }
    proof {
        let sect = spec_parse_section(bytes@, off as int);
        assert(sect is Some);
        assert(body@ =~= sect->Some_0.0);
    }
    Some((body, off + 2 + 9 * n))
}

/// Decodes a whole raw module: the executable counterpart of
/// [`spec_parse_module`], succeeding on exactly the byte strings that
/// function accepts.
pub fn parse_module(bytes: &Vec<u8>) -> (r: Option<Module>)
    ensures
        r matches Some(m) ==> spec_parse_module(bytes@) == Some(m@),
        r is None ==> spec_parse_module(bytes@) is None,
{
    if bytes.len() < 4 {
        return None;
    }
    if bytes[0] != MODULE_VERSION || bytes[1] > 3 {
        return None;
    }
    let has_start = bytes[1] == 1 || bytes[1] == 3;
    let has_init = bytes[1] == 2 || bytes[1] == 3;
    let pages = read_le16(bytes, 2);
    let mut off: usize = 4;
    let start = if has_start {
        match parse_section_at(bytes, off) {
            Some((body, end)) => {
                off = end;
                Some(body)
            },
            None => {
                return None;
            },
        }
    } else {
        None
    };
    let init = if has_init {
        match parse_section_at(bytes, off) {
            Some((body, end)) => {
                off = end;
                Some(body)
            },
            None => {
                return None;
            },
        }
    } else {
        None
    };
    if off != bytes.len() {
        return None;
    }
    Some(Module { initial_pages: pages, start, init })
}

/// Base instruction cost of compiling any module.
pub const COMPILATION_COST_BASE: u64 = 1000;

/// Instruction cost of compiling one raw byte.
pub const COMPILATION_COST_PER_BYTE: u64 = 2;

/// The instruction cost the engine reports for compiling `len` raw bytes.
pub open spec fn spec_compilation_cost(len: int) -> int {
    COMPILATION_COST_BASE + COMPILATION_COST_PER_BYTE * len
}

/// Computes the compilation cost of a raw module.
pub fn compilation_cost(len: usize) -> (r: u64)
    requires
        len <= MAX_MODULE_BYTES,
    ensures
        r == spec_compilation_cost(len as int),
{
    COMPILATION_COST_BASE + COMPILATION_COST_PER_BYTE * (len as u64)
}

} // verus!
