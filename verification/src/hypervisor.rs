//! The engine's compile-and-bind boundary: turns raw module bytes into a
//! fresh execution state, consulting the compiled-module sharing cache.
//!
//! With sharing enabled, byte-identical module content compiles exactly
//! once per checkpoint interval: later installs are served from the cache
//! at the recorded cost, without running the compiler again.  With sharing
//! disabled every install compiles.  The `compilations` counter records
//! how often the compiler proper ran.

use vstd::prelude::*;
use crate::cache::{cache_wf, CompilationCache};
use crate::canister_state::{execution_state_wf, ExecutionState};
use crate::module::{
    compilation_cost, module_wf, parse_module, spec_compilation_cost, spec_parse_module, Module,
    ModuleView,
};
use crate::types::{FlagStatus, HypervisorError, PAGE_SIZE};

verus! {

/// The engine boundary: the sharing cache, the sharing switch, and a count
/// of how often the compiler proper ran.
pub struct Hypervisor {
    /// The compiled-module sharing cache.
    pub cache: CompilationCache,
    /// Whether compiled modules are shared between byte-identical
    /// installs.
    pub module_sharing: FlagStatus,
    /// How many times the compiler proper ran (hits do not count).
    pub compilations: u64,
    /// The subnet this engine serves.
    pub subnet_id: u64,
}

/// The mathematical content of a [`Hypervisor`].
pub struct HypervisorView {
    /// The cache's content, keyed by raw module content.
    pub cache: Map<Seq<u8>, (ModuleView, u64)>,
    /// Whether compiled modules are shared.
    pub module_sharing: FlagStatus,
    /// How many times the compiler proper ran.
    pub compilations: u64,
    /// The subnet this engine serves.
    pub subnet_id: u64,
}

impl View for Hypervisor {
    type V = HypervisorView;

    open spec fn view(&self) -> HypervisorView {
        HypervisorView {
            cache: self.cache@,
            module_sharing: self.module_sharing,
            compilations: self.compilations,
            subnet_id: self.subnet_id,
        }
    }
}

/// What the engine boundary maintains.
pub open spec fn hypervisor_wf(h: Hypervisor) -> bool {
    cache_wf(h.cache)
}

/// Whether this install is served from the cache: sharing is on and the
/// content is resident.
pub open spec fn spec_cache_hit(h: HypervisorView, wasm: Seq<u8>) -> bool {
    h.module_sharing == FlagStatus::Enabled && h.cache.contains_key(wasm)
}

/// What compiling `wasm` against this engine state yields: the artifact
/// and the instruction cost to charge, or nothing when the content is
/// malformed.
pub open spec fn spec_compile(h: HypervisorView, wasm: Seq<u8>) -> Option<(ModuleView, int)> {
    if spec_cache_hit(h, wasm) {
        Some((h.cache[wasm].0, h.cache[wasm].1 as int))
    } else {
        match spec_parse_module(wasm) {
            None => None,
            Some(m) => Some((m, spec_compilation_cost(wasm.len() as int))),
        }
    }
}

/// A counter raised by one, stopping at its ceiling.
pub open spec fn bumped(c: u64) -> u64 {
    if c < u64::MAX {
        (c + 1) as u64
    } else {
        c
    }
}

/// The engine state after one compile-and-bind request: untouched on a
/// cache hit; otherwise the compiler ran once, and a well-formed artifact
/// is recorded when sharing is on.
pub open spec fn spec_hypervisor_after(h: HypervisorView, wasm: Seq<u8>) -> HypervisorView {
    if spec_cache_hit(h, wasm) {
        h
    } else {
        HypervisorView {
            compilations: bumped(h.compilations),
            cache: match spec_parse_module(wasm) {
                Some(m) => if h.module_sharing == FlagStatus::Enabled {
                    h.cache.insert(wasm, (m, spec_compilation_cost(wasm.len() as int) as u64))
                } else {
                    h.cache
                },
                None => h.cache,
            },
            ..h
        }
    }
}

/// A linear memory of `pages` zeroed pages.
pub open spec fn zero_mem(pages: int) -> Seq<u8> {
    Seq::new((pages * (PAGE_SIZE as int)) as nat, |i: int| 0u8)
}

/// Builds a vector of `pages` zeroed pages.
fn make_zero_mem(pages: usize) -> (r: Vec<u8>)
    requires
        pages <= 65535,
    ensures
        r@ == zero_mem(pages as int),
{
    let total: usize = pages * (PAGE_SIZE as usize);
    let mut out: Vec<u8> = Vec::new();
    let mut i: usize = 0;
    while i < total
        invariant
            0 <= i <= total,
            total == pages * (PAGE_SIZE as int),
            out@ == Seq::new(i as nat, |k: int| 0u8),
        decreases total - i,
    {
        out.push(0);
        proof {
            assert(out@ =~= Seq::new((i + 1) as nat, |k: int| 0u8));
        }
        i = i + 1;
    }
    out
}

/// Binds a compiled artifact into a fresh execution state: zeroed linear
/// memory of the declared size, empty stable memory.
fn build_execution_state(module: Module) -> (r: ExecutionState)
    requires
        module_wf(module@),
    ensures
        r@.module == module@,
        r@.wasm_memory == zero_mem(module@.initial_pages as int),
        r@.stable_memory == Seq::<u8>::empty(),
        execution_state_wf(r@),
{
    let pages = module.initial_pages as usize;
    let wasm_memory = make_zero_mem(pages);
    let stable_memory: Vec<u8> = Vec::new();
    proof {
        vstd::arithmetic::div_mod::lemma_mod_multiples_basic(pages as int, PAGE_SIZE as int);
        assert(stable_memory@ =~= Seq::<u8>::empty());
    }
    ExecutionState { module, wasm_memory, stable_memory }
}

impl Hypervisor {
    /// An engine boundary with an empty cache.
    pub fn new(module_sharing: FlagStatus, subnet_id: u64) -> (r: Hypervisor)
        ensures
            r@ == (HypervisorView {
                cache: Map::<Seq<u8>, (ModuleView, u64)>::empty(),
                module_sharing,
                compilations: 0u64,
                subnet_id,
            }),
            hypervisor_wf(r),
    {
        Hypervisor { cache: CompilationCache::new(), module_sharing, compilations: 0, subnet_id }
    }

    /// Invalidates the sharing cache wholesale, as every checkpoint
    /// boundary must: a cold-started replica cannot be guaranteed to
    /// replay the in-memory cache deterministically, so the next install
    /// of any module pays full compilation cost again.
    pub fn clear_compilation_cache(&mut self)
        ensures
            final(self)@ == (HypervisorView {
                cache: Map::<Seq<u8>, (ModuleView, u64)>::empty(),
                ..old(self)@
            }),
            hypervisor_wf(*final(self)),
    {
        self.cache.clear();
    }

    /// Compiles raw module bytes into a fresh execution state — stage 1 of
    /// an install.  Atomic and not interruptible.  Returns the instruction
    /// cost of compilation together with the bound state, or a terminal
    /// error on malformed content.  Serves byte-identical content from the
    /// cache when sharing is on, compiling at most once per content and
    /// checkpoint interval.
    pub fn create_execution_state(&mut self, wasm_module: &Vec<u8>) -> (r: Result<
        (u64, ExecutionState),
        HypervisorError,
    >)
        requires
            hypervisor_wf(*old(self)),
        ensures
            hypervisor_wf(*final(self)),
            final(self)@ == spec_hypervisor_after(old(self)@, wasm_module@),
            r is Ok <==> spec_compile(old(self)@, wasm_module@) is Some,
            r matches Ok(p) ==> {
                let c = spec_compile(old(self)@, wasm_module@)->Some_0;
                &&& p.0 == c.1
                &&& module_wf(c.0)
                &&& p.1@.module == c.0
                &&& p.1@.wasm_memory == zero_mem(c.0.initial_pages as int)
                &&& p.1@.stable_memory == Seq::<u8>::empty()
                &&& execution_state_wf(p.1@)
            },
            r is Err ==> r->Err_0 == HypervisorError::InvalidWasm,
    {
        if self.module_sharing == FlagStatus::Enabled {
            match self.cache.lookup(wasm_module) {
                Some((module, cost)) => {
                    let state = build_execution_state(module);
                    return Ok((cost, state));
                },
                None => {},
            }
        }
        self.compilations = if self.compilations < u64::MAX {
            self.compilations + 1
        } else {
            self.compilations
        };
        match parse_module(wasm_module) {
            None => Err(HypervisorError::InvalidWasm),
            Some(m) => {
                proof {
                    crate::module::lemma_parsed_module_wf(wasm_module@);
                }
                let cost = compilation_cost(wasm_module.len());
                if self.module_sharing == FlagStatus::Enabled {
                    self.cache.insert(wasm_module, m.duplicate(), cost);
                }
                let state = build_execution_state(m);
                Ok((cost, state))
            },
        }
    }
}

/// Caching idempotence: with sharing enabled, installing byte-identical
/// module content twice triggers compilation exactly once — the second
/// request finds the artifact resident and leaves the engine untouched.
/// With sharing disabled, both requests compile.
pub proof fn lemma_caching_idempotence(h0: HypervisorView, wasm: Seq<u8>)
    requires
        spec_parse_module(wasm) is Some,
        !h0.cache.contains_key(wasm),
    ensures
        ({
            let h1 = spec_hypervisor_after(h0, wasm);
            &&& h1.compilations == bumped(h0.compilations)
            &&& h0.module_sharing == FlagStatus::Enabled ==> spec_hypervisor_after(h1, wasm) == h1
            &&& h0.module_sharing == FlagStatus::Disabled ==> spec_hypervisor_after(
                h1,
                wasm,
            ).compilations == bumped(h1.compilations)
        }),
{
    let h1 = spec_hypervisor_after(h0, wasm);
    if h0.module_sharing == FlagStatus::Enabled {
        assert(h1.cache.contains_key(wasm));
    }
}

/// Any checkpoint boundary forces full recompilation: once the cache is
/// wiped, the next install of any module pays the compiler again,
/// whatever was resident before.
pub proof fn lemma_checkpoint_forces_recompilation(h: HypervisorView, wasm: Seq<u8>)
    ensures
        ({
            let hc = HypervisorView { cache: Map::<Seq<u8>, (ModuleView, u64)>::empty(), ..h };
            spec_hypervisor_after(hc, wasm).compilations == bumped(hc.compilations)
        }),
{
}

} // verus!
