//! The compiled-module sharing cache: maps raw module content to the
//! compiled artifact and its recorded compilation cost, so that installing
//! byte-identical modules twice compiles only once.
//!
//! The cache is invalidated wholesale at every checkpoint boundary; the
//! next install of any module then pays full compilation cost again.

use vstd::prelude::*;
use crate::module::{module_wf, Module, ModuleView};

verus! {

/// One cached compilation: the raw content, the artifact, the recorded
/// cost.
pub struct CacheEntry {
    /// The raw module content this entry is keyed by.
    pub wasm: Vec<u8>,
    /// The compiled artifact.
    pub module: Module,
    /// The instruction cost that compiling it was charged.
    pub cost: u64,
}

/// The compiled-module sharing cache.
pub struct CompilationCache {
    /// The cached compilations, one entry per distinct raw content.
    pub entries: Vec<CacheEntry>,
}

impl View for CompilationCache {
    type V = Map<Seq<u8>, (ModuleView, u64)>;

    open spec fn view(&self) -> Map<Seq<u8>, (ModuleView, u64)> {
        Map::new(
            |k: Seq<u8>|
                exists|i: int| 0 <= i < self.entries.len() && #[trigger] self.entries[i].wasm@ == k,
            |k: Seq<u8>|
                {
                    let i = choose|i: int|
                        0 <= i < self.entries.len() && #[trigger] self.entries[i].wasm@ == k;
                    (self.entries[i].module@, self.entries[i].cost)
                },
        )
    }
}

/// What the cache maintains: distinct keys, and artifacts the engine can
/// run.
pub open spec fn cache_wf(c: CompilationCache) -> bool {
    &&& forall|i: int, j: int|
        0 <= i < j < c.entries.len() ==> (#[trigger] c.entries[i].wasm@) != (
        #[trigger] c.entries[j].wasm@)
    &&& forall|i: int|
        0 <= i < c.entries.len() ==> module_wf(#[trigger] c.entries[i].module@)
}

/// An entry of a well-formed cache is what the cache's map hands out for
/// its key.
proof fn lemma_cache_entry_view(c: CompilationCache, i: int)
    requires
        cache_wf(c),
        0 <= i < c.entries.len(),
    ensures
        c@.contains_key(c.entries[i].wasm@),
        c@[c.entries[i].wasm@] == (c.entries[i].module@, c.entries[i].cost),
{
    let k = c.entries[i].wasm@;
    assert(exists|j: int| 0 <= j < c.entries.len() && #[trigger] c.entries[j].wasm@ == k);
    let j = choose|j: int| 0 <= j < c.entries.len() && #[trigger] c.entries[j].wasm@ == k;
    if i != j {
        assert(false);
    }
}

/// Compares two byte strings.
pub fn bytes_eq(a: &Vec<u8>, b: &Vec<u8>) -> (r: bool)
    ensures
        r == (a@ == b@),
{
    if a.len() != b.len() {
        proof {
            assert(a@ != b@);
        }
        return false;
    }
    let mut i: usize = 0;
    while i < a.len()
        invariant
            0 <= i <= a.len(),
            a@.len() == b@.len(),
            forall|j: int| 0 <= j < i ==> a@[j] == b@[j],
        decreases a.len() - i,
    {
        if a[i] != b[i] {
            return false;
        }
        i = i + 1;
    }
    proof {
        assert(a@ =~= b@);
    }
    true
}

impl CompilationCache {
    /// An empty cache.
    pub fn new() -> (r: CompilationCache)
        ensures
            r@ == Map::<Seq<u8>, (ModuleView, u64)>::empty(),
            cache_wf(r),
    {
        let r = CompilationCache { entries: Vec::new() };
        proof {
            assert(r@ =~= Map::<Seq<u8>, (ModuleView, u64)>::empty());
        }
        r
    }

    /// Looks the raw content up, handing back a second handle on the
    /// cached artifact and its recorded cost.
    pub fn lookup(&self, wasm: &Vec<u8>) -> (r: Option<(Module, u64)>)
        requires
            cache_wf(*self),
        ensures
            r is Some <==> self@.contains_key(wasm@),
            r matches Some(p) ==> self@[wasm@] == (p.0@, p.1) && module_wf(p.0@),
    {
        let mut i: usize = 0;
        while i < self.entries.len()
            invariant
                cache_wf(*self),
                0 <= i <= self.entries.len(),
                forall|j: int| 0 <= j < i ==> (#[trigger] self.entries[j].wasm@) != wasm@,
            decreases self.entries.len() - i,
        {
            if bytes_eq(&self.entries[i].wasm, wasm) {
                proof {
                    lemma_cache_entry_view(*self, i as int);
                }
                return Some((self.entries[i].module.duplicate(), self.entries[i].cost));
            }
            i = i + 1;
        }
        proof {
            if self@.contains_key(wasm@) {
                let j = choose|j: int|
                    0 <= j < self.entries.len() && #[trigger] self.entries[j].wasm@ == wasm@;
                assert(false);
            }
        }
        None
    }

    /// Records a fresh compilation under its raw content.
    pub fn insert(&mut self, wasm: &Vec<u8>, module: Module, cost: u64)
        requires
            cache_wf(*old(self)),
            !old(self)@.contains_key(wasm@),
            module_wf(module@),
        ensures
            cache_wf(*final(self)),
            final(self)@ == old(self)@.insert(wasm@, (module@, cost)),
    {
        let ghost old_c = *self;
        let entry = CacheEntry { wasm: crate::module::copy_vec(wasm), module, cost };
        self.entries.push(entry);
        proof {
            let n = old_c.entries.len() as int;
            let expected = old_c@.insert(wasm@, (module@, cost));
            assert forall|i: int, j: int| 0 <= i < j < self.entries.len() implies (
            #[trigger] self.entries[i].wasm@) != (#[trigger] self.entries[j].wasm@) by {
                if j == n && i < n {
                    assert(self.entries[j].wasm@ == wasm@);
                    assert(self.entries[i].wasm@ == old_c.entries[i].wasm@);
                    if self.entries[i].wasm@ == wasm@ {
                        lemma_cache_entry_view(old_c, i);
                        assert(false);
                    }
                }
            }
            assert forall|k: Seq<u8>|
                #![trigger self@.contains_key(k)]
                #![trigger expected.contains_key(k)]
                self@.contains_key(k) == expected.contains_key(k) by {
                if k == wasm@ {
                    assert(self.entries[n].wasm@ == k);
                } else {
                    if self@.contains_key(k) {
                        let i = choose|i: int|
                            0 <= i < self.entries.len() && #[trigger] self.entries[i].wasm@ == k;
                        assert(i < n);
                        assert(old_c.entries[i].wasm@ == k);
                    }
                    if old_c@.contains_key(k) {
                        let i = choose|i: int|
                            0 <= i < old_c.entries.len() && #[trigger] old_c.entries[i].wasm@
                                == k;
                        assert(self.entries[i].wasm@ == k);
                    }
                }
            }
            assert forall|k: Seq<u8>| self@.contains_key(k) implies #[trigger] self@[k]
                == expected[k] by {
                let i = choose|i: int|
                    0 <= i < self.entries.len() && #[trigger] self.entries[i].wasm@ == k;
                if k == wasm@ {
                    assert(self.entries[n].wasm@ == k);
                    if i != n {
                        assert(old_c.entries[i].wasm@ == k);
                        lemma_cache_entry_view(old_c, i);
                        assert(false);
                    }
                    assert(self@[k] == (self.entries[n].module@, self.entries[n].cost));
                } else {
                    assert(i < n);
                    lemma_cache_entry_view(old_c, i);
                    lemma_cache_entry_view(*self, i);
                }
            }
            assert(self@ =~= expected);
        }
    }

    /// Throws the whole cache away, as a checkpoint boundary demands: a
    /// cold-started replica could not replay it deterministically.
    pub fn clear(&mut self)
        ensures
            cache_wf(*final(self)),
            final(self)@ == Map::<Seq<u8>, (ModuleView, u64)>::empty(),
    {
        self.entries = Vec::new();
        proof {
            assert(final(self)@ =~= Map::<Seq<u8>, (ModuleView, u64)>::empty());
        }
    }
}

} // verus!
