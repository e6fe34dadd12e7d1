//! The process-wide embedding-model cache's core: an insert-only table
//! from descriptor to instance handle. Whoever holds the table under a
//! lock gets the double-checked-insert behavior from `get_or_insert`
//! alone: a descriptor already present keeps its first handle, so one
//! construction per descriptor suffices for the life of the process.
use vstd::prelude::*;
use crate::embed::EmbeddingModel;

verus! {

/// The handle stored for `key`, if any: the first matching entry.
pub open spec fn table_get(entries: Seq<(EmbeddingModel, u64)>, key: EmbeddingModel) -> Option<
    u64,
>
    decreases entries.len(),
{
    if entries.len() == 0 {
        None
    } else if entries[0].0 == key {
        Some(entries[0].1)
    } else {
        table_get(entries.subrange(1, entries.len() as int), key)
    }
}

/// Each descriptor has at most one entry.
pub open spec fn table_wf(entries: Seq<(EmbeddingModel, u64)>) -> bool {
    forall|a: int, b: int| 0 <= a < b < entries.len() ==> (#[trigger] entries[a]).0 != (
    #[trigger] entries[b]).0
}

/// Insert-only map from embedding descriptor to instance handle.
#[derive(Debug, Clone)]
pub struct ModelCache {
    pub entries: Vec<(EmbeddingModel, u64)>,
}

impl ModelCache {
    /// An empty cache.
    pub fn new() -> (r: Self)
        ensures
            r.entries@.len() == 0,
            table_wf(r.entries@),
    {
        ModelCache { entries: Vec::new() }
    }

    /// The handle cached for `key`, if any.
    pub fn lookup(&self, key: EmbeddingModel) -> (r: Option<u64>)
        ensures
            r == table_get(self.entries@, key),
    {
        let mut i: usize = 0;
        proof {
            assert(self.entries@.subrange(0, self.entries@.len() as int) =~= self.entries@);
        }
        while i < self.entries.len()
            invariant
                i <= self.entries@.len(),
                table_get(self.entries@, key) == table_get(
                    self.entries@.subrange(i as int, self.entries@.len() as int),
                    key,
                ),
            decreases self.entries@.len() - i,
        {
            let ghost rem = self.entries@.subrange(i as int, self.entries@.len() as int);
            proof {
                assert(rem[0] == self.entries@[i as int]);
                assert(rem.subrange(1, rem.len() as int) =~= self.entries@.subrange(
                    i + 1,
                    self.entries@.len() as int,
                ));
            }
            if self.entries[i].0 == key {
                return Some(self.entries[i].1);
            }
            i += 1;
        }
        proof {
            assert(self.entries@.subrange(self.entries@.len() as int, self.entries@.len() as int)
                =~= Seq::<(EmbeddingModel, u64)>::empty());
        }
        None
    }

    /// The double-checked insert: a descriptor already cached keeps its
    /// handle and the table is untouched; otherwise the candidate handle is
    /// recorded for it. The table never shrinks and never rebinds a key.
    pub fn get_or_insert(&mut self, key: EmbeddingModel, candidate: u64) -> (r: (u64, bool))
        requires
            table_wf(old(self).entries@),
        ensures
            table_wf(final(self).entries@),
            table_get(old(self).entries@, key) matches Some(h) ==> r.0 == h && r.1 == false
                && final(self).entries@ == old(self).entries@,
            table_get(old(self).entries@, key) is None ==> r.0 == candidate && r.1 == true
                && final(self).entries@ == old(self).entries@.push((key, candidate)),
            table_get(final(self).entries@, key) == Some(r.0),
    {
        match self.lookup(key) {
            Some(h) => (h, false),
            None => {
                let ghost entries0 = self.entries@;
                self.entries.push((key, candidate));
                proof {
                    lemma_get_after_push(entries0, key, candidate);
                    assert forall|a: int, b: int|
                        0 <= a < b < self.entries@.len() implies (#[trigger] self.entries@[a]).0
                        != (#[trigger] self.entries@[b]).0 by {
                        if b == self.entries@.len() - 1 {
                            lemma_present_found(entries0, a);
                        }
                    }
                }
                (candidate, true)
            },
        }
    }
}

/// Pushing a fresh key makes it found with its handle, and leaves every
/// other key's lookup unchanged.
proof fn lemma_get_after_push(entries: Seq<(EmbeddingModel, u64)>, key: EmbeddingModel, h: u64)
    ensures
        table_get(entries, key) is None ==> table_get(entries.push((key, h)), key) == Some(h),
    decreases entries.len(),
{
    let pushed = entries.push((key, h));
    if entries.len() == 0 {
        assert(pushed[0] == (key, h));
    } else {
        if entries[0].0 != key {
            lemma_get_after_push(entries.subrange(1, entries.len() as int), key, h);
            assert(pushed.subrange(1, pushed.len() as int) =~= entries.subrange(
                1,
                entries.len() as int,
            ).push((key, h)));
        }
    }
}

/// A key an entry names is found by lookup.
proof fn lemma_present_found(entries: Seq<(EmbeddingModel, u64)>, a: int)
    requires
        0 <= a < entries.len(),
    ensures
        table_get(entries, entries[a].0) is Some,
    decreases entries.len(),
{
    if a > 0 {
        if entries[0].0 != entries[a].0 {
            let rest = entries.subrange(1, entries.len() as int);
            assert(rest[a - 1] == entries[a]);
            lemma_present_found(rest, a - 1);
        }
    }
}

/// One construction per descriptor: the first miss installs its handle,
/// after which the descriptor resolves to that handle; `get_or_insert` on
/// a present descriptor returns it and leaves the table untouched, so no
/// second construction is ever recorded.
pub proof fn lemma_cache_single_construction(
    entries: Seq<(EmbeddingModel, u64)>,
    key: EmbeddingModel,
    h: u64,
)
    requires
        table_wf(entries),
        table_get(entries, key) is None,
    ensures
        table_get(entries.push((key, h)), key) == Some(h),
{
    lemma_get_after_push(entries, key, h);
}

} // verus!
