//! The repetition-penalty cache: which logit positions a request's recent
//! tokens penalize, memoized per token id for the life of the request.
//! Logit values are carried as their raw bit patterns; computing a
//! penalized value is the caller's one floating-point step, and everything
//! around it — the window, the memoization, the writes — is verified here.
use vstd::prelude::*;

verus! {

/// The bit pattern of the neutral penalty, under which logits pass through
/// unchanged.
pub const NEUTRAL_PENALTY_BITS: u32 = 0x3F80_0000;

/// Index where the penalty window starts: the last `n` of `len` tokens.
pub open spec fn spec_window_start(len: int, n: int) -> int {
    if n >= len {
        0
    } else {
        len - n
    }
}

/// Whether `id` occurs among the last `n` tokens.
pub open spec fn in_window(tokens: Seq<u32>, n: int, id: u32) -> bool {
    exists|j: int|
        spec_window_start(tokens.len() as int, n) <= j < tokens.len() && tokens[j] == id
}

/// The value memoized for `id`, if any: the first matching entry.
pub open spec fn cache_get(entries: Seq<(u32, u32)>, id: u32) -> Option<u32>
    decreases entries.len(),
{
    if entries.len() == 0 {
        None
    } else if entries[0].0 == id {
        Some(entries[0].1)
    } else {
        cache_get(entries.subrange(1, entries.len() as int), id)
    }
}

/// Entries name each id at most once.
pub open spec fn cache_wf(entries: Seq<(u32, u32)>) -> bool {
    forall|a: int, b: int| 0 <= a < b < entries.len() ==> (#[trigger] entries[a]).0 != (
    #[trigger] entries[b]).0
}

/// Per-request memo of penalized logit bits, keyed by token id. Valid only
/// for the fixed penalty of one request: cleared at request start.
#[derive(Debug, Clone)]
pub struct PenaltyCache {
    pub entries: Vec<(u32, u32)>,
}

impl PenaltyCache {
    /// An empty cache.
    pub fn new() -> (r: Self)
        ensures
            r.entries@.len() == 0,
            cache_wf(r.entries@),
    {
        PenaltyCache { entries: Vec::new() }
    }

    /// Forget everything; called once per request.
    pub fn clear(&mut self)
        ensures
            final(self).entries@.len() == 0,
            cache_wf(final(self).entries@),
    {
        self.entries.clear();
    }

    /// The memoized value for `id`, if present.
    pub fn get(&self, id: u32) -> (r: Option<u32>)
        ensures
            r == cache_get(self.entries@, id),
    {
        let mut i: usize = 0;
        proof {
            assert(self.entries@.subrange(0, self.entries@.len() as int) =~= self.entries@);
        }
        while i < self.entries.len()
            invariant
                i <= self.entries@.len(),
                cache_get(self.entries@, id) == cache_get(
                    self.entries@.subrange(i as int, self.entries@.len() as int),
                    id,
                ),
            decreases self.entries@.len() - i,
        {
            let ghost rem = self.entries@.subrange(i as int, self.entries@.len() as int);
            proof {
                assert(rem[0] == self.entries@[i as int]);
                assert(rem.subrange(1, rem.len() as int) =~= self.entries@.subrange(
                    i + 1,
                    self.entries@.len() as int,
                ));
            }
            if self.entries[i].0 == id {
                return Some(self.entries[i].1);
            }
            i += 1;
        }
        proof {
            assert(self.entries@.subrange(self.entries@.len() as int, self.entries@.len() as int)
                =~= Seq::<(u32, u32)>::empty());
        }
        None
    }
}

/// The in-bounds window ids that are not yet memoized, each once: the ids
/// whose penalized value the caller must compute afresh.
pub open spec fn targets_ok(
    entries: Seq<(u32, u32)>,
    logits_len: int,
    tokens: Seq<u32>,
    n: int,
    targets: Seq<u32>,
) -> bool {
    &&& forall|k: int|
        0 <= k < targets.len() ==> in_window(tokens, n, #[trigger] targets[k]) && targets[k]
            < logits_len && cache_get(entries, targets[k]) is None
    &&& forall|a: int, b: int| 0 <= a < b < targets.len() ==> targets[a] != targets[b]
    &&& forall|id: u32|
        in_window(tokens, n, id) && id < logits_len && cache_get(entries, id) is None
            ==> #[trigger] targets.contains(id)
}

/// Collect the ids needing a fresh penalized value: those among the last
/// `repeat_last_n` tokens that index into the logits and are not memoized.
pub fn fresh_targets(
    cache: &PenaltyCache,
    logits_len: usize,
    tokens: &Vec<u32>,
    repeat_last_n: usize,
) -> (r: Vec<u32>)
    ensures
        targets_ok(cache.entries@, logits_len as int, tokens@, repeat_last_n as int, r@),
{
    let len = tokens.len();
    let start = if repeat_last_n >= len {
        0
    } else {
        len - repeat_last_n
    };
    let mut out: Vec<u32> = Vec::new();
    let mut j: usize = start;
    while j < len
        invariant
            start <= j <= len,
            len == tokens@.len(),
            start == spec_window_start(len as int, repeat_last_n as int),
            forall|k: int|
                0 <= k < out@.len() ==> in_window(tokens@, repeat_last_n as int, #[trigger] out@[k])
                    && out@[k] < logits_len && cache_get(cache.entries@, out@[k]) is None,
            forall|a: int, b: int| 0 <= a < b < out@.len() ==> out@[a] != out@[b],
            forall|jj: int|
                start <= jj < j && #[trigger] tokens@[jj] < logits_len && cache_get(
                    cache.entries@,
                    tokens@[jj],
                ) is None ==> out@.contains(tokens@[jj]),
        decreases len - j,
    {
        let id = tokens[j];
        if (id as usize) < logits_len {
            if cache.get(id).is_none() {
                let mut seen = false;
                let mut k: usize = 0;
                while k < out.len()
                    invariant
                        k <= out@.len(),
                        seen == exists|kk: int| 0 <= kk < k && out@[kk] == id,
                    decreases out@.len() - k,
                {
                    if out[k] == id {
                        seen = true;
                    }
                    k += 1;
                }
                if !seen {
                    let ghost out0 = out@;
                    out.push(id);
                    proof {
                        assert(in_window(tokens@, repeat_last_n as int, id)) by {
                            assert(tokens@[j as int] == id);
                        }
                        assert forall|v: u32| out0.contains(v) implies out@.contains(v) by {
                            let kk = choose|kk: int| 0 <= kk < out0.len() && out0[kk] == v;
                            assert(out@[kk] == v);
                        }
                        assert(out@.contains(id)) by {
                            assert(out@[out@.len() - 1] == id);
                        }
                    }
                }
            }
        }
        j += 1;
    }
    proof {
        assert forall|id: u32|
            in_window(tokens@, repeat_last_n as int, id) && id < logits_len && cache_get(
                cache.entries@,
                id,
            ) is None implies #[trigger] out@.contains(id) by {
            let jj = choose|jj: int|
                spec_window_start(tokens@.len() as int, repeat_last_n as int) <= jj < tokens@.len()
                    && tokens@[jj] == id;
            assert(out@.contains(tokens@[jj]));
        }
    }
    out
}

/// What applying the penalty yields at every position: a memoized window id
/// keeps its memoized bits, a fresh window id takes its freshly computed
/// bits, and every other position keeps its original logit bits.
pub open spec fn spec_apply(
    entries: Seq<(u32, u32)>,
    logits: Seq<u32>,
    tokens: Seq<u32>,
    n: int,
    targets: Seq<u32>,
    fresh: Seq<u32>,
) -> Seq<u32> {
    Seq::new(
        logits.len(),
        |i: int|
            if i < 0x1_0000_0000 && in_window(tokens, n, i as u32) {
                match cache_get(entries, i as u32) {
                    Some(v) => v,
                    None => if targets.contains(i as u32) {
                        fresh[targets.index_of(i as u32)]
                    } else {
                        logits[i]
                    },
                }
            } else {
                logits[i]
            },
    )
}

/// Write the penalized values: memoized window ids from the cache, fresh
/// window ids from `fresh` (memoizing them), all else untouched. The input
/// logits are not modified; a new vector is returned.
pub fn apply_with(
    cache: &mut PenaltyCache,
    logits: &Vec<u32>,
    tokens: &Vec<u32>,
    repeat_last_n: usize,
    targets: &Vec<u32>,
    fresh: &Vec<u32>,
) -> (r: Vec<u32>)
    requires
        cache_wf(old(cache).entries@),
        targets@.len() == fresh@.len(),
        targets_ok(
            old(cache).entries@,
            logits@.len() as int,
            tokens@,
            repeat_last_n as int,
            targets@,
        ),
    ensures
        r@ == spec_apply(
            old(cache).entries@,
            logits@,
            tokens@,
            repeat_last_n as int,
            targets@,
            fresh@,
        ),
        final(cache).entries@ == old(cache).entries@ + Seq::new(
            targets@.len(),
            |k: int| (targets@[k], fresh@[k]),
        ),
        cache_wf(final(cache).entries@),
{
    let ghost entries0 = cache.entries@;
    let mut result: Vec<u32> = logits.clone();
    // First pass: positions already memoized take their memoized bits.
    let len = tokens.len();
    let start = if repeat_last_n >= len {
        0
    } else {
        len - repeat_last_n
    };
    let mut j: usize = start;
    while j < len
        invariant
            start <= j <= len,
            len == tokens@.len(),
            start == spec_window_start(len as int, repeat_last_n as int),
            cache.entries@ == entries0,
            result@.len() == logits@.len(),
            forall|jj: int|
                start <= jj < j && #[trigger] tokens@[jj] < logits@.len() && cache_get(
                    entries0,
                    tokens@[jj],
                ) is Some ==> result@[tokens@[jj] as int] == cache_get(
                    entries0,
                    tokens@[jj],
                ).unwrap(),
            forall|i: int|
                0 <= i < logits@.len() && result@[i] != logits@[i] ==> i < 0x1_0000_0000
                    && in_window(tokens@, repeat_last_n as int, i as u32) && cache_get(
                    entries0,
                    i as u32,
                ) == Some(result@[i]),
        decreases len - j,
    {
        let id = tokens[j];
        if (id as usize) < result.len() {
            match cache.get(id) {
                Some(v) => {
                    result.set(id as usize, v);
                    proof {
                        assert(in_window(tokens@, repeat_last_n as int, id)) by {
                            assert(tokens@[j as int] == id);
                        }
                    }
                },
                None => (),
            }
        }
        j += 1;
    }
    // Second pass: fresh ids take their computed bits and are memoized.
    let mut k: usize = 0;
    while k < targets.len()
        invariant
            k <= targets@.len(),
            targets@.len() == fresh@.len(),
            cache_wf(entries0),
            targets_ok(entries0, logits@.len() as int, tokens@, repeat_last_n as int, targets@),
            cache.entries@ == entries0 + Seq::new(k as nat, |x: int| (targets@[x], fresh@[x])),
            result@.len() == logits@.len(),
            forall|kk: int|
                0 <= kk < k ==> result@[#[trigger] targets@[kk] as int] == fresh@[kk],
            forall|jj: int|
                spec_window_start(len as int, repeat_last_n as int) <= jj < len
                    && #[trigger] tokens@[jj] < logits@.len() && cache_get(
                    entries0,
                    tokens@[jj],
                ) is Some ==> result@[tokens@[jj] as int] == cache_get(
                    entries0,
                    tokens@[jj],
                ).unwrap(),
            forall|i: int|
                0 <= i < logits@.len() && result@[i] != logits@[i] ==> i < 0x1_0000_0000 && (
                in_window(tokens@, repeat_last_n as int, i as u32) && (cache_get(entries0, i as u32)
                    == Some(result@[i]) || (targets@.contains(i as u32) && targets@.index_of(
                    i as u32,
                ) < k && fresh@[targets@.index_of(i as u32)] == result@[i]))),
        decreases targets@.len() - k,
    {
        let id = targets[k];
        proof {
            assert(targets@[k as int] < logits@.len());
        }
        result.set(id as usize, fresh[k]);
        cache.entries.push((id, fresh[k]));
        proof {
            assert(cache.entries@ =~= entries0 + Seq::new(
                (k + 1) as nat,
                |x: int| (targets@[x], fresh@[x]),
            ));
            assert forall|kk: int|
                0 <= kk < k + 1 implies result@[#[trigger] targets@[kk] as int] == fresh@[kk] by {
                if kk < k {
                    assert(targets@[kk] != targets@[k as int]);
                }
            }
        }
        k += 1;
    }
    proof {
        let want = spec_apply(
            entries0,
            logits@,
            tokens@,
            repeat_last_n as int,
            targets@,
            fresh@,
        );
        assert forall|i: int| 0 <= i < logits@.len() implies result@[i] == want[i] by {
            if i < 0x1_0000_0000 && in_window(tokens@, repeat_last_n as int, i as u32) {
                let id = i as u32;
                let jj = choose|jj: int|
                    spec_window_start(tokens@.len() as int, repeat_last_n as int) <= jj
                        < tokens@.len() && tokens@[jj] == id;
                match cache_get(entries0, id) {
                    Some(v) => {
                        assert(tokens@[jj] == id && tokens@[jj] < logits@.len());
                        assert(result@[i] == v);
                    },
                    None => {
                        assert(targets@.contains(id));
                        let kk = targets@.index_of(id);
                        assert(0 <= kk < targets@.len() && targets@[kk] == id);
                        assert(result@[targets@[kk] as int] == fresh@[kk]);
                    },
                }
            } else {
                if result@[i] != logits@[i] {
                    assert(false);
                }
            }
        }
        assert(result@ =~= want);
        lemma_cache_wf_extended(entries0, targets@, fresh@, cache.entries@);
    }
    result
}

/// Appending fresh, pairwise-distinct, previously absent ids keeps the
/// cache well formed.
proof fn lemma_cache_wf_extended(
    entries: Seq<(u32, u32)>,
    targets: Seq<u32>,
    fresh: Seq<u32>,
    extended: Seq<(u32, u32)>,
)
    requires
        cache_wf(entries),
        targets.len() == fresh.len(),
        forall|k: int| 0 <= k < targets.len() ==> cache_get(entries, #[trigger] targets[k]) is None,
        forall|a: int, b: int| 0 <= a < b < targets.len() ==> targets[a] != targets[b],
        extended == entries + Seq::new(targets.len(), |k: int| (targets[k], fresh[k])),
    ensures
        cache_wf(extended),
{
    assert forall|a: int, b: int| 0 <= a < b < extended.len() implies (#[trigger] extended[a]).0
        != (#[trigger] extended[b]).0 by {
        if a < entries.len() && b >= entries.len() {
            let kb = b - entries.len();
            assert(extended[b].0 == targets[kb]);
            lemma_cache_get_present(entries, a);
            if extended[a].0 == targets[kb] {
                assert(cache_get(entries, targets[kb]) is Some);
            }
        }
    }
}

/// An id that an entry names is found by lookup.
proof fn lemma_cache_get_present(entries: Seq<(u32, u32)>, a: int)
    requires
        0 <= a < entries.len(),
    ensures
        cache_get(entries, entries[a].0) is Some,
    decreases entries.len(),
{
    if a > 0 {
        if entries[0].0 != entries[a].0 {
            let rest = entries.subrange(1, entries.len() as int);
            assert(rest[a - 1] == entries[a]);
            lemma_cache_get_present(rest, a - 1);
        }
    }
}

/// Neutrality: when the request's penalty is the neutral one, logits pass
/// through untouched, bit for bit; the caller tests for that case here.
pub fn penalty_is_neutral(penalty_bits: u32) -> (r: bool)
    ensures
        r == (penalty_bits == NEUTRAL_PENALTY_BITS),
{
    penalty_bits == NEUTRAL_PENALTY_BITS
}

/// Apply the repetition penalty to a logit vector. Under the neutral
/// penalty the logits come back bit-for-bit unchanged and the memo is left
/// alone; otherwise memoized and freshly computed values are written as
/// `spec_apply` says. `targets` must name the uncached window ids (see
/// `fresh_targets`) and `fresh` their caller-computed penalized bits.
pub fn apply_cached_repeat_penalty(
    cache: &mut PenaltyCache,
    logits: &Vec<u32>,
    tokens: &Vec<u32>,
    repeat_last_n: usize,
    penalty_bits: u32,
    targets: &Vec<u32>,
    fresh: &Vec<u32>,
) -> (r: Vec<u32>)
    requires
        cache_wf(old(cache).entries@),
        penalty_bits != NEUTRAL_PENALTY_BITS ==> targets@.len() == fresh@.len() && targets_ok(
            old(cache).entries@,
            logits@.len() as int,
            tokens@,
            repeat_last_n as int,
            targets@,
        ),
    ensures
        penalty_bits == NEUTRAL_PENALTY_BITS ==> r@ == logits@ && *final(cache) == *old(cache),
        penalty_bits != NEUTRAL_PENALTY_BITS ==> r@ == spec_apply(
            old(cache).entries@,
            logits@,
            tokens@,
            repeat_last_n as int,
            targets@,
            fresh@,
        ) && final(cache).entries@ == old(cache).entries@ + Seq::new(
            targets@.len(),
            |k: int| (targets@[k], fresh@[k]),
        ),
        cache_wf(final(cache).entries@),
{
    if penalty_is_neutral(penalty_bits) {
        logits.clone()
    } else {
        apply_with(cache, logits, tokens, repeat_last_n, targets, fresh)
    }
}

/// Sign preservation: if every freshly computed value keeps the sign bit of
/// the logit it replaces, and every memoized value kept the sign bit of the
/// logit at its id, then applying the penalty preserves the sign bit of
/// every position.
pub proof fn lemma_penalty_sign_preservation(
    entries: Seq<(u32, u32)>,
    logits: Seq<u32>,
    tokens: Seq<u32>,
    n: int,
    targets: Seq<u32>,
    fresh: Seq<u32>,
)
    requires
        targets.len() == fresh.len(),
        targets_ok(entries, logits.len() as int, tokens, n, targets),
        forall|k: int|
            0 <= k < targets.len() ==> #[trigger] (fresh[k] >> 31) == logits[targets[k] as int]
                >> 31,
        forall|a: int|
            0 <= a < entries.len() && (#[trigger] entries[a]).0 < logits.len() ==> entries[a].1
                >> 31 == logits[entries[a].0 as int] >> 31,
    ensures
        forall|i: int|
            0 <= i < logits.len() ==> (#[trigger] spec_apply(
                entries,
                logits,
                tokens,
                n,
                targets,
                fresh,
            )[i]) >> 31 == logits[i] >> 31,
{
    let res = spec_apply(entries, logits, tokens, n, targets, fresh);
    assert forall|i: int| 0 <= i < logits.len() implies (#[trigger] res[i]) >> 31 == logits[i]
        >> 31 by {
        if i < 0x1_0000_0000 && in_window(tokens, n, i as u32) {
            match cache_get(entries, i as u32) {
                Some(v) => {
                    lemma_cache_get_entry(entries, i as u32);
                },
                None => {
                    if targets.contains(i as u32) {
                        let k = targets.index_of(i as u32);
                        assert(0 <= k < targets.len() && targets[k] == i as u32);
                        assert(fresh[k] >> 31 == logits[targets[k] as int] >> 31);
                    }
                },
            }
        }
    }
}

/// A found value comes from some entry with that id.
proof fn lemma_cache_get_entry(entries: Seq<(u32, u32)>, id: u32)
    requires
        cache_get(entries, id) is Some,
    ensures
        exists|a: int|
            0 <= a < entries.len() && (#[trigger] entries[a]).0 == id && entries[a].1 == cache_get(
                entries,
                id,
            ).unwrap(),
    decreases entries.len(),
{
    if entries.len() > 0 {
        if entries[0].0 == id {
            assert(entries[0].0 == id && entries[0].1 == cache_get(entries, id).unwrap());
        } else {
            let rest = entries.subrange(1, entries.len() as int);
            lemma_cache_get_entry(rest, id);
            let a = choose|a: int|
                0 <= a < rest.len() && (#[trigger] rest[a]).0 == id && rest[a].1 == cache_get(
                    rest,
                    id,
                ).unwrap();
            assert(entries[a + 1] == rest[a]);
        }
    }
}

} // verus!
