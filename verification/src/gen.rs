//! Generation bookkeeping for one request: the token history, the
//! KV-cache input policy, the stop tokens, and the hard cap that bounds
//! every generation.
use vstd::prelude::*;

verus! {

/// Mutable state of one autoregressive generation.
#[derive(Debug, Clone)]
pub struct GenSession {
    /// Prompt ids followed by every generated id.
    pub tokens: Vec<u32>,
    /// How many of `tokens` came from the prompt.
    pub prompt_len: usize,
    /// Hard cap on generated tokens.
    pub max_tokens: usize,
    /// How many tokens have been generated so far.
    pub generated: usize,
    /// Id that ends generation.
    pub eos: u32,
    /// Turn-end id, treated like `eos` for stopping.
    pub eot: u32,
    /// Whether generation has stopped.
    pub done: bool,
}

impl GenSession {
    /// Basic shape: the history is the prompt plus what was generated, the
    /// cap is respected, and a session at the cap has stopped.
    pub open spec fn wf(self) -> bool {
        &&& self.generated <= self.max_tokens
        &&& self.tokens@.len() == self.prompt_len + self.generated
        &&& self.generated == self.max_tokens ==> self.done
    }

    /// Start a generation over the encoded prompt.
    pub fn new(prompt_ids: Vec<u32>, eos: u32, eot: u32, max_tokens: usize) -> (r: Self)
        requires
            prompt_ids@.len() + max_tokens <= usize::MAX,
        ensures
            r.wf(),
            r.tokens@ == prompt_ids@,
            r.prompt_len == prompt_ids@.len(),
            r.max_tokens == max_tokens,
            r.generated == 0,
            r.eos == eos,
            r.eot == eot,
            r.done == (max_tokens == 0),
    {
        let prompt_len = prompt_ids.len();
        GenSession {
            tokens: prompt_ids,
            prompt_len,
            max_tokens,
            generated: 0,
            eos,
            eot,
            done: max_tokens == 0,
        }
    }

    /// The slice of history to feed the next forward pass, with its start
    /// position: the whole prompt on the first pass, then one token at the
    /// running position.
    pub fn next_input_range(&self) -> (r: (usize, usize))
        requires
            self.wf(),
            !self.done,
            self.tokens@.len() > 0,
        ensures
            r.1 == self.tokens@.len(),
            self.generated == 0 ==> r.0 == 0,
            self.generated > 0 ==> r.0 == self.tokens@.len() - 1,
            r.0 < r.1,
    {
        if self.generated == 0 {
            (0, self.tokens.len())
        } else {
            (self.tokens.len() - 1, self.tokens.len())
        }
    }

    /// Record one sampled token: append it to the history and decide
    /// whether generation goes on and whether the token is shown. Stop
    /// tokens and the cap end generation; stop tokens are never emitted.
    pub fn record_token(&mut self, next: u32) -> (emit: bool)
        requires
            old(self).wf(),
            !old(self).done,
            old(self).tokens@.len() < usize::MAX,
        ensures
            final(self).wf(),
            final(self).tokens@ == old(self).tokens@.push(next),
            final(self).generated == old(self).generated + 1,
            final(self).prompt_len == old(self).prompt_len,
            final(self).max_tokens == old(self).max_tokens,
            final(self).eos == old(self).eos,
            final(self).eot == old(self).eot,
            final(self).done == (next == old(self).eos || next == old(self).eot || old(
                self,
            ).generated + 1 == old(self).max_tokens),
            emit == !(next == old(self).eos || next == old(self).eot),
    {
        self.tokens.push(next);
        self.generated = self.generated + 1;
        let stop_token = next == self.eos || next == self.eot;
        if stop_token || self.generated == self.max_tokens {
            self.done = true;
        }
        !stop_token
    }
}

/// Generation terminates: a well-formed session never generates past its
/// cap, and a session that has reached the cap has stopped. Each
/// `record_token` call adds exactly one token and requires a session that
/// has not stopped, so a generation with `max_tokens = n` records at most
/// `n` tokens before it ends on the cap, a stop token, or an error.
pub proof fn lemma_generation_terminates(s: GenSession)
    requires
        s.wf(),
    ensures
        s.generated <= s.max_tokens,
        s.generated == s.max_tokens ==> s.done,
{
}

/// Resolve the stop-token ids from the tokenizer's lookups: a missing
/// turn-end id falls back to `eos`; a missing `eos` is fatal.
pub fn resolve_stop_tokens(eos: Option<u32>, eot: Option<u32>) -> (r: Result<(u32, u32), String>)
    ensures
        eos is None <==> r is Err,
        r matches Err(m) ==> m@ == "cannot find the <eos> token"@,
        r matches Ok(p) ==> eos == Some(p.0) && p.1 == (match eot {
            Some(e) => e,
            None => p.0,
        }),
{
    match eos {
        None => Err(String::from_str("cannot find the <eos> token")),
        Some(e) => match eot {
            Some(t) => Ok((e, t)),
            None => Ok((e, e)),
        },
    }
}

/// Whether a failed forward pass should be retried on the CPU: only when a
/// CPU fallback exists and the error is one of the known backend gaps — a
/// missing device kernel, a shape mismatch, or a broadcast-add failure.
pub fn should_fallback_to_cpu(err_msg: &str, has_cpu_fallback: bool) -> (r: bool)
    ensures
        r == (has_cpu_fallback && (crate::text::is_substring_of(
            "no metal implementation for"@,
            err_msg@,
        ) || crate::text::is_substring_of("no cuda implementation for"@, err_msg@)
            || crate::text::is_substring_of("shape mismatch"@, err_msg@)
            || crate::text::is_substring_of("broadcast_add"@, err_msg@))),
{
    if !has_cpu_fallback {
        return false;
    }
    crate::text::str_contains(err_msg, "no metal implementation for") || crate::text::str_contains(
        err_msg,
        "no cuda implementation for",
    ) || crate::text::str_contains(err_msg, "shape mismatch") || crate::text::str_contains(
        err_msg,
        "broadcast_add",
    )
}

} // verus!
