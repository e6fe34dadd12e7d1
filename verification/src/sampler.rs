//! Sampler configuration: which sampling rule a request's temperature,
//! top-k and top-p select. Temperatures and probabilities are carried as
//! raw IEEE-754 bit patterns; the rule selection reads them bitwise, so
//! the choice itself is verified. The draw runs on the caller's seeded
//! generator: with a fixed seed, rule, and logits it repeats exactly.
use vstd::prelude::*;

verus! {

/// Whether a double's bit pattern encodes a NaN.
pub open spec fn f64_is_nan(bits: u64) -> bool {
    (bits >> 52) & 0x7FF == 0x7FF && bits & 0xF_FFFF_FFFF_FFFF != 0
}

/// Whether a double's bit pattern compares `<= 0.0`: either zero, or a
/// negative non-NaN.
pub open spec fn f64_le_zero(bits: u64) -> bool {
    bits == 0 || bits == 0x8000_0000_0000_0000 || ((bits >> 63) == 1 && !f64_is_nan(bits))
}

/// The sampling rules: greedy, plain temperature sampling, or temperature
/// sampling restricted by top-k, top-p, or both.
#[derive(Debug, Clone, Copy, PartialEq, Eq, Structural)]
pub enum SamplerMode {
    ArgMax,
    All { temperature_bits: u64 },
    TopK { k: usize, temperature_bits: u64 },
    TopP { p_bits: u64, temperature_bits: u64 },
    TopKThenTopP { k: usize, p_bits: u64, temperature_bits: u64 },
}

/// A request's sampling parameters.
#[derive(Debug, Clone, Copy, PartialEq, Eq, Structural)]
pub struct SamplerOptions {
    pub seed: u64,
    pub temperature_bits: u64,
    pub top_k: Option<usize>,
    pub top_p_bits: Option<u64>,
}

/// The rule the parameters select.
pub open spec fn spec_mode(opts: SamplerOptions) -> SamplerMode {
    if f64_le_zero(opts.temperature_bits) {
        SamplerMode::ArgMax
    } else {
        match (opts.top_k, opts.top_p_bits) {
            (None, None) => SamplerMode::All { temperature_bits: opts.temperature_bits },
            (Some(k), None) => SamplerMode::TopK { k, temperature_bits: opts.temperature_bits },
            (None, Some(p)) => SamplerMode::TopP {
                p_bits: p,
                temperature_bits: opts.temperature_bits,
            },
            (Some(k), Some(p)) => SamplerMode::TopKThenTopP {
                k,
                p_bits: p,
                temperature_bits: opts.temperature_bits,
            },
        }
    }
}

/// Whether a double's bit pattern compares `<= 0.0`.
pub fn le_zero_bits(bits: u64) -> (r: bool)
    ensures
        r == f64_le_zero(bits),
{
    bits == 0 || bits == 0x8000_0000_0000_0000 || ((bits >> 63) == 1 && !((bits >> 52) & 0x7FF
        == 0x7FF && bits & 0xF_FFFF_FFFF_FFFF != 0))
}

/// Select the sampling rule: a temperature at or below zero means greedy
/// decoding; otherwise exactly one rule follows from which of top-k and
/// top-p are set.
pub fn choose_mode(opts: &SamplerOptions) -> (r: SamplerMode)
    ensures
        r == spec_mode(*opts),
{
    if le_zero_bits(opts.temperature_bits) {
        SamplerMode::ArgMax
    } else {
        match (opts.top_k, opts.top_p_bits) {
            (None, None) => SamplerMode::All { temperature_bits: opts.temperature_bits },
            (Some(k), None) => SamplerMode::TopK { k, temperature_bits: opts.temperature_bits },
            (None, Some(p)) => SamplerMode::TopP {
                p_bits: p,
                temperature_bits: opts.temperature_bits,
            },
            (Some(k), Some(p)) => SamplerMode::TopKThenTopP {
                k,
                p_bits: p,
                temperature_bits: opts.temperature_bits,
            },
        }
    }
}

/// Rule selection is a pure function of the parameters: equal parameters
/// select equal rules, whatever else differs between two requests.
pub proof fn lemma_sampler_mode_deterministic(a: SamplerOptions, b: SamplerOptions)
    requires
        a.temperature_bits == b.temperature_bits,
        a.top_k == b.top_k,
        a.top_p_bits == b.top_p_bits,
    ensures
        spec_mode(a) == spec_mode(b),
{
}

} // verus!
