//! Sampling parameters for text generation.
//!
//! The two real-valued parameters (nucleus threshold and temperature) are
//! carried as the IEEE-754 bit patterns of their `f32` values: the library
//! stores and forwards them, it never computes with them.

use vstd::prelude::*;
use crate::raw;
use crate::raw::SamplerType;

verus! {

/// The sampling strategy used during token selection.
#[derive(Debug, Clone, Copy, PartialEq, Eq, Structural)]
pub enum Sampler {
    /// Pick the token with maximum logit (argmax).
    Greedy,
    /// Probabilistically pick among the top-k tokens.
    TopK,
    /// Probabilistically pick from the nucleus (top-p).
    TopP,
}

/// The raw C tag of each strategy.
pub open spec fn spec_sampler_raw(s: Sampler) -> SamplerType {
    match s {
        Sampler::Greedy => raw::K_GREEDY,
        Sampler::TopK => raw::K_TOP_K,
        Sampler::TopP => raw::K_TOP_P,
    }
}

impl Sampler {
    /// The raw C tag of this strategy.
    pub fn to_raw(self) -> (t: SamplerType)
        ensures
            t == spec_sampler_raw(self),
    {
        match self {
            Self::Greedy => raw::K_GREEDY,
            Self::TopK => raw::K_TOP_K,
            Self::TopP => raw::K_TOP_P,
        }
    }
}

/// Distinct strategies have distinct tags, and none of them is the
/// "unspecified" tag.
pub proof fn lemma_sampler_raw_injective(a: Sampler, b: Sampler)
    ensures
        spec_sampler_raw(a) == spec_sampler_raw(b) ==> a == b,
        spec_sampler_raw(a) != raw::K_TYPE_UNSPECIFIED,
{
}

/// Bit pattern of the `f32` value 0.95, the default nucleus threshold.
pub const DEFAULT_TOP_P_BITS: u32 = 0x3f73_3333;

/// Bit pattern of the `f32` value 0.8, the default temperature.
pub const DEFAULT_TEMPERATURE_BITS: u32 = 0x3f4c_cccd;

/// Parameters controlling how the model selects the next token.
#[derive(Debug, Clone, Copy, PartialEq, Eq, Structural)]
pub struct SamplerParams {
    pub(crate) sampler: Sampler,
    pub(crate) top_k: i32,
    /// Bit pattern of the `f32` nucleus probability threshold.
    pub(crate) top_p: u32,
    /// Bit pattern of the `f32` softmax temperature.
    pub(crate) temperature: u32,
    pub(crate) seed: i32,
}

/// The mathematical view of `SamplerParams`: its five settings.
pub struct SamplerParamsView {
    pub sampler: Sampler,
    pub top_k: i32,
    /// Bit pattern of the `f32` nucleus probability threshold.
    pub top_p: u32,
    /// Bit pattern of the `f32` softmax temperature.
    pub temperature: u32,
    pub seed: i32,
}

impl View for SamplerParams {
    type V = SamplerParamsView;

    closed spec fn view(&self) -> SamplerParamsView {
        SamplerParamsView {
            sampler: self.sampler,
            top_k: self.top_k,
            top_p: self.top_p,
            temperature: self.temperature,
            seed: self.seed,
        }
    }
}

/// The C-side sampler parameters.
#[derive(Debug, Clone, Copy, PartialEq, Eq, Structural)]
pub struct LmSamplerParams {
    pub type_: SamplerType,
    pub top_k: i32,
    /// Bit pattern of the `f32` nucleus probability threshold.
    pub top_p: u32,
    /// Bit pattern of the `f32` softmax temperature.
    pub temperature: u32,
    pub seed: i32,
}

impl Default for SamplerParams {
    /// Top-k sampling with k = 40, top-p 0.95, temperature 0.8, seed 0.
    fn default() -> (p: Self)
        ensures
            p@ == (SamplerParamsView {
                sampler: Sampler::TopK,
                top_k: 40,
                top_p: DEFAULT_TOP_P_BITS,
                temperature: DEFAULT_TEMPERATURE_BITS,
                seed: 0,
            }),
    {
        Self {
            sampler: Sampler::TopK,
            top_k: 40,
            top_p: DEFAULT_TOP_P_BITS,
            temperature: DEFAULT_TEMPERATURE_BITS,
            seed: 0,
        }
    }
}

impl SamplerParams {
    /// Set the top-k value. Implies [`Sampler::TopK`].
    #[must_use]
    pub fn top_k(self, v: i32) -> (p: Self)
        ensures
            p@ == (SamplerParamsView { top_k: v, sampler: Sampler::TopK, ..self@ }),
    {
        let mut p = self;
        p.top_k = v;
        p.sampler = Sampler::TopK;
        p
    }

    /// Set the nucleus probability threshold (the bit pattern of an `f32`).
    /// Implies [`Sampler::TopP`].
    #[must_use]
    pub fn top_p(self, v: u32) -> (p: Self)
        ensures
            p@ == (SamplerParamsView { top_p: v, sampler: Sampler::TopP, ..self@ }),
    {
        let mut p = self;
        p.top_p = v;
        p.sampler = Sampler::TopP;
        p
    }

    /// Set the softmax temperature (the bit pattern of an `f32`).
    #[must_use]
    pub fn temperature(self, v: u32) -> (p: Self)
        ensures
            p@ == (SamplerParamsView { temperature: v, ..self@ }),
    {
        let mut p = self;
        p.temperature = v;
        p
    }

    /// Set the random seed for reproducible generation.
    #[must_use]
    pub fn seed(self, v: i32) -> (p: Self)
        ensures
            p@ == (SamplerParamsView { seed: v, ..self@ }),
    {
        let mut p = self;
        p.seed = v;
        p
    }

    /// Use greedy decoding (argmax, deterministic).
    #[must_use]
    pub fn greedy(self) -> (p: Self)
        ensures
            p@ == (SamplerParamsView { sampler: Sampler::Greedy, ..self@ }),
    {
        let mut p = self;
        p.sampler = Sampler::Greedy;
        p
    }

    /// The C-side parameters: the strategy's tag and the values unchanged.
    pub fn to_raw(&self) -> (r: LmSamplerParams)
        ensures
            r == (LmSamplerParams {
                type_: spec_sampler_raw(self@.sampler),
                top_k: self@.top_k,
                top_p: self@.top_p,
                temperature: self@.temperature,
                seed: self@.seed,
            }),
    {
        LmSamplerParams {
            type_: self.sampler.to_raw(),
            top_k: self.top_k,
            top_p: self.top_p,
            temperature: self.temperature,
            seed: self.seed,
        }
    }
}

} // verus!
