//! Sampling settings of a request, their checks, and their encoding for the
//! executor's C ABI.
//!
//! Floating-point settings are held as their IEEE-754 bit patterns
//! (`f32::to_bits`).

use vstd::prelude::*;
use crate::llm::builder::flag;
use crate::llm::error::{Error, is_invalid_argument};
use crate::float_bits::{f32_bits_finite, is_finite_bits};
use crate::text::join2;

verus! {

/// How tokens are sampled for a request.
#[derive(Clone, Debug)]
pub struct SamplingConfig {
    pub beam_width: i32,
    pub top_k: Option<i32>,
    pub top_p: Option<u32>,
    pub top_p_min: Option<u32>,
    pub top_p_reset_ids: Option<i32>,
    pub top_p_decay: Option<u32>,
    pub temperature: Option<u32>,
    pub seed: Option<u64>,
    pub min_tokens: Option<i32>,
    pub beam_search_diversity_rate: Option<u32>,
    pub repetition_penalty: Option<u32>,
    pub presence_penalty: Option<u32>,
    pub frequency_penalty: Option<u32>,
    pub prompt_ignore_length: Option<i32>,
    pub length_penalty: Option<u32>,
    pub early_stopping: Option<i32>,
    pub no_repeat_ngram_size: Option<i32>,
    pub num_return_sequences: Option<i32>,
    pub min_p: Option<u32>,
    pub beam_width_array: Option<Vec<i32>>,
}

/// Beam width one, every other setting left to the executor.
pub open spec fn spec_default_sampling(s: SamplingConfig) -> bool {
    &&& s.beam_width == 1
    &&& s.top_k is None && s.top_p is None && s.top_p_min is None && s.top_p_reset_ids is None
    &&& s.top_p_decay is None && s.temperature is None && s.seed is None && s.min_tokens is None
    &&& s.beam_search_diversity_rate is None && s.repetition_penalty is None
    &&& s.presence_penalty is None && s.frequency_penalty is None && s.prompt_ignore_length is None
    &&& s.length_penalty is None && s.early_stopping is None && s.no_repeat_ngram_size is None
    &&& s.num_return_sequences is None && s.min_p is None && s.beam_width_array is None
}

impl Default for SamplingConfig {
    fn default() -> (r: Self)
        ensures
            spec_default_sampling(r),
    {
        SamplingConfig {
            beam_width: 1,
            top_k: None,
            top_p: None,
            top_p_min: None,
            top_p_reset_ids: None,
            top_p_decay: None,
            temperature: None,
            seed: None,
            min_tokens: None,
            beam_search_diversity_rate: None,
            repetition_penalty: None,
            presence_penalty: None,
            frequency_penalty: None,
            prompt_ignore_length: None,
            length_penalty: None,
            early_stopping: None,
            no_repeat_ngram_size: None,
            num_return_sequences: None,
            min_p: None,
            beam_width_array: None,
        }
    }
}

impl SamplingConfig {
    /// Sets the beam width.
    pub fn beam_width(self, beam_width: i32) -> (r: Self)
        ensures
            r == (SamplingConfig { beam_width, ..self }),
    {
        SamplingConfig { beam_width, ..self }
    }

    /// Sets top-k sampling.
    pub fn top_k(self, top_k: i32) -> (r: Self)
        ensures
            r == (SamplingConfig { top_k: Some(top_k), ..self }),
    {
        SamplingConfig { top_k: Some(top_k), ..self }
    }

    /// Sets top-p sampling, given as its `f32` bits.
    pub fn top_p(self, top_p: u32) -> (r: Self)
        ensures
            r == (SamplingConfig { top_p: Some(top_p), ..self }),
    {
        SamplingConfig { top_p: Some(top_p), ..self }
    }

    /// Sets the top-p floor, given as its `f32` bits.
    pub fn top_p_min(self, top_p_min: u32) -> (r: Self)
        ensures
            r == (SamplingConfig { top_p_min: Some(top_p_min), ..self }),
    {
        SamplingConfig { top_p_min: Some(top_p_min), ..self }
    }

    /// Sets the token that resets top-p decay.
    pub fn top_p_reset_ids(self, top_p_reset_ids: i32) -> (r: Self)
        ensures
            r == (SamplingConfig { top_p_reset_ids: Some(top_p_reset_ids), ..self }),
    {
        SamplingConfig { top_p_reset_ids: Some(top_p_reset_ids), ..self }
    }

    /// Sets the top-p decay, given as its `f32` bits.
    pub fn top_p_decay(self, top_p_decay: u32) -> (r: Self)
        ensures
            r == (SamplingConfig { top_p_decay: Some(top_p_decay), ..self }),
    {
        SamplingConfig { top_p_decay: Some(top_p_decay), ..self }
    }

    /// Sets the temperature, given as its `f32` bits.
    pub fn temperature(self, temperature: u32) -> (r: Self)
        ensures
            r == (SamplingConfig { temperature: Some(temperature), ..self }),
    {
        SamplingConfig { temperature: Some(temperature), ..self }
    }

    /// Sets the random seed.
    pub fn seed(self, seed: u64) -> (r: Self)
        ensures
            r == (SamplingConfig { seed: Some(seed), ..self }),
    {
        SamplingConfig { seed: Some(seed), ..self }
    }

    /// Sets the minimum number of generated tokens.
    pub fn min_tokens(self, min_tokens: i32) -> (r: Self)
        ensures
            r == (SamplingConfig { min_tokens: Some(min_tokens), ..self }),
    {
        SamplingConfig { min_tokens: Some(min_tokens), ..self }
    }

    /// Sets the beam search diversity rate, given as its `f32` bits.
    pub fn beam_search_diversity_rate(self, rate: u32) -> (r: Self)
        ensures
            r == (SamplingConfig { beam_search_diversity_rate: Some(rate), ..self }),
    {
        SamplingConfig { beam_search_diversity_rate: Some(rate), ..self }
    }

    /// Sets the repetition penalty, given as its `f32` bits.
    pub fn repetition_penalty(self, penalty: u32) -> (r: Self)
        ensures
            r == (SamplingConfig { repetition_penalty: Some(penalty), ..self }),
    {
        SamplingConfig { repetition_penalty: Some(penalty), ..self }
    }

    /// Sets the presence penalty, given as its `f32` bits.
    pub fn presence_penalty(self, penalty: u32) -> (r: Self)
        ensures
            r == (SamplingConfig { presence_penalty: Some(penalty), ..self }),
    {
        SamplingConfig { presence_penalty: Some(penalty), ..self }
    }

    /// Sets the frequency penalty, given as its `f32` bits.
    pub fn frequency_penalty(self, penalty: u32) -> (r: Self)
        ensures
            r == (SamplingConfig { frequency_penalty: Some(penalty), ..self }),
    {
        SamplingConfig { frequency_penalty: Some(penalty), ..self }
    }

    /// Sets how many prompt tokens the penalties ignore.
    pub fn prompt_ignore_length(self, length: i32) -> (r: Self)
        ensures
            r == (SamplingConfig { prompt_ignore_length: Some(length), ..self }),
    {
        SamplingConfig { prompt_ignore_length: Some(length), ..self }
    }

    /// Sets the length penalty, given as its `f32` bits.
    pub fn length_penalty(self, penalty: u32) -> (r: Self)
        ensures
            r == (SamplingConfig { length_penalty: Some(penalty), ..self }),
    {
        SamplingConfig { length_penalty: Some(penalty), ..self }
    }

    /// Sets beam search early stopping.
    pub fn early_stopping(self, early_stopping: i32) -> (r: Self)
        ensures
            r == (SamplingConfig { early_stopping: Some(early_stopping), ..self }),
    {
        SamplingConfig { early_stopping: Some(early_stopping), ..self }
    }

    /// Sets the size of n-grams that may not repeat.
    pub fn no_repeat_ngram_size(self, size: i32) -> (r: Self)
        ensures
            r == (SamplingConfig { no_repeat_ngram_size: Some(size), ..self }),
    {
        SamplingConfig { no_repeat_ngram_size: Some(size), ..self }
    }

    /// Sets how many sequences are returned.
    pub fn num_return_sequences(self, count: i32) -> (r: Self)
        ensures
            r == (SamplingConfig { num_return_sequences: Some(count), ..self }),
    {
        SamplingConfig { num_return_sequences: Some(count), ..self }
    }

    /// Sets min-p sampling, given as its `f32` bits.
    pub fn min_p(self, min_p: u32) -> (r: Self)
        ensures
            r == (SamplingConfig { min_p: Some(min_p), ..self }),
    {
        SamplingConfig { min_p: Some(min_p), ..self }
    }

    /// Sets the beam width of each generation step.
    pub fn beam_width_array(self, beam_width_array: Vec<i32>) -> (r: Self)
        ensures
            r == (SamplingConfig { beam_width_array: Some(beam_width_array), ..self }),
    {
        SamplingConfig { beam_width_array: Some(beam_width_array), ..self }
    }
}

/// The floating-point settings checked for finiteness, with their names, in
/// the order they are checked.
pub open spec fn float_settings(s: SamplingConfig) -> Seq<(Seq<char>, Option<u32>)> {
    seq![
        ("top_p"@, s.top_p),
        ("top_p_min"@, s.top_p_min),
        ("top_p_decay"@, s.top_p_decay),
        ("temperature"@, s.temperature),
        ("beam_search_diversity_rate"@, s.beam_search_diversity_rate),
        ("repetition_penalty"@, s.repetition_penalty),
        ("presence_penalty"@, s.presence_penalty),
        ("frequency_penalty"@, s.frequency_penalty),
        ("length_penalty"@, s.length_penalty),
        ("min_p"@, s.min_p),
    ]
}

/// A setting that is present is finite.
pub open spec fn setting_ok(value: Option<u32>) -> bool {
    value matches Some(b) ==> f32_bits_finite(b)
}

/// `k` is the first floating-point setting that is present and not finite.
pub open spec fn first_non_finite(s: SamplingConfig, k: int) -> bool {
    &&& 0 <= k < 10
    &&& !setting_ok(float_settings(s)[k].1)
    &&& forall|j: int| 0 <= j < k ==> #[trigger] setting_ok(float_settings(s)[j].1)
}

/// Every floating-point setting that is present is finite.
pub open spec fn floats_ok(s: SamplingConfig) -> bool {
    forall|k: int| 0 <= k < 10 ==> #[trigger] setting_ok(float_settings(s)[k].1)
}

/// The outcome of checking sampling settings: a positive beam width, finite
/// floating-point settings, a positive sequence count and positive per-step
/// beam widths, in that order.
pub open spec fn sampling_outcome(s: SamplingConfig, r: Result<(), Error>) -> bool {
    if s.beam_width <= 0 {
        r matches Err(e) && is_invalid_argument(e, "beam_width must be positive"@)
    } else if !floats_ok(s) {
        forall|k: int|
            #![trigger first_non_finite(s, k)]
            first_non_finite(s, k) ==> (r matches Err(e) && is_invalid_argument(e, float_settings(s)[k].0 + " must be finite"@))
    } else if s.num_return_sequences matches Some(n) && n <= 0 {
        r matches Err(e) && is_invalid_argument(e, "num_return_sequences must be positive"@)
    } else if s.beam_width_array matches Some(a) && exists|k: int| 0 <= k < a@.len() && #[trigger] a@[k] <= 0 {
        r matches Err(e) && is_invalid_argument(e, "beam_width_array values must be positive"@)
    } else {
        r is Ok
    }
}

/// Checks one floating-point setting.
fn check_finite(name: &str, value: Option<u32>) -> (r: Result<(), Error>)
    ensures
        setting_ok(value) ==> r is Ok,
        !setting_ok(value) ==> (r matches Err(e) && is_invalid_argument(e, name@ + " must be finite"@)),
{
    match value {
        Some(bits) => if !is_finite_bits(bits) {
            return Err(Error::InvalidArgument(join2(name, " must be finite")));
        },
        None => {},
    }
    Ok(())
}

impl SamplingConfig {
    /// Checks the settings: a positive beam width, finite floating-point
    /// settings, a positive sequence count and positive per-step beam widths.
    pub fn validate(&self) -> (r: Result<(), Error>)
        ensures
            sampling_outcome(*self, r),
    {
        if self.beam_width <= 0 {
            return Err(Error::invalid_argument("beam_width must be positive"));
        }
        let ghost fs = float_settings(*self);
        let checks: [(&str, Option<u32>); 10] = [
            ("top_p", self.top_p),
            ("top_p_min", self.top_p_min),
            ("top_p_decay", self.top_p_decay),
            ("temperature", self.temperature),
            ("beam_search_diversity_rate", self.beam_search_diversity_rate),
            ("repetition_penalty", self.repetition_penalty),
            ("presence_penalty", self.presence_penalty),
            ("frequency_penalty", self.frequency_penalty),
            ("length_penalty", self.length_penalty),
            ("min_p", self.min_p),
        ];
        assert(forall|k: int| 0 <= k < 10 ==> (#[trigger] checks@[k]).0@ == fs[k].0 && checks@[k].1 == fs[k].1);
        let mut k: usize = 0;
        while k < 10
            invariant
                self.beam_width > 0,
                fs == float_settings(*self),
                forall|j: int| 0 <= j < 10 ==> (#[trigger] checks@[j]).0@ == fs[j].0 && checks@[j].1 == fs[j].1,
                k <= 10,
                forall|j: int| 0 <= j < k ==> #[trigger] setting_ok(fs[j].1),
            decreases 10 - k,
        {
            let (name, value) = checks[k];
            match check_finite(name, value) {
                Err(e) => {
                    assert(name@ == fs[k as int].0 && value == fs[k as int].1);
                    assert(!setting_ok(float_settings(*self)[k as int].1));
                    assert(!floats_ok(*self));
                    assert(first_non_finite(*self, k as int));
                    assert forall|other: int| #![trigger first_non_finite(*self, other)] first_non_finite(*self, other) implies other == k by {
                        if other < k {
                        } else if other > k {
                        }
                    }
                    return Err(e);
                },
                Ok(()) => {},
            }
            k = k + 1;
        }
        assert(floats_ok(*self));
        match self.num_return_sequences {
            Some(n) => if n <= 0 {
                return Err(Error::invalid_argument("num_return_sequences must be positive"));
            },
            None => {},
        }
        match &self.beam_width_array {
            Some(a) => {
                let mut i: usize = 0;
                while i < a.len()
                    invariant
                        self.beam_width > 0,
                        floats_ok(*self),
                        !(self.num_return_sequences matches Some(n) && n <= 0),
                        self.beam_width_array == Some(*a),
                        i <= a@.len(),
                        forall|j: int| 0 <= j < i ==> a@[j] > 0,
                    decreases a@.len() - i,
                {
                    if a[i] <= 0 {
                        assert(a@[i as int] <= 0);
                        assert(self.beam_width_array->0@[i as int] <= 0);
                        assert(exists|k: int| 0 <= k < self.beam_width_array->0@.len() && #[trigger] self.beam_width_array->0@[k] <= 0);
                        return Err(Error::invalid_argument("beam_width_array values must be positive"));
                    }
                    i = i + 1;
                }
            },
            None => {},
        }
        Ok(())
    }

    /// The settings as the executor's C ABI takes them: each optional
    /// setting as a presence flag and its value (zero when absent), and the
    /// per-step beam widths (none when absent).
    pub fn as_sys(&self) -> (r: EncodedSamplingConfig)
        ensures
            sampling_encodes(*self, r),
    {
        EncodedSamplingConfig {
            beam_width: self.beam_width,
            has_top_k: flag_of(self.top_k.is_some()),
            top_k: unwrap_i32(self.top_k),
            has_top_p: flag_of(self.top_p.is_some()),
            top_p: unwrap_bits(self.top_p),
            has_top_p_min: flag_of(self.top_p_min.is_some()),
            top_p_min: unwrap_bits(self.top_p_min),
            has_top_p_reset_ids: flag_of(self.top_p_reset_ids.is_some()),
            top_p_reset_ids: unwrap_i32(self.top_p_reset_ids),
            has_top_p_decay: flag_of(self.top_p_decay.is_some()),
            top_p_decay: unwrap_bits(self.top_p_decay),
            has_seed: flag_of(self.seed.is_some()),
            seed: match self.seed {
                Some(v) => v,
                None => 0,
            },
            has_temperature: flag_of(self.temperature.is_some()),
            temperature: unwrap_bits(self.temperature),
            has_min_tokens: flag_of(self.min_tokens.is_some()),
            min_tokens: unwrap_i32(self.min_tokens),
            has_beam_search_diversity_rate: flag_of(self.beam_search_diversity_rate.is_some()),
            beam_search_diversity_rate: unwrap_bits(self.beam_search_diversity_rate),
            has_repetition_penalty: flag_of(self.repetition_penalty.is_some()),
            repetition_penalty: unwrap_bits(self.repetition_penalty),
            has_presence_penalty: flag_of(self.presence_penalty.is_some()),
            presence_penalty: unwrap_bits(self.presence_penalty),
            has_frequency_penalty: flag_of(self.frequency_penalty.is_some()),
            frequency_penalty: unwrap_bits(self.frequency_penalty),
            has_prompt_ignore_length: flag_of(self.prompt_ignore_length.is_some()),
            prompt_ignore_length: unwrap_i32(self.prompt_ignore_length),
            has_length_penalty: flag_of(self.length_penalty.is_some()),
            length_penalty: unwrap_bits(self.length_penalty),
            has_early_stopping: flag_of(self.early_stopping.is_some()),
            early_stopping: unwrap_i32(self.early_stopping),
            has_no_repeat_ngram_size: flag_of(self.no_repeat_ngram_size.is_some()),
            no_repeat_ngram_size: unwrap_i32(self.no_repeat_ngram_size),
            has_num_return_sequences: flag_of(self.num_return_sequences.is_some()),
            num_return_sequences: unwrap_i32(self.num_return_sequences),
            has_min_p: flag_of(self.min_p.is_some()),
            min_p: unwrap_bits(self.min_p),
            beam_width_array: match &self.beam_width_array {
                Some(a) => a.clone(),
                None => Vec::new(),
            },
        }
    }
}

/// Sampling settings as the executor's C ABI lays them out, with the per-step
/// beam widths held here; `f32` settings are bit patterns.
#[derive(Clone, Debug)]
pub struct EncodedSamplingConfig {
    pub beam_width: i32,
    pub has_top_k: i32,
    pub top_k: i32,
    pub has_top_p: i32,
    pub top_p: u32,
    pub has_top_p_min: i32,
    pub top_p_min: u32,
    pub has_top_p_reset_ids: i32,
    pub top_p_reset_ids: i32,
    pub has_top_p_decay: i32,
    pub top_p_decay: u32,
    pub has_seed: i32,
    pub seed: u64,
    pub has_temperature: i32,
    pub temperature: u32,
    pub has_min_tokens: i32,
    pub min_tokens: i32,
    pub has_beam_search_diversity_rate: i32,
    pub beam_search_diversity_rate: u32,
    pub has_repetition_penalty: i32,
    pub repetition_penalty: u32,
    pub has_presence_penalty: i32,
    pub presence_penalty: u32,
    pub has_frequency_penalty: i32,
    pub frequency_penalty: u32,
    pub has_prompt_ignore_length: i32,
    pub prompt_ignore_length: i32,
    pub has_length_penalty: i32,
    pub length_penalty: u32,
    pub has_early_stopping: i32,
    pub early_stopping: i32,
    pub has_no_repeat_ngram_size: i32,
    pub no_repeat_ngram_size: i32,
    pub has_num_return_sequences: i32,
    pub num_return_sequences: i32,
    pub has_min_p: i32,
    pub min_p: u32,
    pub beam_width_array: Vec<i32>,
}

/// The value of an optional integer setting, zero when absent.
pub open spec fn or_zero_i32(v: Option<i32>) -> i32 {
    match v {
        Some(x) => x,
        None => 0,
    }
}

/// The bits of an optional `f32` setting, those of `0.0` when absent.
pub open spec fn or_zero_bits(v: Option<u32>) -> u32 {
    match v {
        Some(x) => x,
        None => 0,
    }
}

/// `e` encodes the sampling settings `s`.
pub open spec fn sampling_encodes(s: SamplingConfig, e: EncodedSamplingConfig) -> bool {
    &&& e.beam_width == s.beam_width
    &&& e.has_top_k == flag(s.top_k is Some) && e.top_k == or_zero_i32(s.top_k)
    &&& e.has_top_p == flag(s.top_p is Some) && e.top_p == or_zero_bits(s.top_p)
    &&& e.has_top_p_min == flag(s.top_p_min is Some) && e.top_p_min == or_zero_bits(s.top_p_min)
    &&& e.has_top_p_reset_ids == flag(s.top_p_reset_ids is Some) && e.top_p_reset_ids == or_zero_i32(s.top_p_reset_ids)
    &&& e.has_top_p_decay == flag(s.top_p_decay is Some) && e.top_p_decay == or_zero_bits(s.top_p_decay)
    &&& e.has_seed == flag(s.seed is Some) && e.seed == (match s.seed {
        Some(v) => v,
        None => 0,
    })
    &&& e.has_temperature == flag(s.temperature is Some) && e.temperature == or_zero_bits(s.temperature)
    &&& e.has_min_tokens == flag(s.min_tokens is Some) && e.min_tokens == or_zero_i32(s.min_tokens)
    &&& e.has_beam_search_diversity_rate == flag(s.beam_search_diversity_rate is Some)
        && e.beam_search_diversity_rate == or_zero_bits(s.beam_search_diversity_rate)
    &&& e.has_repetition_penalty == flag(s.repetition_penalty is Some) && e.repetition_penalty
        == or_zero_bits(s.repetition_penalty)
    &&& e.has_presence_penalty == flag(s.presence_penalty is Some) && e.presence_penalty
        == or_zero_bits(s.presence_penalty)
    &&& e.has_frequency_penalty == flag(s.frequency_penalty is Some) && e.frequency_penalty
        == or_zero_bits(s.frequency_penalty)
    &&& e.has_prompt_ignore_length == flag(s.prompt_ignore_length is Some) && e.prompt_ignore_length
        == or_zero_i32(s.prompt_ignore_length)
    &&& e.has_length_penalty == flag(s.length_penalty is Some) && e.length_penalty == or_zero_bits(s.length_penalty)
    &&& e.has_early_stopping == flag(s.early_stopping is Some) && e.early_stopping == or_zero_i32(s.early_stopping)
    &&& e.has_no_repeat_ngram_size == flag(s.no_repeat_ngram_size is Some) && e.no_repeat_ngram_size
        == or_zero_i32(s.no_repeat_ngram_size)
    &&& e.has_num_return_sequences == flag(s.num_return_sequences is Some) && e.num_return_sequences
        == or_zero_i32(s.num_return_sequences)
    &&& e.has_min_p == flag(s.min_p is Some) && e.min_p == or_zero_bits(s.min_p)
    &&& e.beam_width_array@ == match s.beam_width_array {
        Some(a) => a@,
        None => Seq::empty(),
    }
}

/// Encodes a presence flag.
fn flag_of(b: bool) -> (r: i32)
    ensures
        r == flag(b),
{
    if b {
        1
    } else {
        0
    }
}

/// An optional integer setting, zero when absent.
fn unwrap_i32(v: Option<i32>) -> (r: i32)
    ensures
        r == or_zero_i32(v),
{
    match v {
        Some(x) => x,
        None => 0,
    }
}

/// An optional `f32` setting's bits, those of `0.0` when absent.
fn unwrap_bits(v: Option<u32>) -> (r: u32)
    ensures
        r == or_zero_bits(v),
{
    match v {
        Some(x) => x,
        None => 0,
    }
}

} // verus!
