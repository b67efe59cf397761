//! What the executor checks of a request before it is encoded, and the
//! conversions between TensorRT, Candle and executor values that encoding
//! uses.

use vstd::prelude::*;
use crate::alias::CudaMemoryRange;
use crate::binding::{TensorInfo, TensorInfoView, views_of};
use crate::data_type::{DataType, spec_bytes_per_element, spec_debug_text};
use crate::dtype::{DType, spec_dtype_debug};
use crate::float_bits::{
    f32_bits_finite, f32_bits_gt_one, f32_bits_gt_zero, f32_bits_lt_zero, gt_one_bits, gt_zero_bits,
    is_finite_bits, lt_zero_bits,
};
use crate::llm::config::Config;
use crate::llm::error::{Error, is_invalid_argument};
use crate::llm::request::{
    KvCacheTokenRangeRetentionConfig, MAX_RETENTION_PRIORITY, MIN_RETENTION_PRIORITY, Request,
};
use crate::llm::sampling::{sampling_outcome, SamplingConfig, floats_ok};
use crate::tensor::{CountOutcome, TensorIOMode, spec_byte_len, spec_count};
use vstd::utf8::encode_utf8;
use crate::text::{first_nul, first_zero_byte, name_crosses_abi};
use crate::text::{
    debug_i64_list, debug_list, debug_usize_list, debug_usize_text, decimal_usize, join2, join3, join4,
    owned, same_text, str_debug, str_debug_text, usize_text,
};

use crate::small_vec::{ExtraIdVec, extra_id_values, extra_ids_as_slice, extra_ids_from_vec};

verus! {

/// The executor's tensor memory code for host memory.
pub const TENSOR_MEMORY_CPU: i32 = 0;

/// The executor's tensor memory code for device memory.
pub const TENSOR_MEMORY_GPU: i32 = 1;

/// Rank up to which a tensor shape is held inline.
pub const INLINE_TENSOR_RANK: usize = 8;

/// The executor's code for a TensorRT data type, if it has one.
pub open spec fn spec_executor_code(data_type: DataType) -> Option<i32> {
    match data_type {
        DataType::Bool => Some(0),
        DataType::Uint8 => Some(1),
        DataType::Int8 => Some(2),
        DataType::Int32 => Some(3),
        DataType::Int64 => Some(4),
        DataType::Bf16 => Some(5),
        DataType::Fp8 => Some(6),
        DataType::Half => Some(7),
        DataType::Float => Some(8),
        _ => None,
    }
}

/// The executor's code for a TensorRT data type.
pub fn data_type_to_executor_i32(data_type: DataType) -> (r: Result<i32, Error>)
    ensures
        match spec_executor_code(data_type) {
            Some(c) => r == Ok::<i32, Error>(c),
            None => r matches Err(e) && is_invalid_argument(
                e,
                "TensorRT-LLM Executor dtype mapping for "@ + spec_debug_text(data_type) + " is not implemented"@,
            ),
        },
{
    match data_type {
        DataType::Bool => Ok(0),
        DataType::Uint8 => Ok(1),
        DataType::Int8 => Ok(2),
        DataType::Int32 => Ok(3),
        DataType::Int64 => Ok(4),
        DataType::Bf16 => Ok(5),
        DataType::Fp8 => Ok(6),
        DataType::Half => Ok(7),
        DataType::Float => Ok(8),
        _ => {
            let d = data_type.debug_text();
            Err(Error::InvalidArgument(join3("TensorRT-LLM Executor dtype mapping for ", d.as_str(), " is not implemented")))
        },
    }
}

/// The Candle dtype of a model's activations, for the types a model may use.
pub open spec fn spec_model_dtype(data_type: DataType) -> Option<DType> {
    match data_type {
        DataType::Bf16 => Some(DType::BF16),
        DataType::Half => Some(DType::F16),
        DataType::Float => Some(DType::F32),
        _ => None,
    }
}

/// The Candle dtype of a model's activations.
pub fn dtype_for_data_type(data_type: DataType) -> (r: Result<DType, Error>)
    ensures
        match spec_model_dtype(data_type) {
            Some(d) => r == Ok::<DType, Error>(d),
            None => r matches Err(e) && is_invalid_argument(
                e,
                "TensorRT-LLM model dtype "@ + spec_debug_text(data_type) + " is not supported"@,
            ),
        },
{
    match data_type {
        DataType::Bf16 => Ok(DType::BF16),
        DataType::Half => Ok(DType::F16),
        DataType::Float => Ok(DType::F32),
        _ => {
            let d = data_type.debug_text();
            Err(Error::InvalidArgument(join3("TensorRT-LLM model dtype ", d.as_str(), " is not supported")))
        },
    }
}

/// The TensorRT data type of a Candle tensor handed to the executor, for the
/// types it takes.
pub open spec fn spec_executor_tensor_type(dtype: DType) -> Option<DataType> {
    match dtype {
        DType::U8 => Some(DataType::Uint8),
        DType::I32 => Some(DataType::Int32),
        DType::I64 => Some(DataType::Int64),
        DType::BF16 => Some(DataType::Bf16),
        DType::F16 => Some(DataType::Half),
        DType::F32 => Some(DataType::Float),
        _ => None,
    }
}

/// The TensorRT data type of a Candle tensor handed to the executor.
pub fn data_type_for_dtype(dtype: DType) -> (r: Result<DataType, Error>)
    ensures
        match spec_executor_tensor_type(dtype) {
            Some(d) => r == Ok::<DataType, Error>(d),
            None => r matches Err(e) && is_invalid_argument(
                e,
                "TensorRT-LLM Executor tensor dtype "@ + spec_dtype_debug(dtype)@ + " is not supported"@,
            ),
        },
{
    match dtype {
        DType::U8 => Ok(DataType::Uint8),
        DType::I32 => Ok(DataType::Int32),
        DType::I64 => Ok(DataType::Int64),
        DType::BF16 => Ok(DataType::Bf16),
        DType::F16 => Ok(DataType::Half),
        DType::F32 => Ok(DataType::Float),
        _ => Err(Error::InvalidArgument(join3("TensorRT-LLM Executor tensor dtype ", dtype.debug_name(), " is not supported"))),
    }
}

/// A count the executor's C ABI takes as `i32`.
pub fn usize_to_i32(value: usize, field: &str) -> (r: Result<i32, Error>)
    ensures
        value <= i32::MAX ==> r == Ok::<i32, Error>(value as i32),
        value > i32::MAX ==> (r matches Err(e) && is_invalid_argument(
            e,
            "TensorRT-LLM "@ + field@ + " "@ + decimal_usize(value) + " cannot fit in i32"@,
        )),
{
    if value as u64 > 0x7fff_ffffu64 {
        let n = usize_text(value);
        let head = join4("TensorRT-LLM ", field, " ", n.as_str());
        return Err(Error::InvalidArgument(join2(head.as_str(), " cannot fit in i32")));
    }
    Ok(value as i32)
}

/// The byte length of an executor tensor of `shape` and `data_type`.
///
/// Fails at the first negative extent, on an element count or byte length
/// that overflows `usize`, or on a type without a whole-byte size.
pub fn tensor_byte_len_for_shape(tensor: &str, shape: &[i64], data_type: DataType) -> (r: Result<usize, Error>)
    ensures
        match spec_byte_len(shape@, data_type) {
            Some(n) => r == Ok::<usize, Error>(n as usize),
            None => r matches Err(e) && is_invalid_argument(
                e,
                match spec_count(shape@) {
                    CountOutcome::Dynamic => tensor@ + " shape still has dynamic dimension: "@ + debug_list(shape@),
                    CountOutcome::Overflow => tensor@ + " element count overflow"@,
                    CountOutcome::Count(_) => if spec_bytes_per_element(data_type) is None {
                        tensor@ + " has unsupported TensorRT dtype "@ + spec_debug_text(data_type)
                    } else {
                        tensor@ + " byte size overflow"@
                    },
                },
            ),
        },
{
    let mut acc: usize = 1;
    let mut k: usize = 0;
    assert(shape@.subrange(0, 0) =~= Seq::<i64>::empty());
    while k < shape.len()
        invariant
            k <= shape@.len(),
            spec_count(shape@.subrange(0, k as int)) == CountOutcome::Count(acc as nat),
        decreases shape@.len() - k,
    {
        let dim = shape[k];
        assert(shape@.subrange(0, k + 1).drop_last() =~= shape@.subrange(0, k as int));
        if dim < 0 {
            proof {
                crate::tensor::lemma_count_stays_failed(shape@, (k + 1) as nat);
            }
            let d = debug_i64_list(shape);
            let head = join2(tensor, " shape still has dynamic dimension: ");
            return Err(Error::InvalidArgument(join2(head.as_str(), d.as_str())));
        }
        match acc.checked_mul(dim as usize) {
            Some(next) => {
                acc = next;
            },
            None => {
                proof {
                    crate::tensor::lemma_count_stays_failed(shape@, (k + 1) as nat);
                }
                return Err(Error::InvalidArgument(join2(tensor, " element count overflow")));
            },
        }
        k = k + 1;
    }
    assert(shape@.subrange(0, shape@.len() as int) =~= shape@);
    let bytes_per_element = match data_type.bytes_per_element() {
        Some(b) => b,
        None => {
            let d = data_type.debug_text();
            let head = join2(tensor, " has unsupported TensorRT dtype ");
            return Err(Error::InvalidArgument(join2(head.as_str(), d.as_str())));
        },
    };
    match acc.checked_mul(bytes_per_element) {
        Some(n) => Ok(n),
        None => Err(Error::InvalidArgument(join2(tensor, " byte size overflow"))),
    }
}

/// `k` is the first word with no token.
pub open spec fn first_empty_word(words: Seq<&[i32]>, k: int) -> bool {
    &&& 0 <= k < words.len()
    &&& words[k]@.len() == 0
    &&& forall|j: int| 0 <= j < k ==> (#[trigger] words[j])@.len() > 0
}

/// Every word has a token.
pub open spec fn words_ok(words: Seq<&[i32]>) -> bool {
    forall|k: int| 0 <= k < words.len() ==> (#[trigger] words[k])@.len() > 0
}

/// The outcome of checking a word list: every word has a token, else the
/// error of the first empty one.
pub open spec fn word_list_outcome(name: Seq<char>, words: Seq<&[i32]>, r: Result<(), Error>) -> bool {
    &&& words_ok(words) ==> r is Ok
    &&& forall|k: int|
        #![trigger first_empty_word(words, k)]
        first_empty_word(words, k) ==> (r matches Err(e) && is_invalid_argument(
            e,
            name + " entry "@ + decimal_usize(k as usize) + " must contain at least one token"@,
        ))
}

/// Checks that every word of a list has a token.
pub fn validate_word_list(name: &str, words: &[&[i32]]) -> (r: Result<(), Error>)
    ensures
        word_list_outcome(name@, words@, r),
        r is Ok <==> words_ok(words@),
{
    let mut k: usize = 0;
    while k < words.len()
        invariant
            k <= words@.len(),
            forall|j: int| 0 <= j < k ==> (#[trigger] words@[j])@.len() > 0,
        decreases words@.len() - k,
    {
        if words[k].len() == 0 {
            assert(first_empty_word(words@, k as int));
            assert forall|other: int| #![trigger first_empty_word(words@, other)] first_empty_word(words@, other) implies other == k by {
                if other < k {
                } else if other > k {
                }
            }
            let n = usize_text(k);
            let head = join3(name, " entry ", n.as_str());
            return Err(Error::InvalidArgument(join2(head.as_str(), " must contain at least one token")));
        }
        k = k + 1;
    }
    proof {
        assert forall|other: int| #![trigger first_empty_word(words@, other)] !first_empty_word(words@, other) by {}
    }
    Ok(())
}

/// A retention priority lies in `MIN_RETENTION_PRIORITY..=MAX_RETENTION_PRIORITY`.
pub open spec fn priority_ok(priority: i32) -> bool {
    MIN_RETENTION_PRIORITY <= priority <= MAX_RETENTION_PRIORITY
}

/// Checks that a retention priority lies in `0..=100`.
pub fn validate_retention_priority(name: &str, priority: i32) -> (r: Result<(), Error>)
    ensures
        priority_ok(priority) ==> r is Ok,
        !priority_ok(priority) ==> (r matches Err(e) && is_invalid_argument(e, name@ + " must be between 0 and 100"@)),
{
    if priority < MIN_RETENTION_PRIORITY || priority > MAX_RETENTION_PRIORITY {
        return Err(Error::InvalidArgument(join2(name, " must be between 0 and 100")));
    }
    Ok(())
}

/// The prompt virtual token ids are `vocab_size..vocab_size + prompt_rows`;
/// `k` is the first input token past that range.
pub open spec fn first_stray_token(input_ids: Seq<i32>, vocab_size: usize, prompt_rows: usize, k: int) -> bool {
    &&& 0 <= k < input_ids.len()
    &&& input_ids[k] >= 0 && input_ids[k] >= vocab_size + prompt_rows
    &&& forall|j: int| 0 <= j < k ==> !(#[trigger] input_ids[j] >= 0 && input_ids[j] >= vocab_size + prompt_rows)
}

/// Every non-negative input token lies below the end of the prompt virtual
/// token range, and that end fits `usize`.
pub open spec fn virtual_tokens_ok(input_ids: Seq<i32>, vocab_size: usize, prompt_rows: usize) -> bool {
    &&& vocab_size + prompt_rows <= usize::MAX
    &&& forall|k: int| 0 <= k < input_ids.len() ==> !(#[trigger] input_ids[k] >= 0 && input_ids[k] >= vocab_size + prompt_rows)
}

/// The error that the virtual token check reports.
pub open spec fn virtual_tokens_error(input_ids: Seq<i32>, vocab_size: usize, prompt_rows: usize, e: Error) -> bool {
    if vocab_size + prompt_rows > usize::MAX {
        is_invalid_argument(e, "prompt virtual token range overflowed"@)
    } else {
        forall|k: int|
            #![trigger first_stray_token(input_ids, vocab_size, prompt_rows, k)]
            first_stray_token(input_ids, vocab_size, prompt_rows, k) ==> is_invalid_argument(
                e,
                "virtual token id "@ + decimal_usize(input_ids[k] as usize) + " is outside prompt embedding range "@
                    + decimal_usize(vocab_size) + ".."@ + decimal_usize((vocab_size + prompt_rows) as usize),
            )
    }
}

/// Checks that every non-negative input token is a vocabulary token or a
/// prompt virtual token.
pub fn validate_virtual_tokens(input_ids: &[i32], vocab_size: usize, prompt_rows: usize) -> (r: Result<(), Error>)
    ensures
        r is Ok <==> virtual_tokens_ok(input_ids@, vocab_size, prompt_rows),
        r matches Err(e) ==> virtual_tokens_error(input_ids@, vocab_size, prompt_rows, e),
{
    let prompt_end = match vocab_size.checked_add(prompt_rows) {
        Some(end) => end,
        None => return Err(Error::invalid_argument("prompt virtual token range overflowed")),
    };
    let mut k: usize = 0;
    while k < input_ids.len()
        invariant
            prompt_end == vocab_size + prompt_rows,
            k <= input_ids@.len(),
            forall|j: int| 0 <= j < k ==> !(#[trigger] input_ids@[j] >= 0 && input_ids@[j] >= vocab_size + prompt_rows),
        decreases input_ids@.len() - k,
    {
        let token = input_ids[k];
        if token >= 0 {
            let t = token as usize;
            if t >= vocab_size && t >= prompt_end {
                assert(first_stray_token(input_ids@, vocab_size, prompt_rows, k as int));
                assert forall|other: int|
                    #![trigger first_stray_token(input_ids@, vocab_size, prompt_rows, other)]
                    first_stray_token(input_ids@, vocab_size, prompt_rows, other) implies other == k by {
                    if other < k {
                    } else if other > k {
                    }
                }
                let a = usize_text(t);
                let b = usize_text(vocab_size);
                let c = usize_text(prompt_end);
                let head = join4("virtual token id ", a.as_str(), " is outside prompt embedding range ", b.as_str());
                return Err(Error::InvalidArgument(join3(head.as_str(), "..", c.as_str())));
            }
        }
        k = k + 1;
    }
    Ok(())
}

/// The extra id of an input token: its offset past the vocabulary (capped
/// at `i32::MAX`) for a virtual token, zero for a vocabulary token.
pub open spec fn spec_extra_id(token: i32, vocab_size: usize) -> u64 {
    let cap: int = if vocab_size <= i32::MAX { vocab_size as int } else { i32::MAX as int };
    if token >= cap {
        (token - cap) as u64
    } else {
        0
    }
}

/// The extra id of every input token.
pub fn input_token_extra_ids(input_ids: &[i32], vocab_size: usize) -> (r: Vec<u64>)
    ensures
        r@.len() == input_ids@.len(),
        forall|k: int| 0 <= k < r@.len() ==> #[trigger] r@[k] == spec_extra_id(input_ids@[k], vocab_size),
{
    let cap: i32 = if vocab_size as u64 > 0x7fff_ffffu64 {
        i32::MAX
    } else {
        vocab_size as i32
    };
    let mut out: Vec<u64> = Vec::new();
    let mut k: usize = 0;
    while k < input_ids.len()
        invariant
            cap == (if vocab_size <= i32::MAX { vocab_size as int } else { i32::MAX as int }),
            k <= input_ids@.len(),
            out@.len() == k,
            forall|j: int| 0 <= j < k ==> #[trigger] out@[j] == spec_extra_id(input_ids@[j], vocab_size),
        decreases input_ids@.len() - k,
    {
        let token = input_ids[k];
        if token >= cap {
            out.push((token - cap) as u64);
        } else {
            out.push(0);
        }
        k = k + 1;
    }
    out
}

/// The engine settings that requests are checked against.
#[derive(Clone, Copy, Debug)]
pub struct ValidationProfile {
    pub dtype: DType,
    pub executor_data_type: i32,
    pub vocab_size: usize,
    pub hidden_size: usize,
    pub max_num_tokens: usize,
    pub max_prompt_embedding_table_size: usize,
}

impl ValidationProfile {
    /// The profile of an engine: its activation dtype and executor type
    /// code, sizes and limits.
    pub fn new(config: &Config) -> (r: Result<Self, Error>)
        ensures
            spec_model_dtype(config.data_type) is None ==> r is Err,
            spec_model_dtype(config.data_type) matches Some(d) ==> (r matches Ok(p) && p.dtype == d
                && Some(p.executor_data_type) == spec_executor_code(config.data_type) && p.vocab_size
                == config.vocab_size && p.hidden_size == config.hidden_size && p.max_num_tokens
                == config.max_num_tokens && p.max_prompt_embedding_table_size
                == config.max_prompt_embedding_table_size),
    {
        let dtype = match dtype_for_data_type(config.data_type()) {
            Ok(d) => d,
            Err(e) => return Err(e),
        };
        let executor_data_type = match data_type_to_executor_i32(config.data_type()) {
            Ok(c) => c,
            Err(e) => return Err(e),
        };
        Ok(ValidationProfile {
            dtype,
            executor_data_type,
            vocab_size: config.vocab_size(),
            hidden_size: config.hidden_size(),
            max_num_tokens: config.max_num_tokens(),
            max_prompt_embedding_table_size: config.max_prompt_embedding_table_size(),
        })
    }
}

/// The sampling settings pass their checks.
pub open spec fn sampling_passes(s: SamplingConfig) -> bool {
    &&& s.beam_width > 0
    &&& floats_ok(s)
    &&& !(s.num_return_sequences matches Some(n) && n <= 0)
    &&& !(s.beam_width_array matches Some(a) && exists|k: int| 0 <= k < a@.len() && #[trigger] a@[k] <= 0)
}

/// The checks of one retention range, in order.
pub open spec fn range_outcome(range: KvCacheTokenRangeRetentionConfig, r: Result<(), Error>) -> bool {
    if range.token_start < 0 {
        r matches Err(e) && is_invalid_argument(e, "kv_cache_retention_config token_start cannot be negative"@)
    } else if range.token_end matches Some(end) && end <= range.token_start {
        r matches Err(e) && is_invalid_argument(
            e,
            "kv_cache_retention_config token_end must be greater than token_start"@,
        )
    } else if !priority_ok(range.priority) {
        r matches Err(e) && is_invalid_argument(e, "kv_cache_retention_config priority must be between 0 and 100"@)
    } else {
        r is Ok
    }
}

/// A retention range passes its checks.
pub open spec fn range_passes(range: KvCacheTokenRangeRetentionConfig) -> bool {
    range.token_start >= 0 && !(range.token_end matches Some(end) && end <= range.token_start)
        && priority_ok(range.priority)
}

/// `k` is the first retention range that fails.
pub open spec fn first_bad_range(ranges: Seq<KvCacheTokenRangeRetentionConfig>, k: int) -> bool {
    &&& 0 <= k < ranges.len()
    &&& !range_passes(ranges[k])
    &&& forall|j: int| 0 <= j < k ==> #[trigger] range_passes(ranges[j])
}

/// Checks one retention range.
fn validate_range(range: &KvCacheTokenRangeRetentionConfig) -> (r: Result<(), Error>)
    ensures
        range_outcome(*range, r),
        r is Ok <==> range_passes(*range),
{
    if range.token_start < 0 {
        return Err(Error::invalid_argument("kv_cache_retention_config token_start cannot be negative"));
    }
    match range.token_end {
        Some(end) => if end <= range.token_start {
            return Err(Error::invalid_argument("kv_cache_retention_config token_end must be greater than token_start"));
        },
        None => {},
    }
    proof {
        reveal_strlit("kv_cache_retention_config priority");
        reveal_strlit(" must be between 0 and 100");
        reveal_strlit("kv_cache_retention_config priority must be between 0 and 100");
        assert("kv_cache_retention_config priority"@ + " must be between 0 and 100"@
            =~= "kv_cache_retention_config priority must be between 0 and 100"@);
    }
    validate_retention_priority("kv_cache_retention_config priority", range.priority)
}

/// Checks every retention range, in order.
fn validate_ranges(ranges: &[KvCacheTokenRangeRetentionConfig]) -> (r: Result<(), Error>)
    ensures
        (forall|k: int| 0 <= k < ranges@.len() ==> #[trigger] range_passes(ranges@[k])) ==> r is Ok,
        forall|k: int| #![trigger first_bad_range(ranges@, k)] first_bad_range(ranges@, k) ==> range_outcome(ranges@[k], r),
        r is Ok ==> forall|k: int| 0 <= k < ranges@.len() ==> #[trigger] range_passes(ranges@[k]),
{
    let mut k: usize = 0;
    while k < ranges.len()
        invariant
            k <= ranges@.len(),
            forall|j: int| 0 <= j < k ==> #[trigger] range_passes(ranges@[j]),
        decreases ranges@.len() - k,
    {
        let r = validate_range(&ranges[k]);
        if r.is_err() {
            assert(first_bad_range(ranges@, k as int));
            assert forall|other: int| #![trigger first_bad_range(ranges@, other)] first_bad_range(ranges@, other) implies other == k by {
                if other < k {
                } else if other > k {
                }
            }
            return r;
        }
        k = k + 1;
    }
    proof {
        assert forall|other: int| #![trigger first_bad_range(ranges@, other)] !first_bad_range(ranges@, other) by {}
    }
    Ok(())
}

/// The checks of a request against an engine profile, in the order they are
/// made; each is reached only when every earlier one passes.
pub open spec fn request_checks_outcome(p: ValidationProfile, q: Request, r: Result<(), Error>) -> bool {
    let n = q.input_ids@.len();
    if !sampling_passes(q.sampling) {
        sampling_outcome(q.sampling, r)
    } else if n == 0 {
        r matches Err(e) && is_invalid_argument(e, "TensorRT-LLM request must contain at least one input token"@)
    } else if q.max_new_tokens < 0 {
        r matches Err(e) && is_invalid_argument(e, "TensorRT-LLM request max_new_tokens cannot be negative"@)
    } else if q.position_ids matches Some(ids) && ids@.len() != n {
        r matches Err(e) && is_invalid_argument(
            e,
            "position_ids length mismatch: expected "@ + decimal_usize(n as usize) + ", got "@ + decimal_usize(
                q.position_ids->0@.len() as usize,
            ),
        )
    } else if q.priority matches Some(b) && !f32_bits_finite(b) {
        r matches Err(e) && is_invalid_argument(e, "priority must be finite"@)
    } else if q.prompt_embedding_token_extra_ids matches Some(ids) && ids@.len() != n {
        r matches Err(e) && is_invalid_argument(
            e,
            "prompt_embedding_token_extra_ids length mismatch: expected "@ + decimal_usize(n as usize) + ", got "@
                + decimal_usize(q.prompt_embedding_token_extra_ids->0@.len() as usize),
        )
    } else if q.external_draft_tokens_config matches Some(c) && c.tokens@.len() == 0 {
        r matches Err(e) && is_invalid_argument(e, "external_draft_tokens must contain at least one token"@)
    } else if q.external_draft_tokens_config matches Some(c) && (c.acceptance_threshold matches Some(t) && (
    !f32_bits_finite(t) || !f32_bits_gt_zero(t) || f32_bits_gt_one(t))) {
        r matches Err(e) && is_invalid_argument(e, "external_draft_tokens acceptance_threshold must be in (0, 1]"@)
    } else if q.multimodal_input matches Some(m) && !words_ok(m.hashes@) {
        word_list_outcome("multimodal_hashes"@, q.multimodal_input->0.hashes@, r)
    } else if q.multimodal_input matches Some(m) && (m.hashes@.len() != m.positions@.len() || m.hashes@.len()
        != m.lengths@.len()) {
        r matches Err(e) && is_invalid_argument(
            e,
            "multimodal_input hashes, positions, and lengths must have the same length"@,
        )
    } else if q.multimodal_input matches Some(m) && (m.uuids@.len() != 0 && m.uuids@.len() != m.hashes@.len()) {
        r matches Err(e) && is_invalid_argument(e, "multimodal_input uuids length must match hashes length"@)
    } else if q.lookahead_config matches Some(c) && (c.window_size <= 0 || c.ngram_size <= 0
        || c.verification_set_size <= 0) {
        r matches Err(e) && is_invalid_argument(e, "lookahead_config values must be positive"@)
    } else if q.kv_cache_retention_config matches Some(c) && !priority_ok(c.decode_retention_priority) {
        r matches Err(e) && is_invalid_argument(
            e,
            "kv_cache_retention_config decode_retention_priority must be between 0 and 100"@,
        )
    } else if q.kv_cache_retention_config matches Some(c) && !(forall|k: int|
        0 <= k < c.ranges@.len() ==> #[trigger] range_passes(c.ranges@[k])) {
        forall|k: int|
            #![trigger first_bad_range(q.kv_cache_retention_config->0.ranges@, k)]
            first_bad_range(q.kv_cache_retention_config->0.ranges@, k) ==> range_outcome(
                q.kv_cache_retention_config->0.ranges@[k],
                r,
            )
    } else if q.context_phase_params matches Some(c) && c.first_gen_tokens@.len() == 0 {
        r matches Err(e) && is_invalid_argument(e, "context_phase_params first_gen_tokens cannot be empty"@)
    } else if q.encoder_output_length matches Some(l) && l <= 0 {
        r matches Err(e) && is_invalid_argument(e, "encoder_output_length must be positive"@)
    } else if q.eagle_config matches Some(c) && !words_ok(c.choices@) {
        word_list_outcome("eagle_choices"@, q.eagle_config->0.choices@, r)
    } else if q.eagle_config matches Some(c) && (c.posterior_threshold matches Some(t) && (!f32_bits_finite(t)
        || f32_bits_lt_zero(t))) {
        r matches Err(e) && is_invalid_argument(
            e,
            "eagle_config posterior_threshold must be finite and non-negative"@,
        )
    } else if q.eagle_config matches Some(c) && (c.dynamic_tree_max_top_k matches Some(k) && k <= 0) {
        r matches Err(e) && is_invalid_argument(e, "eagle_config dynamic_tree_max_top_k must be positive"@)
    } else if q.language_adapter_uid matches Some(u) && u < 0 {
        r matches Err(e) && is_invalid_argument(e, "language_adapter_uid cannot be negative"@)
    } else if !words_ok(q.bad_words@) {
        word_list_outcome("bad_words"@, q.bad_words@, r)
    } else if !words_ok(q.stop_words@) {
        word_list_outcome("stop_words"@, q.stop_words@, r)
    } else if n + q.max_new_tokens > usize::MAX {
        r matches Err(e) && is_invalid_argument(e, "TensorRT-LLM token count overflowed"@)
    } else if n + q.max_new_tokens > p.max_num_tokens {
        r matches Err(e) && is_invalid_argument(
            e,
            "TensorRT-LLM request has "@ + decimal_usize((n + q.max_new_tokens) as usize)
                + " total tokens but engine supports at most "@ + decimal_usize(p.max_num_tokens),
        )
    } else {
        r is Ok
    }
}

/// Renders `<label><expected>, got <actual>`.
fn mismatch_text(label: &str, expected: usize, actual: usize) -> (r: String)
    ensures
        r@ == label@ + decimal_usize(expected) + ", got "@ + decimal_usize(actual),
{
    let a = usize_text(expected);
    let b = usize_text(actual);
    join4(label, a.as_str(), ", got ", b.as_str())
}

impl ValidationProfile {
    /// Checks a request before it is encoded: its sampling settings, input
    /// and extension shapes, value ranges, word lists, and that its total
    /// token count fits the engine.
    #[verifier::spinoff_prover]
    #[verifier::rlimit(50)]
    pub fn validate_request(&self, request: &Request<'_>) -> (r: Result<(), Error>)
        ensures
            request_checks_outcome(*self, *request, r),
    {
        let s = request.sampling.validate();
        if s.is_err() {
            return s;
        }
        let n = request.input_ids.len();
        if n == 0 {
            return Err(Error::invalid_argument("TensorRT-LLM request must contain at least one input token"));
        }
        if request.max_new_tokens < 0 {
            return Err(Error::invalid_argument("TensorRT-LLM request max_new_tokens cannot be negative"));
        }
        match request.position_ids {
            Some(ids) => if ids.len() != n {
                return Err(Error::InvalidArgument(mismatch_text("position_ids length mismatch: expected ", n, ids.len())));
            },
            None => {},
        }
        match request.priority {
            Some(b) => if !is_finite_bits(b) {
                return Err(Error::invalid_argument("priority must be finite"));
            },
            None => {},
        }
        match request.prompt_embedding_token_extra_ids {
            Some(ids) => if ids.len() != n {
                return Err(
                    Error::InvalidArgument(
                        mismatch_text("prompt_embedding_token_extra_ids length mismatch: expected ", n, ids.len()),
                    ),
                );
            },
            None => {},
        }
        match &request.external_draft_tokens_config {
            Some(c) => {
                if c.tokens.len() == 0 {
                    return Err(Error::invalid_argument("external_draft_tokens must contain at least one token"));
                }
                match c.acceptance_threshold {
                    Some(t) => if !is_finite_bits(t) || !gt_zero_bits(t) || gt_one_bits(t) {
                        return Err(Error::invalid_argument("external_draft_tokens acceptance_threshold must be in (0, 1]"));
                    },
                    None => {},
                }
            },
            None => {},
        }
        match &request.multimodal_input {
            Some(m) => {
                let w = validate_word_list("multimodal_hashes", m.hashes.as_slice());
                if w.is_err() {
                    return w;
                }
                if m.hashes.len() != m.positions.len() || m.hashes.len() != m.lengths.len() {
                    return Err(
                        Error::invalid_argument("multimodal_input hashes, positions, and lengths must have the same length"),
                    );
                }
                if m.uuids.len() != 0 && m.uuids.len() != m.hashes.len() {
                    return Err(Error::invalid_argument("multimodal_input uuids length must match hashes length"));
                }
            },
            None => {},
        }
        match request.lookahead_config {
            Some(c) => if c.window_size <= 0 || c.ngram_size <= 0 || c.verification_set_size <= 0 {
                return Err(Error::invalid_argument("lookahead_config values must be positive"));
            },
            None => {},
        }
        match &request.kv_cache_retention_config {
            Some(c) => {
                proof {
                    reveal_strlit("kv_cache_retention_config decode_retention_priority");
                    reveal_strlit(" must be between 0 and 100");
                    reveal_strlit("kv_cache_retention_config decode_retention_priority must be between 0 and 100");
                    assert("kv_cache_retention_config decode_retention_priority"@ + " must be between 0 and 100"@
                        =~= "kv_cache_retention_config decode_retention_priority must be between 0 and 100"@);
                }
                let d = validate_retention_priority(
                    "kv_cache_retention_config decode_retention_priority",
                    c.decode_retention_priority,
                );
                if d.is_err() {
                    return d;
                }
                let g = validate_ranges(c.ranges.as_slice());
                if g.is_err() {
                    return g;
                }
            },
            None => {},
        }
        match &request.context_phase_params {
            Some(c) => if c.first_gen_tokens.len() == 0 {
                return Err(Error::invalid_argument("context_phase_params first_gen_tokens cannot be empty"));
            },
            None => {},
        }
        match request.encoder_output_length {
            Some(l) => if l <= 0 {
                return Err(Error::invalid_argument("encoder_output_length must be positive"));
            },
            None => {},
        }
        match &request.eagle_config {
            Some(c) => {
                let w = validate_word_list("eagle_choices", c.choices.as_slice());
                if w.is_err() {
                    return w;
                }
                match c.posterior_threshold {
                    Some(t) => if !is_finite_bits(t) || lt_zero_bits(t) {
                        return Err(Error::invalid_argument("eagle_config posterior_threshold must be finite and non-negative"));
                    },
                    None => {},
                }
                match c.dynamic_tree_max_top_k {
                    Some(k) => if k <= 0 {
                        return Err(Error::invalid_argument("eagle_config dynamic_tree_max_top_k must be positive"));
                    },
                    None => {},
                }
            },
            None => {},
        }
        match request.language_adapter_uid {
            Some(u) => if u < 0 {
                return Err(Error::invalid_argument("language_adapter_uid cannot be negative"));
            },
            None => {},
        }
        let b = validate_word_list("bad_words", request.bad_words.as_slice());
        if b.is_err() {
            return b;
        }
        let w = validate_word_list("stop_words", request.stop_words.as_slice());
        if w.is_err() {
            return w;
        }
        let total = match n.checked_add(request.max_new_tokens as usize) {
            Some(t) => t,
            None => return Err(Error::invalid_argument("TensorRT-LLM token count overflowed")),
        };
        if total > self.max_num_tokens {
            let a = usize_text(total);
            let m = usize_text(self.max_num_tokens);
            let head = join3("TensorRT-LLM request has ", a.as_str(), " total tokens but engine supports at most ");
            return Err(Error::InvalidArgument(join2(head.as_str(), m.as_str())));
        }
        Ok(())
    }
}


/// Every extent fits `i64`.
pub open spec fn dims_fit_i64(dims: Seq<usize>) -> bool {
    forall|k: int| 0 <= k < dims.len() ==> #[trigger] dims[k] <= i64::MAX
}

/// The extents as `i64`.
pub open spec fn dims_as_i64(dims: Seq<usize>) -> Seq<i64> {
    Seq::new(dims.len(), |k: int| dims[k] as i64)
}

/// A tensor shape as the executor's C ABI reads it: ranks up to
/// `INLINE_TENSOR_RANK` are held inline, larger ones on the heap.
#[derive(Clone, Debug)]
pub enum TensorShapeBuf {
    Inline { values: [i64; INLINE_TENSOR_RANK], len: usize },
    Heap(Vec<i64>),
}

impl TensorShapeBuf {
    /// An inline shape uses no more than its array.
    pub open spec fn wf(&self) -> bool {
        match self {
            TensorShapeBuf::Inline { values, len } => *len <= INLINE_TENSOR_RANK,
            TensorShapeBuf::Heap(_) => true,
        }
    }

    /// The extents the buffer holds.
    pub open spec fn shape(&self) -> Seq<i64> {
        match self {
            TensorShapeBuf::Inline { values, len } => values@.subrange(0, *len as int),
            TensorShapeBuf::Heap(values) => values@,
        }
    }

    /// The shape of `dims`, inline when its rank is at most
    /// `INLINE_TENSOR_RANK`; fails when an extent does not fit `i64`.
    pub fn new(dims: &[usize]) -> (r: Result<Self, Error>)
        ensures
            dims_fit_i64(dims@) ==> (r matches Ok(s) && s.wf() && s.shape() == dims_as_i64(dims@) && (s is Inline
                <==> dims@.len() <= INLINE_TENSOR_RANK)),
            !dims_fit_i64(dims@) ==> (r matches Err(e) && is_invalid_argument(
                e,
                "TensorRT-LLM Executor tensor dimension cannot fit in i64"@,
            )),
    {
        if dims.len() <= INLINE_TENSOR_RANK {
            let mut values: [i64; INLINE_TENSOR_RANK] = [0i64; 8];
            let mut k: usize = 0;
            while k < dims.len()
                invariant
                    dims@.len() <= INLINE_TENSOR_RANK,
                    k <= dims@.len(),
                    values@.len() == INLINE_TENSOR_RANK,
                    forall|j: int| 0 <= j < k ==> #[trigger] dims@[j] <= i64::MAX,
                    forall|j: int| 0 <= j < k ==> #[trigger] values@[j] == dims@[j] as i64,
                decreases dims@.len() - k,
            {
                let dim = dims[k];
                if dim as u64 > 0x7fff_ffff_ffff_ffffu64 {
                    return Err(Error::invalid_argument("TensorRT-LLM Executor tensor dimension cannot fit in i64"));
                }
                values[k] = dim as i64;
                k = k + 1;
            }
            let r = TensorShapeBuf::Inline { values, len: dims.len() };
            assert(r.shape() =~= dims_as_i64(dims@));
            return Ok(r);
        }
        let mut values: Vec<i64> = Vec::new();
        let mut k: usize = 0;
        while k < dims.len()
            invariant
                k <= dims@.len(),
                values@.len() == k,
                forall|j: int| 0 <= j < k ==> #[trigger] dims@[j] <= i64::MAX,
                forall|j: int| 0 <= j < k ==> #[trigger] values@[j] == dims@[j] as i64,
            decreases dims@.len() - k,
        {
            let dim = dims[k];
            if dim as u64 > 0x7fff_ffff_ffff_ffffu64 {
                return Err(Error::invalid_argument("TensorRT-LLM Executor tensor dimension cannot fit in i64"));
            }
            values.push(dim as i64);
            k = k + 1;
        }
        let r = TensorShapeBuf::Heap(values);
        assert(r.shape() =~= dims_as_i64(dims@));
        Ok(r)
    }

    /// The extents.
    pub fn as_slice(&self) -> (r: &[i64])
        requires
            self.wf(),
        ensures
            r@ == self.shape(),
    {
        match self {
            TensorShapeBuf::Inline { values, len } => vstd::slice::slice_subrange(values.as_slice(), 0, *len),
            TensorShapeBuf::Heap(values) => values.as_slice(),
        }
    }

    /// The rank.
    pub fn len(&self) -> (r: usize)
        requires
            self.wf(),
        ensures
            r == self.shape().len(),
    {
        self.as_slice().len()
    }

    /// Whether the extents are held inline.
    pub fn is_inline(&self) -> (r: bool)
        ensures
            r == (self is Inline),
    {
        match self {
            TensorShapeBuf::Inline { .. } => true,
            TensorShapeBuf::Heap(_) => false,
        }
    }
}

/// What the executor's C ABI reads of a tensor besides its bytes: its shape,
/// its TensorRT data type and that type's executor code.
#[derive(Clone, Debug)]
pub struct TensorLayout {
    pub shape: TensorShapeBuf,
    pub data_type: DataType,
    pub executor_data_type: i32,
}

/// The layout of a tensor of `dims` and `dtype` passes every check.
pub open spec fn layout_ok(dims: Seq<usize>, contiguous: bool, dtype: DType) -> bool {
    &&& contiguous
    &&& spec_executor_tensor_type(dtype) is Some
    &&& dims_fit_i64(dims)
}

/// `l` describes a tensor of `dims` and `dtype`.
pub open spec fn layout_matches(l: TensorLayout, dims: Seq<usize>, dtype: DType) -> bool {
    &&& l.shape.wf()
    &&& l.shape.shape() == dims_as_i64(dims)
    &&& Some(l.data_type) == spec_executor_tensor_type(dtype)
    &&& Some(l.executor_data_type) == spec_executor_code(l.data_type)
}

/// The error of the first failing layout check.
pub open spec fn layout_error(dims: Seq<usize>, contiguous: bool, dtype: DType, e: Error) -> bool {
    if !contiguous {
        is_invalid_argument(e, "TensorRT-LLM Executor tensor inputs must be contiguous"@)
    } else if spec_executor_tensor_type(dtype) is None {
        is_invalid_argument(e, "TensorRT-LLM Executor tensor dtype "@ + spec_dtype_debug(dtype)@ + " is not supported"@)
    } else {
        is_invalid_argument(e, "TensorRT-LLM Executor tensor dimension cannot fit in i64"@)
    }
}

/// The layout of a tensor handed to the executor: it must be contiguous, of
/// an element type the executor takes, with extents that fit `i64`.
pub fn tensor_layout(dims: &[usize], contiguous: bool, dtype: DType) -> (r: Result<TensorLayout, Error>)
    ensures
        layout_ok(dims@, contiguous, dtype) ==> (r matches Ok(l) && layout_matches(l, dims@, dtype)),
        !layout_ok(dims@, contiguous, dtype) ==> (r matches Err(e) && layout_error(dims@, contiguous, dtype, e)),
{
    if !contiguous {
        return Err(Error::invalid_argument("TensorRT-LLM Executor tensor inputs must be contiguous"));
    }
    let data_type = match data_type_for_dtype(dtype) {
        Ok(d) => d,
        Err(e) => return Err(e),
    };
    let shape = match TensorShapeBuf::new(dims) {
        Ok(s) => s,
        Err(e) => return Err(e),
    };
    let executor_data_type = match data_type_to_executor_i32(data_type) {
        Ok(c) => c,
        Err(e) => return Err(e),
    };
    Ok(TensorLayout { shape, data_type, executor_data_type })
}

/// The extra ids of a prompt embedding's input tokens: those the request
/// gave, or those derived from the tokens.
pub enum TokenExtraIds<'a> {
    Borrowed(&'a [u64]),
    Owned(ExtraIdVec),
}

impl<'a> TokenExtraIds<'a> {
    /// The ids.
    pub open spec fn ids(&self) -> Seq<u64> {
        match self {
            TokenExtraIds::Borrowed(ids) => ids@,
            TokenExtraIds::Owned(ids) => extra_id_values(*ids),
        }
    }

    /// The ids.
    pub fn as_slice(&self) -> (r: &[u64])
        ensures
            r@ == self.ids(),
    {
        match self {
            TokenExtraIds::Borrowed(ids) => ids,
            TokenExtraIds::Owned(ids) => extra_ids_as_slice(ids),
        }
    }
}

/// The extra id of every input token, as a sequence.
pub open spec fn derived_extra_ids(input_ids: Seq<i32>, vocab_size: usize) -> Seq<u64> {
    Seq::new(input_ids.len(), |k: int| spec_extra_id(input_ids[k], vocab_size))
}

/// A checked prompt embedding table: its layout, its row count and the
/// extra id of each input token.
pub struct PromptEmbedding<'a> {
    pub layout: TensorLayout,
    pub rows: usize,
    pub input_token_extra_ids: TokenExtraIds<'a>,
}

/// The checks of a prompt embedding table of `dims`, in order; each is
/// reached only when every earlier one passes.
pub open spec fn prompt_embedding_outcome(
    p: ValidationProfile,
    dims: Seq<usize>,
    contiguous: bool,
    dtype: DType,
    input_ids: Seq<i32>,
    extra_ids: Option<Seq<u64>>,
    r: Result<PromptEmbedding, Error>,
) -> bool {
    if dims.len() != 2 {
        r matches Err(e) && is_invalid_argument(
            e,
            "prompt_embeddings must have shape [virtual_tokens, hidden_size], got "@ + debug_usize_list(dims),
        )
    } else if dims[0] == 0 {
        r matches Err(e) && is_invalid_argument(e, "prompt_embeddings must contain at least one virtual token"@)
    } else if dims[0] > p.max_prompt_embedding_table_size {
        r matches Err(e) && is_invalid_argument(
            e,
            "prompt_embeddings has "@ + decimal_usize(dims[0]) + " rows but engine supports at most "@ + decimal_usize(
                p.max_prompt_embedding_table_size,
            ),
        )
    } else if dims[1] != p.hidden_size {
        r matches Err(e) && is_invalid_argument(
            e,
            "prompt_embeddings hidden size mismatch: expected "@ + decimal_usize(p.hidden_size) + ", got "@
                + decimal_usize(dims[1]),
        )
    } else if !contiguous {
        r matches Err(e) && is_invalid_argument(
            e,
            "prompt_embeddings must be contiguous before TensorRT-LLM Executor inference"@,
        )
    } else if dtype != p.dtype {
        r matches Err(e) && is_invalid_argument(
            e,
            "prompt_embeddings dtype mismatch: engine expects "@ + spec_dtype_debug(p.dtype)@ + ", got "@
                + spec_dtype_debug(dtype)@,
        )
    } else if extra_ids matches Some(ids) && ids.len() != input_ids.len() {
        r matches Err(e) && is_invalid_argument(
            e,
            "prompt_embedding_token_extra_ids length mismatch: expected "@ + decimal_usize(input_ids.len() as usize)
                + ", got "@ + decimal_usize(extra_ids->0.len() as usize),
        )
    } else if extra_ids is None && !virtual_tokens_ok(input_ids, p.vocab_size, dims[0]) {
        r matches Err(e) && virtual_tokens_error(input_ids, p.vocab_size, dims[0], e)
    } else if !layout_ok(dims, contiguous, dtype) {
        r matches Err(e) && layout_error(dims, contiguous, dtype, e)
    } else {
        r matches Ok(pe) && layout_matches(pe.layout, dims, dtype) && pe.rows == dims[0]
            && pe.input_token_extra_ids.ids() == match extra_ids {
            Some(ids) => ids,
            None => derived_extra_ids(input_ids, p.vocab_size),
        }
    }
}

/// A prompt embedding table of `dims` passes every check.
pub open spec fn prompt_embedding_passes(
    p: ValidationProfile,
    dims: Seq<usize>,
    contiguous: bool,
    dtype: DType,
    input_ids: Seq<i32>,
    extra_ids: Option<Seq<u64>>,
) -> bool {
    &&& dims.len() == 2 && dims[0] != 0 && dims[0] <= p.max_prompt_embedding_table_size && dims[1] == p.hidden_size
    &&& contiguous && dtype == p.dtype
    &&& !(extra_ids matches Some(ids) && ids.len() != input_ids.len())
    &&& !(extra_ids is None && !virtual_tokens_ok(input_ids, p.vocab_size, dims[0]))
    &&& layout_ok(dims, contiguous, dtype)
}

/// A checked embedding bias: its layout and its length.
pub struct EmbeddingBiasBuffer {
    pub layout: TensorLayout,
    pub len: usize,
}

/// The checks of an embedding bias of `dims`, in order.
pub open spec fn embedding_bias_outcome(
    p: ValidationProfile,
    dims: Seq<usize>,
    contiguous: bool,
    dtype: DType,
    r: Result<EmbeddingBiasBuffer, Error>,
) -> bool {
    if dims.len() != 1 {
        r matches Err(e) && is_invalid_argument(
            e,
            "embedding_bias must have shape [vocab_size], got "@ + debug_usize_list(dims),
        )
    } else if dims[0] != p.vocab_size {
        r matches Err(e) && is_invalid_argument(
            e,
            "embedding_bias vocab size mismatch: expected "@ + decimal_usize(p.vocab_size) + ", got "@
                + decimal_usize(dims[0]),
        )
    } else if !contiguous {
        r matches Err(e) && is_invalid_argument(
            e,
            "embedding_bias must be contiguous before TensorRT-LLM Executor inference"@,
        )
    } else if !layout_ok(dims, contiguous, dtype) {
        r matches Err(e) && layout_error(dims, contiguous, dtype, e)
    } else {
        r matches Ok(b) && layout_matches(b.layout, dims, dtype) && b.len == dims[0]
    }
}

/// An embedding bias of `dims` passes every check.
pub open spec fn embedding_bias_passes(p: ValidationProfile, dims: Seq<usize>, contiguous: bool, dtype: DType) -> bool {
    dims.len() == 1 && dims[0] == p.vocab_size && contiguous && layout_ok(dims, contiguous, dtype)
}

impl ValidationProfile {
    /// Checks a prompt embedding table of `dims`, `dtype` and contiguity
    /// against the engine, and gives the extra id of each input token: those
    /// the request gave, or, when it gave none, those derived from the
    /// tokens once every virtual token is found in the table.
    pub fn prompt_embedding<'a>(
        &self,
        dims: &[usize],
        contiguous: bool,
        dtype: DType,
        input_ids: &[i32],
        token_extra_ids: Option<&'a [u64]>,
    ) -> (r: Result<PromptEmbedding<'a>, Error>)
        ensures
            prompt_embedding_outcome(
                *self,
                dims@,
                contiguous,
                dtype,
                input_ids@,
                match token_extra_ids {
                    Some(ids) => Some(ids@),
                    None => None,
                },
                r,
            ),
            r is Ok <==> prompt_embedding_passes(
                *self,
                dims@,
                contiguous,
                dtype,
                input_ids@,
                match token_extra_ids {
                    Some(ids) => Some(ids@),
                    None => None,
                },
            ),
    {
        if dims.len() != 2 {
            let d = debug_usize_text(dims);
            return Err(
                Error::InvalidArgument(join2("prompt_embeddings must have shape [virtual_tokens, hidden_size], got ", d.as_str())),
            );
        }
        let rows = dims[0];
        let hidden = dims[1];
        if rows == 0 {
            return Err(Error::invalid_argument("prompt_embeddings must contain at least one virtual token"));
        }
        if rows > self.max_prompt_embedding_table_size {
            let a = usize_text(rows);
            let b = usize_text(self.max_prompt_embedding_table_size);
            let head = join3("prompt_embeddings has ", a.as_str(), " rows but engine supports at most ");
            return Err(Error::InvalidArgument(join2(head.as_str(), b.as_str())));
        }
        if hidden != self.hidden_size {
            return Err(
                Error::InvalidArgument(mismatch_text("prompt_embeddings hidden size mismatch: expected ", self.hidden_size, hidden)),
            );
        }
        if !contiguous {
            return Err(Error::invalid_argument("prompt_embeddings must be contiguous before TensorRT-LLM Executor inference"));
        }
        if dtype != self.dtype {
            let head = join4(
                "prompt_embeddings dtype mismatch: engine expects ",
                self.dtype.debug_name(),
                ", got ",
                dtype.debug_name(),
            );
            return Err(Error::InvalidArgument(head));
        }
        let extra = match token_extra_ids {
            Some(ids) => {
                if ids.len() != input_ids.len() {
                    return Err(
                        Error::InvalidArgument(
                            mismatch_text(
                                "prompt_embedding_token_extra_ids length mismatch: expected ",
                                input_ids.len(),
                                ids.len(),
                            ),
                        ),
                    );
                }
                TokenExtraIds::Borrowed(ids)
            },
            None => {
                match validate_virtual_tokens(input_ids, self.vocab_size, rows) {
                    Ok(()) => {},
                    Err(e) => return Err(e),
                }
                let ids = input_token_extra_ids(input_ids, self.vocab_size);
                assert(ids@ =~= derived_extra_ids(input_ids@, self.vocab_size));
                TokenExtraIds::Owned(extra_ids_from_vec(ids))
            },
        };
        let layout = match tensor_layout(dims, contiguous, dtype) {
            Ok(l) => l,
            Err(e) => return Err(e),
        };
        Ok(PromptEmbedding { layout, rows, input_token_extra_ids: extra })
    }

    /// Checks an embedding bias of `dims`, `dtype` and contiguity against
    /// the engine's vocabulary.
    pub fn embedding_bias(&self, dims: &[usize], contiguous: bool, dtype: DType) -> (r: Result<EmbeddingBiasBuffer, Error>)
        ensures
            embedding_bias_outcome(*self, dims@, contiguous, dtype, r),
            r is Ok <==> embedding_bias_passes(*self, dims@, contiguous, dtype),
    {
        if dims.len() != 1 {
            let d = debug_usize_text(dims);
            return Err(Error::InvalidArgument(join2("embedding_bias must have shape [vocab_size], got ", d.as_str())));
        }
        let len = dims[0];
        if len != self.vocab_size {
            return Err(
                Error::InvalidArgument(mismatch_text("embedding_bias vocab size mismatch: expected ", self.vocab_size, len)),
            );
        }
        if !contiguous {
            return Err(Error::invalid_argument("embedding_bias must be contiguous before TensorRT-LLM Executor inference"));
        }
        let layout = match tensor_layout(dims, contiguous, dtype) {
            Ok(l) => l,
            Err(e) => return Err(e),
        };
        Ok(EmbeddingBiasBuffer { layout, len })
    }
}

/// The device range of `bytes` bytes at `ptr` of an executor output; fails
/// when its end passes the address space.
pub fn cuda_output_range<'a>(name: &'a str, ptr: usize, bytes: usize) -> (r: Result<CudaMemoryRange<'a>, Error>)
    ensures
        ptr + bytes <= usize::MAX ==> (r matches Ok(range) && range.name == name && range.start == ptr && range.end
            == ptr + bytes),
        ptr + bytes > usize::MAX ==> (r matches Err(e) && is_invalid_argument(e, "CUDA output pointer range overflow"@)),
{
    match ptr.checked_add(bytes) {
        Some(end) => Ok(CudaMemoryRange { name, start: ptr, end }),
        None => Err(Error::invalid_argument("CUDA output pointer range overflow")),
    }
}

/// Ranges `i` and `j`, with `i < j`, share a byte.
pub open spec fn ranges_clash(ranges: Seq<CudaMemoryRange>, i: int, j: int) -> bool {
    &&& 0 <= i < j < ranges.len()
    &&& ranges[i].start < ranges[j].end
    &&& ranges[j].start < ranges[i].end
}

/// `(i, j)` is the first clashing pair, taking `i` and then `j` in order.
pub open spec fn first_clash(ranges: Seq<CudaMemoryRange>, i: int, j: int) -> bool {
    &&& ranges_clash(ranges, i, j)
    &&& forall|a: int, b: int| 0 <= a < i && a < b < ranges.len() ==> !#[trigger] ranges_clash(ranges, a, b)
    &&& forall|b: int| i < b < j ==> !#[trigger] ranges_clash(ranges, i, b)
}

/// No two ranges share a byte.
pub open spec fn ranges_disjoint(ranges: Seq<CudaMemoryRange>) -> bool {
    forall|a: int, b: int| #![trigger ranges_clash(ranges, a, b)] !ranges_clash(ranges, a, b)
}

/// Rejects executor outputs whose device memory overlaps, naming the first
/// overlapping pair.
pub fn validate_cuda_output_aliases(ranges: &[CudaMemoryRange<'_>]) -> (r: Result<(), Error>)
    ensures
        r is Ok <==> ranges_disjoint(ranges@),
        forall|i: int, j: int|
            #![trigger first_clash(ranges@, i, j)]
            first_clash(ranges@, i, j) ==> (r matches Err(e) && is_invalid_argument(
                e,
                "output CUDA memory for "@ + str_debug(ranges@[i].name@) + " overlaps output "@ + str_debug(
                    ranges@[j].name@,
                ) + "; each output must use distinct storage"@,
            )),
{
    let mut i: usize = 0;
    while i < ranges.len()
        invariant
            i <= ranges@.len(),
            forall|a: int, b: int| 0 <= a < i && a < b < ranges@.len() ==> !#[trigger] ranges_clash(ranges@, a, b),
        decreases ranges@.len() - i,
    {
        let range = ranges[i];
        let mut j: usize = i + 1;
        while j < ranges.len()
            invariant
                i < j <= ranges@.len(),
                range == ranges@[i as int],
                forall|a: int, b: int| 0 <= a < i && a < b < ranges@.len() ==> !#[trigger] ranges_clash(ranges@, a, b),
                forall|b: int| i < b < j ==> !#[trigger] ranges_clash(ranges@, i as int, b),
            decreases ranges@.len() - j,
        {
            let other = ranges[j];
            if range.overlaps(other) {
                assert(first_clash(ranges@, i as int, j as int));
                assert forall|a: int, b: int| #![trigger first_clash(ranges@, a, b)] first_clash(ranges@, a, b) implies a
                    == i && b == j by {
                    if a < i {
                        assert(!ranges_clash(ranges@, a, b));
                    } else if a > i {
                        assert(!ranges_clash(ranges@, i as int, j as int));
                    } else if b < j {
                        assert(!ranges_clash(ranges@, i as int, b));
                    } else if b > j {
                        assert(!ranges_clash(ranges@, i as int, j as int));
                    }
                }
                let a = str_debug_text(range.name);
                let b = str_debug_text(other.name);
                let head = join4("output CUDA memory for ", a.as_str(), " overlaps output ", b.as_str());
                return Err(Error::InvalidArgument(join2(head.as_str(), "; each output must use distinct storage")));
            }
            j = j + 1;
        }
        i = i + 1;
    }
    assert forall|a: int, b: int| #![trigger ranges_clash(ranges@, a, b)] !ranges_clash(ranges@, a, b) by {
        if 0 <= a < b < ranges@.len() {
            assert(!ranges_clash(ranges@, a, b));
        }
    }
    Ok(())
}

/// The outcome of the executor's plugin initialization: status zero is
/// success, any other status an error that carries it.
pub fn plugin_status(status: i32) -> (r: Result<(), Error>)
    ensures
        status == 0 ==> r is Ok,
        status != 0 ==> r == Err::<(), Error>(Error::PluginInit { status }),
{
    if status == 0 {
        Ok(())
    } else {
        Err(Error::PluginInit { status })
    }
}

/// An engine tensor that the executor returns besides the logits: an output
/// not named `logits`.
pub open spec fn is_additional_output(t: TensorInfoView) -> bool {
    t.io_mode == TensorIOMode::Output && t.name != "logits"@
}

/// The names of the additional outputs, in engine order.
pub open spec fn additional_outputs(infos: Seq<TensorInfoView>) -> Seq<Seq<char>>
    decreases infos.len(),
{
    if infos.len() == 0 {
        Seq::empty()
    } else if is_additional_output(infos.last()) {
        additional_outputs(infos.drop_last()).push(infos.last().name)
    } else {
        additional_outputs(infos.drop_last())
    }
}

/// `k` is the first additional output whose name cannot cross the C ABI.
pub open spec fn first_unpassable_output(infos: Seq<TensorInfoView>, k: int) -> bool {
    &&& 0 <= k < infos.len()
    &&& is_additional_output(infos[k])
    &&& !name_crosses_abi(infos[k].name)
    &&& forall|j: int| 0 <= j < k && is_additional_output(#[trigger] infos[j]) ==> name_crosses_abi(infos[j].name)
}

/// The names of the engine's additional outputs (every output but the
/// logits), in engine order; fails at the first whose name holds a zero
/// byte, giving that byte's position.
pub fn additional_output_names(io_tensors: &[TensorInfo]) -> (r: Result<Vec<String>, Error>)
    ensures
        (forall|k: int| !#[trigger] first_unpassable_output(views_of(io_tensors@), k)) ==> (r matches Ok(names)
            && names@.map_values(|n: String| n@) == additional_outputs(views_of(io_tensors@))),
        forall|k: int|
            #![trigger first_unpassable_output(views_of(io_tensors@), k)]
            first_unpassable_output(views_of(io_tensors@), k) ==> (r matches Err(e) && e matches Error::Nul {
                nul_position,
            } && first_zero_byte(encode_utf8(io_tensors@[k].name@), nul_position as int)),
{
    let ghost infos = views_of(io_tensors@);
    let mut names: Vec<String> = Vec::new();
    let mut k: usize = 0;
    while k < io_tensors.len()
        invariant
            infos == views_of(io_tensors@),
            k <= io_tensors@.len(),
            names@.map_values(|n: String| n@) == additional_outputs(infos.subrange(0, k as int)),
            forall|j: int| 0 <= j < k && is_additional_output(#[trigger] infos[j]) ==> name_crosses_abi(infos[j].name),
        decreases io_tensors@.len() - k,
    {
        let info = &io_tensors[k];
        assert(infos[k as int] == info@);
        assert(infos.subrange(0, k + 1).drop_last() =~= infos.subrange(0, k as int));
        if info.io_mode == TensorIOMode::Output && !same_text(info.name.as_str(), "logits") {
            match first_nul(info.name.as_str()) {
                Some(position) => {
                    assert(first_unpassable_output(infos, k as int));
                    assert forall|other: int|
                        #![trigger first_unpassable_output(infos, other)]
                        first_unpassable_output(infos, other) implies other == k by {
                        if other < k {
                        } else if other > k {
                        }
                    }
                    return Err(Error::Nul { nul_position: position });
                },
                None => {},
            }
            let name = info.name.clone();
            let ghost before = names@;
            names.push(name);
            assert(names@.map_values(|n: String| n@) =~= before.map_values(|n: String| n@).push(info.name@));
        }
        k = k + 1;
    }
    assert(infos.subrange(0, io_tensors@.len() as int) =~= infos);
    assert forall|other: int| #![trigger first_unpassable_output(infos, other)] !first_unpassable_output(infos, other) by {}
    Ok(names)
}

/// `k` is the first response the executor marks final.
pub open spec fn first_final(is_final: Seq<i32>, k: int) -> bool {
    &&& 0 <= k < is_final.len()
    &&& is_final[k] != 0
    &&& forall|j: int| 0 <= j < k ==> #[trigger] is_final[j] == 0
}

/// Which of `count` responses is the final one: none when there are no
/// responses or none is final, an error when the executor gave responses
/// but no buffer; `is_final` holds each response's final flag.
pub fn final_response_index(is_final: Option<&[i32]>, count: usize) -> (r: Result<Option<usize>, Error>)
    requires
        is_final matches Some(s) ==> s@.len() == count,
    ensures
        count == 0 ==> r == Ok::<Option<usize>, Error>(None),
        count > 0 && is_final is None ==> (r matches Err(Error::Executor(m))
            && m@ == "TensorRT-LLM Executor returned a null response pointer"@),
        count > 0 && is_final is Some ==> {
            &&& (forall|j: int| 0 <= j < count ==> #[trigger] is_final->0@[j] == 0) ==> r == Ok::<Option<usize>, Error>(None)
            &&& forall|k: int| #![trigger first_final(is_final->0@, k)] first_final(is_final->0@, k) ==> r == Ok::<Option<usize>, Error>(Some(k as usize))
        },
{
    if count == 0 {
        return Ok(None);
    }
    let flags = match is_final {
        Some(s) => s,
        None => return Err(Error::Executor(owned("TensorRT-LLM Executor returned a null response pointer"))),
    };
    let mut k: usize = 0;
    while k < flags.len()
        invariant
            is_final == Some(flags),
            count > 0,
            flags@.len() == count,
            k <= flags@.len(),
            forall|j: int| 0 <= j < k ==> #[trigger] flags@[j] == 0,
        decreases flags@.len() - k,
    {
        if flags[k] != 0 {
            assert(is_final->0@[k as int] != 0);
            assert(first_final(flags@, k as int));
            assert forall|other: int| #![trigger first_final(flags@, other)] first_final(flags@, other) implies other == k by {
                if other < k {
                } else if other > k {
                }
            }
            return Ok(Some(k));
        }
        k = k + 1;
    }
    assert forall|other: int| #![trigger first_final(flags@, other)] !first_final(flags@, other) by {}
    Ok(None)
}

/// The error the executor reported; `message` is `None` when it gave no
/// text.
pub fn executor_error(message: Option<String>) -> (r: Error)
    ensures
        r matches Error::Executor(m) && m@ == match message {
            Some(t) => t@,
            None => "unknown TensorRT-LLM Executor error"@,
        },
{
    match message {
        Some(t) => Error::Executor(t),
        None => Error::Executor(owned("unknown TensorRT-LLM Executor error")),
    }
}

} // verus!
