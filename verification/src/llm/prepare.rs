//! A request as the executor's C ABI takes it: every setting with its
//! presence flag, the word lists and retention ranges it builds, and the
//! tensors it reads, each checked first.

use vstd::prelude::*;
use crate::dtype::DType;
use crate::llm::builder::{
    EncodedEagleConfig, EncodedLookaheadConfig, EncodedStringList, EncodedWordList, copy_opt_text, empty_word_list,
    flag, flag_value, has, no_word_list, or_zero, or_zero_bits, same_opt_text, string_list, string_list_of,
    word_list_of, zero_bits_if_none, zero_if_none,
};
use crate::llm::error::Error;
use crate::llm::executor::{
    first_bad_range, first_empty_word, range_passes, sampling_passes, words_ok,
    EmbeddingBiasBuffer, PromptEmbedding, TensorLayout, ValidationProfile, embedding_bias_outcome,
    embedding_bias_passes, layout_error, layout_matches, layout_ok, prompt_embedding_outcome, prompt_embedding_passes,
    request_checks_outcome, tensor_layout,
};
use crate::llm::request::{
    ContextPhaseParams, EagleConfig, ExternalDraftTokensConfig, GuidedDecodingParams, KvCacheRetentionConfig,
    KvCacheTokenRangeRetentionConfig, LookaheadConfig, MultimodalInput, Request, spec_guide_type_code,
    spec_request_type_code, spec_transfer_mode_code,
};
use crate::llm::sampling::{EncodedSamplingConfig, SamplingConfig, first_non_finite, floats_ok, sampling_encodes, sampling_outcome, setting_ok, float_settings};
use crate::llm::word_list::{WordListBuffer, borrowed_words, flatten};

verus! {

/// An optional count, zero when absent.
pub open spec fn or_zero_u64(o: Option<u64>) -> u64 {
    match o {
        Some(v) => v,
        None => 0,
    }
}

/// The length of an optional slice, zero when absent.
pub open spec fn opt_len<T>(o: Option<&[T]>) -> usize {
    match o {
        Some(s) => s@.len() as usize,
        None => 0,
    }
}

/// Flattens borrowed words.
fn borrowed_word_list(words: &[&[i32]]) -> (r: EncodedWordList)
    requires
        flatten(borrowed_words(words@)).len() <= usize::MAX,
    ensures
        word_list_of(borrowed_words(words@), r),
{
    let buffer = WordListBuffer::from_slices(words);
    let token_count = buffer.token_count();
    let offset_count = buffer.offset_count();
    EncodedWordList { tokens: buffer.tokens, token_count, offsets: buffer.offsets, offset_count }
}

/// One retention range as the C ABI takes it.
#[derive(Clone, Copy, Debug)]
pub struct EncodedRetentionRange {
    pub token_start: i32,
    pub has_token_end: i32,
    pub token_end: i32,
    pub priority: i32,
    pub has_duration_ms: i32,
    pub duration_ms: u64,
}

/// `e` encodes the retention range `r`.
pub open spec fn range_encodes(r: KvCacheTokenRangeRetentionConfig, e: EncodedRetentionRange) -> bool {
    &&& e.token_start == r.token_start
    &&& e.has_token_end == has(r.token_end) && e.token_end == or_zero(r.token_end)
    &&& e.priority == r.priority
    &&& e.has_duration_ms == has(r.duration_ms) && e.duration_ms == or_zero_u64(r.duration_ms)
}

/// KV cache retention as the C ABI takes it, with its ranges and directory
/// held here.
#[derive(Clone, Debug)]
pub struct EncodedRetention {
    pub ranges: Vec<EncodedRetentionRange>,
    pub range_count: usize,
    pub decode_retention_priority: i32,
    pub has_decode_duration_ms: i32,
    pub decode_duration_ms: u64,
    pub transfer_mode: i32,
    pub directory: Option<String>,
}

/// `e` encodes the retention settings, or is all zero without them.
pub open spec fn retention_encodes(c: Option<KvCacheRetentionConfig>, e: EncodedRetention) -> bool {
    match c {
        Some(c) => {
            &&& e.ranges@.len() == c.ranges@.len() && e.range_count == c.ranges@.len()
            &&& forall|k: int| 0 <= k < c.ranges@.len() ==> range_encodes(c.ranges@[k], #[trigger] e.ranges@[k])
            &&& e.decode_retention_priority == c.decode_retention_priority
            &&& e.has_decode_duration_ms == has(c.decode_duration_ms)
            &&& e.decode_duration_ms == or_zero_u64(c.decode_duration_ms)
            &&& e.transfer_mode == spec_transfer_mode_code(c.transfer_mode)
            &&& same_opt_text(e.directory, c.directory)
        },
        None => {
            &&& e.ranges@.len() == 0 && e.range_count == 0 && e.decode_retention_priority == 0
            &&& e.has_decode_duration_ms == 0 && e.decode_duration_ms == 0 && e.transfer_mode == 0
            &&& e.directory is None
        },
    }
}

/// Encodes the retention settings.
fn encode_retention(c: &Option<KvCacheRetentionConfig>) -> (r: EncodedRetention)
    ensures
        retention_encodes(*c, r),
{
    match c {
        Some(c) => {
            let mut ranges: Vec<EncodedRetentionRange> = Vec::new();
            let mut k: usize = 0;
            while k < c.ranges.len()
                invariant
                    k <= c.ranges@.len(),
                    ranges@.len() == k,
                    forall|j: int| 0 <= j < k ==> range_encodes(c.ranges@[j], #[trigger] ranges@[j]),
                decreases c.ranges@.len() - k,
            {
                let range = c.ranges[k];
                let encoded = EncodedRetentionRange {
                    token_start: range.token_start,
                    has_token_end: flag_value(range.token_end.is_some()),
                    token_end: zero_if_none(range.token_end),
                    priority: range.priority,
                    has_duration_ms: flag_value(range.duration_ms.is_some()),
                    duration_ms: match range.duration_ms {
                        Some(d) => d,
                        None => 0,
                    },
                };
                ranges.push(encoded);
                k = k + 1;
            }
            let range_count = ranges.len();
            EncodedRetention {
                ranges,
                range_count,
                decode_retention_priority: c.decode_retention_priority,
                has_decode_duration_ms: flag_value(c.decode_duration_ms.is_some()),
                decode_duration_ms: match c.decode_duration_ms {
                    Some(d) => d,
                    None => 0,
                },
                transfer_mode: c.transfer_mode.as_i32(),
                directory: copy_opt_text(&c.directory),
            }
        },
        None => EncodedRetention {
            ranges: Vec::new(),
            range_count: 0,
            decode_retention_priority: 0,
            has_decode_duration_ms: 0,
            decode_duration_ms: 0,
            transfer_mode: 0,
            directory: None,
        },
    }
}

/// External draft tokens as the C ABI takes them, besides the tokens and
/// logits it reads in place.
#[derive(Clone, Copy, Debug)]
pub struct EncodedExternalDraft {
    pub token_count: usize,
    pub has_acceptance_threshold: i32,
    pub acceptance_threshold: u32,
    pub has_fast_logits: i32,
    pub fast_logits: i32,
}

/// `e` encodes the external draft tokens, or is all zero without them.
pub open spec fn external_draft_encodes(c: Option<ExternalDraftTokensConfig>, e: EncodedExternalDraft) -> bool {
    match c {
        Some(c) => {
            &&& e.token_count == c.tokens@.len()
            &&& e.has_acceptance_threshold == has(c.acceptance_threshold)
            &&& e.acceptance_threshold == or_zero_bits(c.acceptance_threshold)
            &&& e.has_fast_logits == has(c.fast_logits)
            &&& e.fast_logits == match c.fast_logits {
                Some(b) => flag(b),
                None => 0,
            }
        },
        None => e.token_count == 0 && e.has_acceptance_threshold == 0 && e.acceptance_threshold == 0
            && e.has_fast_logits == 0 && e.fast_logits == 0,
    }
}

/// Encodes the external draft tokens.
fn encode_external_draft(c: &Option<ExternalDraftTokensConfig>) -> (r: EncodedExternalDraft)
    ensures
        external_draft_encodes(*c, r),
{
    match c {
        Some(c) => EncodedExternalDraft {
            token_count: c.tokens.len(),
            has_acceptance_threshold: flag_value(c.acceptance_threshold.is_some()),
            acceptance_threshold: zero_bits_if_none(c.acceptance_threshold),
            has_fast_logits: flag_value(c.fast_logits.is_some()),
            fast_logits: match c.fast_logits {
                Some(b) => flag_value(b),
                None => 0,
            },
        },
        None => EncodedExternalDraft {
            token_count: 0,
            has_acceptance_threshold: 0,
            acceptance_threshold: 0,
            has_fast_logits: 0,
            fast_logits: 0,
        },
    }
}

/// Multimodal input as the C ABI takes it, with its hashes and UUIDs held
/// here.
#[derive(Clone, Debug)]
pub struct EncodedMultimodalInput {
    pub hashes: EncodedWordList,
    pub position_count: usize,
    pub length_count: usize,
    pub uuids: Vec<Option<String>>,
    pub uuid_count: usize,
}

/// Two lists of optional strings hold the same texts.
pub open spec fn same_opt_texts(a: Seq<Option<String>>, b: Seq<Option<String>>) -> bool {
    &&& a.len() == b.len()
    &&& forall|k: int| 0 <= k < a.len() ==> same_opt_text(#[trigger] a[k], b[k])
}

/// `e` encodes the multimodal input, or is empty without it.
pub open spec fn multimodal_encodes(c: Option<MultimodalInput>, e: EncodedMultimodalInput) -> bool {
    match c {
        Some(c) => {
            &&& word_list_of(borrowed_words(c.hashes@), e.hashes)
            &&& e.position_count == c.positions@.len() && e.length_count == c.lengths@.len()
            &&& same_opt_texts(e.uuids@, c.uuids@) && e.uuid_count == c.uuids@.len()
        },
        None => empty_word_list(e.hashes) && e.position_count == 0 && e.length_count == 0 && e.uuids@.len() == 0
            && e.uuid_count == 0,
    }
}

/// Copies a list of optional strings.
fn copy_opt_texts(v: &Vec<Option<String>>) -> (r: Vec<Option<String>>)
    ensures
        same_opt_texts(r@, v@),
{
    let mut out: Vec<Option<String>> = Vec::new();
    let mut k: usize = 0;
    while k < v.len()
        invariant
            k <= v@.len(),
            out@.len() == k,
            forall|j: int| 0 <= j < k ==> same_opt_text(#[trigger] out@[j], v@[j]),
        decreases v@.len() - k,
    {
        out.push(copy_opt_text(&v[k]));
        k = k + 1;
    }
    out
}

/// Encodes the multimodal input.
fn encode_multimodal(c: &Option<MultimodalInput>) -> (r: EncodedMultimodalInput)
    requires
        c matches Some(m) ==> flatten(borrowed_words(m.hashes@)).len() <= usize::MAX,
    ensures
        multimodal_encodes(*c, r),
{
    match c {
        Some(m) => {
            let uuids = copy_opt_texts(&m.uuids);
            let uuid_count = uuids.len();
            EncodedMultimodalInput {
                hashes: borrowed_word_list(m.hashes.as_slice()),
                position_count: m.positions.len(),
                length_count: m.lengths.len(),
                uuids,
                uuid_count,
            }
        },
        None => EncodedMultimodalInput {
            hashes: no_word_list(),
            position_count: 0,
            length_count: 0,
            uuids: Vec::new(),
            uuid_count: 0,
        },
    }
}

/// Context phase parameters as the C ABI takes them, besides the buffers it
/// reads in place.
#[derive(Clone, Debug)]
pub struct EncodedContextPhase {
    pub first_gen_token_count: usize,
    pub request_id: u64,
    pub serialized_state_len: usize,
    pub draft_token_count: usize,
    pub has_ctx_dp_rank: i32,
    pub ctx_dp_rank: i32,
    pub disagg_info_endpoint: Option<String>,
}

/// `e` encodes the context phase parameters, or is all zero without them.
pub open spec fn context_phase_encodes(c: Option<ContextPhaseParams>, e: EncodedContextPhase) -> bool {
    match c {
        Some(c) => {
            &&& e.first_gen_token_count == c.first_gen_tokens@.len() && e.request_id == c.request_id
            &&& e.serialized_state_len == opt_len(c.serialized_state)
            &&& e.draft_token_count == opt_len(c.draft_tokens)
            &&& e.has_ctx_dp_rank == has(c.ctx_dp_rank) && e.ctx_dp_rank == or_zero(c.ctx_dp_rank)
            &&& same_opt_text(e.disagg_info_endpoint, c.disagg_info_endpoint)
        },
        None => e.first_gen_token_count == 0 && e.request_id == 0 && e.serialized_state_len == 0
            && e.draft_token_count == 0 && e.has_ctx_dp_rank == 0 && e.ctx_dp_rank == 0
            && e.disagg_info_endpoint is None,
    }
}

/// Encodes the context phase parameters.
fn encode_context_phase(c: &Option<ContextPhaseParams>) -> (r: EncodedContextPhase)
    ensures
        context_phase_encodes(*c, r),
{
    match c {
        Some(c) => EncodedContextPhase {
            first_gen_token_count: c.first_gen_tokens.len(),
            request_id: c.request_id,
            serialized_state_len: match c.serialized_state {
                Some(s) => s.len(),
                None => 0,
            },
            draft_token_count: match c.draft_tokens {
                Some(s) => s.len(),
                None => 0,
            },
            has_ctx_dp_rank: flag_value(c.ctx_dp_rank.is_some()),
            ctx_dp_rank: zero_if_none(c.ctx_dp_rank),
            disagg_info_endpoint: copy_opt_text(&c.disagg_info_endpoint),
        },
        None => EncodedContextPhase {
            first_gen_token_count: 0,
            request_id: 0,
            serialized_state_len: 0,
            draft_token_count: 0,
            has_ctx_dp_rank: 0,
            ctx_dp_rank: 0,
            disagg_info_endpoint: None,
        },
    }
}

/// `e` encodes a request's EAGLE settings, or is all zero without them.
pub open spec fn request_eagle_encodes(c: Option<EagleConfig>, e: EncodedEagleConfig) -> bool {
    match c {
        Some(c) => {
            &&& word_list_of(borrowed_words(c.choices@), e.choices)
            &&& e.greedy_sampling == flag(c.greedy_sampling)
            &&& e.has_posterior_threshold == has(c.posterior_threshold)
            &&& e.posterior_threshold == or_zero_bits(c.posterior_threshold)
            &&& e.use_dynamic_tree == flag(c.use_dynamic_tree)
            &&& e.has_dynamic_tree_max_top_k == has(c.dynamic_tree_max_top_k)
            &&& e.dynamic_tree_max_top_k == or_zero(c.dynamic_tree_max_top_k)
        },
        None => empty_word_list(e.choices) && e.greedy_sampling == 0 && e.has_posterior_threshold == 0
            && e.posterior_threshold == 0 && e.use_dynamic_tree == 0 && e.has_dynamic_tree_max_top_k == 0
            && e.dynamic_tree_max_top_k == 0,
    }
}

/// Encodes a request's EAGLE settings.
fn encode_request_eagle(c: &Option<EagleConfig>) -> (r: EncodedEagleConfig)
    requires
        c matches Some(e) ==> flatten(borrowed_words(e.choices@)).len() <= usize::MAX,
    ensures
        request_eagle_encodes(*c, r),
{
    match c {
        Some(c) => EncodedEagleConfig {
            choices: borrowed_word_list(c.choices.as_slice()),
            greedy_sampling: flag_value(c.greedy_sampling),
            has_posterior_threshold: flag_value(c.posterior_threshold.is_some()),
            posterior_threshold: zero_bits_if_none(c.posterior_threshold),
            use_dynamic_tree: flag_value(c.use_dynamic_tree),
            has_dynamic_tree_max_top_k: flag_value(c.dynamic_tree_max_top_k.is_some()),
            dynamic_tree_max_top_k: zero_if_none(c.dynamic_tree_max_top_k),
        },
        None => EncodedEagleConfig {
            choices: no_word_list(),
            greedy_sampling: 0,
            has_posterior_threshold: 0,
            posterior_threshold: 0,
            use_dynamic_tree: 0,
            has_dynamic_tree_max_top_k: 0,
            dynamic_tree_max_top_k: 0,
        },
    }
}

/// A guide as the C ABI takes it, with its text held here.
#[derive(Clone, Debug)]
pub struct EncodedGuidedParams {
    pub guide_type: i32,
    pub guide: Option<String>,
}

/// `e` encodes the guide, or is empty without one.
pub open spec fn guided_params_encodes(c: Option<GuidedDecodingParams>, e: EncodedGuidedParams) -> bool {
    match c {
        Some(c) => e.guide_type == spec_guide_type_code(c.guide_type) && same_opt_text(e.guide, c.guide),
        None => e.guide_type == 0 && e.guide is None,
    }
}

/// `e` encodes the lookahead settings, or is all zero without them.
pub open spec fn lookahead_encodes(c: Option<LookaheadConfig>, e: EncodedLookaheadConfig) -> bool {
    match c {
        Some(c) => e.window_size == c.window_size && e.ngram_size == c.ngram_size && e.verification_set_size
            == c.verification_set_size,
        None => e.window_size == 0 && e.ngram_size == 0 && e.verification_set_size == 0,
    }
}

/// A request as the executor's C ABI takes it, besides the buffers it reads
/// in place (input ids, positions, draft and encoder tokens, tensor bytes):
/// their lengths, every setting with its presence flag, and the lists it
/// builds.
#[derive(Clone, Debug)]
pub struct EncodedRequest {
    pub input_len: usize,
    pub max_new_tokens: i32,
    pub streaming: i32,
    pub has_end_id: i32,
    pub end_id: i32,
    pub has_pad_id: i32,
    pub pad_id: i32,
    pub sampling: EncodedSamplingConfig,
    pub prompt_embedding_rows: usize,
    pub prompt_embedding_hidden_size: usize,
    pub prompt_embedding_data_type: i32,
    pub input_token_extra_ids: Vec<u64>,
    pub position_ids_len: usize,
    pub bad_words: EncodedWordList,
    pub stop_words: EncodedWordList,
    pub embedding_bias_len: usize,
    pub embedding_bias_data_type: i32,
    pub has_external_draft_tokens_config: i32,
    pub external_draft_tokens_config: EncodedExternalDraft,
    pub has_multimodal_input: i32,
    pub multimodal_input: EncodedMultimodalInput,
    pub has_mrope_config: i32,
    pub mrope_position_deltas: i32,
    pub has_lora_config: i32,
    pub lora_task_id: u64,
    pub has_lookahead_config: i32,
    pub lookahead_config: EncodedLookaheadConfig,
    pub has_kv_cache_retention_config: i32,
    pub kv_cache_retention_config: EncodedRetention,
    pub logits_post_processor_name: Option<String>,
    pub encoder_input_token_count: usize,
    pub additional_outputs: EncodedStringList,
    pub return_log_probs: i32,
    pub return_context_logits: i32,
    pub return_generation_logits: i32,
    pub exclude_input_from_output: i32,
    pub return_encoder_output: i32,
    pub return_all_generated_tokens: i32,
    pub has_client_id: i32,
    pub client_id: u64,
    pub has_priority: i32,
    pub priority: u32,
    pub request_type: i32,
    pub has_context_phase_params: i32,
    pub context_phase_params: EncodedContextPhase,
    pub has_encoder_output_length: i32,
    pub encoder_output_length: i32,
    pub has_eagle_config: i32,
    pub eagle_config: EncodedEagleConfig,
    pub has_guided_decoding_params: i32,
    pub guided_decoding_params: EncodedGuidedParams,
    pub has_language_adapter_uid: i32,
    pub language_adapter_uid: i32,
    pub has_allotted_time_ms: i32,
    pub allotted_time_ms: u64,
    pub has_cache_salt_id: i32,
    pub cache_salt_id: u64,
    pub has_disagg_request_id: i32,
    pub disagg_request_id: u64,
}

/// Every word list of a request fits the address space once flattened.
pub open spec fn request_words_fit(q: Request) -> bool {
    &&& flatten(borrowed_words(q.bad_words@)).len() <= usize::MAX
    &&& flatten(borrowed_words(q.stop_words@)).len() <= usize::MAX
    &&& q.multimodal_input matches Some(m) ==> flatten(borrowed_words(m.hashes@)).len() <= usize::MAX
    &&& q.eagle_config matches Some(c) ==> flatten(borrowed_words(c.choices@)).len() <= usize::MAX
}

/// `e` carries the checked prompt table, or the engine's type with no table.
pub open spec fn prompt_encodes(p: ValidationProfile, prompt: Option<PromptEmbedding>, e: EncodedRequest) -> bool {
    match prompt {
        Some(pe) => {
            &&& e.prompt_embedding_rows == pe.rows && e.prompt_embedding_hidden_size == p.hidden_size
            &&& e.prompt_embedding_data_type == pe.layout.executor_data_type
            &&& e.input_token_extra_ids@ == pe.input_token_extra_ids.ids()
        },
        None => e.prompt_embedding_rows == 0 && e.prompt_embedding_hidden_size == 0 && e.prompt_embedding_data_type
            == p.executor_data_type && e.input_token_extra_ids@.len() == 0,
    }
}

/// `e` carries the checked embedding bias, or the engine's type without one.
pub open spec fn bias_encodes(p: ValidationProfile, bias: Option<EmbeddingBiasBuffer>, e: EncodedRequest) -> bool {
    match bias {
        Some(b) => e.embedding_bias_len == b.len && e.embedding_bias_data_type == b.layout.executor_data_type,
        None => e.embedding_bias_len == 0 && e.embedding_bias_data_type == p.executor_data_type,
    }
}

/// `e` encodes the request's plain settings: lengths, ids, flags and
/// counters, each optional one with its presence flag and zero when absent.
#[verifier::opaque]
pub open spec fn request_settings_encode(q: Request, e: EncodedRequest) -> bool {
    &&& e.input_len == q.input_ids@.len() && e.max_new_tokens == q.max_new_tokens && e.streaming == 0
    &&& e.has_end_id == has(q.end_id) && e.end_id == or_zero(q.end_id)
    &&& e.has_pad_id == has(q.pad_id) && e.pad_id == or_zero(q.pad_id)
    &&& e.position_ids_len == opt_len(q.position_ids)
    &&& e.has_mrope_config == has(q.mrope_config) && e.mrope_position_deltas == match q.mrope_config {
        Some(c) => c.position_deltas,
        None => 0,
    }
    &&& e.has_lora_config == has(q.lora_config) && e.lora_task_id == match q.lora_config {
        Some(c) => c.task_id,
        None => 0,
    }
    &&& same_opt_text(e.logits_post_processor_name, q.logits_post_processor_name)
    &&& e.encoder_input_token_count == opt_len(q.encoder_input_token_ids)
    &&& e.return_log_probs == flag(q.return_log_probs)
    &&& e.return_context_logits == flag(q.return_context_logits)
    &&& e.return_generation_logits == flag(q.return_generation_logits)
    &&& e.exclude_input_from_output == flag(q.exclude_input_from_output)
    &&& e.return_encoder_output == flag(q.return_encoder_output)
    &&& e.return_all_generated_tokens == flag(q.return_all_generated_tokens)
    &&& e.has_client_id == has(q.client_id) && e.client_id == or_zero_u64(q.client_id)
    &&& e.has_priority == has(q.priority) && e.priority == or_zero_bits(q.priority)
    &&& e.request_type == spec_request_type_code(q.request_type)
    &&& e.has_encoder_output_length == has(q.encoder_output_length)
    &&& e.encoder_output_length == or_zero(q.encoder_output_length)
    &&& e.has_language_adapter_uid == has(q.language_adapter_uid)
    &&& e.language_adapter_uid == or_zero(q.language_adapter_uid)
    &&& e.has_allotted_time_ms == has(q.allotted_time_ms) && e.allotted_time_ms == or_zero_u64(q.allotted_time_ms)
    &&& e.has_cache_salt_id == has(q.cache_salt_id) && e.cache_salt_id == or_zero_u64(q.cache_salt_id)
    &&& e.has_disagg_request_id == has(q.disagg_request_id)
    &&& e.disagg_request_id == or_zero_u64(q.disagg_request_id)
}

/// `e` encodes the request's structured settings: sampling, word lists,
/// extensions and output names.
#[verifier::opaque]
pub open spec fn request_parts_encode(q: Request, e: EncodedRequest) -> bool {
    &&& sampling_encodes(q.sampling, e.sampling)
    &&& word_list_of(borrowed_words(q.bad_words@), e.bad_words)
    &&& word_list_of(borrowed_words(q.stop_words@), e.stop_words)
    &&& e.has_external_draft_tokens_config == has(q.external_draft_tokens_config)
    &&& external_draft_encodes(q.external_draft_tokens_config, e.external_draft_tokens_config)
    &&& e.has_multimodal_input == has(q.multimodal_input)
    &&& multimodal_encodes(q.multimodal_input, e.multimodal_input)
    &&& e.has_lookahead_config == has(q.lookahead_config)
    &&& lookahead_encodes(q.lookahead_config, e.lookahead_config)
    &&& e.has_kv_cache_retention_config == has(q.kv_cache_retention_config)
    &&& retention_encodes(q.kv_cache_retention_config, e.kv_cache_retention_config)
    &&& string_list_of(q.additional_outputs@, e.additional_outputs)
    &&& e.has_context_phase_params == has(q.context_phase_params)
    &&& context_phase_encodes(q.context_phase_params, e.context_phase_params)
    &&& e.has_eagle_config == has(q.eagle_config)
    &&& request_eagle_encodes(q.eagle_config, e.eagle_config)
    &&& e.has_guided_decoding_params == has(q.guided_decoding_params)
    &&& guided_params_encodes(q.guided_decoding_params, e.guided_decoding_params)
}

/// `e` encodes the request `q` with its checked prompt table and embedding
/// bias.
pub open spec fn request_encodes(
    p: ValidationProfile,
    q: Request,
    prompt: Option<PromptEmbedding>,
    bias: Option<EmbeddingBiasBuffer>,
    e: EncodedRequest,
) -> bool {
    &&& request_settings_encode(q, e)
    &&& request_parts_encode(q, e)
    &&& prompt_encodes(p, prompt, e)
    &&& bias_encodes(p, bias, e)
}

/// Copies the extra ids of a prompt table.
fn copy_u64s(s: &[u64]) -> (r: Vec<u64>)
    ensures
        r@ == s@,
{
    let mut out: Vec<u64> = Vec::new();
    let mut k: usize = 0;
    while k < s.len()
        invariant
            k <= s@.len(),
            out@ == s@.subrange(0, k as int),
        decreases s@.len() - k,
    {
        out.push(s[k]);
        k = k + 1;
    }
    assert(s@.subrange(0, s@.len() as int) =~= s@);
    out
}

impl ValidationProfile {
    /// Encodes a checked request with its checked prompt table and embedding
    /// bias.
    #[verifier::spinoff_prover]
    #[verifier::rlimit(50)]
    pub fn encode_request(
        &self,
        request: &Request<'_>,
        prompt: &Option<PromptEmbedding<'_>>,
        bias: &Option<EmbeddingBiasBuffer>,
    ) -> (r: EncodedRequest)
        requires
            request_words_fit(*request),
        ensures
            request_encodes(*self, *request, *prompt, *bias, r),
    {
        let (prompt_embedding_rows, prompt_embedding_hidden_size, prompt_embedding_data_type, input_token_extra_ids) =
            match prompt {
            Some(pe) => (pe.rows, self.hidden_size, pe.layout.executor_data_type, copy_u64s(pe.input_token_extra_ids.as_slice())),
            None => (0, 0, self.executor_data_type, Vec::new()),
        };
        let (embedding_bias_len, embedding_bias_data_type) = match bias {
            Some(b) => (b.len, b.layout.executor_data_type),
            None => (0, self.executor_data_type),
        };
        let lookahead_config = match request.lookahead_config {
            Some(c) => EncodedLookaheadConfig {
                window_size: c.window_size,
                ngram_size: c.ngram_size,
                verification_set_size: c.verification_set_size,
            },
            None => EncodedLookaheadConfig { window_size: 0, ngram_size: 0, verification_set_size: 0 },
        };
        let guided_decoding_params = match &request.guided_decoding_params {
            Some(g) => EncodedGuidedParams { guide_type: g.guide_type.as_i32(), guide: copy_opt_text(&g.guide) },
            None => EncodedGuidedParams { guide_type: 0, guide: None },
        };
        let e = EncodedRequest {
            input_len: request.input_ids.len(),
            max_new_tokens: request.max_new_tokens,
            streaming: 0,
            has_end_id: flag_value(request.end_id.is_some()),
            end_id: zero_if_none(request.end_id),
            has_pad_id: flag_value(request.pad_id.is_some()),
            pad_id: zero_if_none(request.pad_id),
            sampling: request.sampling.as_sys(),
            prompt_embedding_rows,
            prompt_embedding_hidden_size,
            prompt_embedding_data_type,
            input_token_extra_ids,
            position_ids_len: match request.position_ids {
                Some(s) => s.len(),
                None => 0,
            },
            bad_words: borrowed_word_list(request.bad_words.as_slice()),
            stop_words: borrowed_word_list(request.stop_words.as_slice()),
            embedding_bias_len,
            embedding_bias_data_type,
            has_external_draft_tokens_config: flag_value(request.external_draft_tokens_config.is_some()),
            external_draft_tokens_config: encode_external_draft(&request.external_draft_tokens_config),
            has_multimodal_input: flag_value(request.multimodal_input.is_some()),
            multimodal_input: encode_multimodal(&request.multimodal_input),
            has_mrope_config: flag_value(request.mrope_config.is_some()),
            mrope_position_deltas: match &request.mrope_config {
                Some(c) => c.position_deltas,
                None => 0,
            },
            has_lora_config: flag_value(request.lora_config.is_some()),
            lora_task_id: match &request.lora_config {
                Some(c) => c.task_id,
                None => 0,
            },
            has_lookahead_config: flag_value(request.lookahead_config.is_some()),
            lookahead_config,
            has_kv_cache_retention_config: flag_value(request.kv_cache_retention_config.is_some()),
            kv_cache_retention_config: encode_retention(&request.kv_cache_retention_config),
            logits_post_processor_name: copy_opt_text(&request.logits_post_processor_name),
            encoder_input_token_count: match request.encoder_input_token_ids {
                Some(s) => s.len(),
                None => 0,
            },
            additional_outputs: string_list(request.additional_outputs.as_slice()),
            return_log_probs: flag_value(request.return_log_probs),
            return_context_logits: flag_value(request.return_context_logits),
            return_generation_logits: flag_value(request.return_generation_logits),
            exclude_input_from_output: flag_value(request.exclude_input_from_output),
            return_encoder_output: flag_value(request.return_encoder_output),
            return_all_generated_tokens: flag_value(request.return_all_generated_tokens),
            has_client_id: flag_value(request.client_id.is_some()),
            client_id: match request.client_id {
                Some(v) => v,
                None => 0,
            },
            has_priority: flag_value(request.priority.is_some()),
            priority: zero_bits_if_none(request.priority),
            request_type: request.request_type.as_i32(),
            has_context_phase_params: flag_value(request.context_phase_params.is_some()),
            context_phase_params: encode_context_phase(&request.context_phase_params),
            has_encoder_output_length: flag_value(request.encoder_output_length.is_some()),
            encoder_output_length: zero_if_none(request.encoder_output_length),
            has_eagle_config: flag_value(request.eagle_config.is_some()),
            eagle_config: encode_request_eagle(&request.eagle_config),
            has_guided_decoding_params: flag_value(request.guided_decoding_params.is_some()),
            guided_decoding_params,
            has_language_adapter_uid: flag_value(request.language_adapter_uid.is_some()),
            language_adapter_uid: zero_if_none(request.language_adapter_uid),
            has_allotted_time_ms: flag_value(request.allotted_time_ms.is_some()),
            allotted_time_ms: match request.allotted_time_ms {
                Some(v) => v,
                None => 0,
            },
            has_cache_salt_id: flag_value(request.cache_salt_id.is_some()),
            cache_salt_id: match request.cache_salt_id {
                Some(v) => v,
                None => 0,
            },
            has_disagg_request_id: flag_value(request.disagg_request_id.is_some()),
            disagg_request_id: match request.disagg_request_id {
                Some(v) => v,
                None => 0,
            },
        };
        proof {
            reveal(request_settings_encode);
            reveal(request_parts_encode);
        }
        e
    }
}

/// What the executor reads of a tensor besides its bytes: its extents,
/// whether it is contiguous, and its element type.
#[derive(Clone, Debug)]
pub struct TensorMeta {
    pub dims: Vec<usize>,
    pub contiguous: bool,
    pub dtype: DType,
}

/// The tensors a request hands the executor, each as its metadata.
#[derive(Clone, Debug)]
pub struct RequestTensorMeta {
    pub prompt_embeddings: Option<TensorMeta>,
    pub embedding_bias: Option<TensorMeta>,
    pub external_draft_logits: Option<TensorMeta>,
    pub multimodal_embedding: Option<TensorMeta>,
    pub mrope_rotary_cos_sin: Option<TensorMeta>,
    pub lora_weights: Option<TensorMeta>,
    pub lora_config: Option<TensorMeta>,
    pub encoder_input_features: Option<TensorMeta>,
    pub cross_attention_mask: Option<TensorMeta>,
    pub skip_cross_attn_blocks: Option<TensorMeta>,
}

/// The metadata describes exactly the tensors the request carries.
pub open spec fn meta_matches_request(m: RequestTensorMeta, q: Request) -> bool {
    &&& m.prompt_embeddings is Some <==> q.prompt_embeddings is Some
    &&& m.embedding_bias is Some <==> q.embedding_bias is Some
    &&& m.external_draft_logits is Some <==> (q.external_draft_tokens_config matches Some(c) && c.logits is Some)
    &&& m.multimodal_embedding is Some <==> q.multimodal_embedding is Some
    &&& m.mrope_rotary_cos_sin is Some <==> q.mrope_config is Some
    &&& m.lora_weights is Some <==> (q.lora_config matches Some(c) && c.weights is Some)
    &&& m.lora_config is Some <==> (q.lora_config matches Some(c) && c.config is Some)
    &&& m.encoder_input_features is Some <==> q.encoder_input_features is Some
    &&& m.cross_attention_mask is Some <==> q.cross_attention_mask is Some
    &&& m.skip_cross_attn_blocks is Some <==> q.skip_cross_attn_blocks is Some
}

/// The checked tensors of a request: its prompt table and embedding bias,
/// and the layout of each other tensor it carries.
pub struct RequestTensors<'a> {
    pub prompt: Option<PromptEmbedding<'a>>,
    pub embedding_bias: Option<EmbeddingBiasBuffer>,
    pub external_draft_logits: Option<TensorLayout>,
    pub multimodal_embedding: Option<TensorLayout>,
    pub mrope_rotary_cos_sin: Option<TensorLayout>,
    pub lora_weights: Option<TensorLayout>,
    pub lora_config: Option<TensorLayout>,
    pub encoder_input_features: Option<TensorLayout>,
    pub cross_attention_mask: Option<TensorLayout>,
    pub skip_cross_attn_blocks: Option<TensorLayout>,
}

/// A checked request ready for the executor: its tensors and its encoding.
pub struct PreparedRequest<'a> {
    pub tensors: RequestTensors<'a>,
    pub encoded: EncodedRequest,
}

/// An optional tensor passes its layout checks.
pub open spec fn opt_layout_ok(m: Option<TensorMeta>) -> bool {
    m matches Some(t) ==> layout_ok(t.dims@, t.contiguous, t.dtype)
}

/// `e` is the error of an optional tensor's first failing layout check.
pub open spec fn opt_layout_error(m: Option<TensorMeta>, e: Error) -> bool {
    layout_error(m->0.dims@, m->0.contiguous, m->0.dtype, e)
}

/// `l` is the layout of the optional tensor `m`.
pub open spec fn opt_layout_matches(m: Option<TensorMeta>, l: Option<TensorLayout>) -> bool {
    match m {
        Some(t) => l matches Some(x) && layout_matches(x, t.dims@, t.dtype),
        None => l is None,
    }
}

/// The result with its value dropped.
pub open spec fn unit_of<T>(r: Result<T, Error>) -> Result<(), Error> {
    match r {
        Ok(_) => Ok(()),
        Err(e) => Err(e),
    }
}

/// The request's own extra ids, as a sequence.
pub open spec fn given_extra_ids(q: Request) -> Option<Seq<u64>> {
    match q.prompt_embedding_token_extra_ids {
        Some(ids) => Some(ids@),
        None => None,
    }
}

/// The request passes its checks against the profile.
pub open spec fn request_checks_pass(p: ValidationProfile, q: Request) -> bool {
    request_checks_outcome(p, q, Ok(()))
}

/// The prompt table, when there is one, passes its checks.
pub open spec fn prompt_ok(p: ValidationProfile, q: Request, m: RequestTensorMeta) -> bool {
    m.prompt_embeddings matches Some(t) ==> prompt_embedding_passes(
        p,
        t.dims@,
        t.contiguous,
        t.dtype,
        q.input_ids@,
        given_extra_ids(q),
    )
}

/// The embedding bias, when there is one, passes its checks.
pub open spec fn bias_ok(p: ValidationProfile, m: RequestTensorMeta) -> bool {
    m.embedding_bias matches Some(t) ==> embedding_bias_passes(p, t.dims@, t.contiguous, t.dtype)
}

/// The layouts that a prepared request holds match its metadata.
pub open spec fn tensors_match(p: ValidationProfile, q: Request, m: RequestTensorMeta, t: RequestTensors) -> bool {
    &&& match m.prompt_embeddings {
        Some(x) => t.prompt matches Some(pe) && prompt_embedding_outcome(
            p,
            x.dims@,
            x.contiguous,
            x.dtype,
            q.input_ids@,
            given_extra_ids(q),
            Ok(pe),
        ),
        None => t.prompt is None,
    }
    &&& match m.embedding_bias {
        Some(x) => t.embedding_bias matches Some(b) && embedding_bias_outcome(p, x.dims@, x.contiguous, x.dtype, Ok(b)),
        None => t.embedding_bias is None,
    }
    &&& opt_layout_matches(m.external_draft_logits, t.external_draft_logits)
    &&& opt_layout_matches(m.multimodal_embedding, t.multimodal_embedding)
    &&& opt_layout_matches(m.mrope_rotary_cos_sin, t.mrope_rotary_cos_sin)
    &&& opt_layout_matches(m.lora_weights, t.lora_weights)
    &&& opt_layout_matches(m.lora_config, t.lora_config)
    &&& opt_layout_matches(m.encoder_input_features, t.encoder_input_features)
    &&& opt_layout_matches(m.cross_attention_mask, t.cross_attention_mask)
    &&& opt_layout_matches(m.skip_cross_attn_blocks, t.skip_cross_attn_blocks)
}

/// The outcome of preparing a request, check by check in the order they are
/// made: the request's own checks, its prompt table, its embedding bias,
/// then the layout of each other tensor; a request that passes them all is
/// encoded with its checked tensors.
pub open spec fn prepare_outcome(p: ValidationProfile, q: Request, m: RequestTensorMeta, r: Result<PreparedRequest, Error>) -> bool {
    if !request_checks_pass(p, q) {
        request_checks_outcome(p, q, unit_of(r))
    } else if !prompt_ok(p, q, m) {
        r matches Err(e) && prompt_embedding_outcome(
            p,
            m.prompt_embeddings->0.dims@,
            m.prompt_embeddings->0.contiguous,
            m.prompt_embeddings->0.dtype,
            q.input_ids@,
            given_extra_ids(q),
            Err(e),
        )
    } else if !bias_ok(p, m) {
        r matches Err(e) && embedding_bias_outcome(
            p,
            m.embedding_bias->0.dims@,
            m.embedding_bias->0.contiguous,
            m.embedding_bias->0.dtype,
            Err(e),
        )
    } else if !opt_layout_ok(m.external_draft_logits) {
        r matches Err(e) && opt_layout_error(m.external_draft_logits, e)
    } else if !opt_layout_ok(m.multimodal_embedding) {
        r matches Err(e) && opt_layout_error(m.multimodal_embedding, e)
    } else if !opt_layout_ok(m.mrope_rotary_cos_sin) {
        r matches Err(e) && opt_layout_error(m.mrope_rotary_cos_sin, e)
    } else if !opt_layout_ok(m.lora_weights) {
        r matches Err(e) && opt_layout_error(m.lora_weights, e)
    } else if !opt_layout_ok(m.lora_config) {
        r matches Err(e) && opt_layout_error(m.lora_config, e)
    } else if !opt_layout_ok(m.encoder_input_features) {
        r matches Err(e) && opt_layout_error(m.encoder_input_features, e)
    } else if !opt_layout_ok(m.cross_attention_mask) {
        r matches Err(e) && opt_layout_error(m.cross_attention_mask, e)
    } else if !opt_layout_ok(m.skip_cross_attn_blocks) {
        r matches Err(e) && opt_layout_error(m.skip_cross_attn_blocks, e)
    } else {
        r matches Ok(prep) && tensors_match(p, q, m, prep.tensors) && request_encodes(
            p,
            q,
            prep.tensors.prompt,
            prep.tensors.embedding_bias,
            prep.encoded,
        )
    }
}

/// The layout of an optional tensor.
fn opt_layout(m: &Option<TensorMeta>) -> (r: Result<Option<TensorLayout>, Error>)
    ensures
        opt_layout_ok(*m) ==> (r matches Ok(l) && opt_layout_matches(*m, l)),
        !opt_layout_ok(*m) ==> (r matches Err(e) && opt_layout_error(*m, e)),
{
    match m {
        Some(t) => match tensor_layout(t.dims.as_slice(), t.contiguous, t.dtype) {
            Ok(l) => Ok(Some(l)),
            Err(e) => Err(e),
        },
        None => Ok(None),
    }
}

/// The other tensors' layouts, checked in order.
struct OtherLayouts {
    external_draft_logits: Option<TensorLayout>,
    multimodal_embedding: Option<TensorLayout>,
    mrope_rotary_cos_sin: Option<TensorLayout>,
    lora_weights: Option<TensorLayout>,
    lora_config: Option<TensorLayout>,
    encoder_input_features: Option<TensorLayout>,
    cross_attention_mask: Option<TensorLayout>,
    skip_cross_attn_blocks: Option<TensorLayout>,
}

/// Every other tensor passes its layout checks.
pub open spec fn others_ok(m: RequestTensorMeta) -> bool {
    &&& opt_layout_ok(m.external_draft_logits)
    &&& opt_layout_ok(m.multimodal_embedding)
    &&& opt_layout_ok(m.mrope_rotary_cos_sin)
    &&& opt_layout_ok(m.lora_weights)
    &&& opt_layout_ok(m.lora_config)
    &&& opt_layout_ok(m.encoder_input_features)
    &&& opt_layout_ok(m.cross_attention_mask)
    &&& opt_layout_ok(m.skip_cross_attn_blocks)
}

/// The error of the first other tensor that fails its layout checks.
pub open spec fn others_error(m: RequestTensorMeta, e: Error) -> bool {
    if !opt_layout_ok(m.external_draft_logits) {
        opt_layout_error(m.external_draft_logits, e)
    } else if !opt_layout_ok(m.multimodal_embedding) {
        opt_layout_error(m.multimodal_embedding, e)
    } else if !opt_layout_ok(m.mrope_rotary_cos_sin) {
        opt_layout_error(m.mrope_rotary_cos_sin, e)
    } else if !opt_layout_ok(m.lora_weights) {
        opt_layout_error(m.lora_weights, e)
    } else if !opt_layout_ok(m.lora_config) {
        opt_layout_error(m.lora_config, e)
    } else if !opt_layout_ok(m.encoder_input_features) {
        opt_layout_error(m.encoder_input_features, e)
    } else if !opt_layout_ok(m.cross_attention_mask) {
        opt_layout_error(m.cross_attention_mask, e)
    } else {
        opt_layout_error(m.skip_cross_attn_blocks, e)
    }
}

/// Checks the other tensors' layouts in order.
fn other_layouts(m: &RequestTensorMeta) -> (r: Result<OtherLayouts, Error>)
    ensures
        others_ok(*m) ==> (r matches Ok(o) && opt_layout_matches(m.external_draft_logits, o.external_draft_logits)
            && opt_layout_matches(m.multimodal_embedding, o.multimodal_embedding) && opt_layout_matches(
            m.mrope_rotary_cos_sin,
            o.mrope_rotary_cos_sin,
        ) && opt_layout_matches(m.lora_weights, o.lora_weights) && opt_layout_matches(m.lora_config, o.lora_config)
            && opt_layout_matches(m.encoder_input_features, o.encoder_input_features) && opt_layout_matches(
            m.cross_attention_mask,
            o.cross_attention_mask,
        ) && opt_layout_matches(m.skip_cross_attn_blocks, o.skip_cross_attn_blocks)),
        !others_ok(*m) ==> (r matches Err(e) && others_error(*m, e)),
{
    let external_draft_logits = match opt_layout(&m.external_draft_logits) {
        Ok(l) => l,
        Err(e) => return Err(e),
    };
    let multimodal_embedding = match opt_layout(&m.multimodal_embedding) {
        Ok(l) => l,
        Err(e) => return Err(e),
    };
    let mrope_rotary_cos_sin = match opt_layout(&m.mrope_rotary_cos_sin) {
        Ok(l) => l,
        Err(e) => return Err(e),
    };
    let lora_weights = match opt_layout(&m.lora_weights) {
        Ok(l) => l,
        Err(e) => return Err(e),
    };
    let lora_config = match opt_layout(&m.lora_config) {
        Ok(l) => l,
        Err(e) => return Err(e),
    };
    let encoder_input_features = match opt_layout(&m.encoder_input_features) {
        Ok(l) => l,
        Err(e) => return Err(e),
    };
    let cross_attention_mask = match opt_layout(&m.cross_attention_mask) {
        Ok(l) => l,
        Err(e) => return Err(e),
    };
    let skip_cross_attn_blocks = match opt_layout(&m.skip_cross_attn_blocks) {
        Ok(l) => l,
        Err(e) => return Err(e),
    };
    Ok(OtherLayouts {
        external_draft_logits,
        multimodal_embedding,
        mrope_rotary_cos_sin,
        lora_weights,
        lora_config,
        encoder_input_features,
        cross_attention_mask,
        skip_cross_attn_blocks,
    })
}

impl ValidationProfile {
    /// Prepares a request for the executor: checks it, checks its prompt
    /// table and embedding bias against the engine and every other tensor's
    /// layout, then encodes it.
    #[verifier::spinoff_prover]
    #[verifier::rlimit(50)]
    pub fn prepare_request<'a>(&self, request: &Request<'a>, meta: &RequestTensorMeta) -> (r: Result<
        PreparedRequest<'a>,
        Error,
    >)
        requires
            meta_matches_request(*meta, *request),
            request_words_fit(*request),
        ensures
            prepare_outcome(*self, *request, *meta, r),
    {
        match self.validate_request(request) {
            Ok(()) => {},
            Err(e) => {
                proof {
                    lemma_checks_exclusive(*self, *request, e);
                }
                return Err(e);
            },
        }
        let prompt = match &meta.prompt_embeddings {
            Some(t) => match self.prompt_embedding(
                t.dims.as_slice(),
                t.contiguous,
                t.dtype,
                request.input_ids,
                request.prompt_embedding_token_extra_ids,
            ) {
                Ok(pe) => Some(pe),
                Err(e) => return Err(e),
            },
            None => None,
        };
        let embedding_bias = match &meta.embedding_bias {
            Some(t) => match self.embedding_bias(t.dims.as_slice(), t.contiguous, t.dtype) {
                Ok(b) => Some(b),
                Err(e) => return Err(e),
            },
            None => None,
        };
        let others = match other_layouts(meta) {
            Ok(o) => o,
            Err(e) => return Err(e),
        };
        let encoded = self.encode_request(request, &prompt, &embedding_bias);
        let tensors = RequestTensors {
            prompt,
            embedding_bias,
            external_draft_logits: others.external_draft_logits,
            multimodal_embedding: others.multimodal_embedding,
            mrope_rotary_cos_sin: others.mrope_rotary_cos_sin,
            lora_weights: others.lora_weights,
            lora_config: others.lora_config,
            encoder_input_features: others.encoder_input_features,
            cross_attention_mask: others.cross_attention_mask,
            skip_cross_attn_blocks: others.skip_cross_attn_blocks,
        };
        Ok(PreparedRequest { tensors, encoded })
    }
}

/// A failing floating-point setting has a first one.
proof fn lemma_some_first_non_finite(s: SamplingConfig, i: int, j: int)
    requires
        0 <= i <= j < 10,
        !setting_ok(float_settings(s)[j].1),
        forall|k: int| 0 <= k < i ==> #[trigger] setting_ok(float_settings(s)[k].1),
    ensures
        exists|x: int| first_non_finite(s, x),
    decreases j - i,
{
    if !setting_ok(float_settings(s)[i].1) {
        assert(first_non_finite(s, i));
    } else {
        lemma_some_first_non_finite(s, i + 1, j);
    }
}

/// A list with an empty word has a first one.
proof fn lemma_some_first_empty(words: Seq<&[i32]>, i: int, j: int)
    requires
        0 <= i <= j < words.len(),
        words[j]@.len() == 0,
        forall|k: int| 0 <= k < i ==> (#[trigger] words[k])@.len() > 0,
    ensures
        exists|x: int| first_empty_word(words, x),
    decreases j - i,
{
    if words[i]@.len() == 0 {
        assert(first_empty_word(words, i));
    } else {
        lemma_some_first_empty(words, i + 1, j);
    }
}

/// A list with a failing range has a first one.
proof fn lemma_some_first_bad_range(ranges: Seq<KvCacheTokenRangeRetentionConfig>, i: int, j: int)
    requires
        0 <= i <= j < ranges.len(),
        !range_passes(ranges[j]),
        forall|k: int| 0 <= k < i ==> #[trigger] range_passes(ranges[k]),
    ensures
        exists|x: int| first_bad_range(ranges, x),
    decreases j - i,
{
    if !range_passes(ranges[i]) {
        assert(first_bad_range(ranges, i));
    } else {
        lemma_some_first_bad_range(ranges, i + 1, j);
    }
}

/// A list of words that is not all non-empty has a first empty word.
proof fn lemma_empty_word_exists(words: Seq<&[i32]>)
    requires
        !words_ok(words),
    ensures
        exists|x: int| first_empty_word(words, x),
{
    let j = choose|k: int| 0 <= k < words.len() && !((#[trigger] words[k])@.len() > 0);
    lemma_some_first_empty(words, 0, j);
}

/// The sampling checks cannot both fail with `e` and pass.
proof fn lemma_sampling_exclusive(s: SamplingConfig, e: Error)
    requires
        sampling_outcome(s, Err(e)),
    ensures
        !sampling_outcome(s, Ok(())),
{
    if s.beam_width > 0 && !floats_ok(s) {
        let j = choose|k: int| 0 <= k < 10 && !#[trigger] setting_ok(float_settings(s)[k].1);
        lemma_some_first_non_finite(s, 0, j);
        let x = choose|x: int| first_non_finite(s, x);
        assert(first_non_finite(s, x));
    }
}

/// The request checks cannot both fail with `e` and pass.
proof fn lemma_checks_exclusive(p: ValidationProfile, q: Request, e: Error)
    requires
        request_checks_outcome(p, q, Err(e)),
    ensures
        !request_checks_pass(p, q),
{
    if !sampling_passes(q.sampling) {
        lemma_sampling_exclusive(q.sampling, e);
        assert(!sampling_passes(q.sampling));
    }
    if let Some(m) = q.multimodal_input {
        if !words_ok(m.hashes@) {
            lemma_empty_word_exists(m.hashes@);
            let x = choose|x: int| first_empty_word(m.hashes@, x);
            assert(first_empty_word(m.hashes@, x));
        }
    }
    if let Some(c) = q.kv_cache_retention_config {
        if !(forall|k: int| 0 <= k < c.ranges@.len() ==> #[trigger] range_passes(c.ranges@[k])) {
            let j = choose|k: int| 0 <= k < c.ranges@.len() && !#[trigger] range_passes(c.ranges@[k]);
            lemma_some_first_bad_range(c.ranges@, 0, j);
            let x = choose|x: int| first_bad_range(c.ranges@, x);
            assert(first_bad_range(c.ranges@, x));
        }
    }
    if let Some(c) = q.eagle_config {
        if !words_ok(c.choices@) {
            lemma_empty_word_exists(c.choices@);
            let x = choose|x: int| first_empty_word(c.choices@, x);
            assert(first_empty_word(c.choices@, x));
        }
    }
    if !words_ok(q.bad_words@) {
        lemma_empty_word_exists(q.bad_words@);
        let x = choose|x: int| first_empty_word(q.bad_words@, x);
        assert(first_empty_word(q.bad_words@, x));
    }
    if !words_ok(q.stop_words@) {
        lemma_empty_word_exists(q.stop_words@);
        let x = choose|x: int| first_empty_word(q.stop_words@, x);
        assert(first_empty_word(q.stop_words@, x));
    }
}

} // verus!
