//! Requests to the executor and their optional extensions.
//!
//! Floating-point settings are held as their IEEE-754 bit patterns
//! (`f32::to_bits`); tensors are Candle tensors, carried through untouched.

use vstd::prelude::*;
use candle_core::Tensor;
use crate::llm::builder::no_nul;
use crate::llm::sampling::{SamplingConfig, spec_default_sampling};
use crate::text::{owned, same_text};

verus! {

/// `candle_core::Tensor`, carried through a request to the executor.
#[verifier::external_type_specification]
#[verifier::external_body]
pub struct ExTensor(Tensor);

/// Which phases a request runs.
#[derive(Clone, Copy, Debug, Eq, PartialEq, Structural)]
pub enum RequestType {
    ContextAndGeneration,
    ContextOnly,
    GenerationOnly,
}

/// The C ABI value of a request type.
pub open spec fn spec_request_type_code(t: RequestType) -> i32 {
    match t {
        RequestType::ContextAndGeneration => 0,
        RequestType::ContextOnly => 1,
        RequestType::GenerationOnly => 2,
    }
}

impl RequestType {
    /// The value the executor's C ABI takes for this request type.
    pub fn as_i32(self) -> (r: i32)
        ensures
            r == spec_request_type_code(self),
    {
        match self {
            RequestType::ContextAndGeneration => 0,
            RequestType::ContextOnly => 1,
            RequestType::GenerationOnly => 2,
        }
    }
}

/// Draft tokens proposed by an external draft model.
#[derive(Clone, Debug)]
pub struct ExternalDraftTokensConfig<'a> {
    pub tokens: &'a [i32],
    pub logits: Option<&'a Tensor>,
    /// The acceptance threshold's `f32` bits.
    pub acceptance_threshold: Option<u32>,
    pub fast_logits: Option<bool>,
}

impl<'a> ExternalDraftTokensConfig<'a> {
    /// Draft tokens with no logits, threshold or fast-logits setting.
    pub fn new(tokens: &'a [i32]) -> (r: Self)
        ensures
            r == (ExternalDraftTokensConfig { tokens, logits: None, acceptance_threshold: None, fast_logits: None }),
    {
        ExternalDraftTokensConfig { tokens, logits: None, acceptance_threshold: None, fast_logits: None }
    }

    /// Sets the draft logits.
    pub fn logits(self, logits: &'a Tensor) -> (r: Self)
        ensures
            r == (ExternalDraftTokensConfig { logits: Some(logits), ..self }),
    {
        ExternalDraftTokensConfig { logits: Some(logits), ..self }
    }

    /// Sets the acceptance threshold, given as its `f32` bits.
    pub fn acceptance_threshold(self, acceptance_threshold: u32) -> (r: Self)
        ensures
            r == (ExternalDraftTokensConfig { acceptance_threshold: Some(acceptance_threshold), ..self }),
    {
        ExternalDraftTokensConfig { acceptance_threshold: Some(acceptance_threshold), ..self }
    }

    /// Sets whether fast logits are used.
    pub fn fast_logits(self, fast_logits: bool) -> (r: Self)
        ensures
            r == (ExternalDraftTokensConfig { fast_logits: Some(fast_logits), ..self }),
    {
        ExternalDraftTokensConfig { fast_logits: Some(fast_logits), ..self }
    }
}

/// Multimodal items spliced into the prompt.
#[derive(Clone, Debug)]
pub struct MultimodalInput<'a> {
    pub hashes: Vec<&'a [i32]>,
    pub positions: &'a [i32],
    pub lengths: &'a [i32],
    pub uuids: Vec<Option<String>>,
}

/// No present UUID holds a NUL character.
pub open spec fn uuids_ok(uuids: Seq<Option<String>>) -> bool {
    forall|k: int| 0 <= k < uuids.len() ==> (#[trigger] uuids[k] matches Some(s) ==> no_nul(s@))
}

impl<'a> MultimodalInput<'a> {
    /// Multimodal items with their hashes, positions and lengths, and no
    /// UUIDs.
    pub fn new(hashes: Vec<&'a [i32]>, positions: &'a [i32], lengths: &'a [i32]) -> (r: Self)
        ensures
            r.hashes@ == hashes@,
            r.positions == positions,
            r.lengths == lengths,
            r.uuids@.len() == 0,
    {
        MultimodalInput { hashes, positions, lengths, uuids: Vec::new() }
    }

    /// Sets the items' UUIDs; none may hold a NUL character.
    pub fn uuids(self, uuids: Vec<Option<String>>) -> (r: Self)
        requires
            uuids_ok(uuids@),
        ensures
            r == (MultimodalInput { uuids, ..self }),
    {
        MultimodalInput { uuids, ..self }
    }
}

/// Multimodal rotary embedding settings.
#[derive(Clone, Debug)]
pub struct MropeConfig<'a> {
    pub rotary_cos_sin: &'a Tensor,
    pub position_deltas: i32,
}

impl<'a> MropeConfig<'a> {
    /// Rotary settings.
    pub fn new(rotary_cos_sin: &'a Tensor, position_deltas: i32) -> (r: Self)
        ensures
            r == (MropeConfig { rotary_cos_sin, position_deltas }),
    {
        MropeConfig { rotary_cos_sin, position_deltas }
    }
}

/// LoRA adapter of a request.
#[derive(Clone, Debug)]
pub struct LoraConfig<'a> {
    pub task_id: u64,
    pub weights: Option<&'a Tensor>,
    pub config: Option<&'a Tensor>,
}

impl<'a> LoraConfig<'a> {
    /// An adapter by task id, with no weights or config yet.
    pub fn new(task_id: u64) -> (r: Self)
        ensures
            r == (LoraConfig { task_id, weights: None, config: None }),
    {
        LoraConfig { task_id, weights: None, config: None }
    }

    /// Sets the adapter weights.
    pub fn weights(self, weights: &'a Tensor) -> (r: Self)
        ensures
            r == (LoraConfig { weights: Some(weights), ..self }),
    {
        LoraConfig { weights: Some(weights), ..self }
    }

    /// Sets the adapter config.
    pub fn config(self, config: &'a Tensor) -> (r: Self)
        ensures
            r == (LoraConfig { config: Some(config), ..self }),
    {
        LoraConfig { config: Some(config), ..self }
    }
}

/// Lookahead decoding settings.
#[derive(Clone, Copy, Debug, Eq, PartialEq, Structural)]
pub struct LookaheadConfig {
    pub window_size: i32,
    pub ngram_size: i32,
    pub verification_set_size: i32,
}

impl LookaheadConfig {
    /// Lookahead settings.
    pub fn new(window_size: i32, ngram_size: i32, verification_set_size: i32) -> (r: Self)
        ensures
            r == (LookaheadConfig { window_size, ngram_size, verification_set_size }),
    {
        LookaheadConfig { window_size, ngram_size, verification_set_size }
    }
}

/// Where evicted KV cache blocks are written.
#[derive(Clone, Copy, Debug, Eq, PartialEq, Structural)]
pub enum KvCacheTransferMode {
    Dram,
    Gds,
    PosixDebugFallback,
}

/// The C ABI value of a transfer mode.
pub open spec fn spec_transfer_mode_code(m: KvCacheTransferMode) -> i32 {
    match m {
        KvCacheTransferMode::Dram => 0,
        KvCacheTransferMode::Gds => 1,
        KvCacheTransferMode::PosixDebugFallback => 2,
    }
}

impl KvCacheTransferMode {
    /// The value the executor's C ABI takes for this transfer mode.
    pub fn as_i32(self) -> (r: i32)
        ensures
            r == spec_transfer_mode_code(self),
    {
        match self {
            KvCacheTransferMode::Dram => 0,
            KvCacheTransferMode::Gds => 1,
            KvCacheTransferMode::PosixDebugFallback => 2,
        }
    }
}

/// Lowest KV cache retention priority.
pub const MIN_RETENTION_PRIORITY: i32 = 0;

/// Highest KV cache retention priority.
pub const MAX_RETENTION_PRIORITY: i32 = 100;

/// Retention priority of blocks that are not configured otherwise.
pub const DEFAULT_RETENTION_PRIORITY: i32 = 35;

/// Retention of the KV cache blocks of one token range.
#[derive(Clone, Copy, Debug, Eq, PartialEq, Structural)]
pub struct KvCacheTokenRangeRetentionConfig {
    pub token_start: i32,
    pub token_end: Option<i32>,
    pub priority: i32,
    pub duration_ms: Option<u64>,
}

impl KvCacheTokenRangeRetentionConfig {
    /// The open range from `token_start`, at the default priority and with no
    /// duration.
    pub fn new(token_start: i32) -> (r: Self)
        ensures
            r == (KvCacheTokenRangeRetentionConfig {
                token_start,
                token_end: None,
                priority: DEFAULT_RETENTION_PRIORITY,
                duration_ms: None,
            }),
    {
        KvCacheTokenRangeRetentionConfig {
            token_start,
            token_end: None,
            priority: DEFAULT_RETENTION_PRIORITY,
            duration_ms: None,
        }
    }

    /// Ends the range before `token_end`.
    pub fn token_end(self, token_end: i32) -> (r: Self)
        ensures
            r == (KvCacheTokenRangeRetentionConfig { token_end: Some(token_end), ..self }),
    {
        KvCacheTokenRangeRetentionConfig { token_end: Some(token_end), ..self }
    }

    /// Sets the range's priority.
    pub fn priority(self, priority: i32) -> (r: Self)
        ensures
            r == (KvCacheTokenRangeRetentionConfig { priority, ..self }),
    {
        KvCacheTokenRangeRetentionConfig { priority, ..self }
    }

    /// Sets how long the priority holds.
    pub fn duration_ms(self, duration_ms: u64) -> (r: Self)
        ensures
            r == (KvCacheTokenRangeRetentionConfig { duration_ms: Some(duration_ms), ..self }),
    {
        KvCacheTokenRangeRetentionConfig { duration_ms: Some(duration_ms), ..self }
    }
}

/// Retention of a request's KV cache blocks.
#[derive(Clone, Debug)]
pub struct KvCacheRetentionConfig {
    pub ranges: Vec<KvCacheTokenRangeRetentionConfig>,
    pub decode_retention_priority: i32,
    pub decode_duration_ms: Option<u64>,
    pub transfer_mode: KvCacheTransferMode,
    pub directory: Option<String>,
}

impl KvCacheRetentionConfig {
    /// Retention of the given ranges; decode blocks at the default priority,
    /// written to DRAM.
    pub fn new(ranges: Vec<KvCacheTokenRangeRetentionConfig>) -> (r: Self)
        ensures
            r.ranges@ == ranges@,
            r.decode_retention_priority == DEFAULT_RETENTION_PRIORITY,
            r.decode_duration_ms is None,
            r.transfer_mode == KvCacheTransferMode::Dram,
            r.directory is None,
    {
        KvCacheRetentionConfig {
            ranges,
            decode_retention_priority: DEFAULT_RETENTION_PRIORITY,
            decode_duration_ms: None,
            transfer_mode: KvCacheTransferMode::Dram,
            directory: None,
        }
    }

    /// Sets the priority of decode blocks.
    pub fn decode_retention_priority(self, priority: i32) -> (r: Self)
        ensures
            r == (KvCacheRetentionConfig { decode_retention_priority: priority, ..self }),
    {
        KvCacheRetentionConfig { decode_retention_priority: priority, ..self }
    }

    /// Sets how long the decode priority holds.
    pub fn decode_duration_ms(self, duration_ms: u64) -> (r: Self)
        ensures
            r == (KvCacheRetentionConfig { decode_duration_ms: Some(duration_ms), ..self }),
    {
        KvCacheRetentionConfig { decode_duration_ms: Some(duration_ms), ..self }
    }

    /// Sets where evicted blocks are written.
    pub fn transfer_mode(self, transfer_mode: KvCacheTransferMode) -> (r: Self)
        ensures
            r == (KvCacheRetentionConfig { transfer_mode, ..self }),
    {
        KvCacheRetentionConfig { transfer_mode, ..self }
    }

    /// Sets the directory of evicted blocks; it may hold no NUL character.
    pub fn directory(self, directory: &str) -> (r: Self)
        requires
            no_nul(directory@),
        ensures
            r.directory matches Some(d) && d@ == directory@,
            r == (KvCacheRetentionConfig { directory: r.directory, ..self }),
    {
        KvCacheRetentionConfig { directory: Some(owned(directory)), ..self }
    }
}

/// The context-phase results that a generation-only request continues from.
#[derive(Clone, Debug)]
pub struct ContextPhaseParams<'a> {
    pub first_gen_tokens: &'a [i32],
    pub request_id: u64,
    pub serialized_state: Option<&'a [u8]>,
    pub draft_tokens: Option<&'a [i32]>,
    pub ctx_dp_rank: Option<i32>,
    pub disagg_info_endpoint: Option<String>,
}

impl<'a> ContextPhaseParams<'a> {
    /// The first generated tokens of context request `request_id`.
    pub fn new(first_gen_tokens: &'a [i32], request_id: u64) -> (r: Self)
        ensures
            r == (ContextPhaseParams {
                first_gen_tokens,
                request_id,
                serialized_state: None,
                draft_tokens: None,
                ctx_dp_rank: None,
                disagg_info_endpoint: None,
            }),
    {
        ContextPhaseParams {
            first_gen_tokens,
            request_id,
            serialized_state: None,
            draft_tokens: None,
            ctx_dp_rank: None,
            disagg_info_endpoint: None,
        }
    }

    /// Sets the serialized context state.
    pub fn serialized_state(self, serialized_state: &'a [u8]) -> (r: Self)
        ensures
            r == (ContextPhaseParams { serialized_state: Some(serialized_state), ..self }),
    {
        ContextPhaseParams { serialized_state: Some(serialized_state), ..self }
    }

    /// Sets the draft tokens.
    pub fn draft_tokens(self, draft_tokens: &'a [i32]) -> (r: Self)
        ensures
            r == (ContextPhaseParams { draft_tokens: Some(draft_tokens), ..self }),
    {
        ContextPhaseParams { draft_tokens: Some(draft_tokens), ..self }
    }

    /// Sets the context data-parallel rank.
    pub fn context_data_parallel_rank(self, ctx_dp_rank: i32) -> (r: Self)
        ensures
            r == (ContextPhaseParams { ctx_dp_rank: Some(ctx_dp_rank), ..self }),
    {
        ContextPhaseParams { ctx_dp_rank: Some(ctx_dp_rank), ..self }
    }

    /// Sets the disaggregated info endpoint; it may hold no NUL character.
    pub fn disaggregated_info_endpoint(self, endpoint: &str) -> (r: Self)
        requires
            no_nul(endpoint@),
        ensures
            r.disagg_info_endpoint matches Some(e) && e@ == endpoint@,
            r == (ContextPhaseParams { disagg_info_endpoint: r.disagg_info_endpoint, ..self }),
    {
        ContextPhaseParams { disagg_info_endpoint: Some(owned(endpoint)), ..self }
    }
}

/// EAGLE speculative decoding settings of a request.
#[derive(Clone, Debug)]
pub struct EagleConfig<'a> {
    pub choices: Vec<&'a [i32]>,
    pub greedy_sampling: bool,
    /// The posterior threshold's `f32` bits.
    pub posterior_threshold: Option<u32>,
    pub use_dynamic_tree: bool,
    pub dynamic_tree_max_top_k: Option<i32>,
}

impl<'a> EagleConfig<'a> {
    /// No choices, greedy sampling, a static tree.
    pub fn new() -> (r: Self)
        ensures
            r.choices@.len() == 0,
            r.greedy_sampling,
            r.posterior_threshold is None,
            !r.use_dynamic_tree,
            r.dynamic_tree_max_top_k is None,
    {
        EagleConfig {
            choices: Vec::new(),
            greedy_sampling: true,
            posterior_threshold: None,
            use_dynamic_tree: false,
            dynamic_tree_max_top_k: None,
        }
    }

    /// Sets the draft tree choices.
    pub fn choices(self, choices: Vec<&'a [i32]>) -> (r: Self)
        ensures
            r == (EagleConfig { choices, ..self }),
    {
        EagleConfig { choices, ..self }
    }

    /// Sets greedy sampling.
    pub fn greedy(self, greedy_sampling: bool) -> (r: Self)
        ensures
            r == (EagleConfig { greedy_sampling, ..self }),
    {
        EagleConfig { greedy_sampling, ..self }
    }

    /// Sets the posterior threshold, given as its `f32` bits.
    pub fn posterior_threshold(self, posterior_threshold: u32) -> (r: Self)
        ensures
            r == (EagleConfig { posterior_threshold: Some(posterior_threshold), ..self }),
    {
        EagleConfig { posterior_threshold: Some(posterior_threshold), ..self }
    }

    /// Sets whether the draft tree is dynamic.
    pub fn dynamic_tree(self, use_dynamic_tree: bool) -> (r: Self)
        ensures
            r == (EagleConfig { use_dynamic_tree, ..self }),
    {
        EagleConfig { use_dynamic_tree, ..self }
    }

    /// Sets the dynamic tree's top-k.
    pub fn max_dynamic_tree_top_k(self, top_k: i32) -> (r: Self)
        ensures
            r == (EagleConfig { dynamic_tree_max_top_k: Some(top_k), ..self }),
    {
        EagleConfig { dynamic_tree_max_top_k: Some(top_k), ..self }
    }
}

/// The kind of guide of guided decoding.
#[derive(Clone, Copy, Debug, Eq, PartialEq, Structural)]
pub enum GuidedDecodingType {
    Json,
    JsonSchema,
    Regex,
    EbnfGrammar,
    StructuralTag,
}

/// The C ABI value of a guide kind.
pub open spec fn spec_guide_type_code(t: GuidedDecodingType) -> i32 {
    match t {
        GuidedDecodingType::Json => 0,
        GuidedDecodingType::JsonSchema => 1,
        GuidedDecodingType::Regex => 2,
        GuidedDecodingType::EbnfGrammar => 3,
        GuidedDecodingType::StructuralTag => 4,
    }
}

impl GuidedDecodingType {
    /// The value the executor's C ABI takes for this guide kind.
    pub fn as_i32(self) -> (r: i32)
        ensures
            r == spec_guide_type_code(self),
    {
        match self {
            GuidedDecodingType::Json => 0,
            GuidedDecodingType::JsonSchema => 1,
            GuidedDecodingType::Regex => 2,
            GuidedDecodingType::EbnfGrammar => 3,
            GuidedDecodingType::StructuralTag => 4,
        }
    }
}

/// The guide of a request's guided decoding.
#[derive(Clone, Debug)]
pub struct GuidedDecodingParams {
    pub guide_type: GuidedDecodingType,
    pub guide: Option<String>,
}

impl GuidedDecodingParams {
    /// A guide of this kind, with no guide text yet.
    pub fn new(guide_type: GuidedDecodingType) -> (r: Self)
        ensures
            r == (GuidedDecodingParams { guide_type, guide: None }),
    {
        GuidedDecodingParams { guide_type, guide: None }
    }

    /// Sets the guide text; it may hold no NUL character.
    pub fn guide(self, guide: &str) -> (r: Self)
        requires
            no_nul(guide@),
        ensures
            r.guide_type == self.guide_type,
            r.guide matches Some(g) && g@ == guide@,
    {
        GuidedDecodingParams { guide: Some(owned(guide)), ..self }
    }
}

/// A generation request to the executor.
#[derive(Clone, Debug)]
pub struct Request<'a> {
    pub input_ids: &'a [i32],
    pub max_new_tokens: i32,
    pub end_id: Option<i32>,
    pub pad_id: Option<i32>,
    pub sampling: SamplingConfig,
    pub prompt_embeddings: Option<&'a Tensor>,
    pub prompt_embedding_token_extra_ids: Option<&'a [u64]>,
    pub position_ids: Option<&'a [i32]>,
    pub bad_words: Vec<&'a [i32]>,
    pub stop_words: Vec<&'a [i32]>,
    pub embedding_bias: Option<&'a Tensor>,
    pub external_draft_tokens_config: Option<ExternalDraftTokensConfig<'a>>,
    pub multimodal_input: Option<MultimodalInput<'a>>,
    pub multimodal_embedding: Option<&'a Tensor>,
    pub mrope_config: Option<MropeConfig<'a>>,
    pub lora_config: Option<LoraConfig<'a>>,
    pub lookahead_config: Option<LookaheadConfig>,
    pub kv_cache_retention_config: Option<KvCacheRetentionConfig>,
    pub logits_post_processor_name: Option<String>,
    pub encoder_input_token_ids: Option<&'a [i32]>,
    pub additional_outputs: Vec<String>,
    pub return_log_probs: bool,
    pub return_context_logits: bool,
    pub return_generation_logits: bool,
    pub exclude_input_from_output: bool,
    pub return_encoder_output: bool,
    pub return_all_generated_tokens: bool,
    pub client_id: Option<u64>,
    /// The priority's `f32` bits.
    pub priority: Option<u32>,
    pub request_type: RequestType,
    pub context_phase_params: Option<ContextPhaseParams<'a>>,
    pub encoder_input_features: Option<&'a Tensor>,
    pub encoder_output_length: Option<i32>,
    pub cross_attention_mask: Option<&'a Tensor>,
    pub eagle_config: Option<EagleConfig<'a>>,
    pub skip_cross_attn_blocks: Option<&'a Tensor>,
    pub guided_decoding_params: Option<GuidedDecodingParams>,
    pub language_adapter_uid: Option<i32>,
    pub allotted_time_ms: Option<u64>,
    pub cache_salt_id: Option<u64>,
    pub disagg_request_id: Option<u64>,
}

impl<'a> Request<'a> {
    /// A request for `input_ids` that generates one token, with every
    /// extension left unset.
    pub fn new(input_ids: &'a [i32]) -> (r: Self)
        ensures
            r.input_ids == input_ids,
            r.max_new_tokens == 1,
            r.request_type == RequestType::ContextAndGeneration,
            spec_default_sampling(r.sampling),
            r.end_id is None && r.pad_id is None && r.prompt_embeddings is None,
            r.prompt_embedding_token_extra_ids is None && r.position_ids is None,
            r.bad_words@.len() == 0 && r.stop_words@.len() == 0 && r.embedding_bias is None,
            r.external_draft_tokens_config is None && r.multimodal_input is None,
            r.multimodal_embedding is None && r.mrope_config is None && r.lora_config is None,
            r.lookahead_config is None && r.kv_cache_retention_config is None,
            r.logits_post_processor_name is None && r.encoder_input_token_ids is None,
            r.additional_outputs@.len() == 0,
            !r.return_log_probs && !r.return_context_logits && !r.return_generation_logits,
            !r.exclude_input_from_output && !r.return_encoder_output && !r.return_all_generated_tokens,
            r.client_id is None && r.priority is None && r.context_phase_params is None,
            r.encoder_input_features is None && r.encoder_output_length is None,
            r.cross_attention_mask is None && r.eagle_config is None && r.skip_cross_attn_blocks is None,
            r.guided_decoding_params is None && r.language_adapter_uid is None,
            r.allotted_time_ms is None && r.cache_salt_id is None && r.disagg_request_id is None,
    {
        Request {
            input_ids: input_ids,
            max_new_tokens: 1,
            end_id: None,
            pad_id: None,
            sampling: SamplingConfig::default(),
            prompt_embeddings: None,
            prompt_embedding_token_extra_ids: None,
            position_ids: None,
            bad_words: Vec::new(),
            stop_words: Vec::new(),
            embedding_bias: None,
            external_draft_tokens_config: None,
            multimodal_input: None,
            multimodal_embedding: None,
            mrope_config: None,
            lora_config: None,
            lookahead_config: None,
            kv_cache_retention_config: None,
            logits_post_processor_name: None,
            encoder_input_token_ids: None,
            additional_outputs: Vec::new(),
            return_log_probs: false,
            return_context_logits: false,
            return_generation_logits: false,
            exclude_input_from_output: false,
            return_encoder_output: false,
            return_all_generated_tokens: false,
            client_id: None,
            priority: None,
            request_type: RequestType::ContextAndGeneration,
            context_phase_params: None,
            encoder_input_features: None,
            encoder_output_length: None,
            cross_attention_mask: None,
            eagle_config: None,
            skip_cross_attn_blocks: None,
            guided_decoding_params: None,
            language_adapter_uid: None,
            allotted_time_ms: None,
            cache_salt_id: None,
            disagg_request_id: None,
        }
    }

    /// Sets how many tokens to generate.
    pub fn max_new_tokens(self, max_new_tokens: i32) -> (r: Self)
        ensures
            r == (Request { max_new_tokens, ..self }),
    {
        Request { max_new_tokens, ..self }
    }

    /// Sets the end-of-sequence token.
    pub fn end_id(self, end_id: i32) -> (r: Self)
        ensures
            r == (Request { end_id: Some(end_id), ..self }),
    {
        Request { end_id: Some(end_id), ..self }
    }

    /// Sets the padding token.
    pub fn pad_id(self, pad_id: i32) -> (r: Self)
        ensures
            r == (Request { pad_id: Some(pad_id), ..self }),
    {
        Request { pad_id: Some(pad_id), ..self }
    }

    /// Sets the sampling settings.
    pub fn sampling(self, sampling: SamplingConfig) -> (r: Self)
        ensures
            r == (Request { sampling: sampling, ..self }),
    {
        Request { sampling: sampling, ..self }
    }

    /// Sets the prompt-tuning embedding table.
    pub fn prompt_embeddings(self, prompt_embeddings: &'a Tensor) -> (r: Self)
        ensures
            r == (Request { prompt_embeddings: Some(prompt_embeddings), ..self }),
    {
        Request { prompt_embeddings: Some(prompt_embeddings), ..self }
    }

    /// Sets the extra ids of the prompt's tokens.
    pub fn prompt_embedding_token_extra_ids(self, token_extra_ids: &'a [u64]) -> (r: Self)
        ensures
            r == (Request { prompt_embedding_token_extra_ids: Some(token_extra_ids), ..self }),
    {
        Request { prompt_embedding_token_extra_ids: Some(token_extra_ids), ..self }
    }

    /// Sets the position of each input token.
    pub fn position_ids(self, position_ids: &'a [i32]) -> (r: Self)
        ensures
            r == (Request { position_ids: Some(position_ids), ..self }),
    {
        Request { position_ids: Some(position_ids), ..self }
    }

    /// Sets the words that may not be generated.
    pub fn bad_words(self, words: Vec<&'a [i32]>) -> (r: Self)
        ensures
            r == (Request { bad_words: words, ..self }),
    {
        Request { bad_words: words, ..self }
    }

    /// Sets the words that end generation.
    pub fn stop_words(self, words: Vec<&'a [i32]>) -> (r: Self)
        ensures
            r == (Request { stop_words: words, ..self }),
    {
        Request { stop_words: words, ..self }
    }

    /// Sets the bias added to the logits.
    pub fn embedding_bias(self, embedding_bias: &'a Tensor) -> (r: Self)
        ensures
            r == (Request { embedding_bias: Some(embedding_bias), ..self }),
    {
        Request { embedding_bias: Some(embedding_bias), ..self }
    }

    /// Sets the draft tokens of an external draft model.
    pub fn external_draft_tokens(self, config: ExternalDraftTokensConfig<'a>) -> (r: Self)
        ensures
            r == (Request { external_draft_tokens_config: Some(config), ..self }),
    {
        Request { external_draft_tokens_config: Some(config), ..self }
    }

    /// Sets the multimodal items.
    pub fn multimodal_input(self, input: MultimodalInput<'a>) -> (r: Self)
        ensures
            r == (Request { multimodal_input: Some(input), ..self }),
    {
        Request { multimodal_input: Some(input), ..self }
    }

    /// Sets the multimodal embedding.
    pub fn multimodal_embedding(self, embedding: &'a Tensor) -> (r: Self)
        ensures
            r == (Request { multimodal_embedding: Some(embedding), ..self }),
    {
        Request { multimodal_embedding: Some(embedding), ..self }
    }

    /// Sets the multimodal rotary embedding.
    pub fn mrope(self, config: MropeConfig<'a>) -> (r: Self)
        ensures
            r == (Request { mrope_config: Some(config), ..self }),
    {
        Request { mrope_config: Some(config), ..self }
    }

    /// Sets the LoRA adapter.
    pub fn lora(self, config: LoraConfig<'a>) -> (r: Self)
        ensures
            r == (Request { lora_config: Some(config), ..self }),
    {
        Request { lora_config: Some(config), ..self }
    }

    /// Sets lookahead decoding.
    pub fn lookahead(self, config: LookaheadConfig) -> (r: Self)
        ensures
            r == (Request { lookahead_config: Some(config), ..self }),
    {
        Request { lookahead_config: Some(config), ..self }
    }

    /// Sets KV cache retention.
    pub fn kv_cache_retention(self, config: KvCacheRetentionConfig) -> (r: Self)
        ensures
            r == (Request { kv_cache_retention_config: Some(config), ..self }),
    {
        Request { kv_cache_retention_config: Some(config), ..self }
    }

    /// Sets the encoder's input tokens.
    pub fn encoder_input_token_ids(self, token_ids: &'a [i32]) -> (r: Self)
        ensures
            r == (Request { encoder_input_token_ids: Some(token_ids), ..self }),
    {
        Request { encoder_input_token_ids: Some(token_ids), ..self }
    }

    /// Returns log probabilities.
    pub fn return_log_probs(self) -> (r: Self)
        ensures
            r == (Request { return_log_probs: true, ..self }),
    {
        Request { return_log_probs: true, ..self }
    }

    /// Returns the context logits.
    pub fn return_context_logits(self) -> (r: Self)
        ensures
            r == (Request { return_context_logits: true, ..self }),
    {
        Request { return_context_logits: true, ..self }
    }

    /// Returns the generation logits.
    pub fn return_generation_logits(self) -> (r: Self)
        ensures
            r == (Request { return_generation_logits: true, ..self }),
    {
        Request { return_generation_logits: true, ..self }
    }

    /// Leaves the input tokens out of the output.
    pub fn exclude_input_from_output(self) -> (r: Self)
        ensures
            r == (Request { exclude_input_from_output: true, ..self }),
    {
        Request { exclude_input_from_output: true, ..self }
    }

    /// Returns the encoder output.
    pub fn return_encoder_output(self) -> (r: Self)
        ensures
            r == (Request { return_encoder_output: true, ..self }),
    {
        Request { return_encoder_output: true, ..self }
    }

    /// Returns every generated token with each response.
    pub fn return_all_generated_tokens(self) -> (r: Self)
        ensures
            r == (Request { return_all_generated_tokens: true, ..self }),
    {
        Request { return_all_generated_tokens: true, ..self }
    }

    /// Sets the caller's id for the request.
    pub fn client_id(self, client_id: u64) -> (r: Self)
        ensures
            r == (Request { client_id: Some(client_id), ..self }),
    {
        Request { client_id: Some(client_id), ..self }
    }

    /// Sets the request's priority, given as its `f32` bits.
    pub fn priority(self, priority: u32) -> (r: Self)
        ensures
            r == (Request { priority: Some(priority), ..self }),
    {
        Request { priority: Some(priority), ..self }
    }

    /// Sets which phases the request runs.
    pub fn request_type(self, request_type: RequestType) -> (r: Self)
        ensures
            r == (Request { request_type: request_type, ..self }),
    {
        Request { request_type: request_type, ..self }
    }

    /// Sets the context-phase results to continue from.
    pub fn context_phase(self, params: ContextPhaseParams<'a>) -> (r: Self)
        ensures
            r == (Request { context_phase_params: Some(params), ..self }),
    {
        Request { context_phase_params: Some(params), ..self }
    }

    /// Sets the encoder's input features.
    pub fn encoder_features(self, features: &'a Tensor) -> (r: Self)
        ensures
            r == (Request { encoder_input_features: Some(features), ..self }),
    {
        Request { encoder_input_features: Some(features), ..self }
    }

    /// Sets the encoder's output length.
    pub fn encoder_output_length(self, length: i32) -> (r: Self)
        ensures
            r == (Request { encoder_output_length: Some(length), ..self }),
    {
        Request { encoder_output_length: Some(length), ..self }
    }

    /// Sets the cross-attention mask.
    pub fn cross_attention_mask(self, mask: &'a Tensor) -> (r: Self)
        ensures
            r == (Request { cross_attention_mask: Some(mask), ..self }),
    {
        Request { cross_attention_mask: Some(mask), ..self }
    }

    /// Sets EAGLE decoding.
    pub fn eagle(self, config: EagleConfig<'a>) -> (r: Self)
        ensures
            r == (Request { eagle_config: Some(config), ..self }),
    {
        Request { eagle_config: Some(config), ..self }
    }

    /// Sets the cross-attention blocks to skip.
    pub fn skip_cross_attention_blocks(self, blocks: &'a Tensor) -> (r: Self)
        ensures
            r == (Request { skip_cross_attn_blocks: Some(blocks), ..self }),
    {
        Request { skip_cross_attn_blocks: Some(blocks), ..self }
    }

    /// Sets guided decoding.
    pub fn guided_decoding(self, params: GuidedDecodingParams) -> (r: Self)
        ensures
            r == (Request { guided_decoding_params: Some(params), ..self }),
    {
        Request { guided_decoding_params: Some(params), ..self }
    }

    /// Sets the language adapter.
    pub fn language_adapter_uid(self, uid: i32) -> (r: Self)
        ensures
            r == (Request { language_adapter_uid: Some(uid), ..self }),
    {
        Request { language_adapter_uid: Some(uid), ..self }
    }

    /// Sets the request's time budget.
    pub fn time_budget_ms(self, allotted_time_ms: u64) -> (r: Self)
        ensures
            r == (Request { allotted_time_ms: Some(allotted_time_ms), ..self }),
    {
        Request { allotted_time_ms: Some(allotted_time_ms), ..self }
    }

    /// Sets the KV cache salt.
    pub fn cache_salt_id(self, cache_salt_id: u64) -> (r: Self)
        ensures
            r == (Request { cache_salt_id: Some(cache_salt_id), ..self }),
    {
        Request { cache_salt_id: Some(cache_salt_id), ..self }
    }

    /// Sets the disaggregated request id.
    pub fn disaggregated_request_id(self, disagg_request_id: u64) -> (r: Self)
        ensures
            r == (Request { disagg_request_id: Some(disagg_request_id), ..self }),
    {
        Request { disagg_request_id: Some(disagg_request_id), ..self }
    }

    /// Sets the name of the logits post-processor; it may hold no NUL
    /// character.
    pub fn logits_processor(self, name: &str) -> (r: Self)
        requires
            no_nul(name@),
        ensures
            r.logits_post_processor_name matches Some(n) && n@ == name@,
            r == (Request { logits_post_processor_name: r.logits_post_processor_name, ..self }),
    {
        Request { logits_post_processor_name: Some(owned(name)), ..self }
    }

    /// Routes an output tensor named by the caller: the standard logits and
    /// encoder outputs switch on their flags, any other name is requested as
    /// an additional output once.
    pub fn infer_output_tensor_name(&mut self, name: &str)
        requires
            no_nul(name@),
        ensures
            name@ == "context_logits"@ ==> *final(self) == (Request { return_context_logits: true, ..*old(self) }),
            name@ == "generation_logits"@ ==> *final(self) == (Request { return_generation_logits: true, ..*old(self) }),
            name@ == "encoder_output"@ ==> *final(self) == (Request { return_encoder_output: true, ..*old(self) }),
            !(name@ == "context_logits"@ || name@ == "generation_logits"@ || name@ == "encoder_output"@) ==> {
                &&& final(self).additional_outputs@.map_values(|s: String| s@) == if old(self).additional_outputs@.map_values(|s: String| s@).contains(name@) {
                    old(self).additional_outputs@.map_values(|s: String| s@)
                } else {
                    old(self).additional_outputs@.map_values(|s: String| s@).push(name@)
                }
                &&& *final(self) == (Request { additional_outputs: final(self).additional_outputs, ..*old(self) })
            },
    {
        proof {
            reveal_strlit("context_logits");
            reveal_strlit("generation_logits");
            reveal_strlit("encoder_output");
            assert("context_logits"@.len() != "generation_logits"@.len());
            assert("encoder_output"@.len() != "generation_logits"@.len());
            assert("context_logits"@[0] != "encoder_output"@[0]);
        }
        if same_text(name, "context_logits") {
            self.return_context_logits = true;
        } else if same_text(name, "generation_logits") {
            self.return_generation_logits = true;
        } else if same_text(name, "encoder_output") {
            self.return_encoder_output = true;
        } else {
            self.push_additional_output(name);
        }
    }

    /// Requests an additional output by name, once.
    fn push_additional_output(&mut self, name: &str)
        ensures
            final(self).additional_outputs@.map_values(|s: String| s@) == if old(self).additional_outputs@.map_values(|s: String| s@).contains(name@) {
                old(self).additional_outputs@.map_values(|s: String| s@)
            } else {
                old(self).additional_outputs@.map_values(|s: String| s@).push(name@)
            },
            *final(self) == (Request { additional_outputs: final(self).additional_outputs, ..*old(self) }),
    {
        let ghost names = self.additional_outputs@.map_values(|s: String| s@);
        let mut k: usize = 0;
        while k < self.additional_outputs.len()
            invariant
                names == self.additional_outputs@.map_values(|s: String| s@),
                k <= self.additional_outputs@.len(),
                forall|j: int| 0 <= j < k ==> names[j] != name@,
            decreases self.additional_outputs@.len() - k,
        {
            if same_text(self.additional_outputs[k].as_str(), name) {
                assert(names[k as int] == name@);
                return;
            }
            k = k + 1;
        }
        assert(!names.contains(name@));
        let ghost before = self.additional_outputs@;
        self.additional_outputs.push(owned(name));
        assert(self.additional_outputs@.map_values(|s: String| s@) =~= names.push(name@));
    }
}

} // verus!
