//! Executor configuration: the settings a caller builds up, their checks, and
//! their encoding as the flat values the executor's C ABI takes.

use vstd::prelude::*;
use crate::float_bits::{f32_bits_finite, f32_bits_lt_zero, is_finite_bits, lt_zero_bits};
use crate::llm::error::{Error, is_invalid_argument};
use crate::llm::request::LookaheadConfig;
use crate::llm::word_list::{WordListBuffer, flatten, owned_words, word_list_encodes};
use crate::text::owned;

verus! {

/// Microseconds a sequence may stay idle before the executor drops it.
pub const DEFAULT_MAX_SEQ_IDLE_MICROSECONDS: u64 = 180_000_000;

/// Whether a string can cross the C ABI: it holds no NUL character.
pub open spec fn no_nul(s: Seq<char>) -> bool {
    !s.contains('\0')
}

/// The C ABI value of a flag.
pub open spec fn flag(b: bool) -> i32 {
    if b {
        1
    } else {
        0
    }
}

/// Encodes a flag as the C ABI takes it.
pub fn flag_value(b: bool) -> (r: i32)
    ensures
        r == flag(b),
{
    if b {
        1
    } else {
        0
    }
}

/// How requests are batched.
#[derive(Clone, Copy, Debug, Eq, PartialEq, Structural)]
pub enum BatchingType {
    Static,
    Inflight,
}

/// The C ABI value of a batching type.
pub open spec fn spec_batching_code(t: BatchingType) -> i32 {
    match t {
        BatchingType::Static => 0,
        BatchingType::Inflight => 1,
    }
}

impl BatchingType {
    /// The value the executor's C ABI takes for this batching type.
    pub fn as_i32(self) -> (r: i32)
        ensures
            r == spec_batching_code(self),
    {
        match self {
            BatchingType::Static => 0,
            BatchingType::Inflight => 1,
        }
    }
}

/// How the capacity scheduler admits requests.
#[derive(Clone, Copy, Debug, Eq, PartialEq, Structural)]
pub enum CapacitySchedulerPolicy {
    MaxUtilization,
    GuaranteedNoEvict,
    StaticBatch,
}

/// The C ABI value of a capacity policy.
pub open spec fn spec_capacity_code(p: CapacitySchedulerPolicy) -> i32 {
    match p {
        CapacitySchedulerPolicy::MaxUtilization => 0,
        CapacitySchedulerPolicy::GuaranteedNoEvict => 1,
        CapacitySchedulerPolicy::StaticBatch => 2,
    }
}

impl CapacitySchedulerPolicy {
    /// The value the executor's C ABI takes for this policy.
    pub fn as_i32(self) -> (r: i32)
        ensures
            r == spec_capacity_code(self),
    {
        match self {
            CapacitySchedulerPolicy::MaxUtilization => 0,
            CapacitySchedulerPolicy::GuaranteedNoEvict => 1,
            CapacitySchedulerPolicy::StaticBatch => 2,
        }
    }
}

/// How context phases are chunked.
#[derive(Clone, Copy, Debug, Eq, PartialEq, Structural)]
pub enum ContextChunkingPolicy {
    FirstComeFirstServed,
    EqualProgress,
    ForceChunk,
}

/// The C ABI value of a chunking policy.
pub open spec fn spec_chunking_code(p: ContextChunkingPolicy) -> i32 {
    match p {
        ContextChunkingPolicy::FirstComeFirstServed => 0,
        ContextChunkingPolicy::EqualProgress => 1,
        ContextChunkingPolicy::ForceChunk => 2,
    }
}

impl ContextChunkingPolicy {
    /// The value the executor's C ABI takes for this policy.
    pub fn as_i32(self) -> (r: i32)
        ensures
            r == spec_chunking_code(self),
    {
        match self {
            ContextChunkingPolicy::FirstComeFirstServed => 0,
            ContextChunkingPolicy::EqualProgress => 1,
            ContextChunkingPolicy::ForceChunk => 2,
        }
    }
}

/// How ranks communicate.
#[derive(Clone, Copy, Debug, Eq, PartialEq, Structural)]
pub enum CommunicationType {
    Mpi,
}

/// The C ABI value of a communication type.
pub open spec fn spec_communication_type_code(t: CommunicationType) -> i32 {
    match t {
        CommunicationType::Mpi => 0,
    }
}

impl CommunicationType {
    /// The value the executor's C ABI takes for this communication type.
    pub fn as_i32(self) -> (r: i32)
        ensures
            r == spec_communication_type_code(self),
    {
        match self {
            CommunicationType::Mpi => 0,
        }
    }
}

/// Which rank drives the executor.
#[derive(Clone, Copy, Debug, Eq, PartialEq, Structural)]
pub enum CommunicationMode {
    Leader,
    Orchestrator,
}

/// The C ABI value of a communication mode.
pub open spec fn spec_communication_mode_code(m: CommunicationMode) -> i32 {
    match m {
        CommunicationMode::Leader => 0,
        CommunicationMode::Orchestrator => 1,
    }
}

impl CommunicationMode {
    /// The value the executor's C ABI takes for this communication mode.
    pub fn as_i32(self) -> (r: i32)
        ensures
            r == spec_communication_mode_code(self),
    {
        match self {
            CommunicationMode::Leader => 0,
            CommunicationMode::Orchestrator => 1,
        }
    }
}

/// The decoding algorithm.
#[derive(Clone, Copy, Debug, Eq, PartialEq, Structural)]
pub enum DecodingMode {
    Auto,
    TopK,
    TopP,
    TopKTopP,
    BeamSearch,
    Medusa,
    Lookahead,
    ExplicitDraftTokens,
    ExternalDraftTokens,
    Eagle,
}

/// The C ABI value of a decoding mode.
pub open spec fn spec_decoding_mode_code(m: DecodingMode) -> i32 {
    match m {
        DecodingMode::Auto => 0,
        DecodingMode::TopK => 1,
        DecodingMode::TopP => 2,
        DecodingMode::TopKTopP => 3,
        DecodingMode::BeamSearch => 4,
        DecodingMode::Medusa => 5,
        DecodingMode::Lookahead => 6,
        DecodingMode::ExplicitDraftTokens => 7,
        DecodingMode::ExternalDraftTokens => 8,
        DecodingMode::Eagle => 9,
    }
}

impl DecodingMode {
    /// The value the executor's C ABI takes for this decoding mode.
    pub fn as_i32(self) -> (r: i32)
        ensures
            r == spec_decoding_mode_code(self),
    {
        match self {
            DecodingMode::Auto => 0,
            DecodingMode::TopK => 1,
            DecodingMode::TopP => 2,
            DecodingMode::TopKTopP => 3,
            DecodingMode::BeamSearch => 4,
            DecodingMode::Medusa => 5,
            DecodingMode::Lookahead => 6,
            DecodingMode::ExplicitDraftTokens => 7,
            DecodingMode::ExternalDraftTokens => 8,
            DecodingMode::Eagle => 9,
        }
    }
}

/// The grammar engine of guided decoding.
#[derive(Clone, Copy, Debug, Eq, PartialEq, Structural)]
pub enum GuidedDecodingBackend {
    XGrammar,
    LlGuidance,
}

/// The C ABI value of a guided decoding backend.
pub open spec fn spec_guided_backend_code(b: GuidedDecodingBackend) -> i32 {
    match b {
        GuidedDecodingBackend::XGrammar => 0,
        GuidedDecodingBackend::LlGuidance => 1,
    }
}

impl GuidedDecodingBackend {
    /// The value the executor's C ABI takes for this backend.
    pub fn as_i32(self) -> (r: i32)
        ensures
            r == spec_guided_backend_code(self),
    {
        match self {
            GuidedDecodingBackend::XGrammar => 0,
            GuidedDecodingBackend::LlGuidance => 1,
        }
    }
}

/// The transport of the KV cache transceiver.
#[derive(Clone, Copy, Debug, Eq, PartialEq, Structural)]
pub enum CacheTransceiverBackend {
    Default,
    Mpi,
    Ucx,
    Nixl,
    Mooncake,
}

/// The C ABI value of a cache transceiver backend.
pub open spec fn spec_transceiver_code(b: CacheTransceiverBackend) -> i32 {
    match b {
        CacheTransceiverBackend::Default => 0,
        CacheTransceiverBackend::Mpi => 1,
        CacheTransceiverBackend::Ucx => 2,
        CacheTransceiverBackend::Nixl => 3,
        CacheTransceiverBackend::Mooncake => 4,
    }
}

impl CacheTransceiverBackend {
    /// The value the executor's C ABI takes for this backend.
    pub fn as_i32(self) -> (r: i32)
        ensures
            r == spec_transceiver_code(self),
    {
        match self {
            CacheTransceiverBackend::Default => 0,
            CacheTransceiverBackend::Mpi => 1,
            CacheTransceiverBackend::Ucx => 2,
            CacheTransceiverBackend::Nixl => 3,
            CacheTransceiverBackend::Mooncake => 4,
        }
    }
}

/// Dynamic tuning of the batch size and token budget.
#[derive(Clone, Debug)]
pub struct DynamicBatchConfig {
    pub enable_batch_size_tuning: bool,
    pub enable_max_num_tokens_tuning: bool,
    pub moving_average_window: i32,
    pub batch_size_table: Vec<(i32, i32)>,
}

/// The settings of a new `DynamicBatchConfig`.
pub open spec fn default_dynamic_batch_config(c: DynamicBatchConfig) -> bool {
    &&& c.enable_batch_size_tuning == false
    &&& c.enable_max_num_tokens_tuning == false
    &&& c.moving_average_window == 128
    &&& c.batch_size_table@.len() == 0
}

impl DynamicBatchConfig {
    /// The default settings.
    pub fn new() -> (r: Self)
        ensures
            default_dynamic_batch_config(r),
    {
        DynamicBatchConfig {
            enable_batch_size_tuning: false,
            enable_max_num_tokens_tuning: false,
            moving_average_window: 128,
            batch_size_table: Vec::new(),
        }
    }

    /// Sets batch size tuning.
    pub fn tune_batch_size(self, enabled: bool) -> (r: Self)
        ensures
            r == (DynamicBatchConfig { enable_batch_size_tuning: enabled, ..self }),
    {
        DynamicBatchConfig { enable_batch_size_tuning: enabled, ..self }
    }

    /// Sets token budget tuning.
    pub fn tune_max_num_tokens(self, enabled: bool) -> (r: Self)
        ensures
            r == (DynamicBatchConfig { enable_max_num_tokens_tuning: enabled, ..self }),
    {
        DynamicBatchConfig { enable_max_num_tokens_tuning: enabled, ..self }
    }

    /// Sets the moving average window.
    pub fn moving_average_window(self, window: i32) -> (r: Self)
        ensures
            r == (DynamicBatchConfig { moving_average_window: window, ..self }),
    {
        DynamicBatchConfig { moving_average_window: window, ..self }
    }

    /// Sets the table of batch sizes by token count.
    pub fn batch_size_table(self, table: Vec<(i32, i32)>) -> (r: Self)
        ensures
            r == (DynamicBatchConfig { batch_size_table: table, ..self }),
    {
        DynamicBatchConfig { batch_size_table: table, ..self }
    }

}

impl Default for DynamicBatchConfig {
    fn default() -> (r: Self)
        ensures
            default_dynamic_batch_config(r),
    {
        DynamicBatchConfig::new()
    }
}

/// How the executor schedules requests.
#[derive(Clone, Debug)]
pub struct SchedulerConfig {
    pub capacity_scheduler_policy: CapacitySchedulerPolicy,
    pub context_chunking_policy: Option<ContextChunkingPolicy>,
    pub dynamic_batch_config: Option<DynamicBatchConfig>,
}

/// The settings of a new `SchedulerConfig`.
pub open spec fn default_scheduler_config(c: SchedulerConfig) -> bool {
    &&& c.capacity_scheduler_policy == CapacitySchedulerPolicy::GuaranteedNoEvict
    &&& c.context_chunking_policy is None
    &&& c.dynamic_batch_config is None
}

impl SchedulerConfig {
    /// The default settings.
    pub fn new() -> (r: Self)
        ensures
            default_scheduler_config(r),
    {
        SchedulerConfig {
            capacity_scheduler_policy: CapacitySchedulerPolicy::GuaranteedNoEvict,
            context_chunking_policy: None,
            dynamic_batch_config: None,
        }
    }

    /// Sets the capacity policy.
    pub fn capacity_policy(self, policy: CapacitySchedulerPolicy) -> (r: Self)
        ensures
            r == (SchedulerConfig { capacity_scheduler_policy: policy, ..self }),
    {
        SchedulerConfig { capacity_scheduler_policy: policy, ..self }
    }

    /// Sets the context chunking policy.
    pub fn context_chunking_policy(self, policy: ContextChunkingPolicy) -> (r: Self)
        ensures
            r == (SchedulerConfig { context_chunking_policy: Some(policy), ..self }),
    {
        SchedulerConfig { context_chunking_policy: Some(policy), ..self }
    }

    /// Sets dynamic batch tuning.
    pub fn dynamic_batch(self, config: DynamicBatchConfig) -> (r: Self)
        ensures
            r == (SchedulerConfig { dynamic_batch_config: Some(config), ..self }),
    {
        SchedulerConfig { dynamic_batch_config: Some(config), ..self }
    }

}

impl Default for SchedulerConfig {
    fn default() -> (r: Self)
        ensures
            default_scheduler_config(r),
    {
        SchedulerConfig::new()
    }
}

/// Runtime defaults of the KV cache that a model may carry.
#[derive(Clone, Debug)]
pub struct RuntimeDefaults {
    pub max_attention_window: Vec<i32>,
    pub sink_token_length: Option<i32>,
}

/// The settings of a new `RuntimeDefaults`.
pub open spec fn default_runtime_defaults(c: RuntimeDefaults) -> bool {
    &&& c.max_attention_window@.len() == 0
    &&& c.sink_token_length is None
}

impl RuntimeDefaults {
    /// The default settings.
    pub fn new() -> (r: Self)
        ensures
            default_runtime_defaults(r),
    {
        RuntimeDefaults {
            max_attention_window: Vec::new(),
            sink_token_length: None,
        }
    }

    /// Sets the attention window of each layer.
    pub fn max_attention_window(self, window: Vec<i32>) -> (r: Self)
        ensures
            r == (RuntimeDefaults { max_attention_window: window, ..self }),
    {
        RuntimeDefaults { max_attention_window: window, ..self }
    }

    /// Sets the sink token length.
    pub fn sink_token_length(self, length: i32) -> (r: Self)
        ensures
            r == (RuntimeDefaults { sink_token_length: Some(length), ..self }),
    {
        RuntimeDefaults { sink_token_length: Some(length), ..self }
    }

}

impl Default for RuntimeDefaults {
    fn default() -> (r: Self)
        ensures
            default_runtime_defaults(r),
    {
        RuntimeDefaults::new()
    }
}

/// The executor's KV cache. Fractions are `f32` bit patterns.
#[derive(Clone, Debug)]
pub struct KvCacheConfig {
    pub enable_block_reuse: bool,
    pub max_tokens: Option<i32>,
    pub max_attention_window: Vec<i32>,
    pub sink_token_length: Option<i32>,
    pub free_gpu_memory_fraction: Option<u32>,
    pub host_cache_size: Option<usize>,
    pub cross_kv_cache_fraction: Option<u32>,
    pub secondary_offload_min_priority: Option<i32>,
    pub event_buffer_max_size: usize,
    pub enable_partial_reuse: bool,
    pub copy_on_partial_reuse: bool,
    pub use_uvm: bool,
    pub attention_dp_events_gather_period_ms: i32,
    pub runtime_defaults: Option<RuntimeDefaults>,
    pub max_gpu_total_bytes: u64,
}

/// The settings of a new `KvCacheConfig`.
pub open spec fn default_kv_cache_config(c: KvCacheConfig) -> bool {
    &&& c.enable_block_reuse == true
    &&& c.max_tokens is None
    &&& c.max_attention_window@.len() == 0
    &&& c.sink_token_length is None
    &&& c.free_gpu_memory_fraction is None
    &&& c.host_cache_size is None
    &&& c.cross_kv_cache_fraction is None
    &&& c.secondary_offload_min_priority is None
    &&& c.event_buffer_max_size == 0
    &&& c.enable_partial_reuse == true
    &&& c.copy_on_partial_reuse == true
    &&& c.use_uvm == false
    &&& c.attention_dp_events_gather_period_ms == 5
    &&& c.runtime_defaults is None
    &&& c.max_gpu_total_bytes == 0
}

impl KvCacheConfig {
    /// The default settings.
    pub fn new() -> (r: Self)
        ensures
            default_kv_cache_config(r),
    {
        KvCacheConfig {
            enable_block_reuse: true,
            max_tokens: None,
            max_attention_window: Vec::new(),
            sink_token_length: None,
            free_gpu_memory_fraction: None,
            host_cache_size: None,
            cross_kv_cache_fraction: None,
            secondary_offload_min_priority: None,
            event_buffer_max_size: 0,
            enable_partial_reuse: true,
            copy_on_partial_reuse: true,
            use_uvm: false,
            attention_dp_events_gather_period_ms: 5,
            runtime_defaults: None,
            max_gpu_total_bytes: 0,
        }
    }

    /// Sets block reuse.
    pub fn block_reuse(self, enabled: bool) -> (r: Self)
        ensures
            r == (KvCacheConfig { enable_block_reuse: enabled, ..self }),
    {
        KvCacheConfig { enable_block_reuse: enabled, ..self }
    }

    /// Sets the token capacity.
    pub fn max_tokens(self, max_tokens: i32) -> (r: Self)
        ensures
            r == (KvCacheConfig { max_tokens: Some(max_tokens), ..self }),
    {
        KvCacheConfig { max_tokens: Some(max_tokens), ..self }
    }

    /// Sets the attention window of each layer.
    pub fn max_attention_window(self, window: Vec<i32>) -> (r: Self)
        ensures
            r == (KvCacheConfig { max_attention_window: window, ..self }),
    {
        KvCacheConfig { max_attention_window: window, ..self }
    }

    /// Sets the sink token length.
    pub fn sink_token_length(self, length: i32) -> (r: Self)
        ensures
            r == (KvCacheConfig { sink_token_length: Some(length), ..self }),
    {
        KvCacheConfig { sink_token_length: Some(length), ..self }
    }

    /// Sets the fraction of free GPU memory used, given as its `f32` bits.
    pub fn free_gpu_memory_fraction(self, fraction: u32) -> (r: Self)
        ensures
            r == (KvCacheConfig { free_gpu_memory_fraction: Some(fraction), ..self }),
    {
        KvCacheConfig { free_gpu_memory_fraction: Some(fraction), ..self }
    }

    /// Sets the host cache size.
    pub fn host_cache_size(self, bytes: usize) -> (r: Self)
        ensures
            r == (KvCacheConfig { host_cache_size: Some(bytes), ..self }),
    {
        KvCacheConfig { host_cache_size: Some(bytes), ..self }
    }

    /// Sets the cross-attention cache fraction, given as its `f32` bits.
    pub fn cross_kv_cache_fraction(self, fraction: u32) -> (r: Self)
        ensures
            r == (KvCacheConfig { cross_kv_cache_fraction: Some(fraction), ..self }),
    {
        KvCacheConfig { cross_kv_cache_fraction: Some(fraction), ..self }
    }

    /// Sets the lowest priority offloaded to secondary memory.
    pub fn secondary_offload_min_priority(self, priority: i32) -> (r: Self)
        ensures
            r == (KvCacheConfig { secondary_offload_min_priority: Some(priority), ..self }),
    {
        KvCacheConfig { secondary_offload_min_priority: Some(priority), ..self }
    }

    /// Sets the event buffer size.
    pub fn event_buffer_max_size(self, size: usize) -> (r: Self)
        ensures
            r == (KvCacheConfig { event_buffer_max_size: size, ..self }),
    {
        KvCacheConfig { event_buffer_max_size: size, ..self }
    }

    /// Sets partial block reuse.
    pub fn partial_block_reuse(self, enabled: bool) -> (r: Self)
        ensures
            r == (KvCacheConfig { enable_partial_reuse: enabled, ..self }),
    {
        KvCacheConfig { enable_partial_reuse: enabled, ..self }
    }

    /// Sets copying on partial reuse.
    pub fn copy_on_partial_reuse(self, enabled: bool) -> (r: Self)
        ensures
            r == (KvCacheConfig { copy_on_partial_reuse: enabled, ..self }),
    {
        KvCacheConfig { copy_on_partial_reuse: enabled, ..self }
    }

    /// Sets unified memory.
    pub fn unified_memory(self, enabled: bool) -> (r: Self)
        ensures
            r == (KvCacheConfig { use_uvm: enabled, ..self }),
    {
        KvCacheConfig { use_uvm: enabled, ..self }
    }

    /// Sets the attention data-parallel event gather period.
    pub fn attention_dp_events_gather_period_ms(self, ms: i32) -> (r: Self)
        ensures
            r == (KvCacheConfig { attention_dp_events_gather_period_ms: ms, ..self }),
    {
        KvCacheConfig { attention_dp_events_gather_period_ms: ms, ..self }
    }

    /// Sets the runtime defaults.
    pub fn runtime_defaults(self, defaults: RuntimeDefaults) -> (r: Self)
        ensures
            r == (KvCacheConfig { runtime_defaults: Some(defaults), ..self }),
    {
        KvCacheConfig { runtime_defaults: Some(defaults), ..self }
    }

    /// Sets the GPU memory cap.
    pub fn max_gpu_total_bytes(self, bytes: u64) -> (r: Self)
        ensures
            r == (KvCacheConfig { max_gpu_total_bytes: bytes, ..self }),
    {
        KvCacheConfig { max_gpu_total_bytes: bytes, ..self }
    }

}

impl Default for KvCacheConfig {
    fn default() -> (r: Self)
        ensures
            default_kv_cache_config(r),
    {
        KvCacheConfig::new()
    }
}

/// Orchestrator mode: a leader process that spawns the workers.
#[derive(Clone, Debug)]
pub struct OrchestratorConfig {
    pub is_orchestrator: bool,
    pub worker_executable_path: Option<String>,
    pub spawn_processes: bool,
}

/// The settings of a new `OrchestratorConfig`.
pub open spec fn default_orchestrator_config(c: OrchestratorConfig) -> bool {
    &&& c.is_orchestrator == true
    &&& c.worker_executable_path is None
    &&& c.spawn_processes == true
}

impl OrchestratorConfig {
    /// The default settings.
    pub fn new() -> (r: Self)
        ensures
            default_orchestrator_config(r),
    {
        OrchestratorConfig {
            is_orchestrator: true,
            worker_executable_path: None,
            spawn_processes: true,
        }
    }

    /// Sets whether this process orchestrates.
    pub fn enabled(self, enabled: bool) -> (r: Self)
        ensures
            r == (OrchestratorConfig { is_orchestrator: enabled, ..self }),
    {
        OrchestratorConfig { is_orchestrator: enabled, ..self }
    }

    /// Sets whether workers are spawned.
    pub fn spawn_processes(self, enabled: bool) -> (r: Self)
        ensures
            r == (OrchestratorConfig { spawn_processes: enabled, ..self }),
    {
        OrchestratorConfig { spawn_processes: enabled, ..self }
    }

}

impl Default for OrchestratorConfig {
    fn default() -> (r: Self)
        ensures
            default_orchestrator_config(r),
    {
        OrchestratorConfig::new()
    }
}

/// How the executor is spread over devices and processes.
#[derive(Clone, Debug)]
pub struct ParallelConfig {
    pub communication_type: CommunicationType,
    pub communication_mode: CommunicationMode,
    pub device_ids: Vec<i32>,
    pub participant_ids: Vec<i32>,
    pub orchestrator_config: Option<OrchestratorConfig>,
    pub num_nodes: Option<i32>,
}

/// The settings of a new `ParallelConfig`.
pub open spec fn default_parallel_config(c: ParallelConfig) -> bool {
    &&& c.communication_type == CommunicationType::Mpi
    &&& c.communication_mode == CommunicationMode::Leader
    &&& c.device_ids@.len() == 0
    &&& c.participant_ids@.len() == 0
    &&& c.orchestrator_config is None
    &&& c.num_nodes is None
}

impl ParallelConfig {
    /// The default settings.
    pub fn new() -> (r: Self)
        ensures
            default_parallel_config(r),
    {
        ParallelConfig {
            communication_type: CommunicationType::Mpi,
            communication_mode: CommunicationMode::Leader,
            device_ids: Vec::new(),
            participant_ids: Vec::new(),
            orchestrator_config: None,
            num_nodes: None,
        }
    }

    /// Sets the communication type.
    pub fn communication_type(self, communication_type: CommunicationType) -> (r: Self)
        ensures
            r == (ParallelConfig { communication_type: communication_type, ..self }),
    {
        ParallelConfig { communication_type: communication_type, ..self }
    }

    /// Sets the communication mode.
    pub fn communication_mode(self, communication_mode: CommunicationMode) -> (r: Self)
        ensures
            r == (ParallelConfig { communication_mode: communication_mode, ..self }),
    {
        ParallelConfig { communication_mode: communication_mode, ..self }
    }

    /// Sets the devices used.
    pub fn device_ids(self, device_ids: Vec<i32>) -> (r: Self)
        ensures
            r == (ParallelConfig { device_ids: device_ids, ..self }),
    {
        ParallelConfig { device_ids: device_ids, ..self }
    }

    /// Sets the participating ranks.
    pub fn participant_ids(self, participant_ids: Vec<i32>) -> (r: Self)
        ensures
            r == (ParallelConfig { participant_ids: participant_ids, ..self }),
    {
        ParallelConfig { participant_ids: participant_ids, ..self }
    }

    /// Sets orchestrator mode.
    pub fn orchestrator(self, config: OrchestratorConfig) -> (r: Self)
        ensures
            r == (ParallelConfig { orchestrator_config: Some(config), ..self }),
    {
        ParallelConfig { orchestrator_config: Some(config), ..self }
    }

    /// Sets the number of nodes.
    pub fn num_nodes(self, num_nodes: i32) -> (r: Self)
        ensures
            r == (ParallelConfig { num_nodes: Some(num_nodes), ..self }),
    {
        ParallelConfig { num_nodes: Some(num_nodes), ..self }
    }

}

impl Default for ParallelConfig {
    fn default() -> (r: Self)
        ensures
            default_parallel_config(r),
    {
        ParallelConfig::new()
    }
}

/// The cache of parameter-efficient adapters. The device fraction is an `f32` bit pattern.
#[derive(Clone, Debug)]
pub struct PeftCacheConfig {
    pub num_host_module_layer: i32,
    pub num_device_module_layer: i32,
    pub optimal_adapter_size: i32,
    pub max_adapter_size: i32,
    pub num_put_workers: i32,
    pub num_ensure_workers: i32,
    pub num_copy_streams: i32,
    pub max_pages_per_block_host: i32,
    pub max_pages_per_block_device: i32,
    pub device_cache_percent: Option<u32>,
    pub host_cache_size: Option<usize>,
    pub lora_prefetch_dir: Option<String>,
}

/// The settings of a new `PeftCacheConfig`.
pub open spec fn default_peft_cache_config(c: PeftCacheConfig) -> bool {
    &&& c.num_host_module_layer == 0
    &&& c.num_device_module_layer == 0
    &&& c.optimal_adapter_size == 8
    &&& c.max_adapter_size == 64
    &&& c.num_put_workers == 1
    &&& c.num_ensure_workers == 1
    &&& c.num_copy_streams == 1
    &&& c.max_pages_per_block_host == 24
    &&& c.max_pages_per_block_device == 8
    &&& c.device_cache_percent is None
    &&& c.host_cache_size is None
    &&& c.lora_prefetch_dir is None
}

impl PeftCacheConfig {
    /// The default settings.
    pub fn new() -> (r: Self)
        ensures
            default_peft_cache_config(r),
    {
        PeftCacheConfig {
            num_host_module_layer: 0,
            num_device_module_layer: 0,
            optimal_adapter_size: 8,
            max_adapter_size: 64,
            num_put_workers: 1,
            num_ensure_workers: 1,
            num_copy_streams: 1,
            max_pages_per_block_host: 24,
            max_pages_per_block_device: 8,
            device_cache_percent: None,
            host_cache_size: None,
            lora_prefetch_dir: None,
        }
    }

    /// Sets the module layers cached on the host.
    pub fn host_module_layers(self, value: i32) -> (r: Self)
        ensures
            r == (PeftCacheConfig { num_host_module_layer: value, ..self }),
    {
        PeftCacheConfig { num_host_module_layer: value, ..self }
    }

    /// Sets the module layers cached on the device.
    pub fn device_module_layers(self, value: i32) -> (r: Self)
        ensures
            r == (PeftCacheConfig { num_device_module_layer: value, ..self }),
    {
        PeftCacheConfig { num_device_module_layer: value, ..self }
    }

    /// Sets the optimal adapter size.
    pub fn optimal_adapter_size(self, value: i32) -> (r: Self)
        ensures
            r == (PeftCacheConfig { optimal_adapter_size: value, ..self }),
    {
        PeftCacheConfig { optimal_adapter_size: value, ..self }
    }

    /// Sets the largest adapter size.
    pub fn max_adapter_size(self, value: i32) -> (r: Self)
        ensures
            r == (PeftCacheConfig { max_adapter_size: value, ..self }),
    {
        PeftCacheConfig { max_adapter_size: value, ..self }
    }

    /// Sets the put workers.
    pub fn put_workers(self, value: i32) -> (r: Self)
        ensures
            r == (PeftCacheConfig { num_put_workers: value, ..self }),
    {
        PeftCacheConfig { num_put_workers: value, ..self }
    }

    /// Sets the ensure workers.
    pub fn ensure_workers(self, value: i32) -> (r: Self)
        ensures
            r == (PeftCacheConfig { num_ensure_workers: value, ..self }),
    {
        PeftCacheConfig { num_ensure_workers: value, ..self }
    }

    /// Sets the copy streams.
    pub fn copy_streams(self, value: i32) -> (r: Self)
        ensures
            r == (PeftCacheConfig { num_copy_streams: value, ..self }),
    {
        PeftCacheConfig { num_copy_streams: value, ..self }
    }

    /// Sets the host pages per block.
    pub fn max_pages_per_block_host(self, value: i32) -> (r: Self)
        ensures
            r == (PeftCacheConfig { max_pages_per_block_host: value, ..self }),
    {
        PeftCacheConfig { max_pages_per_block_host: value, ..self }
    }

    /// Sets the device pages per block.
    pub fn max_pages_per_block_device(self, value: i32) -> (r: Self)
        ensures
            r == (PeftCacheConfig { max_pages_per_block_device: value, ..self }),
    {
        PeftCacheConfig { max_pages_per_block_device: value, ..self }
    }

    /// Sets the device cache fraction, given as its `f32` bits.
    pub fn device_cache_fraction(self, value: u32) -> (r: Self)
        ensures
            r == (PeftCacheConfig { device_cache_percent: Some(value), ..self }),
    {
        PeftCacheConfig { device_cache_percent: Some(value), ..self }
    }

    /// Sets the host cache size.
    pub fn host_cache_size(self, value: usize) -> (r: Self)
        ensures
            r == (PeftCacheConfig { host_cache_size: Some(value), ..self }),
    {
        PeftCacheConfig { host_cache_size: Some(value), ..self }
    }

}

impl Default for PeftCacheConfig {
    fn default() -> (r: Self)
        ensures
            default_peft_cache_config(r),
    {
        PeftCacheConfig::new()
    }
}

/// The executor's decoding algorithm. The EAGLE threshold is an `f32` bit pattern.
#[derive(Clone, Debug)]
pub struct DecodingConfig {
    pub decoding_mode: Option<DecodingMode>,
    pub lookahead_config: Option<LookaheadConfig>,
    pub medusa_choices: Vec<Vec<i32>>,
    pub eagle_enabled: bool,
    pub eagle_choices: Vec<Vec<i32>>,
    pub eagle_greedy_sampling: bool,
    pub eagle_posterior_threshold: Option<u32>,
    pub eagle_use_dynamic_tree: bool,
    pub eagle_dynamic_tree_max_top_k: Option<i32>,
}

/// The settings of a new `DecodingConfig`.
pub open spec fn default_decoding_config(c: DecodingConfig) -> bool {
    &&& c.decoding_mode is None
    &&& c.lookahead_config is None
    &&& c.medusa_choices@.len() == 0
    &&& c.eagle_enabled == false
    &&& c.eagle_choices@.len() == 0
    &&& c.eagle_greedy_sampling == true
    &&& c.eagle_posterior_threshold is None
    &&& c.eagle_use_dynamic_tree == false
    &&& c.eagle_dynamic_tree_max_top_k is None
}

impl DecodingConfig {
    /// The default settings.
    pub fn new() -> (r: Self)
        ensures
            default_decoding_config(r),
    {
        DecodingConfig {
            decoding_mode: None,
            lookahead_config: None,
            medusa_choices: Vec::new(),
            eagle_enabled: false,
            eagle_choices: Vec::new(),
            eagle_greedy_sampling: true,
            eagle_posterior_threshold: None,
            eagle_use_dynamic_tree: false,
            eagle_dynamic_tree_max_top_k: None,
        }
    }

    /// Sets the decoding mode.
    pub fn mode(self, mode: DecodingMode) -> (r: Self)
        ensures
            r == (DecodingConfig { decoding_mode: Some(mode), ..self }),
    {
        DecodingConfig { decoding_mode: Some(mode), ..self }
    }

    /// Sets lookahead decoding.
    pub fn lookahead(self, config: LookaheadConfig) -> (r: Self)
        ensures
            r == (DecodingConfig { lookahead_config: Some(config), ..self }),
    {
        DecodingConfig { lookahead_config: Some(config), ..self }
    }

    /// Sets the Medusa choices.
    pub fn medusa_choices(self, choices: Vec<Vec<i32>>) -> (r: Self)
        ensures
            r == (DecodingConfig { medusa_choices: choices, ..self }),
    {
        DecodingConfig { medusa_choices: choices, ..self }
    }

}

impl Default for DecodingConfig {
    fn default() -> (r: Self)
        ensures
            default_decoding_config(r),
    {
        DecodingConfig::new()
    }
}

/// Runtime performance switches of the engine.
#[derive(Clone, Debug)]
pub struct RuntimePerformanceConfig {
    pub multi_block_mode: bool,
    pub enable_context_fmha_fp32_acc: bool,
    pub cuda_graph_mode: bool,
    pub cuda_graph_cache_size: i32,
}

/// The settings of a new `RuntimePerformanceConfig`.
pub open spec fn default_runtime_performance_config(c: RuntimePerformanceConfig) -> bool {
    &&& c.multi_block_mode == true
    &&& c.enable_context_fmha_fp32_acc == false
    &&& c.cuda_graph_mode == false
    &&& c.cuda_graph_cache_size == 0
}

impl RuntimePerformanceConfig {
    /// The default settings.
    pub fn new() -> (r: Self)
        ensures
            default_runtime_performance_config(r),
    {
        RuntimePerformanceConfig {
            multi_block_mode: true,
            enable_context_fmha_fp32_acc: false,
            cuda_graph_mode: false,
            cuda_graph_cache_size: 0,
        }
    }

    /// Sets multi-block attention.
    pub fn multi_block(self, enabled: bool) -> (r: Self)
        ensures
            r == (RuntimePerformanceConfig { multi_block_mode: enabled, ..self }),
    {
        RuntimePerformanceConfig { multi_block_mode: enabled, ..self }
    }

    /// Sets FP32 accumulation in context attention.
    pub fn context_fmha_fp32_accumulation(self, enabled: bool) -> (r: Self)
        ensures
            r == (RuntimePerformanceConfig { enable_context_fmha_fp32_acc: enabled, ..self }),
    {
        RuntimePerformanceConfig { enable_context_fmha_fp32_acc: enabled, ..self }
    }

    /// Sets CUDA Graph capture.
    pub fn cuda_graphs(self, enabled: bool) -> (r: Self)
        ensures
            r == (RuntimePerformanceConfig { cuda_graph_mode: enabled, ..self }),
    {
        RuntimePerformanceConfig { cuda_graph_mode: enabled, ..self }
    }

    /// Sets the number of cached CUDA Graphs.
    pub fn cuda_graph_cache_size(self, size: i32) -> (r: Self)
        ensures
            r == (RuntimePerformanceConfig { cuda_graph_cache_size: size, ..self }),
    {
        RuntimePerformanceConfig { cuda_graph_cache_size: size, ..self }
    }

}

impl Default for RuntimePerformanceConfig {
    fn default() -> (r: Self)
        ensures
            default_runtime_performance_config(r),
    {
        RuntimePerformanceConfig::new()
    }
}

/// Speculative decoding switches.
#[derive(Clone, Copy, Debug, Eq, PartialEq, Structural)]
pub struct SpeculativeDecodingConfig {
    pub fast_logits: bool,
}

/// The settings of a new `SpeculativeDecodingConfig`.
pub open spec fn default_speculative_decoding_config(c: SpeculativeDecodingConfig) -> bool {
    &&& c.fast_logits == false
}

impl SpeculativeDecodingConfig {
    /// The default settings.
    pub fn new() -> (r: Self)
        ensures
            default_speculative_decoding_config(r),
    {
        SpeculativeDecodingConfig {
            fast_logits: false,
        }
    }

    /// Sets fast logits.
    pub fn fast_logits(self, enabled: bool) -> (r: Self)
        ensures
            r == (SpeculativeDecodingConfig { fast_logits: enabled, ..self }),
    {
        SpeculativeDecodingConfig { fast_logits: enabled, ..self }
    }

}

impl Default for SpeculativeDecodingConfig {
    fn default() -> (r: Self)
        ensures
            default_speculative_decoding_config(r),
    {
        SpeculativeDecodingConfig::new()
    }
}

/// The KV cache transceiver of disaggregated serving.
#[derive(Clone, Debug)]
pub struct CacheTransceiverConfig {
    pub backend_type: Option<CacheTransceiverBackend>,
    pub max_tokens_in_buffer: Option<usize>,
    pub kv_transfer_timeout_ms: Option<i32>,
    pub kv_transfer_sender_future_timeout_ms: Option<i32>,
}

/// The settings of a new `CacheTransceiverConfig`.
pub open spec fn default_cache_transceiver_config(c: CacheTransceiverConfig) -> bool {
    &&& c.backend_type is None
    &&& c.max_tokens_in_buffer is None
    &&& c.kv_transfer_timeout_ms is None
    &&& c.kv_transfer_sender_future_timeout_ms is None
}

impl CacheTransceiverConfig {
    /// The default settings.
    pub fn new() -> (r: Self)
        ensures
            default_cache_transceiver_config(r),
    {
        CacheTransceiverConfig {
            backend_type: None,
            max_tokens_in_buffer: None,
            kv_transfer_timeout_ms: None,
            kv_transfer_sender_future_timeout_ms: None,
        }
    }

    /// Sets the transport.
    pub fn backend(self, backend: CacheTransceiverBackend) -> (r: Self)
        ensures
            r == (CacheTransceiverConfig { backend_type: Some(backend), ..self }),
    {
        CacheTransceiverConfig { backend_type: Some(backend), ..self }
    }

    /// Sets the buffered token count.
    pub fn max_tokens_in_buffer(self, value: usize) -> (r: Self)
        ensures
            r == (CacheTransceiverConfig { max_tokens_in_buffer: Some(value), ..self }),
    {
        CacheTransceiverConfig { max_tokens_in_buffer: Some(value), ..self }
    }

    /// Sets the transfer timeout.
    pub fn transfer_timeout_ms(self, value: i32) -> (r: Self)
        ensures
            r == (CacheTransceiverConfig { kv_transfer_timeout_ms: Some(value), ..self }),
    {
        CacheTransceiverConfig { kv_transfer_timeout_ms: Some(value), ..self }
    }

    /// Sets the sender timeout.
    pub fn sender_future_timeout_ms(self, value: i32) -> (r: Self)
        ensures
            r == (CacheTransceiverConfig { kv_transfer_sender_future_timeout_ms: Some(value), ..self }),
    {
        CacheTransceiverConfig { kv_transfer_sender_future_timeout_ms: Some(value), ..self }
    }

}

impl Default for CacheTransceiverConfig {
    fn default() -> (r: Self)
        ensures
            default_cache_transceiver_config(r),
    {
        CacheTransceiverConfig::new()
    }
}


impl OrchestratorConfig {
    /// Sets the worker executable; it may hold no NUL character.
    pub fn worker_executable_path(self, path: &str) -> (r: Self)
        requires
            no_nul(path@),
        ensures
            r.worker_executable_path matches Some(p) && p@ == path@,
            r == (OrchestratorConfig { worker_executable_path: r.worker_executable_path, ..self }),
    {
        OrchestratorConfig { worker_executable_path: Some(owned(path)), ..self }
    }
}

impl PeftCacheConfig {
    /// Sets the LoRA prefetch directory; it may hold no NUL character.
    pub fn lora_prefetch_dir(self, value: &str) -> (r: Self)
        requires
            no_nul(value@),
        ensures
            r.lora_prefetch_dir matches Some(p) && p@ == value@,
            r == (PeftCacheConfig { lora_prefetch_dir: r.lora_prefetch_dir, ..self }),
    {
        PeftCacheConfig { lora_prefetch_dir: Some(owned(value)), ..self }
    }
}

impl DecodingConfig {
    /// Sets the EAGLE choices, which enables EAGLE.
    pub fn eagle_choices(self, choices: Vec<Vec<i32>>) -> (r: Self)
        ensures
            r == (DecodingConfig { eagle_enabled: true, eagle_choices: choices, ..self }),
    {
        DecodingConfig { eagle_enabled: true, eagle_choices: choices, ..self }
    }

    /// Sets EAGLE greedy sampling, which enables EAGLE.
    pub fn eagle_greedy(self, enabled: bool) -> (r: Self)
        ensures
            r == (DecodingConfig { eagle_enabled: true, eagle_greedy_sampling: enabled, ..self }),
    {
        DecodingConfig { eagle_enabled: true, eagle_greedy_sampling: enabled, ..self }
    }

    /// Sets the EAGLE posterior threshold, given as its `f32` bits, which
    /// enables EAGLE.
    pub fn eagle_posterior_threshold(self, threshold: u32) -> (r: Self)
        ensures
            r == (DecodingConfig { eagle_enabled: true, eagle_posterior_threshold: Some(threshold), ..self }),
    {
        DecodingConfig { eagle_enabled: true, eagle_posterior_threshold: Some(threshold), ..self }
    }

    /// Sets the EAGLE dynamic tree, which enables EAGLE.
    pub fn eagle_dynamic_tree(self, enabled: bool) -> (r: Self)
        ensures
            r == (DecodingConfig { eagle_enabled: true, eagle_use_dynamic_tree: enabled, ..self }),
    {
        DecodingConfig { eagle_enabled: true, eagle_use_dynamic_tree: enabled, ..self }
    }

    /// Sets the EAGLE dynamic tree's top-k, which enables EAGLE.
    pub fn max_eagle_dynamic_tree_top_k(self, top_k: i32) -> (r: Self)
        ensures
            r == (DecodingConfig { eagle_enabled: true, eagle_dynamic_tree_max_top_k: Some(top_k), ..self }),
    {
        DecodingConfig { eagle_enabled: true, eagle_dynamic_tree_max_top_k: Some(top_k), ..self }
    }
}

/// No string holds a NUL character.
pub open spec fn strings_ok(strings: Seq<String>) -> bool {
    forall|k: int| 0 <= k < strings.len() ==> no_nul((#[trigger] strings[k])@)
}

/// Guided decoding of the executor.
#[derive(Clone, Debug)]
pub struct GuidedDecodingConfig {
    pub backend: GuidedDecodingBackend,
    pub encoded_vocab: Vec<String>,
    pub tokenizer_str: Option<String>,
    pub stop_token_ids: Vec<i32>,
}

impl GuidedDecodingConfig {
    /// Guided decoding with `backend`, no vocabulary, tokenizer or stop
    /// tokens yet.
    pub fn new(backend: GuidedDecodingBackend) -> (r: Self)
        ensures
            r.backend == backend,
            r.encoded_vocab@.len() == 0,
            r.tokenizer_str is None,
            r.stop_token_ids@.len() == 0,
    {
        GuidedDecodingConfig {
            backend,
            encoded_vocab: Vec::new(),
            tokenizer_str: None,
            stop_token_ids: Vec::new(),
        }
    }

    /// Sets the encoded vocabulary; no token may hold a NUL character.
    pub fn encoded_vocab(self, vocab: Vec<String>) -> (r: Self)
        requires
            strings_ok(vocab@),
        ensures
            r == (GuidedDecodingConfig { encoded_vocab: vocab, ..self }),
    {
        GuidedDecodingConfig { encoded_vocab: vocab, ..self }
    }

    /// Sets the tokenizer description; it may hold no NUL character.
    pub fn tokenizer(self, tokenizer: &str) -> (r: Self)
        requires
            no_nul(tokenizer@),
        ensures
            r.tokenizer_str matches Some(t) && t@ == tokenizer@,
            r == (GuidedDecodingConfig { tokenizer_str: r.tokenizer_str, ..self }),
    {
        GuidedDecodingConfig { tokenizer_str: Some(owned(tokenizer)), ..self }
    }

    /// Sets the stop tokens.
    pub fn stop_token_ids(self, ids: Vec<i32>) -> (r: Self)
        ensures
            r == (GuidedDecodingConfig { stop_token_ids: ids, ..self }),
    {
        GuidedDecodingConfig { stop_token_ids: ids, ..self }
    }
}

/// Settings of an executor, built up before it is created. The GPU weights
/// fraction is an `f32` bit pattern.
#[derive(Clone, Debug)]
pub struct ExecutorBuilder {
    pub engine_dir: String,
    pub max_beam_width: i32,
    pub scheduler_config: SchedulerConfig,
    pub kv_cache_config: KvCacheConfig,
    pub enable_chunked_context: bool,
    pub normalize_log_probs: bool,
    pub batching_type: BatchingType,
    pub max_batch_size: Option<i32>,
    pub max_num_tokens: Option<i32>,
    pub parallel_config: Option<ParallelConfig>,
    pub peft_cache_config: Option<PeftCacheConfig>,
    pub decoding_config: Option<DecodingConfig>,
    pub use_gpu_direct_storage: bool,
    pub gpu_weights_percent: u32,
    pub max_queue_size: Option<i32>,
    pub extended_runtime_perf_knob_config: RuntimePerformanceConfig,
    pub recv_poll_period_ms: i32,
    pub max_seq_idle_microseconds: u64,
    pub speculative_decoding_config: Option<SpeculativeDecodingConfig>,
    pub guided_decoding_config: Option<GuidedDecodingConfig>,
    pub cache_transceiver_config: Option<CacheTransceiverConfig>,
    pub additional_outputs: Vec<String>,
    pub gather_generation_logits: bool,
    pub prompt_table_offloading: bool,
    pub enable_trt_overlap: bool,
    pub fail_fast_on_attention_window_too_large: bool,
}

impl ExecutorBuilder {
    /// The default settings for the engine in `engine_dir`: beam width one,
    /// in-flight batching, every weight on the GPU.
    pub fn new(engine_dir: &str) -> (r: Self)
        ensures
            r.engine_dir@ == engine_dir@,
            r.max_beam_width == 1,
            default_scheduler_config(r.scheduler_config),
            default_kv_cache_config(r.kv_cache_config),
            !r.enable_chunked_context && !r.normalize_log_probs,
            r.batching_type == BatchingType::Inflight,
            r.max_batch_size is None && r.max_num_tokens is None,
            r.parallel_config is None && r.peft_cache_config is None && r.decoding_config is None,
            !r.use_gpu_direct_storage,
            r.gpu_weights_percent == 0x3f80_0000,
            r.max_queue_size is None,
            default_runtime_performance_config(r.extended_runtime_perf_knob_config),
            r.recv_poll_period_ms == 0,
            r.max_seq_idle_microseconds == DEFAULT_MAX_SEQ_IDLE_MICROSECONDS,
            r.speculative_decoding_config is None && r.guided_decoding_config is None,
            r.cache_transceiver_config is None && r.additional_outputs@.len() == 0,
            !r.gather_generation_logits && !r.prompt_table_offloading && !r.enable_trt_overlap,
            !r.fail_fast_on_attention_window_too_large,
    {
        ExecutorBuilder {
            engine_dir: owned(engine_dir),
            max_beam_width: 1,
            scheduler_config: SchedulerConfig::new(),
            kv_cache_config: KvCacheConfig::new(),
            enable_chunked_context: false,
            normalize_log_probs: false,
            batching_type: BatchingType::Inflight,
            max_batch_size: None,
            max_num_tokens: None,
            parallel_config: None,
            peft_cache_config: None,
            decoding_config: None,
            use_gpu_direct_storage: false,
            gpu_weights_percent: 0x3f80_0000,
            max_queue_size: None,
            extended_runtime_perf_knob_config: RuntimePerformanceConfig::new(),
            recv_poll_period_ms: 0,
            max_seq_idle_microseconds: DEFAULT_MAX_SEQ_IDLE_MICROSECONDS,
            speculative_decoding_config: None,
            guided_decoding_config: None,
            cache_transceiver_config: None,
            additional_outputs: Vec::new(),
            gather_generation_logits: false,
            prompt_table_offloading: false,
            enable_trt_overlap: false,
            fail_fast_on_attention_window_too_large: false,
        }
    }

    /// Sets the beam width limit.
    pub fn max_beam_width(self, value: i32) -> (r: Self)
        ensures
            r == (ExecutorBuilder { max_beam_width: value, ..self }),
    {
        ExecutorBuilder { max_beam_width: value, ..self }
    }

    /// Sets the scheduler.
    pub fn scheduler(self, value: SchedulerConfig) -> (r: Self)
        ensures
            r == (ExecutorBuilder { scheduler_config: value, ..self }),
    {
        ExecutorBuilder { scheduler_config: value, ..self }
    }

    /// Sets the KV cache.
    pub fn kv_cache(self, value: KvCacheConfig) -> (r: Self)
        ensures
            r == (ExecutorBuilder { kv_cache_config: value, ..self }),
    {
        ExecutorBuilder { kv_cache_config: value, ..self }
    }

    /// Sets chunked context.
    pub fn chunked_context(self, enabled: bool) -> (r: Self)
        ensures
            r == (ExecutorBuilder { enable_chunked_context: enabled, ..self }),
    {
        ExecutorBuilder { enable_chunked_context: enabled, ..self }
    }

    /// Sets log probability normalization.
    pub fn normalize_log_probs(self, enabled: bool) -> (r: Self)
        ensures
            r == (ExecutorBuilder { normalize_log_probs: enabled, ..self }),
    {
        ExecutorBuilder { normalize_log_probs: enabled, ..self }
    }

    /// Sets the batching type.
    pub fn batching(self, value: BatchingType) -> (r: Self)
        ensures
            r == (ExecutorBuilder { batching_type: value, ..self }),
    {
        ExecutorBuilder { batching_type: value, ..self }
    }

    /// Sets the batch size limit.
    pub fn max_batch_size(self, value: i32) -> (r: Self)
        ensures
            r == (ExecutorBuilder { max_batch_size: Some(value), ..self }),
    {
        ExecutorBuilder { max_batch_size: Some(value), ..self }
    }

    /// Sets the token limit.
    pub fn max_num_tokens(self, value: i32) -> (r: Self)
        ensures
            r == (ExecutorBuilder { max_num_tokens: Some(value), ..self }),
    {
        ExecutorBuilder { max_num_tokens: Some(value), ..self }
    }

    /// Sets parallelism.
    pub fn parallel(self, value: ParallelConfig) -> (r: Self)
        ensures
            r == (ExecutorBuilder { parallel_config: Some(value), ..self }),
    {
        ExecutorBuilder { parallel_config: Some(value), ..self }
    }

    /// Sets the adapter cache.
    pub fn peft_cache(self, value: PeftCacheConfig) -> (r: Self)
        ensures
            r == (ExecutorBuilder { peft_cache_config: Some(value), ..self }),
    {
        ExecutorBuilder { peft_cache_config: Some(value), ..self }
    }

    /// Sets decoding.
    pub fn decoding(self, value: DecodingConfig) -> (r: Self)
        ensures
            r == (ExecutorBuilder { decoding_config: Some(value), ..self }),
    {
        ExecutorBuilder { decoding_config: Some(value), ..self }
    }

    /// Sets GPU direct storage.
    pub fn direct_storage(self, enabled: bool) -> (r: Self)
        ensures
            r == (ExecutorBuilder { use_gpu_direct_storage: enabled, ..self }),
    {
        ExecutorBuilder { use_gpu_direct_storage: enabled, ..self }
    }

    /// Sets the fraction of weights kept on the GPU, given as its `f32` bits.
    pub fn gpu_weights_fraction(self, value: u32) -> (r: Self)
        ensures
            r == (ExecutorBuilder { gpu_weights_percent: value, ..self }),
    {
        ExecutorBuilder { gpu_weights_percent: value, ..self }
    }

    /// Sets the queue limit.
    pub fn max_queue_size(self, value: i32) -> (r: Self)
        ensures
            r == (ExecutorBuilder { max_queue_size: Some(value), ..self }),
    {
        ExecutorBuilder { max_queue_size: Some(value), ..self }
    }

    /// Sets runtime performance switches.
    pub fn runtime_performance(self, value: RuntimePerformanceConfig) -> (r: Self)
        ensures
            r == (ExecutorBuilder { extended_runtime_perf_knob_config: value, ..self }),
    {
        ExecutorBuilder { extended_runtime_perf_knob_config: value, ..self }
    }

    /// Sets the receive poll period.
    pub fn receive_poll_period_ms(self, value: i32) -> (r: Self)
        ensures
            r == (ExecutorBuilder { recv_poll_period_ms: value, ..self }),
    {
        ExecutorBuilder { recv_poll_period_ms: value, ..self }
    }

    /// Sets how long a sequence may stay idle.
    pub fn max_sequence_idle_microseconds(self, value: u64) -> (r: Self)
        ensures
            r == (ExecutorBuilder { max_seq_idle_microseconds: value, ..self }),
    {
        ExecutorBuilder { max_seq_idle_microseconds: value, ..self }
    }

    /// Sets speculative decoding.
    pub fn speculative_decoding(self, value: SpeculativeDecodingConfig) -> (r: Self)
        ensures
            r == (ExecutorBuilder { speculative_decoding_config: Some(value), ..self }),
    {
        ExecutorBuilder { speculative_decoding_config: Some(value), ..self }
    }

    /// Sets guided decoding.
    pub fn guided_decoding(self, value: GuidedDecodingConfig) -> (r: Self)
        ensures
            r == (ExecutorBuilder { guided_decoding_config: Some(value), ..self }),
    {
        ExecutorBuilder { guided_decoding_config: Some(value), ..self }
    }

    /// Sets the cache transceiver.
    pub fn cache_transceiver(self, value: CacheTransceiverConfig) -> (r: Self)
        ensures
            r == (ExecutorBuilder { cache_transceiver_config: Some(value), ..self }),
    {
        ExecutorBuilder { cache_transceiver_config: Some(value), ..self }
    }

    /// Sets gathering of generation logits.
    pub fn gather_generation_logits(self, enabled: bool) -> (r: Self)
        ensures
            r == (ExecutorBuilder { gather_generation_logits: enabled, ..self }),
    {
        ExecutorBuilder { gather_generation_logits: enabled, ..self }
    }

    /// Sets prompt table offloading.
    pub fn offload_prompt_table(self, enabled: bool) -> (r: Self)
        ensures
            r == (ExecutorBuilder { prompt_table_offloading: enabled, ..self }),
    {
        ExecutorBuilder { prompt_table_offloading: enabled, ..self }
    }

    /// Sets TensorRT overlap.
    pub fn tensorrt_overlap(self, enabled: bool) -> (r: Self)
        ensures
            r == (ExecutorBuilder { enable_trt_overlap: enabled, ..self }),
    {
        ExecutorBuilder { enable_trt_overlap: enabled, ..self }
    }

    /// Sets failing fast on an attention window that is too large.
    pub fn fail_fast_on_attention_window_too_large(self, enabled: bool) -> (r: Self)
        ensures
            r == (ExecutorBuilder { fail_fast_on_attention_window_too_large: enabled, ..self }),
    {
        ExecutorBuilder { fail_fast_on_attention_window_too_large: enabled, ..self }
    }

}


/// `Some` as the C ABI's presence flag.
pub open spec fn has<T>(o: Option<T>) -> i32 {
    flag(o is Some)
}

/// An optional integer, zero when absent.
pub open spec fn or_zero(o: Option<i32>) -> i32 {
    match o {
        Some(v) => v,
        None => 0,
    }
}

/// An optional `f32` bit pattern, that of `0.0` when absent.
pub open spec fn or_zero_bits(o: Option<u32>) -> u32 {
    match o {
        Some(v) => v,
        None => 0,
    }
}

/// An optional size, zero when absent.
pub open spec fn or_zero_usize(o: Option<usize>) -> usize {
    match o {
        Some(v) => v,
        None => 0,
    }
}

impl ExecutorBuilder {
    /// Checks the limits: a positive beam width, positive batch size and
    /// token limits when set, and a finite, non-negative GPU weights
    /// fraction.
    pub fn validate(&self) -> (r: Result<(), Error>)
        ensures
            self.max_beam_width <= 0 ==> (r matches Err(e) && is_invalid_argument(e, "max_beam_width must be positive"@)),
            self.max_beam_width > 0 && (self.max_batch_size matches Some(v) && v <= 0) ==> (r matches Err(e)
                && is_invalid_argument(e, "max_batch_size must be positive"@)),
            self.max_beam_width > 0 && !(self.max_batch_size matches Some(v) && v <= 0) && (
            self.max_num_tokens matches Some(v) && v <= 0) ==> (r matches Err(e) && is_invalid_argument(
                e,
                "max_num_tokens must be positive"@,
            )),
            self.max_beam_width > 0 && !(self.max_batch_size matches Some(v) && v <= 0) && !(
            self.max_num_tokens matches Some(v) && v <= 0) ==> if !f32_bits_finite(self.gpu_weights_percent)
                || f32_bits_lt_zero(self.gpu_weights_percent) {
                r matches Err(e) && is_invalid_argument(e, "gpu_weights_percent must be finite and non-negative"@)
            } else {
                r is Ok
            },
    {
        if self.max_beam_width <= 0 {
            return Err(Error::invalid_argument("max_beam_width must be positive"));
        }
        match self.max_batch_size {
            Some(v) => if v <= 0 {
                return Err(Error::invalid_argument("max_batch_size must be positive"));
            },
            None => {},
        }
        match self.max_num_tokens {
            Some(v) => if v <= 0 {
                return Err(Error::invalid_argument("max_num_tokens must be positive"));
            },
            None => {},
        }
        if !is_finite_bits(self.gpu_weights_percent) || lt_zero_bits(self.gpu_weights_percent) {
            return Err(Error::invalid_argument("gpu_weights_percent must be finite and non-negative"));
        }
        Ok(())
    }
}

/// A list of integers as the C ABI takes it, with its values held here.
#[derive(Clone, Debug)]
pub struct EncodedIntList {
    pub values: Vec<i32>,
    pub count: usize,
}

/// A list of strings as the C ABI takes it, with its strings held here.
#[derive(Clone, Debug)]
pub struct EncodedStringList {
    pub names: Vec<String>,
    pub count: usize,
}

/// A word list as the C ABI takes it, with its tokens and offsets held here.
#[derive(Clone, Debug)]
pub struct EncodedWordList {
    pub tokens: Vec<i32>,
    pub token_count: usize,
    pub offsets: Vec<usize>,
    pub offset_count: usize,
}

/// `l` holds exactly `v`.
#[verifier::opaque]
pub open spec fn int_list_of(v: Seq<i32>, l: EncodedIntList) -> bool {
    l.values@ == v && l.count == v.len()
}

/// `l` holds exactly the strings `v`.
#[verifier::opaque]
pub open spec fn string_list_of(v: Seq<String>, l: EncodedStringList) -> bool {
    l.names@.map_values(|s: String| s@) == v.map_values(|s: String| s@) && l.count == v.len()
}

/// `l` holds the flattened `words`.
pub open spec fn word_list_of(words: Seq<Seq<i32>>, l: EncodedWordList) -> bool {
    word_list_encodes(words, l.tokens@, l.offsets@) && l.token_count == l.tokens@.len() && l.offset_count
        == l.offsets@.len()
}

/// The empty word list.
pub open spec fn empty_word_list(l: EncodedWordList) -> bool {
    l.tokens@.len() == 0 && l.token_count == 0 && l.offsets@.len() == 0 && l.offset_count == 0
}

/// Copies a list of integers.
pub fn int_list(values: &[i32]) -> (r: EncodedIntList)
    ensures
        int_list_of(values@, r),
{
    reveal(int_list_of);
    let mut out: Vec<i32> = Vec::new();
    let mut k: usize = 0;
    while k < values.len()
        invariant
            k <= values@.len(),
            out@ == values@.subrange(0, k as int),
        decreases values@.len() - k,
    {
        out.push(values[k]);
        assert(values@.subrange(0, k + 1) =~= values@.subrange(0, k as int).push(values@[k as int]));
        k = k + 1;
    }
    assert(values@.subrange(0, values@.len() as int) =~= values@);
    let count = out.len();
    EncodedIntList { values: out, count }
}

/// The empty list of integers.
fn empty_int_list() -> (r: EncodedIntList)
    ensures
        int_list_of(Seq::empty(), r),
{
    reveal(int_list_of);
    let values: Vec<i32> = Vec::new();
    assert(values@ =~= Seq::<i32>::empty());
    EncodedIntList { values, count: 0 }
}

/// Copies a list of strings.
pub(crate) fn string_list(strings: &[String]) -> (r: EncodedStringList)
    ensures
        string_list_of(strings@, r),
{
    reveal(string_list_of);
    let mut out: Vec<String> = Vec::new();
    let mut k: usize = 0;
    while k < strings.len()
        invariant
            k <= strings@.len(),
            out@.len() == k,
            forall|j: int| 0 <= j < k ==> (#[trigger] out@[j])@ == strings@[j]@,
        decreases strings@.len() - k,
    {
        out.push(owned(strings[k].as_str()));
        k = k + 1;
    }
    assert(out@.map_values(|s: String| s@) =~= strings@.map_values(|s: String| s@));
    let count = out.len();
    EncodedStringList { names: out, count }
}

/// Flattens owned words.
fn word_list(words: &[Vec<i32>]) -> (r: EncodedWordList)
    requires
        flatten(owned_words(words@)).len() <= usize::MAX,
    ensures
        word_list_of(owned_words(words@), r),
{
    let buffer = WordListBuffer::from_owned(words);
    let token_count = buffer.token_count();
    let offset_count = buffer.offset_count();
    EncodedWordList { tokens: buffer.tokens, token_count, offsets: buffer.offsets, offset_count }
}

/// The empty word list.
pub(crate) fn no_word_list() -> (r: EncodedWordList)
    ensures
        empty_word_list(r),
{
    EncodedWordList { tokens: Vec::new(), token_count: 0, offsets: Vec::new(), offset_count: 0 }
}

/// A table of integer pairs as the C ABI reads it.
#[derive(Clone, Debug)]
pub struct IntPairListBuffer {
    pub values: Vec<(i32, i32)>,
}

impl IntPairListBuffer {
    /// Copies a table of integer pairs.
    pub fn new(values: &[(i32, i32)]) -> (r: Self)
        ensures
            r.values@ == values@,
    {
        let mut out: Vec<(i32, i32)> = Vec::new();
        let mut k: usize = 0;
        while k < values.len()
            invariant
                k <= values@.len(),
                out@ == values@.subrange(0, k as int),
            decreases values@.len() - k,
        {
            out.push(values[k]);
            assert(values@.subrange(0, k + 1) =~= values@.subrange(0, k as int).push(values@[k as int]));
            k = k + 1;
        }
        assert(values@.subrange(0, values@.len() as int) =~= values@);
        IntPairListBuffer { values: out }
    }
}

/// Dynamic batch tuning as the C ABI takes it.
#[derive(Clone, Debug)]
pub struct EncodedDynamicBatchConfig {
    pub enable_batch_size_tuning: i32,
    pub enable_max_num_tokens_tuning: i32,
    pub moving_average_window: i32,
    pub batch_size_table: Vec<(i32, i32)>,
    pub batch_size_table_len: usize,
}

/// `e` encodes the dynamic batch tuning `c`, or is all zero without one.
pub open spec fn dynamic_batch_encodes(c: Option<DynamicBatchConfig>, e: EncodedDynamicBatchConfig) -> bool {
    match c {
        Some(c) => e.enable_batch_size_tuning == flag(c.enable_batch_size_tuning)
            && e.enable_max_num_tokens_tuning == flag(c.enable_max_num_tokens_tuning)
            && e.moving_average_window == c.moving_average_window && e.batch_size_table@
            == c.batch_size_table@ && e.batch_size_table_len == c.batch_size_table@.len(),
        None => e.enable_batch_size_tuning == 0 && e.enable_max_num_tokens_tuning == 0
            && e.moving_average_window == 0 && e.batch_size_table@.len() == 0 && e.batch_size_table_len == 0,
    }
}

/// The scheduler as the C ABI takes it.
#[derive(Clone, Debug)]
pub struct EncodedSchedulerConfig {
    pub capacity_scheduler_policy: i32,
    pub has_context_chunking_policy: i32,
    pub context_chunking_policy: i32,
    pub has_dynamic_batch_config: i32,
    pub dynamic_batch_config: EncodedDynamicBatchConfig,
}

/// `e` encodes the scheduler `c`.
#[verifier::opaque]
pub open spec fn scheduler_encodes(c: SchedulerConfig, e: EncodedSchedulerConfig) -> bool {
    &&& e.capacity_scheduler_policy == spec_capacity_code(c.capacity_scheduler_policy)
    &&& e.has_context_chunking_policy == has(c.context_chunking_policy)
    &&& e.context_chunking_policy == match c.context_chunking_policy {
        Some(p) => spec_chunking_code(p),
        None => 0,
    }
    &&& e.has_dynamic_batch_config == has(c.dynamic_batch_config)
    &&& dynamic_batch_encodes(c.dynamic_batch_config, e.dynamic_batch_config)
}

/// Encodes the scheduler.
fn encode_scheduler(c: &SchedulerConfig) -> (r: EncodedSchedulerConfig)
    ensures
        scheduler_encodes(*c, r),
{
    reveal(scheduler_encodes);
    let dynamic_batch_config = match &c.dynamic_batch_config {
        Some(d) => {
            let table = IntPairListBuffer::new(d.batch_size_table.as_slice()).values;
            let len = table.len();
            EncodedDynamicBatchConfig {
                enable_batch_size_tuning: flag_value(d.enable_batch_size_tuning),
                enable_max_num_tokens_tuning: flag_value(d.enable_max_num_tokens_tuning),
                moving_average_window: d.moving_average_window,
                batch_size_table: table,
                batch_size_table_len: len,
            }
        },
        None => EncodedDynamicBatchConfig {
            enable_batch_size_tuning: 0,
            enable_max_num_tokens_tuning: 0,
            moving_average_window: 0,
            batch_size_table: Vec::new(),
            batch_size_table_len: 0,
        },
    };
    EncodedSchedulerConfig {
        capacity_scheduler_policy: c.capacity_scheduler_policy.as_i32(),
        has_context_chunking_policy: flag_value(c.context_chunking_policy.is_some()),
        context_chunking_policy: match c.context_chunking_policy {
            Some(p) => p.as_i32(),
            None => 0,
        },
        has_dynamic_batch_config: flag_value(c.dynamic_batch_config.is_some()),
        dynamic_batch_config,
    }
}

/// The KV cache as the C ABI takes it.
#[derive(Clone, Debug)]
pub struct EncodedKvCacheConfig {
    pub enable_block_reuse: i32,
    pub has_max_tokens: i32,
    pub max_tokens: i32,
    pub max_attention_window: EncodedIntList,
    pub has_sink_token_length: i32,
    pub sink_token_length: i32,
    pub has_free_gpu_memory_fraction: i32,
    pub free_gpu_memory_fraction: u32,
    pub has_host_cache_size: i32,
    pub host_cache_size: usize,
    pub has_cross_kv_cache_fraction: i32,
    pub cross_kv_cache_fraction: u32,
    pub has_secondary_offload_min_priority: i32,
    pub secondary_offload_min_priority: i32,
    pub event_buffer_max_size: usize,
    pub enable_partial_reuse: i32,
    pub copy_on_partial_reuse: i32,
    pub use_uvm: i32,
    pub attention_dp_events_gather_period_ms: i32,
    pub has_runtime_defaults: i32,
    pub runtime_defaults_max_attention_window: EncodedIntList,
    pub has_runtime_defaults_sink_token_length: i32,
    pub runtime_defaults_sink_token_length: i32,
    pub max_gpu_total_bytes: u64,
}

/// `e` encodes the KV cache `c`.
#[verifier::opaque]
pub open spec fn kv_cache_encodes(c: KvCacheConfig, e: EncodedKvCacheConfig) -> bool {
    &&& e.enable_block_reuse == flag(c.enable_block_reuse)
    &&& e.has_max_tokens == has(c.max_tokens) && e.max_tokens == or_zero(c.max_tokens)
    &&& int_list_of(c.max_attention_window@, e.max_attention_window)
    &&& e.has_sink_token_length == has(c.sink_token_length) && e.sink_token_length == or_zero(c.sink_token_length)
    &&& e.has_free_gpu_memory_fraction == has(c.free_gpu_memory_fraction) && e.free_gpu_memory_fraction
        == or_zero_bits(c.free_gpu_memory_fraction)
    &&& e.has_host_cache_size == has(c.host_cache_size) && e.host_cache_size == or_zero_usize(c.host_cache_size)
    &&& e.has_cross_kv_cache_fraction == has(c.cross_kv_cache_fraction) && e.cross_kv_cache_fraction
        == or_zero_bits(c.cross_kv_cache_fraction)
    &&& e.has_secondary_offload_min_priority == has(c.secondary_offload_min_priority)
        && e.secondary_offload_min_priority == or_zero(c.secondary_offload_min_priority)
    &&& e.event_buffer_max_size == c.event_buffer_max_size
    &&& e.enable_partial_reuse == flag(c.enable_partial_reuse)
    &&& e.copy_on_partial_reuse == flag(c.copy_on_partial_reuse)
    &&& e.use_uvm == flag(c.use_uvm)
    &&& e.attention_dp_events_gather_period_ms == c.attention_dp_events_gather_period_ms
    &&& e.has_runtime_defaults == has(c.runtime_defaults)
    &&& int_list_of(
        match c.runtime_defaults {
            Some(d) => d.max_attention_window@,
            None => Seq::empty(),
        },
        e.runtime_defaults_max_attention_window,
    )
    &&& e.has_runtime_defaults_sink_token_length == match c.runtime_defaults {
        Some(d) => has(d.sink_token_length),
        None => 0,
    }
    &&& e.runtime_defaults_sink_token_length == match c.runtime_defaults {
        Some(d) => or_zero(d.sink_token_length),
        None => 0,
    }
    &&& e.max_gpu_total_bytes == c.max_gpu_total_bytes
}

/// An optional integer, zero when absent.
pub(crate) fn zero_if_none(o: Option<i32>) -> (r: i32)
    ensures
        r == or_zero(o),
{
    match o {
        Some(v) => v,
        None => 0,
    }
}

/// An optional `f32` bit pattern, that of `0.0` when absent.
pub(crate) fn zero_bits_if_none(o: Option<u32>) -> (r: u32)
    ensures
        r == or_zero_bits(o),
{
    match o {
        Some(v) => v,
        None => 0,
    }
}

/// An optional size, zero when absent.
fn zero_size_if_none(o: Option<usize>) -> (r: usize)
    ensures
        r == or_zero_usize(o),
{
    match o {
        Some(v) => v,
        None => 0,
    }
}

/// Encodes the KV cache.
fn encode_kv_cache(c: &KvCacheConfig) -> (r: EncodedKvCacheConfig)
    ensures
        kv_cache_encodes(*c, r),
{
    reveal(kv_cache_encodes);
    let (has_defaults_sink, defaults_sink, defaults_window) = match &c.runtime_defaults {
        Some(d) => (
            flag_value(d.sink_token_length.is_some()),
            zero_if_none(d.sink_token_length),
            int_list(d.max_attention_window.as_slice()),
        ),
        None => (0, 0, empty_int_list()),
    };
    EncodedKvCacheConfig {
        enable_block_reuse: flag_value(c.enable_block_reuse),
        has_max_tokens: flag_value(c.max_tokens.is_some()),
        max_tokens: zero_if_none(c.max_tokens),
        max_attention_window: int_list(c.max_attention_window.as_slice()),
        has_sink_token_length: flag_value(c.sink_token_length.is_some()),
        sink_token_length: zero_if_none(c.sink_token_length),
        has_free_gpu_memory_fraction: flag_value(c.free_gpu_memory_fraction.is_some()),
        free_gpu_memory_fraction: zero_bits_if_none(c.free_gpu_memory_fraction),
        has_host_cache_size: flag_value(c.host_cache_size.is_some()),
        host_cache_size: zero_size_if_none(c.host_cache_size),
        has_cross_kv_cache_fraction: flag_value(c.cross_kv_cache_fraction.is_some()),
        cross_kv_cache_fraction: zero_bits_if_none(c.cross_kv_cache_fraction),
        has_secondary_offload_min_priority: flag_value(c.secondary_offload_min_priority.is_some()),
        secondary_offload_min_priority: zero_if_none(c.secondary_offload_min_priority),
        event_buffer_max_size: c.event_buffer_max_size,
        enable_partial_reuse: flag_value(c.enable_partial_reuse),
        copy_on_partial_reuse: flag_value(c.copy_on_partial_reuse),
        use_uvm: flag_value(c.use_uvm),
        attention_dp_events_gather_period_ms: c.attention_dp_events_gather_period_ms,
        has_runtime_defaults: flag_value(c.runtime_defaults.is_some()),
        runtime_defaults_max_attention_window: defaults_window,
        has_runtime_defaults_sink_token_length: has_defaults_sink,
        runtime_defaults_sink_token_length: defaults_sink,
        max_gpu_total_bytes: c.max_gpu_total_bytes,
    }
}

/// The orchestrator as the C ABI takes it, with its worker path held here.
#[derive(Clone, Debug)]
pub struct EncodedOrchestratorConfig {
    pub is_orchestrator: i32,
    pub worker_executable_path: Option<String>,
    pub spawn_processes: i32,
}

/// Parallelism as the C ABI takes it.
#[derive(Clone, Debug)]
pub struct EncodedParallelConfig {
    pub communication_type: i32,
    pub communication_mode: i32,
    pub device_ids: EncodedIntList,
    pub participant_ids: EncodedIntList,
    pub has_orchestrator_config: i32,
    pub orchestrator_config: EncodedOrchestratorConfig,
    pub has_num_nodes: i32,
    pub num_nodes: i32,
}

/// Two optional strings hold the same text.
pub open spec fn same_opt_text(a: Option<String>, b: Option<String>) -> bool {
    match (a, b) {
        (Some(x), Some(y)) => x@ == y@,
        (None, None) => true,
        _ => false,
    }
}

/// `e` encodes the orchestrator `c`, or is all zero without one.
pub open spec fn orchestrator_encodes(c: Option<OrchestratorConfig>, e: EncodedOrchestratorConfig) -> bool {
    match c {
        Some(c) => e.is_orchestrator == flag(c.is_orchestrator) && same_opt_text(
            e.worker_executable_path,
            c.worker_executable_path,
        ) && e.spawn_processes == flag(c.spawn_processes),
        None => e.is_orchestrator == 0 && e.worker_executable_path is None && e.spawn_processes == 0,
    }
}

/// `e` encodes the parallelism `c`, or is all zero without one.
#[verifier::opaque]
pub open spec fn parallel_encodes(c: Option<ParallelConfig>, e: EncodedParallelConfig) -> bool {
    match c {
        Some(c) => {
            &&& e.communication_type == spec_communication_type_code(c.communication_type)
            &&& e.communication_mode == spec_communication_mode_code(c.communication_mode)
            &&& int_list_of(c.device_ids@, e.device_ids)
            &&& int_list_of(c.participant_ids@, e.participant_ids)
            &&& e.has_orchestrator_config == has(c.orchestrator_config)
            &&& orchestrator_encodes(c.orchestrator_config, e.orchestrator_config)
            &&& e.has_num_nodes == has(c.num_nodes) && e.num_nodes == or_zero(c.num_nodes)
        },
        None => {
            &&& e.communication_type == 0 && e.communication_mode == 0
            &&& int_list_of(Seq::empty(), e.device_ids) && int_list_of(Seq::empty(), e.participant_ids)
            &&& e.has_orchestrator_config == 0 && orchestrator_encodes(None, e.orchestrator_config)
            &&& e.has_num_nodes == 0 && e.num_nodes == 0
        },
    }
}

/// Copies an optional string.
pub(crate) fn copy_opt_text(s: &Option<String>) -> (r: Option<String>)
    ensures
        same_opt_text(r, *s),
{
    match s {
        Some(t) => Some(owned(t.as_str())),
        None => None,
    }
}

/// Encodes the orchestrator.
fn encode_orchestrator(c: &Option<OrchestratorConfig>) -> (r: EncodedOrchestratorConfig)
    ensures
        orchestrator_encodes(*c, r),
{
    match c {
        Some(c) => EncodedOrchestratorConfig {
            is_orchestrator: flag_value(c.is_orchestrator),
            worker_executable_path: copy_opt_text(&c.worker_executable_path),
            spawn_processes: flag_value(c.spawn_processes),
        },
        None => EncodedOrchestratorConfig { is_orchestrator: 0, worker_executable_path: None, spawn_processes: 0 },
    }
}

/// Encodes the parallelism.
fn encode_parallel(c: &Option<ParallelConfig>) -> (r: EncodedParallelConfig)
    ensures
        parallel_encodes(*c, r),
{
    reveal(parallel_encodes);
    match c {
        Some(c) => EncodedParallelConfig {
            communication_type: c.communication_type.as_i32(),
            communication_mode: c.communication_mode.as_i32(),
            device_ids: int_list(c.device_ids.as_slice()),
            participant_ids: int_list(c.participant_ids.as_slice()),
            has_orchestrator_config: flag_value(c.orchestrator_config.is_some()),
            orchestrator_config: encode_orchestrator(&c.orchestrator_config),
            has_num_nodes: flag_value(c.num_nodes.is_some()),
            num_nodes: zero_if_none(c.num_nodes),
        },
        None => EncodedParallelConfig {
            communication_type: 0,
            communication_mode: 0,
            device_ids: empty_int_list(),
            participant_ids: empty_int_list(),
            has_orchestrator_config: 0,
            orchestrator_config: encode_orchestrator(&None),
            has_num_nodes: 0,
            num_nodes: 0,
        },
    }
}

/// The adapter cache as the C ABI takes it, with its prefetch directory held
/// here.
#[derive(Clone, Debug)]
pub struct EncodedPeftCacheConfig {
    pub num_host_module_layer: i32,
    pub num_device_module_layer: i32,
    pub optimal_adapter_size: i32,
    pub max_adapter_size: i32,
    pub num_put_workers: i32,
    pub num_ensure_workers: i32,
    pub num_copy_streams: i32,
    pub max_pages_per_block_host: i32,
    pub max_pages_per_block_device: i32,
    pub has_device_cache_percent: i32,
    pub device_cache_percent: u32,
    pub has_host_cache_size: i32,
    pub host_cache_size: usize,
    pub lora_prefetch_dir: Option<String>,
}

/// `e` encodes the adapter cache `c`, or is all zero without one.
#[verifier::opaque]
pub open spec fn peft_encodes(c: Option<PeftCacheConfig>, e: EncodedPeftCacheConfig) -> bool {
    match c {
        Some(c) => {
            &&& e.num_host_module_layer == c.num_host_module_layer
            &&& e.num_device_module_layer == c.num_device_module_layer
            &&& e.optimal_adapter_size == c.optimal_adapter_size
            &&& e.max_adapter_size == c.max_adapter_size
            &&& e.num_put_workers == c.num_put_workers
            &&& e.num_ensure_workers == c.num_ensure_workers
            &&& e.num_copy_streams == c.num_copy_streams
            &&& e.max_pages_per_block_host == c.max_pages_per_block_host
            &&& e.max_pages_per_block_device == c.max_pages_per_block_device
            &&& e.has_device_cache_percent == has(c.device_cache_percent)
            &&& e.device_cache_percent == or_zero_bits(c.device_cache_percent)
            &&& e.has_host_cache_size == has(c.host_cache_size)
            &&& e.host_cache_size == or_zero_usize(c.host_cache_size)
            &&& same_opt_text(e.lora_prefetch_dir, c.lora_prefetch_dir)
        },
        None => {
            &&& e.num_host_module_layer == 0 && e.num_device_module_layer == 0
            &&& e.optimal_adapter_size == 0 && e.max_adapter_size == 0
            &&& e.num_put_workers == 0 && e.num_ensure_workers == 0 && e.num_copy_streams == 0
            &&& e.max_pages_per_block_host == 0 && e.max_pages_per_block_device == 0
            &&& e.has_device_cache_percent == 0 && e.device_cache_percent == 0
            &&& e.has_host_cache_size == 0 && e.host_cache_size == 0
            &&& e.lora_prefetch_dir is None
        },
    }
}

/// Encodes the adapter cache.
fn encode_peft(c: &Option<PeftCacheConfig>) -> (r: EncodedPeftCacheConfig)
    ensures
        peft_encodes(*c, r),
{
    reveal(peft_encodes);
    match c {
        Some(c) => EncodedPeftCacheConfig {
            num_host_module_layer: c.num_host_module_layer,
            num_device_module_layer: c.num_device_module_layer,
            optimal_adapter_size: c.optimal_adapter_size,
            max_adapter_size: c.max_adapter_size,
            num_put_workers: c.num_put_workers,
            num_ensure_workers: c.num_ensure_workers,
            num_copy_streams: c.num_copy_streams,
            max_pages_per_block_host: c.max_pages_per_block_host,
            max_pages_per_block_device: c.max_pages_per_block_device,
            has_device_cache_percent: flag_value(c.device_cache_percent.is_some()),
            device_cache_percent: zero_bits_if_none(c.device_cache_percent),
            has_host_cache_size: flag_value(c.host_cache_size.is_some()),
            host_cache_size: zero_size_if_none(c.host_cache_size),
            lora_prefetch_dir: copy_opt_text(&c.lora_prefetch_dir),
        },
        None => EncodedPeftCacheConfig {
            num_host_module_layer: 0,
            num_device_module_layer: 0,
            optimal_adapter_size: 0,
            max_adapter_size: 0,
            num_put_workers: 0,
            num_ensure_workers: 0,
            num_copy_streams: 0,
            max_pages_per_block_host: 0,
            max_pages_per_block_device: 0,
            has_device_cache_percent: 0,
            device_cache_percent: 0,
            has_host_cache_size: 0,
            host_cache_size: 0,
            lora_prefetch_dir: None,
        },
    }
}

/// Lookahead settings as the C ABI takes them.
#[derive(Clone, Copy, Debug)]
pub struct EncodedLookaheadConfig {
    pub window_size: i32,
    pub ngram_size: i32,
    pub verification_set_size: i32,
}

/// EAGLE settings as the C ABI takes them, with the choices held here.
#[derive(Clone, Debug)]
pub struct EncodedEagleConfig {
    pub choices: EncodedWordList,
    pub greedy_sampling: i32,
    pub has_posterior_threshold: i32,
    pub posterior_threshold: u32,
    pub use_dynamic_tree: i32,
    pub has_dynamic_tree_max_top_k: i32,
    pub dynamic_tree_max_top_k: i32,
}

/// Decoding as the C ABI takes it.
#[derive(Clone, Debug)]
pub struct EncodedDecodingConfig {
    pub has_decoding_mode: i32,
    pub decoding_mode: i32,
    pub has_lookahead_config: i32,
    pub lookahead_config: EncodedLookaheadConfig,
    pub medusa_choices: EncodedWordList,
    pub has_eagle_config: i32,
    pub eagle_config: EncodedEagleConfig,
}

/// The word lists of a decoding config fit the address space.
pub open spec fn decoding_fits(c: Option<DecodingConfig>) -> bool {
    c matches Some(d) ==> flatten(owned_words(d.medusa_choices@)).len() <= usize::MAX && flatten(
        owned_words(d.eagle_choices@),
    ).len() <= usize::MAX
}

/// `e` encodes EAGLE: the choices and settings when enabled, all zero
/// otherwise.
pub open spec fn eagle_encodes(c: DecodingConfig, e: EncodedEagleConfig) -> bool {
    if c.eagle_enabled {
        &&& word_list_of(owned_words(c.eagle_choices@), e.choices)
        &&& e.greedy_sampling == flag(c.eagle_greedy_sampling)
        &&& e.has_posterior_threshold == has(c.eagle_posterior_threshold)
        &&& e.posterior_threshold == or_zero_bits(c.eagle_posterior_threshold)
        &&& e.use_dynamic_tree == flag(c.eagle_use_dynamic_tree)
        &&& e.has_dynamic_tree_max_top_k == has(c.eagle_dynamic_tree_max_top_k)
        &&& e.dynamic_tree_max_top_k == or_zero(c.eagle_dynamic_tree_max_top_k)
    } else {
        &&& empty_word_list(e.choices)
        &&& e.greedy_sampling == 0 && e.has_posterior_threshold == 0 && e.posterior_threshold == 0
        &&& e.use_dynamic_tree == 0 && e.has_dynamic_tree_max_top_k == 0 && e.dynamic_tree_max_top_k == 0
    }
}

/// `e` encodes the decoding `c`, or is all zero without one.
#[verifier::opaque]
pub open spec fn decoding_encodes(c: Option<DecodingConfig>, e: EncodedDecodingConfig) -> bool {
    match c {
        Some(c) => {
            &&& e.has_decoding_mode == has(c.decoding_mode)
            &&& e.decoding_mode == match c.decoding_mode {
                Some(m) => spec_decoding_mode_code(m),
                None => 0,
            }
            &&& e.has_lookahead_config == has(c.lookahead_config)
            &&& match c.lookahead_config {
                Some(l) => e.lookahead_config.window_size == l.window_size && e.lookahead_config.ngram_size
                    == l.ngram_size && e.lookahead_config.verification_set_size == l.verification_set_size,
                None => e.lookahead_config.window_size == 0 && e.lookahead_config.ngram_size == 0
                    && e.lookahead_config.verification_set_size == 0,
            }
            &&& word_list_of(owned_words(c.medusa_choices@), e.medusa_choices)
            &&& e.has_eagle_config == flag(c.eagle_enabled)
            &&& eagle_encodes(c, e.eagle_config)
        },
        None => {
            &&& e.has_decoding_mode == 0 && e.decoding_mode == 0 && e.has_lookahead_config == 0
            &&& e.lookahead_config.window_size == 0 && e.lookahead_config.ngram_size == 0
            &&& e.lookahead_config.verification_set_size == 0
            &&& empty_word_list(e.medusa_choices)
            &&& e.has_eagle_config == 0
            &&& empty_word_list(e.eagle_config.choices)
            &&& e.eagle_config.greedy_sampling == 0 && e.eagle_config.has_posterior_threshold == 0
            &&& e.eagle_config.posterior_threshold == 0 && e.eagle_config.use_dynamic_tree == 0
            &&& e.eagle_config.has_dynamic_tree_max_top_k == 0 && e.eagle_config.dynamic_tree_max_top_k == 0
        },
    }
}

/// EAGLE settings with everything zero.
fn no_eagle() -> (r: EncodedEagleConfig)
    ensures
        empty_word_list(r.choices),
        r.greedy_sampling == 0 && r.has_posterior_threshold == 0 && r.posterior_threshold == 0,
        r.use_dynamic_tree == 0 && r.has_dynamic_tree_max_top_k == 0 && r.dynamic_tree_max_top_k == 0,
{
    EncodedEagleConfig {
        choices: no_word_list(),
        greedy_sampling: 0,
        has_posterior_threshold: 0,
        posterior_threshold: 0,
        use_dynamic_tree: 0,
        has_dynamic_tree_max_top_k: 0,
        dynamic_tree_max_top_k: 0,
    }
}

/// Encodes the decoding settings.
fn encode_decoding(c: &Option<DecodingConfig>) -> (r: EncodedDecodingConfig)
    requires
        decoding_fits(*c),
    ensures
        decoding_encodes(*c, r),
{
    reveal(decoding_encodes);
    match c {
        Some(c) => {
            let eagle_config = if c.eagle_enabled {
                EncodedEagleConfig {
                    choices: word_list(c.eagle_choices.as_slice()),
                    greedy_sampling: flag_value(c.eagle_greedy_sampling),
                    has_posterior_threshold: flag_value(c.eagle_posterior_threshold.is_some()),
                    posterior_threshold: zero_bits_if_none(c.eagle_posterior_threshold),
                    use_dynamic_tree: flag_value(c.eagle_use_dynamic_tree),
                    has_dynamic_tree_max_top_k: flag_value(c.eagle_dynamic_tree_max_top_k.is_some()),
                    dynamic_tree_max_top_k: zero_if_none(c.eagle_dynamic_tree_max_top_k),
                }
            } else {
                no_eagle()
            };
            let lookahead_config = match c.lookahead_config {
                Some(l) => EncodedLookaheadConfig {
                    window_size: l.window_size,
                    ngram_size: l.ngram_size,
                    verification_set_size: l.verification_set_size,
                },
                None => EncodedLookaheadConfig { window_size: 0, ngram_size: 0, verification_set_size: 0 },
            };
            EncodedDecodingConfig {
                has_decoding_mode: flag_value(c.decoding_mode.is_some()),
                decoding_mode: match c.decoding_mode {
                    Some(m) => m.as_i32(),
                    None => 0,
                },
                has_lookahead_config: flag_value(c.lookahead_config.is_some()),
                lookahead_config,
                medusa_choices: word_list(c.medusa_choices.as_slice()),
                has_eagle_config: flag_value(c.eagle_enabled),
                eagle_config,
            }
        },
        None => EncodedDecodingConfig {
            has_decoding_mode: 0,
            decoding_mode: 0,
            has_lookahead_config: 0,
            lookahead_config: EncodedLookaheadConfig { window_size: 0, ngram_size: 0, verification_set_size: 0 },
            medusa_choices: no_word_list(),
            has_eagle_config: 0,
            eagle_config: no_eagle(),
        },
    }
}

/// Runtime performance switches as the C ABI takes them.
#[derive(Clone, Copy, Debug)]
pub struct EncodedPerfKnobConfig {
    pub multi_block_mode: i32,
    pub enable_context_fmha_fp32_acc: i32,
    pub cuda_graph_mode: i32,
    pub cuda_graph_cache_size: i32,
}

/// Debug settings as the C ABI takes them; the bindings never set them.
#[derive(Clone, Debug)]
pub struct EncodedDebugConfig {
    pub debug_input_tensors: i32,
    pub debug_output_tensors: i32,
    pub debug_tensor_names: EncodedStringList,
    pub debug_tensors_max_iterations: i32,
}

/// Guided decoding as the C ABI takes it, with its strings held here.
#[derive(Clone, Debug)]
pub struct EncodedGuidedDecodingConfig {
    pub backend: i32,
    pub encoded_vocab: EncodedStringList,
    pub tokenizer_str: Option<String>,
    pub stop_token_ids: EncodedIntList,
}

/// `e` encodes guided decoding `c`, or is all zero without it.
#[verifier::opaque]
pub open spec fn guided_encodes(c: Option<GuidedDecodingConfig>, e: EncodedGuidedDecodingConfig) -> bool {
    match c {
        Some(c) => {
            &&& e.backend == spec_guided_backend_code(c.backend)
            &&& string_list_of(c.encoded_vocab@, e.encoded_vocab)
            &&& same_opt_text(e.tokenizer_str, c.tokenizer_str)
            &&& int_list_of(c.stop_token_ids@, e.stop_token_ids)
        },
        None => {
            &&& e.backend == 0
            &&& string_list_of(Seq::empty(), e.encoded_vocab)
            &&& e.tokenizer_str is None
            &&& int_list_of(Seq::empty(), e.stop_token_ids)
        },
    }
}

/// The empty list of strings.
fn empty_string_list() -> (r: EncodedStringList)
    ensures
        string_list_of(Seq::empty(), r),
{
    reveal(string_list_of);
    let names: Vec<String> = Vec::new();
    assert(names@.map_values(|s: String| s@) =~= Seq::<String>::empty().map_values(|s: String| s@));
    EncodedStringList { names, count: 0 }
}

/// Encodes guided decoding.
fn encode_guided(c: &Option<GuidedDecodingConfig>) -> (r: EncodedGuidedDecodingConfig)
    ensures
        guided_encodes(*c, r),
{
    reveal(guided_encodes);
    match c {
        Some(c) => EncodedGuidedDecodingConfig {
            backend: c.backend.as_i32(),
            encoded_vocab: string_list(c.encoded_vocab.as_slice()),
            tokenizer_str: copy_opt_text(&c.tokenizer_str),
            stop_token_ids: int_list(c.stop_token_ids.as_slice()),
        },
        None => EncodedGuidedDecodingConfig {
            backend: 0,
            encoded_vocab: empty_string_list(),
            tokenizer_str: None,
            stop_token_ids: empty_int_list(),
        },
    }
}

/// The cache transceiver as the C ABI takes it.
#[derive(Clone, Copy, Debug)]
pub struct EncodedCacheTransceiverConfig {
    pub has_backend_type: i32,
    pub backend_type: i32,
    pub has_max_tokens_in_buffer: i32,
    pub max_tokens_in_buffer: usize,
    pub has_kv_transfer_timeout_ms: i32,
    pub kv_transfer_timeout_ms: i32,
    pub has_kv_transfer_sender_future_timeout_ms: i32,
    pub kv_transfer_sender_future_timeout_ms: i32,
}

/// `e` encodes the cache transceiver `c`, or is all zero without one.
#[verifier::opaque]
pub open spec fn transceiver_encodes(c: Option<CacheTransceiverConfig>, e: EncodedCacheTransceiverConfig) -> bool {
    match c {
        Some(c) => {
            &&& e.has_backend_type == has(c.backend_type)
            &&& e.backend_type == match c.backend_type {
                Some(b) => spec_transceiver_code(b),
                None => 0,
            }
            &&& e.has_max_tokens_in_buffer == has(c.max_tokens_in_buffer)
            &&& e.max_tokens_in_buffer == or_zero_usize(c.max_tokens_in_buffer)
            &&& e.has_kv_transfer_timeout_ms == has(c.kv_transfer_timeout_ms)
            &&& e.kv_transfer_timeout_ms == or_zero(c.kv_transfer_timeout_ms)
            &&& e.has_kv_transfer_sender_future_timeout_ms == has(c.kv_transfer_sender_future_timeout_ms)
            &&& e.kv_transfer_sender_future_timeout_ms == or_zero(c.kv_transfer_sender_future_timeout_ms)
        },
        None => {
            &&& e.has_backend_type == 0 && e.backend_type == 0
            &&& e.has_max_tokens_in_buffer == 0 && e.max_tokens_in_buffer == 0
            &&& e.has_kv_transfer_timeout_ms == 0 && e.kv_transfer_timeout_ms == 0
            &&& e.has_kv_transfer_sender_future_timeout_ms == 0 && e.kv_transfer_sender_future_timeout_ms == 0
        },
    }
}

/// Encodes the cache transceiver.
fn encode_transceiver(c: &Option<CacheTransceiverConfig>) -> (r: EncodedCacheTransceiverConfig)
    ensures
        transceiver_encodes(*c, r),
{
    reveal(transceiver_encodes);
    match c {
        Some(c) => EncodedCacheTransceiverConfig {
            has_backend_type: flag_value(c.backend_type.is_some()),
            backend_type: match c.backend_type {
                Some(b) => b.as_i32(),
                None => 0,
            },
            has_max_tokens_in_buffer: flag_value(c.max_tokens_in_buffer.is_some()),
            max_tokens_in_buffer: zero_size_if_none(c.max_tokens_in_buffer),
            has_kv_transfer_timeout_ms: flag_value(c.kv_transfer_timeout_ms.is_some()),
            kv_transfer_timeout_ms: zero_if_none(c.kv_transfer_timeout_ms),
            has_kv_transfer_sender_future_timeout_ms: flag_value(c.kv_transfer_sender_future_timeout_ms.is_some()),
            kv_transfer_sender_future_timeout_ms: zero_if_none(c.kv_transfer_sender_future_timeout_ms),
        },
        None => EncodedCacheTransceiverConfig {
            has_backend_type: 0,
            backend_type: 0,
            has_max_tokens_in_buffer: 0,
            max_tokens_in_buffer: 0,
            has_kv_transfer_timeout_ms: 0,
            kv_transfer_timeout_ms: 0,
            has_kv_transfer_sender_future_timeout_ms: 0,
            kv_transfer_sender_future_timeout_ms: 0,
        },
    }
}

/// The executor configuration as the C ABI lays it out, with every list and
/// string it points to held here; `f32` settings are bit patterns.
#[derive(Clone, Debug)]
pub struct EncodedExecutorConfig {
    pub max_beam_width: i32,
    pub scheduler_config: EncodedSchedulerConfig,
    pub kv_cache_config: EncodedKvCacheConfig,
    pub enable_chunked_context: i32,
    pub normalize_log_probs: i32,
    pub batching_type: i32,
    pub has_max_batch_size: i32,
    pub max_batch_size: i32,
    pub has_max_num_tokens: i32,
    pub max_num_tokens: i32,
    pub has_parallel_config: i32,
    pub parallel_config: EncodedParallelConfig,
    pub has_peft_cache_config: i32,
    pub peft_cache_config: EncodedPeftCacheConfig,
    pub has_decoding_config: i32,
    pub decoding_config: EncodedDecodingConfig,
    pub use_gpu_direct_storage: i32,
    pub gpu_weights_percent: u32,
    pub has_max_queue_size: i32,
    pub max_queue_size: i32,
    pub extended_runtime_perf_knob_config: EncodedPerfKnobConfig,
    pub has_debug_config: i32,
    pub debug_config: EncodedDebugConfig,
    pub recv_poll_period_ms: i32,
    pub max_seq_idle_microseconds: u64,
    pub has_speculative_decoding_config: i32,
    pub speculative_decoding_config: i32,
    pub has_guided_decoding_config: i32,
    pub guided_decoding_config: EncodedGuidedDecodingConfig,
    pub additional_outputs: EncodedStringList,
    pub has_cache_transceiver_config: i32,
    pub cache_transceiver_config: EncodedCacheTransceiverConfig,
    pub gather_generation_logits: i32,
    pub prompt_table_offloading: i32,
    pub enable_trt_overlap: i32,
    pub fail_fast_on_attention_window_too_large: i32,
}

/// The encoded configuration of an executor.
#[derive(Clone, Debug)]
pub struct ExecutorConfigParts {
    pub config: EncodedExecutorConfig,
}

/// `e` encodes the builder `b`: every setting in its C ABI field, optional
/// settings with a presence flag and zeros when absent, debug settings off.
pub open spec fn executor_config_encodes(b: ExecutorBuilder, e: EncodedExecutorConfig) -> bool {
    &&& e.max_beam_width == b.max_beam_width
    &&& scheduler_encodes(b.scheduler_config, e.scheduler_config)
    &&& kv_cache_encodes(b.kv_cache_config, e.kv_cache_config)
    &&& e.enable_chunked_context == flag(b.enable_chunked_context)
    &&& e.normalize_log_probs == flag(b.normalize_log_probs)
    &&& e.batching_type == spec_batching_code(b.batching_type)
    &&& e.has_max_batch_size == has(b.max_batch_size) && e.max_batch_size == or_zero(b.max_batch_size)
    &&& e.has_max_num_tokens == has(b.max_num_tokens) && e.max_num_tokens == or_zero(b.max_num_tokens)
    &&& e.has_parallel_config == has(b.parallel_config)
    &&& parallel_encodes(b.parallel_config, e.parallel_config)
    &&& e.has_peft_cache_config == has(b.peft_cache_config)
    &&& peft_encodes(b.peft_cache_config, e.peft_cache_config)
    &&& e.has_decoding_config == has(b.decoding_config)
    &&& decoding_encodes(b.decoding_config, e.decoding_config)
    &&& e.use_gpu_direct_storage == flag(b.use_gpu_direct_storage)
    &&& e.gpu_weights_percent == b.gpu_weights_percent
    &&& e.has_max_queue_size == has(b.max_queue_size) && e.max_queue_size == or_zero(b.max_queue_size)
    &&& e.extended_runtime_perf_knob_config.multi_block_mode == flag(b.extended_runtime_perf_knob_config.multi_block_mode)
    &&& e.extended_runtime_perf_knob_config.enable_context_fmha_fp32_acc == flag(
        b.extended_runtime_perf_knob_config.enable_context_fmha_fp32_acc,
    )
    &&& e.extended_runtime_perf_knob_config.cuda_graph_mode == flag(b.extended_runtime_perf_knob_config.cuda_graph_mode)
    &&& e.extended_runtime_perf_knob_config.cuda_graph_cache_size == b.extended_runtime_perf_knob_config.cuda_graph_cache_size
    &&& e.has_debug_config == 0 && e.debug_config.debug_input_tensors == 0 && e.debug_config.debug_output_tensors == 0
    &&& string_list_of(Seq::empty(), e.debug_config.debug_tensor_names)
    &&& e.debug_config.debug_tensors_max_iterations == 0
    &&& e.recv_poll_period_ms == b.recv_poll_period_ms
    &&& e.max_seq_idle_microseconds == b.max_seq_idle_microseconds
    &&& e.has_speculative_decoding_config == has(b.speculative_decoding_config)
    &&& e.speculative_decoding_config == match b.speculative_decoding_config {
        Some(s) => flag(s.fast_logits),
        None => 0,
    }
    &&& e.has_guided_decoding_config == has(b.guided_decoding_config)
    &&& guided_encodes(b.guided_decoding_config, e.guided_decoding_config)
    &&& string_list_of(b.additional_outputs@, e.additional_outputs)
    &&& e.has_cache_transceiver_config == has(b.cache_transceiver_config)
    &&& transceiver_encodes(b.cache_transceiver_config, e.cache_transceiver_config)
    &&& e.gather_generation_logits == flag(b.gather_generation_logits)
    &&& e.prompt_table_offloading == flag(b.prompt_table_offloading)
    &&& e.enable_trt_overlap == flag(b.enable_trt_overlap)
    &&& e.fail_fast_on_attention_window_too_large == flag(b.fail_fast_on_attention_window_too_large)
}

impl ExecutorBuilder {
    /// The executor configuration as the C ABI takes it.
    #[verifier::spinoff_prover]
    #[verifier::rlimit(100)]
    pub fn sys_parts(&self) -> (r: ExecutorConfigParts)
        requires
            decoding_fits(self.decoding_config),
        ensures
            executor_config_encodes(*self, r.config),
    {
        let perf = &self.extended_runtime_perf_knob_config;
        let scheduler_config = encode_scheduler(&self.scheduler_config);
        let kv_cache_config = encode_kv_cache(&self.kv_cache_config);
        let parallel_config = encode_parallel(&self.parallel_config);
        let peft_cache_config = encode_peft(&self.peft_cache_config);
        let decoding_config = encode_decoding(&self.decoding_config);
        let guided_decoding_config = encode_guided(&self.guided_decoding_config);
        let cache_transceiver_config = encode_transceiver(&self.cache_transceiver_config);
        let additional_outputs = string_list(self.additional_outputs.as_slice());
        let debug_tensor_names = empty_string_list();
        let extended_runtime_perf_knob_config = EncodedPerfKnobConfig {
            multi_block_mode: flag_value(perf.multi_block_mode),
            enable_context_fmha_fp32_acc: flag_value(perf.enable_context_fmha_fp32_acc),
            cuda_graph_mode: flag_value(perf.cuda_graph_mode),
            cuda_graph_cache_size: perf.cuda_graph_cache_size,
        };
        let debug_config = EncodedDebugConfig {
            debug_input_tensors: 0,
            debug_output_tensors: 0,
            debug_tensor_names,
            debug_tensors_max_iterations: 0,
        };
        let speculative_decoding_config = match self.speculative_decoding_config {
            Some(s) => flag_value(s.fast_logits),
            None => 0,
        };
        let enable_chunked_context = flag_value(self.enable_chunked_context);
        let normalize_log_probs = flag_value(self.normalize_log_probs);
        let batching_type = self.batching_type.as_i32();
        let has_max_batch_size = flag_value(self.max_batch_size.is_some());
        let max_batch_size = zero_if_none(self.max_batch_size);
        let has_max_num_tokens = flag_value(self.max_num_tokens.is_some());
        let max_num_tokens = zero_if_none(self.max_num_tokens);
        let has_parallel_config = flag_value(self.parallel_config.is_some());
        let has_peft_cache_config = flag_value(self.peft_cache_config.is_some());
        let has_decoding_config = flag_value(self.decoding_config.is_some());
        let use_gpu_direct_storage = flag_value(self.use_gpu_direct_storage);
        let has_max_queue_size = flag_value(self.max_queue_size.is_some());
        let max_queue_size = zero_if_none(self.max_queue_size);
        let has_speculative_decoding_config = flag_value(self.speculative_decoding_config.is_some());
        let has_guided_decoding_config = flag_value(self.guided_decoding_config.is_some());
        let has_cache_transceiver_config = flag_value(self.cache_transceiver_config.is_some());
        let gather_generation_logits = flag_value(self.gather_generation_logits);
        let prompt_table_offloading = flag_value(self.prompt_table_offloading);
        let enable_trt_overlap = flag_value(self.enable_trt_overlap);
        let fail_fast_on_attention_window_too_large = flag_value(self.fail_fast_on_attention_window_too_large);
        let config = EncodedExecutorConfig {
            max_beam_width: self.max_beam_width,
            scheduler_config,
            kv_cache_config,
            enable_chunked_context,
            normalize_log_probs,
            batching_type,
            has_max_batch_size,
            max_batch_size,
            has_max_num_tokens,
            max_num_tokens,
            has_parallel_config,
            parallel_config,
            has_peft_cache_config,
            peft_cache_config,
            has_decoding_config,
            decoding_config,
            use_gpu_direct_storage,
            gpu_weights_percent: self.gpu_weights_percent,
            has_max_queue_size,
            max_queue_size,
            extended_runtime_perf_knob_config,
            has_debug_config: 0,
            debug_config,
            recv_poll_period_ms: self.recv_poll_period_ms,
            max_seq_idle_microseconds: self.max_seq_idle_microseconds,
            has_speculative_decoding_config,
            speculative_decoding_config,
            has_guided_decoding_config,
            guided_decoding_config,
            additional_outputs,
            has_cache_transceiver_config,
            cache_transceiver_config,
            gather_generation_logits,
            prompt_table_offloading,
            enable_trt_overlap,
            fail_fast_on_attention_window_too_large,
        };
        ExecutorConfigParts { config }
    }
}

} // verus!
