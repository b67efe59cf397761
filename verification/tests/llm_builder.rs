use tensorrt_rs::llm::builder::{
    BatchingType, CacheTransceiverBackend, CacheTransceiverConfig, CapacitySchedulerPolicy, CommunicationMode,
    CommunicationType, ContextChunkingPolicy, DecodingConfig, DecodingMode, DynamicBatchConfig, ExecutorBuilder,
    GuidedDecodingBackend, GuidedDecodingConfig, IntPairListBuffer, KvCacheConfig, OrchestratorConfig,
    ParallelConfig, PeftCacheConfig, RuntimeDefaults, RuntimePerformanceConfig, SchedulerConfig,
    SpeculativeDecodingConfig, int_list,
};
use tensorrt_rs::llm::request::LookaheadConfig;

#[test]
fn builder_enum_mappings_match_executor_ffi_contract() {
    assert_eq!(BatchingType::Static.as_i32(), 0);
    assert_eq!(BatchingType::Inflight.as_i32(), 1);

    assert_eq!(CapacitySchedulerPolicy::MaxUtilization.as_i32(), 0);
    assert_eq!(CapacitySchedulerPolicy::GuaranteedNoEvict.as_i32(), 1);
    assert_eq!(CapacitySchedulerPolicy::StaticBatch.as_i32(), 2);

    assert_eq!(ContextChunkingPolicy::FirstComeFirstServed.as_i32(), 0);
    assert_eq!(ContextChunkingPolicy::EqualProgress.as_i32(), 1);
    assert_eq!(ContextChunkingPolicy::ForceChunk.as_i32(), 2);

    assert_eq!(CommunicationType::Mpi.as_i32(), 0);
    assert_eq!(CommunicationMode::Leader.as_i32(), 0);
    assert_eq!(CommunicationMode::Orchestrator.as_i32(), 1);

    assert_eq!(DecodingMode::Auto.as_i32(), 0);
    assert_eq!(DecodingMode::TopK.as_i32(), 1);
    assert_eq!(DecodingMode::TopP.as_i32(), 2);
    assert_eq!(DecodingMode::TopKTopP.as_i32(), 3);
    assert_eq!(DecodingMode::BeamSearch.as_i32(), 4);
    assert_eq!(DecodingMode::Medusa.as_i32(), 5);
    assert_eq!(DecodingMode::Lookahead.as_i32(), 6);
    assert_eq!(DecodingMode::ExplicitDraftTokens.as_i32(), 7);
    assert_eq!(DecodingMode::ExternalDraftTokens.as_i32(), 8);
    assert_eq!(DecodingMode::Eagle.as_i32(), 9);

    assert_eq!(GuidedDecodingBackend::XGrammar.as_i32(), 0);
    assert_eq!(GuidedDecodingBackend::LlGuidance.as_i32(), 1);

    assert_eq!(CacheTransceiverBackend::Default.as_i32(), 0);
    assert_eq!(CacheTransceiverBackend::Mpi.as_i32(), 1);
    assert_eq!(CacheTransceiverBackend::Ucx.as_i32(), 2);
    assert_eq!(CacheTransceiverBackend::Nixl.as_i32(), 3);
    assert_eq!(CacheTransceiverBackend::Mooncake.as_i32(), 4);
}

#[test]
fn builder_defaults_convert_to_sys_config() {
    let builder = ExecutorBuilder::new("engine").max_batch_size(1).max_num_tokens(8);

    builder.validate().unwrap();
    let parts = builder.sys_parts();

    assert_eq!(parts.config.max_beam_width, 1);
    assert_eq!(parts.config.has_max_batch_size, 1);
    assert_eq!(parts.config.max_batch_size, 1);
    assert_eq!(parts.config.has_max_num_tokens, 1);
    assert_eq!(parts.config.max_num_tokens, 8);
    assert_eq!(parts.config.enable_chunked_context, 0);
    assert_eq!(parts.config.batching_type, BatchingType::Inflight.as_i32());
    assert_eq!(parts.config.additional_outputs.count, 0);
    assert_eq!(parts.config.gpu_weights_percent, 1.0f32.to_bits());
}

#[test]
fn builder_encodes_executor_extensions() {
    let builder = ExecutorBuilder::new("engine")
        .max_batch_size(2)
        .max_num_tokens(16)
        .max_beam_width(4)
        .chunked_context(true)
        .scheduler(
            SchedulerConfig::new()
                .dynamic_batch(DynamicBatchConfig::new().tune_batch_size(true).batch_size_table(vec![(4, 2), (8, 4)])),
        )
        .kv_cache(
            KvCacheConfig::new()
                .runtime_defaults(RuntimeDefaults::new().max_attention_window(vec![128, 256]).sink_token_length(4)),
        )
        .parallel(
            ParallelConfig::new()
                .orchestrator(OrchestratorConfig::new().worker_executable_path("/bin/worker").spawn_processes(false)),
        )
        .decoding(
            DecodingConfig::new()
                .mode(DecodingMode::Eagle)
                .medusa_choices(vec![vec![1, 2], vec![3]])
                .eagle_choices(vec![vec![4, 5], vec![6]])
                .eagle_greedy(false)
                .eagle_posterior_threshold(0.25f32.to_bits())
                .eagle_dynamic_tree(true)
                .max_eagle_dynamic_tree_top_k(8),
        )
        .runtime_performance(RuntimePerformanceConfig::new().cuda_graphs(true));

    builder.validate().unwrap();
    let parts = builder.sys_parts();

    assert_eq!(parts.config.max_beam_width, 4);
    assert_eq!(parts.config.enable_chunked_context, 1);
    assert_eq!(parts.config.additional_outputs.count, 0);
    assert_eq!(parts.config.scheduler_config.dynamic_batch_config.batch_size_table_len, 2);
    assert_eq!(parts.config.scheduler_config.dynamic_batch_config.batch_size_table, vec![(4, 2), (8, 4)]);
    assert_eq!(parts.config.kv_cache_config.has_runtime_defaults, 1);
    assert_eq!(parts.config.kv_cache_config.runtime_defaults_max_attention_window.count, 2);
    assert_eq!(parts.config.kv_cache_config.has_runtime_defaults_sink_token_length, 1);
    assert_eq!(parts.config.has_parallel_config, 1);
    assert_eq!(parts.config.parallel_config.has_orchestrator_config, 1);
    assert_eq!(parts.config.has_decoding_config, 1);
    assert_eq!(parts.config.decoding_config.has_decoding_mode, 1);
    assert_eq!(parts.config.decoding_config.decoding_mode, DecodingMode::Eagle.as_i32());
    assert_eq!(parts.config.decoding_config.medusa_choices.token_count, 3);
    assert_eq!(parts.config.decoding_config.medusa_choices.offset_count, 3);
    assert_eq!(parts.config.decoding_config.medusa_choices.tokens, vec![1, 2, 3]);
    assert_eq!(parts.config.decoding_config.medusa_choices.offsets, vec![0, 2, 3]);
    assert_eq!(parts.config.decoding_config.has_eagle_config, 1);
    assert_eq!(parts.config.decoding_config.eagle_config.choices.token_count, 3);
    assert_eq!(parts.config.decoding_config.eagle_config.has_posterior_threshold, 1);
    assert_eq!(parts.config.decoding_config.eagle_config.posterior_threshold, 0.25f32.to_bits());
    assert_eq!(parts.config.decoding_config.eagle_config.has_dynamic_tree_max_top_k, 1);
    assert_eq!(parts.config.has_debug_config, 0);
    assert_eq!(parts.config.extended_runtime_perf_knob_config.cuda_graph_mode, 1);
}

#[test]
fn builder_rejects_invalid_limits() {
    assert!(ExecutorBuilder::new("engine").max_beam_width(0).validate().is_err());
    assert!(ExecutorBuilder::new("engine").max_batch_size(0).validate().is_err());
    assert!(ExecutorBuilder::new("engine").max_num_tokens(0).validate().is_err());
    assert!(ExecutorBuilder::new("engine").gpu_weights_fraction(f32::NAN.to_bits()).validate().is_err());
    assert!(ExecutorBuilder::new("engine").gpu_weights_fraction((-0.1f32).to_bits()).validate().is_err());
}

#[test]
fn builder_encodes_remaining_executor_options() {
    let scheduler = SchedulerConfig::new()
        .capacity_policy(CapacitySchedulerPolicy::StaticBatch)
        .context_chunking_policy(ContextChunkingPolicy::ForceChunk)
        .dynamic_batch(
            DynamicBatchConfig::new()
                .tune_batch_size(true)
                .tune_max_num_tokens(true)
                .moving_average_window(64)
                .batch_size_table(vec![(1, 8)]),
        );
    let kv_cache = KvCacheConfig::new()
        .block_reuse(false)
        .max_tokens(128)
        .max_attention_window(vec![64, 128])
        .sink_token_length(2)
        .free_gpu_memory_fraction(0.5f32.to_bits())
        .host_cache_size(1024)
        .cross_kv_cache_fraction(0.25f32.to_bits())
        .secondary_offload_min_priority(10)
        .event_buffer_max_size(32)
        .partial_block_reuse(false)
        .copy_on_partial_reuse(false)
        .unified_memory(true)
        .attention_dp_events_gather_period_ms(9)
        .max_gpu_total_bytes(4096);
    let parallel = ParallelConfig::new()
        .communication_type(CommunicationType::Mpi)
        .communication_mode(CommunicationMode::Orchestrator)
        .device_ids(vec![0, 1])
        .participant_ids(vec![10, 11])
        .num_nodes(2);
    let peft = PeftCacheConfig::new()
        .host_module_layers(1)
        .device_module_layers(2)
        .optimal_adapter_size(16)
        .max_adapter_size(32)
        .put_workers(3)
        .ensure_workers(4)
        .copy_streams(5)
        .max_pages_per_block_host(6)
        .max_pages_per_block_device(7)
        .device_cache_fraction(0.4f32.to_bits())
        .host_cache_size(2048)
        .lora_prefetch_dir("/tmp/lora");
    let decoding = DecodingConfig::new().mode(DecodingMode::Lookahead).lookahead(LookaheadConfig::new(2, 3, 4));
    let guided = GuidedDecodingConfig::new(GuidedDecodingBackend::LlGuidance)
        .encoded_vocab(vec!["a".to_owned(), "b".to_owned()])
        .tokenizer("{}")
        .stop_token_ids(vec![1, 2]);
    let cache_transceiver = CacheTransceiverConfig::new()
        .backend(CacheTransceiverBackend::Ucx)
        .max_tokens_in_buffer(123)
        .transfer_timeout_ms(45)
        .sender_future_timeout_ms(67);

    let builder = ExecutorBuilder::new("engine")
        .scheduler(scheduler)
        .kv_cache(kv_cache)
        .normalize_log_probs(true)
        .batching(BatchingType::Static)
        .parallel(parallel)
        .peft_cache(peft)
        .decoding(decoding)
        .direct_storage(true)
        .gpu_weights_fraction(0.75f32.to_bits())
        .max_queue_size(4)
        .runtime_performance(
            RuntimePerformanceConfig::new().multi_block(false).context_fmha_fp32_accumulation(true).cuda_graph_cache_size(8),
        )
        .receive_poll_period_ms(11)
        .max_sequence_idle_microseconds(12)
        .speculative_decoding(SpeculativeDecodingConfig::new().fast_logits(true))
        .guided_decoding(guided)
        .cache_transceiver(cache_transceiver)
        .gather_generation_logits(true)
        .offload_prompt_table(true)
        .tensorrt_overlap(true)
        .fail_fast_on_attention_window_too_large(true);

    builder.validate().unwrap();
    let parts = builder.sys_parts();

    assert_eq!(parts.config.scheduler_config.capacity_scheduler_policy, CapacitySchedulerPolicy::StaticBatch.as_i32());
    assert_eq!(parts.config.scheduler_config.has_context_chunking_policy, 1);
    assert_eq!(parts.config.scheduler_config.context_chunking_policy, ContextChunkingPolicy::ForceChunk.as_i32());
    assert_eq!(parts.config.scheduler_config.dynamic_batch_config.enable_max_num_tokens_tuning, 1);
    assert_eq!(parts.config.kv_cache_config.enable_block_reuse, 0);
    assert_eq!(parts.config.kv_cache_config.has_max_tokens, 1);
    assert_eq!(parts.config.kv_cache_config.max_attention_window.count, 2);
    assert_eq!(parts.config.kv_cache_config.has_sink_token_length, 1);
    assert_eq!(parts.config.kv_cache_config.has_free_gpu_memory_fraction, 1);
    assert_eq!(parts.config.kv_cache_config.free_gpu_memory_fraction, 0.5f32.to_bits());
    assert_eq!(parts.config.kv_cache_config.has_host_cache_size, 1);
    assert_eq!(parts.config.kv_cache_config.has_cross_kv_cache_fraction, 1);
    assert_eq!(parts.config.kv_cache_config.has_secondary_offload_min_priority, 1);
    assert_eq!(parts.config.kv_cache_config.event_buffer_max_size, 32);
    assert_eq!(parts.config.kv_cache_config.enable_partial_reuse, 0);
    assert_eq!(parts.config.kv_cache_config.copy_on_partial_reuse, 0);
    assert_eq!(parts.config.kv_cache_config.use_uvm, 1);
    assert_eq!(parts.config.kv_cache_config.max_gpu_total_bytes, 4096);
    assert_eq!(parts.config.normalize_log_probs, 1);
    assert_eq!(parts.config.batching_type, BatchingType::Static.as_i32());
    assert_eq!(parts.config.parallel_config.communication_mode, 1);
    assert_eq!(parts.config.parallel_config.device_ids.count, 2);
    assert_eq!(parts.config.parallel_config.participant_ids.count, 2);
    assert_eq!(parts.config.parallel_config.has_num_nodes, 1);
    assert_eq!(parts.config.has_peft_cache_config, 1);
    assert_eq!(parts.config.peft_cache_config.num_copy_streams, 5);
    assert_eq!(parts.config.peft_cache_config.has_device_cache_percent, 1);
    assert_eq!(parts.config.peft_cache_config.has_host_cache_size, 1);
    assert_eq!(parts.config.peft_cache_config.lora_prefetch_dir.as_deref(), Some("/tmp/lora"));
    assert_eq!(parts.config.has_decoding_config, 1);
    assert_eq!(parts.config.decoding_config.has_lookahead_config, 1);
    assert_eq!(parts.config.use_gpu_direct_storage, 1);
    assert_eq!(parts.config.gpu_weights_percent, 0.75f32.to_bits());
    assert_eq!(parts.config.has_max_queue_size, 1);
    assert_eq!(parts.config.extended_runtime_perf_knob_config.multi_block_mode, 0);
    assert_eq!(parts.config.extended_runtime_perf_knob_config.enable_context_fmha_fp32_acc, 1);
    assert_eq!(parts.config.recv_poll_period_ms, 11);
    assert_eq!(parts.config.max_seq_idle_microseconds, 12);
    assert_eq!(parts.config.has_speculative_decoding_config, 1);
    assert_eq!(parts.config.speculative_decoding_config, 1);
    assert_eq!(parts.config.has_guided_decoding_config, 1);
    assert_eq!(parts.config.guided_decoding_config.backend, GuidedDecodingBackend::LlGuidance.as_i32());
    assert_eq!(parts.config.guided_decoding_config.encoded_vocab.count, 2);
    assert_eq!(parts.config.guided_decoding_config.stop_token_ids.count, 2);
    assert_eq!(parts.config.has_cache_transceiver_config, 1);
    assert_eq!(parts.config.cache_transceiver_config.has_backend_type, 1);
    assert_eq!(parts.config.cache_transceiver_config.has_max_tokens_in_buffer, 1);
    assert_eq!(parts.config.gather_generation_logits, 1);
    assert_eq!(parts.config.prompt_table_offloading, 1);
    assert_eq!(parts.config.enable_trt_overlap, 1);
    assert_eq!(parts.config.fail_fast_on_attention_window_too_large, 1);
}

#[test]
fn int_lists_copy_their_values() {
    let list = int_list(&[3, 1, 2]);
    assert_eq!(list.values, vec![3, 1, 2]);
    assert_eq!(list.count, 3);
    let table = IntPairListBuffer::new(&[(1, 2), (3, 4)]);
    assert_eq!(table.values, vec![(1, 2), (3, 4)]);
}

#[test]
fn runtime_setters_keep_other_settings() {
    let defaults = RuntimeDefaults::new().max_attention_window(vec![7]).sink_token_length(3);
    assert_eq!(defaults.max_attention_window, vec![7]);
    assert_eq!(defaults.sink_token_length, Some(3));
    let perf = RuntimePerformanceConfig::new().cuda_graphs(true).cuda_graph_cache_size(5);
    assert!(perf.cuda_graph_mode);
    assert_eq!(perf.cuda_graph_cache_size, 5);
    assert!(perf.multi_block_mode);
    assert!(!perf.enable_context_fmha_fp32_acc);
}
