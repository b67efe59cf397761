use tensorrt_rs::llm::builder::{
    BatchingType, CacheTransceiverBackend, CacheTransceiverConfig, CapacitySchedulerPolicy, ContextChunkingPolicy,
    DecodingConfig, DecodingMode, DynamicBatchConfig, ExecutorBuilder, GuidedDecodingBackend, GuidedDecodingConfig,
    KvCacheConfig, OrchestratorConfig, ParallelConfig, PeftCacheConfig, RuntimeDefaults, RuntimePerformanceConfig,
    SchedulerConfig, SpeculativeDecodingConfig,
};
use tensorrt_rs::llm::executor::{executor_error, final_response_index};
use tensorrt_rs::llm::request::{LookaheadConfig, Request};
use tensorrt_rs::llm::sampling::SamplingConfig;

#[test]
fn executor_builder_and_request_are_public_api() {
    let ids = [1, 2, 3];
    let sampling = SamplingConfig::default().top_k(1).temperature(0.7f32.to_bits());
    let request = Request::new(&ids).max_new_tokens(8).sampling(sampling).return_log_probs();

    let builder = ExecutorBuilder::new("engine")
        .max_beam_width(1)
        .batching(BatchingType::Inflight)
        .scheduler(SchedulerConfig::new())
        .kv_cache(KvCacheConfig::new());

    assert_eq!(builder.engine_dir, "engine");
    assert!(request.return_log_probs);
    assert_eq!(request.sampling.top_k, Some(1));
}

#[test]
fn executor_builder_extensions_are_public_api() {
    let scheduler = SchedulerConfig::new()
        .capacity_policy(CapacitySchedulerPolicy::GuaranteedNoEvict)
        .context_chunking_policy(ContextChunkingPolicy::FirstComeFirstServed)
        .dynamic_batch(
            DynamicBatchConfig::new()
                .tune_batch_size(true)
                .tune_max_num_tokens(true)
                .moving_average_window(16)
                .batch_size_table(vec![(1, 4), (2, 8)]),
        );
    let kv_cache = KvCacheConfig::new()
        .block_reuse(true)
        .max_tokens(1024)
        .max_attention_window(vec![1024])
        .sink_token_length(4)
        .free_gpu_memory_fraction(0.8f32.to_bits())
        .host_cache_size(1 << 20)
        .cross_kv_cache_fraction(0.25f32.to_bits())
        .secondary_offload_min_priority(10)
        .event_buffer_max_size(8)
        .partial_block_reuse(true)
        .copy_on_partial_reuse(true)
        .unified_memory(false)
        .attention_dp_events_gather_period_ms(5)
        .runtime_defaults(RuntimeDefaults::new().max_attention_window(vec![1024]))
        .max_gpu_total_bytes(1 << 30);
    let parallel = ParallelConfig::new()
        .device_ids(vec![0])
        .participant_ids(vec![0])
        .orchestrator(OrchestratorConfig::new().enabled(true).spawn_processes(false))
        .num_nodes(1);
    let decoding = DecodingConfig::new()
        .mode(DecodingMode::TopKTopP)
        .lookahead(LookaheadConfig::new(1, 1, 1))
        .medusa_choices(vec![vec![0, 1]])
        .eagle_choices(vec![vec![0, 1]])
        .eagle_greedy(true)
        .eagle_posterior_threshold(0.1f32.to_bits())
        .eagle_dynamic_tree(false)
        .max_eagle_dynamic_tree_top_k(4);

    let builder = ExecutorBuilder::new("engine")
        .max_beam_width(1)
        .scheduler(scheduler)
        .kv_cache(kv_cache)
        .chunked_context(true)
        .normalize_log_probs(true)
        .batching(BatchingType::Inflight)
        .max_batch_size(1)
        .max_num_tokens(1024)
        .parallel(parallel)
        .peft_cache(PeftCacheConfig::new().copy_streams(1))
        .decoding(decoding)
        .direct_storage(false)
        .gpu_weights_fraction(1.0f32.to_bits())
        .max_queue_size(16)
        .runtime_performance(
            RuntimePerformanceConfig::new()
                .multi_block(true)
                .context_fmha_fp32_accumulation(false)
                .cuda_graphs(true)
                .cuda_graph_cache_size(4),
        )
        .receive_poll_period_ms(1)
        .max_sequence_idle_microseconds(1_000)
        .speculative_decoding(SpeculativeDecodingConfig::new().fast_logits(true))
        .guided_decoding(
            GuidedDecodingConfig::new(GuidedDecodingBackend::XGrammar)
                .encoded_vocab(vec!["a".to_string(), "b".to_string()])
                .tokenizer("{}")
                .stop_token_ids(vec![2]),
        )
        .cache_transceiver(
            CacheTransceiverConfig::new()
                .backend(CacheTransceiverBackend::Default)
                .max_tokens_in_buffer(128)
                .transfer_timeout_ms(100)
                .sender_future_timeout_ms(100),
        )
        .gather_generation_logits(true)
        .offload_prompt_table(true)
        .tensorrt_overlap(true)
        .fail_fast_on_attention_window_too_large(true);

    assert!(builder.validate().is_ok());
    let parts = builder.sys_parts();
    assert_eq!(parts.config.max_batch_size, 1);
    assert_eq!(parts.config.has_max_batch_size, 1);
    assert_eq!(parts.config.scheduler_config.dynamic_batch_config.batch_size_table_len, 2);
    assert_eq!(parts.config.decoding_config.medusa_choices.offsets, vec![0, 2]);
    assert_eq!(parts.config.fail_fast_on_attention_window_too_large, 1);
}

#[test]
fn responses_and_error_helpers_handle_empty_or_null_pointers() {
    assert!(final_response_index(None, 0).unwrap().is_none());
    assert!(final_response_index(None, 1).is_err());
    assert_eq!(
        executor_error(None).to_string(),
        "TensorRT-LLM executor operation failed: unknown TensorRT-LLM Executor error"
    );
}
