use candle_core::{Device, Tensor};
use tensorrt_rs::llm::request::{
    ContextPhaseParams, EagleConfig, ExternalDraftTokensConfig, GuidedDecodingParams, GuidedDecodingType,
    KvCacheRetentionConfig, KvCacheTokenRangeRetentionConfig, KvCacheTransferMode, LookaheadConfig, LoraConfig,
    MropeConfig, MultimodalInput, Request, RequestType,
};
use tensorrt_rs::llm::sampling::SamplingConfig;

#[test]
fn request_defaults_to_context_and_generation() {
    let ids = [1, 2, 3];
    let request = Request::new(&ids);
    assert_eq!(request.input_ids, ids);
    assert_eq!(request.max_new_tokens, 1);
    assert_eq!(request.request_type, RequestType::ContextAndGeneration);
    assert!(request.additional_outputs.is_empty());
}

#[test]
fn sampling_config_sets_only_requested_fields() {
    let sampling = SamplingConfig::default()
        .beam_width(2)
        .top_k(4)
        .top_p(0.95f32.to_bits())
        .temperature(0.7f32.to_bits())
        .num_return_sequences(2)
        .beam_width_array(vec![1, 2]);
    let sys = sampling.as_sys();
    assert_eq!(sys.beam_width, 2);
    assert_eq!(sys.has_top_k, 1);
    assert_eq!(sys.top_k, 4);
    assert_eq!(sys.has_top_p, 1);
    assert_eq!(f32::from_bits(sys.top_p), 0.95);
    assert_eq!(sys.has_temperature, 1);
    assert_eq!(f32::from_bits(sys.temperature), 0.7);
    assert_eq!(sys.has_num_return_sequences, 1);
    assert_eq!(sys.num_return_sequences, 2);
    assert_eq!(sys.beam_width_array.len(), 2);
    assert_eq!(sys.has_seed, 0);
    assert_eq!(sys.has_min_p, 0);
}

#[test]
fn sampling_config_rejects_invalid_values() {
    assert!(SamplingConfig::default().beam_width(0).validate().is_err());
    assert!(SamplingConfig::default().temperature(f32::NAN.to_bits()).validate().is_err());
    assert!(SamplingConfig::default().num_return_sequences(0).validate().is_err());
    assert!(SamplingConfig::default().beam_width_array(vec![1, 0]).validate().is_err());
    assert!(SamplingConfig::default().validate().is_ok());
}

#[test]
fn every_sampling_option_is_encoded_when_set() {
    let sampling = SamplingConfig::default()
        .beam_width(3)
        .top_k(4)
        .top_p(0.9f32.to_bits())
        .top_p_min(0.1f32.to_bits())
        .top_p_reset_ids(2)
        .top_p_decay(0.5f32.to_bits())
        .temperature(0.7f32.to_bits())
        .seed(123)
        .min_tokens(2)
        .beam_search_diversity_rate(0.3f32.to_bits())
        .repetition_penalty(1.1f32.to_bits())
        .presence_penalty(0.2f32.to_bits())
        .frequency_penalty(0.4f32.to_bits())
        .prompt_ignore_length(5)
        .length_penalty(0.8f32.to_bits())
        .early_stopping(1)
        .no_repeat_ngram_size(6)
        .num_return_sequences(2)
        .min_p(0.05f32.to_bits())
        .beam_width_array(vec![1, 2, 3]);

    sampling.validate().unwrap();
    let sys = sampling.as_sys();

    assert_eq!(sys.beam_width, 3);
    assert_eq!(sys.has_top_k, 1);
    assert_eq!(sys.has_top_p, 1);
    assert_eq!(sys.has_top_p_min, 1);
    assert_eq!(sys.has_top_p_reset_ids, 1);
    assert_eq!(sys.has_top_p_decay, 1);
    assert_eq!(sys.has_temperature, 1);
    assert_eq!(sys.has_seed, 1);
    assert_eq!(sys.seed, 123);
    assert_eq!(sys.has_min_tokens, 1);
    assert_eq!(sys.has_beam_search_diversity_rate, 1);
    assert_eq!(sys.has_repetition_penalty, 1);
    assert_eq!(sys.has_presence_penalty, 1);
    assert_eq!(sys.has_frequency_penalty, 1);
    assert_eq!(sys.has_prompt_ignore_length, 1);
    assert_eq!(sys.has_length_penalty, 1);
    assert_eq!(sys.has_early_stopping, 1);
    assert_eq!(sys.has_no_repeat_ngram_size, 1);
    assert_eq!(sys.has_num_return_sequences, 1);
    assert_eq!(sys.has_min_p, 1);
    assert_eq!(sys.beam_width_array.len(), 3);
}

#[test]
fn finite_validation_covers_float_options() {
    let nan = f32::NAN.to_bits();
    let invalid = [
        SamplingConfig::default().top_p(nan),
        SamplingConfig::default().top_p_min(nan),
        SamplingConfig::default().top_p_decay(nan),
        SamplingConfig::default().temperature(nan),
        SamplingConfig::default().beam_search_diversity_rate(nan),
        SamplingConfig::default().repetition_penalty(nan),
        SamplingConfig::default().presence_penalty(nan),
        SamplingConfig::default().frequency_penalty(nan),
        SamplingConfig::default().length_penalty(nan),
        SamplingConfig::default().min_p(nan),
    ];

    for sampling in invalid {
        assert!(sampling.validate().is_err());
    }
    assert!(SamplingConfig::default().temperature(f32::INFINITY.to_bits()).validate().is_err());
}

#[test]
fn request_keeps_standard_executor_extensions_in_one_place() {
    let ids = [1, 2, 3];
    let positions = [0, 1, 2];
    let prompt_extra_ids = [0_u64, 1, 0];
    let bad = [13, 14];
    let stop = [2];
    let encoder_tokens = [8, 9];
    let first_gen = [5];
    let draft = [6, 7];
    let eagle = [1, 2, 3];
    let mm_hash = [101, 202];
    let mm_positions = [1];
    let mm_lengths = [2];
    let serialized_state = [9_u8, 8, 7];
    let prompt_embeddings = Tensor::from_vec(vec![0f32; 12], (1, 3, 4), &Device::Cpu).unwrap();
    let logits = Tensor::from_vec(vec![0f32; 6], (2, 3), &Device::Cpu).unwrap();
    let embedding_bias = Tensor::from_vec(vec![0f32; 4], 4, &Device::Cpu).unwrap();
    let multimodal_embedding = Tensor::from_vec(vec![0f32; 4], (1, 4), &Device::Cpu).unwrap();
    let rotary_cos_sin = Tensor::from_vec(vec![0f32; 8], (2, 4), &Device::Cpu).unwrap();
    let lora_weights = Tensor::from_vec(vec![0f32; 2], 2, &Device::Cpu).unwrap();
    let lora_config = Tensor::from_vec(vec![1i32, 2], 2, &Device::Cpu).unwrap();
    let encoder_features = Tensor::from_vec(vec![0f32; 4], (1, 4), &Device::Cpu).unwrap();
    let cross_attention_mask = Tensor::from_vec(vec![1f32; 4], (1, 4), &Device::Cpu).unwrap();
    let skip_cross_attn_blocks = Tensor::from_vec(vec![0i32, 1], 2, &Device::Cpu).unwrap();
    let retention = KvCacheRetentionConfig::new(vec![KvCacheTokenRangeRetentionConfig::new(0)
        .token_end(16)
        .priority(80)
        .duration_ms(100)])
    .decode_retention_priority(70)
    .decode_duration_ms(50)
    .transfer_mode(KvCacheTransferMode::Gds)
    .directory("/tmp/cache");
    let request = Request::new(&ids)
        .max_new_tokens(4)
        .end_id(2)
        .pad_id(0)
        .sampling(SamplingConfig::default().top_k(1))
        .prompt_embeddings(&prompt_embeddings)
        .prompt_embedding_token_extra_ids(&prompt_extra_ids)
        .position_ids(&positions)
        .bad_words(vec![bad.as_slice()])
        .stop_words(vec![stop.as_slice()])
        .embedding_bias(&embedding_bias)
        .external_draft_tokens(
            ExternalDraftTokensConfig::new(&draft)
                .logits(&logits)
                .acceptance_threshold(0.8f32.to_bits())
                .fast_logits(true),
        )
        .multimodal_input(
            MultimodalInput::new(vec![mm_hash.as_slice()], &mm_positions, &mm_lengths)
                .uuids(vec![Some("image-0".to_owned())]),
        )
        .multimodal_embedding(&multimodal_embedding)
        .mrope(MropeConfig::new(&rotary_cos_sin, 3))
        .lora(LoraConfig::new(99).weights(&lora_weights).config(&lora_config))
        .lookahead(LookaheadConfig::new(4, 3, 4))
        .kv_cache_retention(retention)
        .logits_processor("processor")
        .encoder_input_token_ids(&encoder_tokens)
        .return_log_probs()
        .return_context_logits()
        .return_generation_logits()
        .exclude_input_from_output()
        .return_encoder_output()
        .return_all_generated_tokens()
        .client_id(7)
        .priority(0.9f32.to_bits())
        .request_type(RequestType::ContextOnly)
        .context_phase(
            ContextPhaseParams::new(&first_gen, 42)
                .serialized_state(&serialized_state)
                .draft_tokens(&draft)
                .context_data_parallel_rank(2)
                .disaggregated_info_endpoint("localhost:1234"),
        )
        .encoder_features(&encoder_features)
        .encoder_output_length(2)
        .cross_attention_mask(&cross_attention_mask)
        .eagle(
            EagleConfig::new()
                .choices(vec![eagle.as_slice()])
                .greedy(false)
                .posterior_threshold(0.1f32.to_bits())
                .dynamic_tree(true)
                .max_dynamic_tree_top_k(4),
        )
        .skip_cross_attention_blocks(&skip_cross_attn_blocks)
        .guided_decoding(GuidedDecodingParams::new(GuidedDecodingType::Json).guide("{}"))
        .language_adapter_uid(3)
        .time_budget_ms(1000)
        .cache_salt_id(11)
        .disaggregated_request_id(12);

    assert_eq!(request.max_new_tokens, 4);
    assert_eq!(request.end_id, Some(2));
    assert_eq!(request.pad_id, Some(0));
    assert!(request.prompt_embeddings.is_some());
    assert_eq!(request.prompt_embedding_token_extra_ids, Some(prompt_extra_ids.as_slice()));
    assert_eq!(request.position_ids, Some(positions.as_slice()));
    assert_eq!(request.bad_words, vec![bad.as_slice()]);
    assert_eq!(request.stop_words, vec![stop.as_slice()]);
    assert!(request.embedding_bias.is_some());
    let draft_config = request.external_draft_tokens_config.as_ref().unwrap();
    assert!(draft_config.logits.is_some());
    assert_eq!(draft_config.fast_logits, Some(true));
    let multimodal_input = request.multimodal_input.as_ref().unwrap();
    assert_eq!(multimodal_input.hashes, vec![mm_hash.as_slice()]);
    assert_eq!(multimodal_input.uuids[0].as_deref().unwrap(), "image-0");
    assert!(request.multimodal_embedding.is_some());
    assert!(request.mrope_config.is_some());
    let lora = request.lora_config.as_ref().unwrap();
    assert_eq!(lora.task_id, 99);
    assert!(lora.weights.is_some());
    assert!(lora.config.is_some());
    assert!(request.lookahead_config.is_some());
    assert!(request.kv_cache_retention_config.is_some());
    assert_eq!(request.encoder_input_token_ids, Some(encoder_tokens.as_slice()));
    assert!(request.return_log_probs);
    assert!(request.return_context_logits);
    assert!(request.return_generation_logits);
    assert!(request.exclude_input_from_output);
    assert!(request.return_encoder_output);
    assert!(request.return_all_generated_tokens);
    assert_eq!(request.client_id, Some(7));
    assert_eq!(request.priority, Some(0.9f32.to_bits()));
    assert_eq!(request.request_type, RequestType::ContextOnly);
    let context_phase = request.context_phase_params.as_ref().unwrap();
    assert_eq!(context_phase.serialized_state, Some(serialized_state.as_slice()));
    assert_eq!(context_phase.ctx_dp_rank, Some(2));
    assert_eq!(context_phase.disagg_info_endpoint.as_deref().unwrap(), "localhost:1234");
    assert!(request.encoder_input_features.is_some());
    assert_eq!(request.encoder_output_length, Some(2));
    assert!(request.cross_attention_mask.is_some());
    let eagle = request.eagle_config.as_ref().unwrap();
    assert!(!eagle.greedy_sampling);
    assert!(eagle.use_dynamic_tree);
    assert_eq!(eagle.dynamic_tree_max_top_k, Some(4));
    assert!(request.skip_cross_attn_blocks.is_some());
    let guided = request.guided_decoding_params.as_ref().unwrap();
    assert_eq!(guided.guide.as_deref().unwrap(), "{}");
    assert_eq!(request.language_adapter_uid, Some(3));
    assert_eq!(request.allotted_time_ms, Some(1000));
    assert_eq!(request.cache_salt_id, Some(11));
    assert_eq!(request.disagg_request_id, Some(12));
}

#[test]
fn request_enum_mappings_match_executor_ffi_contract() {
    assert_eq!(RequestType::ContextAndGeneration.as_i32(), 0);
    assert_eq!(RequestType::ContextOnly.as_i32(), 1);
    assert_eq!(RequestType::GenerationOnly.as_i32(), 2);

    assert_eq!(KvCacheTransferMode::Dram.as_i32(), 0);
    assert_eq!(KvCacheTransferMode::Gds.as_i32(), 1);
    assert_eq!(KvCacheTransferMode::PosixDebugFallback.as_i32(), 2);

    assert_eq!(GuidedDecodingType::Json.as_i32(), 0);
    assert_eq!(GuidedDecodingType::JsonSchema.as_i32(), 1);
    assert_eq!(GuidedDecodingType::Regex.as_i32(), 2);
    assert_eq!(GuidedDecodingType::EbnfGrammar.as_i32(), 3);
    assert_eq!(GuidedDecodingType::StructuralTag.as_i32(), 4);
}

#[test]
fn additional_outputs_infer_executor_outputs() {
    let ids = [1, 2, 3];
    let mut request = Request::new(&ids);
    request.infer_output_tensor_name("marked_model_output");
    request.infer_output_tensor_name("context_logits");
    request.infer_output_tensor_name("generation_logits");
    request.infer_output_tensor_name("encoder_output");
    request.infer_output_tensor_name("marked_model_output");

    assert_eq!(request.additional_outputs.len(), 1);
    assert_eq!(request.additional_outputs[0], "marked_model_output");
    assert!(request.return_context_logits);
    assert!(request.return_generation_logits);
    assert!(request.return_encoder_output);
}
