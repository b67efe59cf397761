use tensorrt_rs::cuda_status::{check_allocation, check_copy_len, check_cuda, event_query_result, CopyDirection, CUDA_ERROR_NOT_READY};
use tensorrt_rs::dtype::DType;
use tensorrt_rs::error::Error as TrtError;
use tensorrt_rs::llm::error::Error;
use tensorrt_rs::llm::executor::{executor_error, final_response_index, ValidationProfile};
use tensorrt_rs::llm::prepare::{RequestTensorMeta, TensorMeta};
use tensorrt_rs::llm::request::{
    EagleConfig, ExternalDraftTokensConfig, KvCacheRetentionConfig, KvCacheTokenRangeRetentionConfig,
    KvCacheTransferMode, Request, RequestType,
};

fn profile() -> ValidationProfile {
    ValidationProfile {
        dtype: DType::F32,
        executor_data_type: 8,
        vocab_size: 10,
        hidden_size: 4,
        max_num_tokens: 8,
        max_prompt_embedding_table_size: 2,
    }
}

fn no_tensors() -> RequestTensorMeta {
    RequestTensorMeta {
        prompt_embeddings: None,
        embedding_bias: None,
        external_draft_logits: None,
        multimodal_embedding: None,
        mrope_rotary_cos_sin: None,
        lora_weights: None,
        lora_config: None,
        encoder_input_features: None,
        cross_attention_mask: None,
        skip_cross_attn_blocks: None,
    }
}

fn meta(dims: &[usize], dtype: DType) -> TensorMeta {
    TensorMeta { dims: dims.to_vec(), contiguous: true, dtype }
}

#[test]
fn prepare_request_encodes_plain_settings() {
    let ids = [1, 2, 3];
    let bad = [4, 5];
    let stop = [6];
    let request = Request::new(&ids)
        .max_new_tokens(2)
        .end_id(2)
        .bad_words(vec![bad.as_slice()])
        .stop_words(vec![stop.as_slice()])
        .client_id(9)
        .request_type(RequestType::GenerationOnly)
        .kv_cache_retention(
            KvCacheRetentionConfig::new(vec![KvCacheTokenRangeRetentionConfig::new(0).token_end(4).duration_ms(7)])
                .transfer_mode(KvCacheTransferMode::Gds)
                .directory("/tmp/cache"),
        );
    let prepared = profile().prepare_request(&request, &no_tensors()).unwrap();
    let e = prepared.encoded;
    assert_eq!(e.input_len, 3);
    assert_eq!(e.max_new_tokens, 2);
    assert_eq!(e.streaming, 0);
    assert_eq!((e.has_end_id, e.end_id), (1, 2));
    assert_eq!((e.has_pad_id, e.pad_id), (0, 0));
    assert_eq!(e.bad_words.tokens, vec![4, 5]);
    assert_eq!(e.bad_words.offsets, vec![0, 2]);
    assert_eq!(e.stop_words.token_count, 1);
    assert_eq!((e.has_client_id, e.client_id), (1, 9));
    assert_eq!(e.request_type, 2);
    assert_eq!(e.prompt_embedding_data_type, 8);
    assert_eq!(e.prompt_embedding_rows, 0);
    assert_eq!(e.embedding_bias_data_type, 8);
    assert_eq!(e.has_kv_cache_retention_config, 1);
    let retention = &e.kv_cache_retention_config;
    assert_eq!(retention.range_count, 1);
    assert_eq!(retention.ranges[0].token_end, 4);
    assert_eq!(retention.ranges[0].has_duration_ms, 1);
    assert_eq!(retention.ranges[0].duration_ms, 7);
    assert_eq!(retention.transfer_mode, 1);
    assert_eq!(retention.directory.as_deref(), Some("/tmp/cache"));
    assert_eq!(e.has_eagle_config, 0);
    assert_eq!(e.eagle_config.choices.token_count, 0);
}

#[test]
fn prepare_request_checks_prompt_table_and_other_tensors() {
    let ids = [1, 10, 11];
    let prompt_tensor = candle_core::Tensor::zeros((2, 4), candle_core::DType::F32, &candle_core::Device::Cpu).unwrap();
    let request = Request::new(&ids).max_new_tokens(1).prompt_embeddings(&prompt_tensor);
    let mut tensors = no_tensors();
    tensors.prompt_embeddings = Some(meta(&[2, 4], DType::F32));
    let prepared = profile().prepare_request(&request, &tensors).unwrap();
    assert_eq!(prepared.encoded.prompt_embedding_rows, 2);
    assert_eq!(prepared.encoded.prompt_embedding_hidden_size, 4);
    assert_eq!(prepared.encoded.input_token_extra_ids, vec![0, 0, 1]);
    assert_eq!(prepared.tensors.prompt.as_ref().unwrap().rows, 2);

    tensors.prompt_embeddings = Some(meta(&[3, 4], DType::F32));
    let error = profile().prepare_request(&request, &tensors).err().unwrap();
    assert_eq!(error.to_string(), "prompt_embeddings has 3 rows but engine supports at most 2");

    let draft = [2];
    let logits = candle_core::Tensor::zeros((1, 10), candle_core::DType::F64, &candle_core::Device::Cpu).unwrap();
    let request = Request::new(&ids[..1]).external_draft_tokens(ExternalDraftTokensConfig::new(&draft).logits(&logits));
    let mut tensors = no_tensors();
    tensors.external_draft_logits = Some(meta(&[1, 10], DType::F64));
    let error = profile().prepare_request(&request, &tensors).err().unwrap();
    assert_eq!(error.to_string(), "TensorRT-LLM Executor tensor dtype F64 is not supported");
}

#[test]
fn prepare_request_reports_request_checks_first() {
    let request = Request::new(&[]);
    let error = profile().prepare_request(&request, &no_tensors()).err().unwrap();
    assert_eq!(error.to_string(), "TensorRT-LLM request must contain at least one input token");
    let request = Request::new(&[1]).eagle(EagleConfig::new().choices(vec![&[][..]]));
    let error = profile().prepare_request(&request, &no_tensors()).err().unwrap();
    assert_eq!(error.to_string(), "eagle_choices entry 0 must contain at least one token");
}

#[test]
fn final_response_is_the_first_marked_final() {
    assert_eq!(final_response_index(None, 0).unwrap(), None);
    assert_eq!(final_response_index(Some(&[0, 1, 1]), 3).unwrap(), Some(1));
    assert_eq!(final_response_index(Some(&[0, 0]), 2).unwrap(), None);
    match final_response_index(None, 2) {
        Err(Error::Executor(message)) => assert_eq!(message, "TensorRT-LLM Executor returned a null response pointer"),
        other => panic!("expected an executor error, got {other:?}"),
    }
}

#[test]
fn executor_errors_keep_the_reported_text() {
    match executor_error(Some("boom".to_owned())) {
        Error::Executor(message) => assert_eq!(message, "boom"),
        other => panic!("expected an executor error, got {other:?}"),
    }
    match executor_error(None) {
        Error::Executor(message) => assert_eq!(message, "unknown TensorRT-LLM Executor error"),
        other => panic!("expected an executor error, got {other:?}"),
    }
}

#[test]
fn cuda_status_codes_map_to_results() {
    assert!(check_cuda(0, None).is_ok());
    match check_cuda(2, Some("out of memory".to_owned())) {
        Err(TrtError::Cuda(e)) => {
            assert_eq!(e.code, 2);
            assert_eq!(e.message, "out of memory");
        }
        other => panic!("expected a CUDA error, got {other:?}"),
    }
    match check_cuda(3, None) {
        Err(TrtError::Cuda(e)) => assert_eq!(e.message, "unknown CUDA error"),
        other => panic!("expected a CUDA error, got {other:?}"),
    }
    assert_eq!(event_query_result(0, None).unwrap(), true);
    assert_eq!(event_query_result(CUDA_ERROR_NOT_READY, None).unwrap(), false);
    assert!(event_query_result(700, None).is_err());
}

#[test]
fn device_buffer_checks_refuse_empty_allocations_and_mismatched_copies() {
    assert!(check_allocation(16).is_ok());
    match check_allocation(0) {
        Err(tensorrt_rs::error::Error::InvalidShape { tensor, reason }) => {
            assert_eq!(tensor, "<device-buffer>");
            assert_eq!(reason, "cannot allocate zero bytes");
        }
        other => panic!("unexpected {other:?}"),
    }
    assert!(check_copy_len(CopyDirection::HostToDevice, 8, 8).is_ok());
    match check_copy_len(CopyDirection::DeviceToHost, 8, 4) {
        Err(tensorrt_rs::error::Error::SizeMismatch { tensor, expected_bytes, actual_bytes }) => {
            assert_eq!(tensor, "<device-to-host>");
            assert_eq!((expected_bytes, actual_bytes), (8, 4));
        }
        other => panic!("unexpected {other:?}"),
    }
    match check_copy_len(CopyDirection::HostToDevice, 2, 3) {
        Err(tensorrt_rs::error::Error::SizeMismatch { tensor, .. }) => assert_eq!(tensor, "<host-to-device>"),
        other => panic!("unexpected {other:?}"),
    }
}
