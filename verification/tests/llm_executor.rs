use tensorrt_rs::alias::CudaMemoryRange;
use tensorrt_rs::binding::TensorInfo;
use tensorrt_rs::data_type::DataType;
use tensorrt_rs::dtype::DType;
use tensorrt_rs::llm::error::Error;
use tensorrt_rs::llm::executor::{
    additional_output_names, cuda_output_range, data_type_for_dtype, data_type_to_executor_i32, dtype_for_data_type,
    input_token_extra_ids, plugin_status, tensor_byte_len_for_shape, tensor_layout, usize_to_i32,
    validate_cuda_output_aliases, validate_retention_priority, validate_virtual_tokens, validate_word_list,
    TensorShapeBuf, TokenExtraIds, ValidationProfile, INLINE_TENSOR_RANK,
};
use tensorrt_rs::llm::request::{
    ContextPhaseParams, EagleConfig, ExternalDraftTokensConfig, KvCacheRetentionConfig,
    KvCacheTokenRangeRetentionConfig, LookaheadConfig, MultimodalInput, Request,
};
use tensorrt_rs::llm::word_list::WordListBuffer;
use tensorrt_rs::tensor::{Dims, TensorIOMode};

fn profile() -> ValidationProfile {
    ValidationProfile {
        dtype: DType::F32,
        executor_data_type: 8,
        vocab_size: 10,
        hidden_size: 4,
        max_num_tokens: 8,
        max_prompt_embedding_table_size: 2,
    }
}

fn message(error: Error) -> String {
    error.to_string()
}

#[test]
fn virtual_token_validation_rejects_out_of_range_tokens() {
    let error = validate_virtual_tokens(&[10], 5, 2).unwrap_err();
    assert!(error.to_string().contains("outside prompt embedding range"));
}

#[test]
fn virtual_token_validation_reports_the_first_stray_token() {
    let error = validate_virtual_tokens(&[-3, 6, 9, 12], 5, 2).unwrap_err();
    assert_eq!(message(error), "virtual token id 9 is outside prompt embedding range 5..7");
    assert!(validate_virtual_tokens(&[-1, 0, 4, 6], 5, 2).is_ok());
    assert_eq!(message(validate_virtual_tokens(&[], usize::MAX, 1).unwrap_err()), "prompt virtual token range overflowed");
}

#[test]
fn extra_ids_follow_virtual_token_range() {
    let ids = input_token_extra_ids(&[4, 5, 6, 9], 5);
    assert_eq!(ids.as_slice(), &[0, 0, 1, 4]);
    let capped = input_token_extra_ids(&[i32::MAX, -1], usize::MAX);
    assert_eq!(capped, vec![0, 0]);
}

#[test]
fn tensor_shape_buffer_avoids_heap_for_common_ranks() {
    let shape = TensorShapeBuf::new(&[1, 2, 3, 4]).unwrap();
    assert!(shape.is_inline());
    assert_eq!(shape.as_slice(), &[1, 2, 3, 4]);
    assert!(!shape.as_slice().as_ptr().is_null());

    let scalar = TensorShapeBuf::new(&[]).unwrap();
    assert!(scalar.is_inline());
    assert_eq!(scalar.len(), 0);

    let large = TensorShapeBuf::new(&[1; INLINE_TENSOR_RANK + 1]).unwrap();
    assert!(!large.is_inline());
    assert_eq!(large.len(), INLINE_TENSOR_RANK + 1);
}

#[test]
fn tensor_shape_buffer_rejects_extents_past_i64() {
    let error = TensorShapeBuf::new(&[1, usize::MAX]).unwrap_err();
    assert_eq!(message(error), "TensorRT-LLM Executor tensor dimension cannot fit in i64");
}

#[test]
fn word_list_validation_rejects_empty_words() {
    let error = validate_word_list("stop_words", &[&[]]).unwrap_err();
    assert!(error.to_string().contains("must contain at least one token"));
}

#[test]
fn word_list_validation_names_the_first_empty_entry() {
    let error = validate_word_list("bad_words", &[&[1], &[], &[]]).unwrap_err();
    assert_eq!(message(error), "bad_words entry 1 must contain at least one token");
    assert!(validate_word_list("bad_words", &[&[1], &[2, 3]]).is_ok());
}

#[test]
fn word_list_buffer_flattens_offsets() {
    let first = [1, 2];
    let second = [3];
    let words = [first.as_slice(), second.as_slice()];
    let buffer = WordListBuffer::from_slices(&words);
    assert_eq!(buffer.tokens.as_slice(), &[1, 2, 3]);
    assert_eq!(buffer.offsets.as_slice(), &[0, 2, 3]);
    assert_eq!(buffer.token_count(), 3);
    assert_eq!(buffer.offset_count(), 3);

    let empty = WordListBuffer::from_slices(&[]);
    assert_eq!(empty.token_count(), 0);
    assert_eq!(empty.offset_count(), 0);
}

#[test]
fn retention_priority_must_lie_in_range() {
    assert!(validate_retention_priority("priority", 0).is_ok());
    assert!(validate_retention_priority("priority", 100).is_ok());
    assert_eq!(
        message(validate_retention_priority("decode priority", 101).unwrap_err()),
        "decode priority must be between 0 and 100"
    );
}

#[test]
fn validation_rejects_invalid_request_shapes_and_limits() {
    let executor = profile();

    assert!(executor.validate_request(&Request::new(&[])).is_err());
    assert!(executor.validate_request(&Request::new(&[1]).max_new_tokens(-1)).is_err());
    assert!(executor.validate_request(&Request::new(&[1, 2]).position_ids(&[0])).is_err());
    assert!(executor.validate_request(&Request::new(&[1]).priority(f32::NAN.to_bits())).is_err());
    assert!(executor.validate_request(&Request::new(&[1, 2]).prompt_embedding_token_extra_ids(&[0])).is_err());
    assert!(executor.validate_request(&Request::new(&[1]).external_draft_tokens(ExternalDraftTokensConfig::new(&[]))).is_err());
    assert!(executor
        .validate_request(
            &Request::new(&[1]).external_draft_tokens(ExternalDraftTokensConfig::new(&[2]).acceptance_threshold(0.0f32.to_bits()))
        )
        .is_err());
    assert!(executor
        .validate_request(&Request::new(&[1]).multimodal_input(MultimodalInput::new(vec![&[][..]], &[0], &[1])))
        .is_err());
    assert!(executor
        .validate_request(
            &Request::new(&[1]).multimodal_input(
                MultimodalInput::new(vec![&[1][..]], &[0], &[1]).uuids(vec![Some("a".to_owned()), Some("b".to_owned())])
            )
        )
        .is_err());
    assert!(executor.validate_request(&Request::new(&[1]).lookahead(LookaheadConfig::new(0, 1, 1))).is_err());
    assert!(executor
        .validate_request(
            &Request::new(&[1]).kv_cache_retention(KvCacheRetentionConfig::new(vec![KvCacheTokenRangeRetentionConfig::new(-1)]))
        )
        .is_err());
    assert!(executor
        .validate_request(&Request::new(&[1]).kv_cache_retention(KvCacheRetentionConfig::new(vec![
            KvCacheTokenRangeRetentionConfig::new(4).token_end(4)
        ])))
        .is_err());
    assert!(executor
        .validate_request(&Request::new(&[1]).kv_cache_retention(KvCacheRetentionConfig::new(vec![
            KvCacheTokenRangeRetentionConfig::new(0).priority(101)
        ])))
        .is_err());
    assert!(executor.validate_request(&Request::new(&[1]).context_phase(ContextPhaseParams::new(&[], 0))).is_err());
    assert!(executor.validate_request(&Request::new(&[1]).encoder_output_length(0)).is_err());
    assert!(executor.validate_request(&Request::new(&[1]).eagle(EagleConfig::new().choices(vec![&[][..]]))).is_err());
    assert!(executor
        .validate_request(&Request::new(&[1]).eagle(EagleConfig::new().posterior_threshold(f32::NAN.to_bits())))
        .is_err());
    assert!(executor.validate_request(&Request::new(&[1]).eagle(EagleConfig::new().max_dynamic_tree_top_k(0))).is_err());
    assert!(executor.validate_request(&Request::new(&[1]).language_adapter_uid(-1)).is_err());
    assert!(executor.validate_request(&Request::new(&[1]).bad_words(vec![&[][..]])).is_err());
    assert!(executor.validate_request(&Request::new(&[1; 8]).max_new_tokens(1)).is_err());
}

#[test]
fn validation_accepts_requests_that_fit_and_names_the_limit() {
    let executor = profile();
    assert!(executor.validate_request(&Request::new(&[1; 7]).max_new_tokens(1)).is_ok());
    assert_eq!(
        message(executor.validate_request(&Request::new(&[1; 8]).max_new_tokens(1)).unwrap_err()),
        "TensorRT-LLM request has 9 total tokens but engine supports at most 8"
    );
    assert_eq!(
        message(executor.validate_request(&Request::new(&[1, 2]).position_ids(&[0])).unwrap_err()),
        "position_ids length mismatch: expected 2, got 1"
    );
    assert_eq!(
        message(executor.validate_request(&Request::new(&[1]).stop_words(vec![&[4][..], &[][..]])).unwrap_err()),
        "stop_words entry 1 must contain at least one token"
    );
}

#[test]
fn tensor_helpers_cover_supported_and_unsupported_types() {
    assert_eq!(dtype_for_data_type(DataType::Bf16).unwrap(), DType::BF16);
    assert_eq!(dtype_for_data_type(DataType::Half).unwrap(), DType::F16);
    assert_eq!(dtype_for_data_type(DataType::Float).unwrap(), DType::F32);
    assert!(dtype_for_data_type(DataType::Int32).is_err());

    assert_eq!(data_type_for_dtype(DType::U8).unwrap(), DataType::Uint8);
    assert_eq!(data_type_for_dtype(DType::I32).unwrap(), DataType::Int32);
    assert_eq!(data_type_for_dtype(DType::I64).unwrap(), DataType::Int64);
    assert_eq!(data_type_for_dtype(DType::BF16).unwrap(), DataType::Bf16);
    assert_eq!(data_type_for_dtype(DType::F16).unwrap(), DataType::Half);
    assert_eq!(data_type_for_dtype(DType::F32).unwrap(), DataType::Float);
    assert!(data_type_for_dtype(DType::F64).is_err());

    assert_eq!(data_type_to_executor_i32(DataType::Bool).unwrap(), 0);
    assert_eq!(data_type_to_executor_i32(DataType::Uint8).unwrap(), 1);
    assert_eq!(data_type_to_executor_i32(DataType::Int8).unwrap(), 2);
    assert_eq!(data_type_to_executor_i32(DataType::Int32).unwrap(), 3);
    assert_eq!(data_type_to_executor_i32(DataType::Int64).unwrap(), 4);
    assert_eq!(data_type_to_executor_i32(DataType::Bf16).unwrap(), 5);
    assert_eq!(data_type_to_executor_i32(DataType::Fp8).unwrap(), 6);
    assert_eq!(data_type_to_executor_i32(DataType::Half).unwrap(), 7);
    assert_eq!(data_type_to_executor_i32(DataType::Float).unwrap(), 8);
    assert!(data_type_to_executor_i32(DataType::Int4).is_err());
    assert_eq!(
        message(data_type_to_executor_i32(DataType::Int4).unwrap_err()),
        "TensorRT-LLM Executor dtype mapping for Int4 is not implemented"
    );
}

#[test]
fn tensor_byte_lengths_follow_shape_and_type() {
    assert_eq!(tensor_byte_len_for_shape("t", &[2, 3], DataType::Half).unwrap(), 12);
    assert_eq!(message(tensor_byte_len_for_shape("t", &[2, -1], DataType::Half).unwrap_err()), "t shape still has dynamic dimension: [2, -1]");
    assert_eq!(message(tensor_byte_len_for_shape("t", &[i64::MAX, 4], DataType::Half).unwrap_err()), "t element count overflow");
    assert_eq!(message(tensor_byte_len_for_shape("t", &[2], DataType::Int4).unwrap_err()), "t has unsupported TensorRT dtype Int4");
    assert_eq!(usize_to_i32(7, "count").unwrap(), 7);
    assert_eq!(message(usize_to_i32(1 << 31, "count").unwrap_err()), "TensorRT-LLM count 2147483648 cannot fit in i32");
}

#[test]
fn tensor_layout_checks_contiguity_type_and_extents() {
    let layout = tensor_layout(&[2, 3], true, DType::F16).unwrap();
    assert_eq!(layout.shape.as_slice(), &[2, 3]);
    assert_eq!(layout.data_type, DataType::Half);
    assert_eq!(layout.executor_data_type, 7);
    assert_eq!(message(tensor_layout(&[2], false, DType::F16).unwrap_err()), "TensorRT-LLM Executor tensor inputs must be contiguous");
    assert_eq!(message(tensor_layout(&[2], true, DType::F64).unwrap_err()), "TensorRT-LLM Executor tensor dtype F64 is not supported");
}

#[test]
fn prompt_embedding_checks_shape_type_and_virtual_tokens() {
    let executor = profile();
    let prompt = executor.prompt_embedding(&[2, 4], true, DType::F32, &[1, 10, 11], None).unwrap();
    assert_eq!(prompt.rows, 2);
    assert_eq!(prompt.input_token_extra_ids.as_slice(), &[0, 0, 1]);
    assert_eq!(prompt.layout.executor_data_type, 8);

    let given = [7u64, 8, 9];
    let prompt = executor.prompt_embedding(&[1, 4], true, DType::F32, &[1, 2, 3], Some(&given)).unwrap();
    assert!(matches!(prompt.input_token_extra_ids, TokenExtraIds::Borrowed(_)));
    assert_eq!(prompt.input_token_extra_ids.as_slice(), &given);

    let err = |dims: &[usize], contiguous: bool, dtype: DType, ids: &[i32], extra: Option<&[u64]>| {
        message(executor.prompt_embedding(dims, contiguous, dtype, ids, extra).err().unwrap())
    };
    assert_eq!(err(&[2], true, DType::F32, &[1], None), "prompt_embeddings must have shape [virtual_tokens, hidden_size], got [2]");
    assert_eq!(err(&[0, 4], true, DType::F32, &[1], None), "prompt_embeddings must contain at least one virtual token");
    assert_eq!(err(&[3, 4], true, DType::F32, &[1], None), "prompt_embeddings has 3 rows but engine supports at most 2");
    assert_eq!(err(&[2, 5], true, DType::F32, &[1], None), "prompt_embeddings hidden size mismatch: expected 4, got 5");
    assert_eq!(
        err(&[2, 4], false, DType::F32, &[1], None),
        "prompt_embeddings must be contiguous before TensorRT-LLM Executor inference"
    );
    assert_eq!(err(&[2, 4], true, DType::F16, &[1], None), "prompt_embeddings dtype mismatch: engine expects F32, got F16");
    assert_eq!(
        err(&[2, 4], true, DType::F32, &[1, 2], Some(&[0])),
        "prompt_embedding_token_extra_ids length mismatch: expected 2, got 1"
    );
    assert_eq!(err(&[2, 4], true, DType::F32, &[12], None), "virtual token id 12 is outside prompt embedding range 10..12");
}

#[test]
fn embedding_bias_checks_vocabulary_and_layout() {
    let executor = profile();
    let bias = executor.embedding_bias(&[10], true, DType::F32).unwrap();
    assert_eq!(bias.len, 10);
    assert_eq!(bias.layout.shape.as_slice(), &[10]);
    assert_eq!(message(executor.embedding_bias(&[2, 5], true, DType::F32).err().unwrap()), "embedding_bias must have shape [vocab_size], got [2, 5]");
    assert_eq!(message(executor.embedding_bias(&[9], true, DType::F32).err().unwrap()), "embedding_bias vocab size mismatch: expected 10, got 9");
    assert_eq!(
        message(executor.embedding_bias(&[10], false, DType::F32).err().unwrap()),
        "embedding_bias must be contiguous before TensorRT-LLM Executor inference"
    );
}

#[test]
fn cuda_output_alias_validation_catches_overlaps() {
    let first = cuda_output_range("first", 0x1000, 16).unwrap();
    let second = cuda_output_range("second", 0x1008, 16).unwrap();
    assert!(validate_cuda_output_aliases(&[first, second]).is_err());

    let second = cuda_output_range("second", 0x1010, 16).unwrap();
    assert!(validate_cuda_output_aliases(&[first, second]).is_ok());
}

#[test]
fn cuda_output_alias_errors_name_the_first_pair() {
    let ranges: [CudaMemoryRange; 3] = [
        cuda_output_range("a", 0x1000, 16).unwrap(),
        cuda_output_range("b", 0x2000, 16).unwrap(),
        cuda_output_range("c", 0x2008, 16).unwrap(),
    ];
    assert_eq!(
        message(validate_cuda_output_aliases(&ranges).unwrap_err()),
        "output CUDA memory for \"b\" overlaps output \"c\"; each output must use distinct storage"
    );
    assert_eq!(message(cuda_output_range("x", usize::MAX, 1).unwrap_err()), "CUDA output pointer range overflow");
}

#[test]
fn plugin_status_zero_is_success() {
    assert!(plugin_status(0).is_ok());
    match plugin_status(3) {
        Err(Error::PluginInit { status }) => assert_eq!(status, 3),
        other => panic!("expected PluginInit, got {other:?}"),
    }
}

#[test]
fn additional_outputs_are_every_output_but_logits() {
    let shape = Dims::new(vec![1]).unwrap();
    let infos = vec![
        TensorInfo::with_io_mode("input_ids", DataType::Int32, shape.clone(), TensorIOMode::Input),
        TensorInfo::with_io_mode("logits", DataType::Float, shape.clone(), TensorIOMode::Output),
        TensorInfo::with_io_mode("hidden_states", DataType::Half, shape.clone(), TensorIOMode::Output),
        TensorInfo::with_io_mode("score", DataType::Float, shape.clone(), TensorIOMode::Output),
    ];
    assert_eq!(additional_output_names(&infos).unwrap(), vec!["hidden_states".to_owned(), "score".to_owned()]);

    let bad = vec![TensorInfo::with_io_mode("ab\0c", DataType::Float, shape, TensorIOMode::Output)];
    match additional_output_names(&bad) {
        Err(Error::Nul { nul_position }) => assert_eq!(nul_position, 2),
        other => panic!("expected Nul, got {other:?}"),
    }
}
