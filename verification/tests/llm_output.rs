use tensorrt_rs::data_type::DataType;
use tensorrt_rs::llm::error::Error;
use tensorrt_rs::llm::output::{
    context_phase_params, data_type_from_executor_i32, data_type_size, finish_reasons, i32_vec, output_offsets,
    output_shape, output_tensor_name, read_bf16, read_f16, read_f32, read_i32, read_i64, standard_output_names,
    typed_byte_len, u8_vec, validate_tensor_len, FinishReason, OffsetTensorData, OutputCounts, RawContextPhaseParams,
    RawTensorData, TensorData,
};

fn message(error: Error) -> String {
    error.to_string()
}

#[test]
fn output_offsets_use_sequence_offsets() {
    let offsets = [0usize, 2, 5];
    let offsets = output_offsets(Some(&offsets), 2, 5).unwrap();
    assert_eq!(offsets, vec![0, 2, 5]);
}

#[test]
fn output_offsets_reject_bad_offsets() {
    let offsets = [0usize, 4];
    let error = output_offsets(Some(&offsets), 1, 3).unwrap_err();
    assert!(error.to_string().contains("offsets are invalid"));
}

#[test]
fn output_offsets_without_sequences_span_the_data() {
    assert_eq!(output_offsets(None, 0, 7).unwrap(), vec![0, 7]);
    assert_eq!(message(output_offsets(None, 0, usize::MAX).unwrap_err()), "TensorRT-LLM Executor output length cannot fit in i64");
    let data = OffsetTensorData::new(0, &[], 0, 7).unwrap();
    assert_eq!(data.len(), 2);
    let offsets = [0usize, 2, 5];
    let data = OffsetTensorData::new(0x1000, &offsets, 2, 5).unwrap();
    assert_eq!(data.len(), 3);
    assert!(OffsetTensorData::new(0, &[], 2, 5).is_err());
}

#[test]
fn finish_reasons_map_executor_values() {
    let raw = [0, 1, 2, 3, 4, 5, 99];
    let reasons = finish_reasons(Some(&raw), raw.len()).unwrap();
    assert_eq!(
        reasons,
        vec![
            FinishReason::NotFinished,
            FinishReason::EndId,
            FinishReason::StopWords,
            FinishReason::Length,
            FinishReason::TimedOut,
            FinishReason::Cancelled,
            FinishReason::Unknown(99),
        ]
    );
}

#[test]
fn context_phase_params_copy_owned_values() {
    let first_gen_tokens = [10, 11];
    let serialized_state = [1u8, 2, 3];
    let draft_tokens = [20, 21];
    let raw = RawContextPhaseParams {
        first_gen_tokens: Some(&first_gen_tokens),
        first_gen_token_count: first_gen_tokens.len(),
        request_id: 7,
        serialized_state: Some(&serialized_state),
        serialized_state_len: serialized_state.len(),
        draft_tokens: Some(&draft_tokens),
        draft_token_count: draft_tokens.len(),
        has_ctx_dp_rank: 1,
        ctx_dp_rank: 3,
        disagg_info_endpoint: Some("localhost:1234".to_owned()),
    };

    let params = context_phase_params(&raw).unwrap();

    assert_eq!(params.first_gen_tokens, vec![10, 11]);
    assert_eq!(params.request_id, 7);
    assert_eq!(params.serialized_state, vec![1, 2, 3]);
    assert_eq!(params.draft_tokens, Some(vec![20, 21]));
    assert_eq!(params.context_data_parallel_rank, Some(3));
    assert_eq!(params.disaggregated_info_endpoint.as_deref(), Some("localhost:1234"));
}

#[test]
fn context_phase_params_leave_absent_values_empty() {
    let raw = RawContextPhaseParams {
        first_gen_tokens: None,
        first_gen_token_count: 0,
        request_id: 1,
        serialized_state: None,
        serialized_state_len: 0,
        draft_tokens: None,
        draft_token_count: 0,
        has_ctx_dp_rank: 0,
        ctx_dp_rank: 9,
        disagg_info_endpoint: None,
    };
    let params = context_phase_params(&raw).unwrap();
    assert!(params.first_gen_tokens.is_empty());
    assert_eq!(params.draft_tokens, None);
    assert_eq!(params.context_data_parallel_rank, None);
    assert_eq!(params.disaggregated_info_endpoint, None);
}

#[test]
fn named_tensors_normalize_context_outputs_without_hiding_generation_outputs() {
    assert_eq!(output_tensor_name(Some("context_marked_model_output")).unwrap(), "marked_model_output");
    assert_eq!(output_tensor_name(Some("generation_marked_model_output")).unwrap(), "generation_marked_model_output");
    assert_eq!(output_tensor_name(Some("custom_output")).unwrap(), "custom_output");
    assert_eq!(output_tensor_name(Some("context_")).unwrap(), "");
    assert_eq!(output_tensor_name(Some("context")).unwrap(), "context");
}

#[test]
fn from_sys_defers_standard_tensor_materialization() {
    let counts = OutputCounts {
        token_count: 3,
        cum_log_probs_count: 0,
        log_prob_count: 0,
        has_context_logits: false,
        has_generation_logits: false,
        has_encoder_output: false,
    };
    assert_eq!(standard_output_names(counts), vec!["token_ids", "token_offsets"]);
    let all = OutputCounts {
        token_count: 1,
        cum_log_probs_count: 1,
        log_prob_count: 1,
        has_context_logits: true,
        has_generation_logits: true,
        has_encoder_output: true,
    };
    assert_eq!(
        standard_output_names(all),
        vec![
            "token_ids",
            "token_offsets",
            "cum_log_probs",
            "log_probs",
            "log_prob_offsets",
            "context_logits",
            "generation_logits",
            "encoder_output"
        ]
    );
}

#[test]
fn tensor_conversion_rejects_invalid_executor_buffers() {
    let bytes = [0u8; 3];
    let data = TensorData::from_bytes(DataType::Float, &bytes);
    assert!(data.is_err());

    assert!(output_shape(Some(&[-1i64]), 1).is_err());
    assert!(data_type_from_executor_i32(0).is_ok());
    assert!(data_type_size(data_type_from_executor_i32(0).unwrap()).is_err());
    assert!(output_shape(None, 1).is_err());

    assert!(data_type_from_executor_i32(99).is_err());
    assert!(read_bf16(&[0]).is_err());
    assert!(read_f16(&[0]).is_err());
    assert!(read_i32(&[0, 1, 2]).is_err());
    assert!(read_i64(&[0, 1, 2, 3]).is_err());
}

#[test]
fn tensor_data_decodes_typed_elements() {
    let ints: Vec<u8> = [1i32, -2].iter().flat_map(|v| v.to_ne_bytes()).collect();
    match TensorData::from_bytes(DataType::Int32, &ints).unwrap() {
        TensorData::Int32(values) => assert_eq!(values, vec![1, -2]),
        other => panic!("expected Int32, got {other:?}"),
    }
    let longs: Vec<u8> = [7i64].iter().flat_map(|v| v.to_ne_bytes()).collect();
    assert_eq!(read_i64(&longs).unwrap(), vec![7]);
    let floats: Vec<u8> = [1.5f32].iter().flat_map(|v| v.to_ne_bytes()).collect();
    assert_eq!(read_f32(&floats).unwrap(), vec![1.5f32.to_bits()]);
    let halves: Vec<u8> = [0x3c00u16].iter().flat_map(|v| v.to_ne_bytes()).collect();
    assert_eq!(read_f16(&halves).unwrap(), vec![0x3c00]);
    let data = TensorData::from_bytes(DataType::Uint8, &[1, 2, 3]).unwrap();
    assert_eq!(data.elem_count(), 3);
    assert_eq!(
        message(TensorData::from_bytes(DataType::Bool, &[1]).unwrap_err()),
        "TensorRT-LLM Executor output dtype Bool is not supported as a Candle tensor"
    );
}

#[test]
fn output_helpers_reject_null_pointers_with_data() {
    assert!(finish_reasons(None, 1).is_err());
    assert!(i32_vec(None, 1).is_err());
    assert!(u8_vec(None, 1).is_err());
    assert!(output_offsets(None, 1, 1).is_err());
    assert!(output_tensor_name(None).is_err());
    assert!(RawTensorData::new(DataType::Float, 0, 4).is_err());
    assert!(finish_reasons(None, 0).unwrap().is_empty());
    assert!(i32_vec(None, 0).unwrap().is_empty());
}

#[test]
fn output_sizes_and_shapes_are_checked() {
    assert_eq!(data_type_size(DataType::Uint8).unwrap(), 1);
    assert_eq!(data_type_size(DataType::Float).unwrap(), 4);
    assert_eq!(data_type_size(DataType::Int64).unwrap(), 8);
    assert_eq!(data_type_size(DataType::Bf16).unwrap(), 2);
    assert!(validate_tensor_len(6, &[2, 3]).is_ok());
    assert_eq!(
        message(validate_tensor_len(5, &[2, 3]).unwrap_err()),
        "TensorRT-LLM Executor output element count mismatch: shape expects 6, buffer has 5"
    );
    assert_eq!(message(validate_tensor_len(0, &[usize::MAX, 2, 0]).unwrap_err()), "TensorRT-LLM Executor output shape overflowed");
    assert_eq!(typed_byte_len(DataType::Int32, 3).unwrap(), 12);
    assert!(typed_byte_len(DataType::Int64, usize::MAX).is_err());
    let raw = RawTensorData::new(DataType::Float, 0x1000, 10).unwrap();
    assert_eq!(message(raw.elem_count().unwrap_err()), "Float tensor byte length is not divisible by 4");
    let raw = RawTensorData::new(DataType::Half, 0x1000, 10).unwrap();
    assert_eq!(raw.elem_count().unwrap(), 5);
    assert_eq!(output_shape(Some(&[2i64, 3]), 2).unwrap(), vec![2, 3]);
    assert_eq!(message(output_shape(Some(&[2i64, -3]), 2).unwrap_err()), "TensorRT-LLM Executor output dimension -3 cannot fit in usize");
    assert_eq!(message(data_type_from_executor_i32(99).unwrap_err()), "unsupported TensorRT-LLM Executor dtype id 99");
}

#[test]
fn executor_type_codes_round_trip() {
    for code in 0..=8 {
        let data_type = data_type_from_executor_i32(code).unwrap();
        assert_eq!(tensorrt_rs::llm::executor::data_type_to_executor_i32(data_type).unwrap(), code);
    }
}

#[test]
fn offsets_count_matches_their_values() {
    let offsets = [0usize, 2, 5];
    let checked = OffsetTensorData::new(0x1000, &offsets, 2, 5).unwrap();
    let values = output_offsets(Some(&offsets), 2, 5).unwrap();
    assert_eq!(checked.len(), values.len());
    assert_eq!(checked.to_vec(&offsets), vec![0, 2, 5]);
    assert_eq!(checked.len(), checked.to_vec(&offsets).len());
    assert_eq!((values[0], *values.last().unwrap()), (0, 5));

    let empty = OffsetTensorData::new(0, &[], 0, 7).unwrap();
    let values = output_offsets(None, 0, 7).unwrap();
    assert_eq!(empty.len(), values.len());
    assert_eq!(empty.to_vec(&[]), vec![0, 7]);
    assert_eq!(values, vec![0, 7]);
}
