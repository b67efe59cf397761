use tensorrt_rs::alias::{validate_cuda_output_aliases, CudaMemoryRange};
use tensorrt_rs::binding::{DeviceInputTensor, DeviceOutputTensor, HostInputTensor, InputBinding, TensorInfo, TensorShape};
use tensorrt_rs::candle_bridge::{
    candle_dims, candle_dtype_from_data_type, check_candle_outputs_present, cuda_output_device, data_type_from_candle,
    first_named, validate_stream_device, DeviceLocation, TensorPlacement,
};
use tensorrt_rs::catalog::SessionTensors;
use tensorrt_rs::data_type::DataType;
use tensorrt_rs::dtype::DType;
use tensorrt_rs::engine::{io_tensor_count, io_tensor_raw_index, tensor_name, InputShapeCache, LogSeverity};
use tensorrt_rs::error::Error;
use tensorrt_rs::prepared::{input_kind, prepare_device_bytes, staging_sizes, validate_prepared_inputs, PreparedInputKind};
use tensorrt_rs::run_plan::{RunPlanInputKey, RunPlanKey};
use tensorrt_rs::tensor::{Dims, TensorIOMode};

fn dims(values: &[i64]) -> Dims {
    Dims::new(values.to_vec()).unwrap()
}

fn session() -> SessionTensors {
    SessionTensors::new(vec![
        TensorInfo::with_io_mode("input", DataType::Float, dims(&[-1, 4]), TensorIOMode::Input),
        TensorInfo::with_io_mode("mask", DataType::Int32, dims(&[2]), TensorIOMode::Input),
        TensorInfo::with_io_mode("logits", DataType::Half, dims(&[-1, 8]), TensorIOMode::Output),
    ])
}

fn shape_reason(error: Error) -> (String, String) {
    match error {
        Error::InvalidShape { tensor, reason } => (tensor, reason),
        other => panic!("expected InvalidShape, got {other:?}"),
    }
}

#[test]
fn session_tensors_find_names_types_and_modes() {
    let s = session();
    assert_eq!(s.tensor_index("mask").unwrap(), 1);
    assert_eq!(s.tensor_data_type("logits").unwrap(), DataType::Half);
    assert_eq!(shape_reason(s.tensor_index("missing").unwrap_err()), ("missing".to_owned(), "tensor is not an engine I/O tensor".to_owned()));
    assert!(s.ensure_tensor_mode("logits", TensorIOMode::Output).is_ok());
    match s.ensure_tensor_mode("input", TensorIOMode::Output) {
        Err(Error::TensorModeMismatch { tensor, expected, actual }) => {
            assert_eq!(tensor, "input");
            assert_eq!(expected, TensorIOMode::Output);
            assert_eq!(actual, TensorIOMode::Input);
        }
        other => panic!("expected TensorModeMismatch, got {other:?}"),
    }
    match s.ensure_tensor_type("mask", DataType::Float) {
        Err(Error::TypeMismatch { expected, actual, .. }) => {
            assert_eq!(expected, DataType::Float);
            assert_eq!(actual, DataType::Int32);
        }
        other => panic!("expected TypeMismatch, got {other:?}"),
    }
    assert_eq!(s.output_infos().iter().map(|t| t.name.as_str()).collect::<Vec<_>>(), vec!["logits"]);
}

#[test]
fn session_tensors_check_shapes_and_byte_lengths() {
    let s = session();
    assert!(s.validate_tensor_shape("input", &dims(&[3, 4])).is_ok());
    assert!(s.validate_tensor_shape("input", &dims(&[3, 5])).is_err());
    assert!(s.validate_tensor_shape("input", &dims(&[3])).is_err());
    assert!(s.validate_tensor_shape("input", &dims(&[-1, 4])).is_err());
    assert_eq!(s.tensor_byte_len("input", &dims(&[3, 4])).unwrap(), 48);
    assert!(s.validate_device_bytes("input", &dims(&[3, 4]), DataType::Float, 48).is_ok());
    match s.validate_device_bytes("input", &dims(&[3, 4]), DataType::Float, 40) {
        Err(Error::SizeMismatch { expected_bytes, actual_bytes, .. }) => {
            assert_eq!(expected_bytes, 48);
            assert_eq!(actual_bytes, 40);
        }
        other => panic!("expected SizeMismatch, got {other:?}"),
    }
}

#[test]
fn session_tensors_check_inputs_and_outputs() {
    let s = session();
    let bytes = [0u8; 32];
    let host = HostInputTensor::with_data_type("mask", DataType::Int32, dims(&[2]), &bytes[..8]);
    assert_eq!(s.check_host_input(&host).unwrap(), 8);
    let wrong = HostInputTensor::with_data_type("mask", DataType::Int32, dims(&[2]), &bytes[..4]);
    assert!(s.check_host_input(&wrong).is_err());

    let device = DeviceInputTensor::new("input", DataType::Float, dims(&[2, 4]), 0x1000, 32);
    assert!(s.check_device_input(&device).is_ok());
    let bad = DeviceInputTensor::new("input", DataType::Half, dims(&[2, 4]), 0x1000, 16);
    assert!(s.check_device_input(&bad).is_err());
    assert!(s.validate_device_inputs(&[device.clone(), bad]).is_err());

    let output = DeviceOutputTensor::new("logits", DataType::Half, dims(&[2, 8]), 0x2000, 32);
    assert!(s.check_device_output(&output, &dims(&[2, 8])).is_ok());
    let (tensor, reason) = shape_reason(s.check_device_output(&output, &dims(&[3, 8])).unwrap_err());
    assert_eq!(tensor, "logits");
    assert_eq!(reason, "expected output shape [2, 8], got [3, 8]");
    assert_eq!(s.check_host_output("logits", &dims(&[2, 8]), 32, &dims(&[2, 8])).unwrap(), 32);

    let info = s.input_info_from_shape(&TensorShape::new("input", dims(&[5, 4]))).unwrap();
    assert_eq!(info.shape, dims(&[5, 4]));
    assert_eq!(info.data_type, DataType::Float);
    assert!(s.check_shape_input(&TensorShape::new("logits", dims(&[5, 8]))).is_err());
}

#[test]
fn run_plan_key_preserves_input_and_output_order() {
    let inputs = [
        DeviceInputTensor::new("input_ids", DataType::Int32, dims(&[1, 3]), 0x10, 12),
        DeviceInputTensor::new("position_ids", DataType::Int32, dims(&[1, 3]), 0x20, 12),
    ];
    let key = RunPlanKey::new(vec![RunPlanInputKey::new(0, &inputs[0]), RunPlanInputKey::new(1, &inputs[1])], vec![2, 3]);
    assert_eq!(key.inputs.iter().map(|input| input.tensor_index).collect::<Vec<_>>(), vec![0, 1]);
    assert_eq!(key.outputs.as_slice(), [2, 3]);
}

#[test]
fn run_plan_key_ignores_pointer_identity() {
    let left = [DeviceInputTensor::new("input", DataType::Float, dims(&[1, 4]), 0x10, 16)];
    let right = [DeviceInputTensor::new("input", DataType::Float, dims(&[1, 4]), 0x20, 16)];
    assert_eq!(
        RunPlanKey::new(vec![RunPlanInputKey::new(0, &left[0])], vec![1]),
        RunPlanKey::new(vec![RunPlanInputKey::new(0, &right[0])], vec![1])
    );
}

#[test]
fn run_plan_key_distinguishes_shapes_and_outputs() {
    let left = [DeviceInputTensor::new("input", DataType::Float, dims(&[1, 4]), 0, 16)];
    let right = [DeviceInputTensor::new("input", DataType::Float, dims(&[2, 4]), 0, 32)];
    assert_ne!(
        RunPlanKey::new(vec![RunPlanInputKey::new(0, &left[0])], vec![1]),
        RunPlanKey::new(vec![RunPlanInputKey::new(0, &right[0])], vec![1])
    );
    assert_ne!(
        RunPlanKey::new(vec![RunPlanInputKey::new(0, &left[0])], vec![1]),
        RunPlanKey::new(vec![RunPlanInputKey::new(0, &left[0])], vec![2])
    );
}

#[test]
fn run_plan_key_distinguishes_tensor_indices_and_byte_lengths() {
    let left = [DeviceInputTensor::new("input", DataType::Float, dims(&[1, 4]), 0, 16)];
    let wrong_bytes = [DeviceInputTensor::new("input", DataType::Float, dims(&[1, 4]), 0, 12)];
    assert_ne!(
        RunPlanKey::new(vec![RunPlanInputKey::new(0, &left[0])], vec![1]),
        RunPlanKey::new(vec![RunPlanInputKey::new(2, &left[0])], vec![1])
    );
    assert_ne!(
        RunPlanKey::new(vec![RunPlanInputKey::new(0, &left[0])], vec![1]),
        RunPlanKey::new(vec![RunPlanInputKey::new(0, &wrong_bytes[0])], vec![1])
    );
}

#[test]
fn device_run_plan_keys_use_engine_indices() {
    let s = session();
    let inputs = [DeviceInputTensor::new("mask", DataType::Int32, dims(&[2]), 0x10, 8)];
    let key = s.device_run_plan_key(&inputs, &["logits"]).unwrap();
    assert_eq!(key.inputs[0].tensor_index, 1);
    assert_eq!(key.outputs.as_slice(), [2]);
    assert_eq!(s.tensor_indices(&["logits", "input"]).unwrap(), vec![2, 0]);
    assert!(s.tensor_indices(&["nope"]).is_err());
    assert_eq!(s.outputs_for_indices(&[2]).unwrap()[0].name, "logits");
}

#[test]
fn prepared_byte_plans_follow_engine_shapes() {
    let infos = vec![
        TensorInfo::with_io_mode("a", DataType::Float, dims(&[2, 2]), TensorIOMode::Input),
        TensorInfo::with_io_mode("b", DataType::Int64, dims(&[3]), TensorIOMode::Input),
    ];
    let outputs = vec![TensorInfo::with_io_mode("c", DataType::Half, dims(&[4]), TensorIOMode::Output)];
    let (input_bytes, output_bytes) = prepare_device_bytes(&infos, &outputs).unwrap();
    assert_eq!(input_bytes, vec![16, 24]);
    assert_eq!(output_bytes, vec![8]);
    assert_eq!(
        staging_sizes(&[PreparedInputKind::HostToDevice, PreparedInputKind::Device], &[16, 24]),
        vec![Some(16), None]
    );

    let good = [
        DeviceInputTensor::new("a", DataType::Float, dims(&[2, 2]), 0x10, 16),
        DeviceInputTensor::new("b", DataType::Int64, dims(&[3]), 0x20, 24),
    ];
    assert!(validate_prepared_inputs(&infos, &input_bytes, &good).is_ok());
    let renamed = [
        DeviceInputTensor::new("x", DataType::Float, dims(&[2, 2]), 0x10, 16),
        DeviceInputTensor::new("b", DataType::Int64, dims(&[3]), 0x20, 24),
    ];
    assert!(validate_prepared_inputs(&infos, &input_bytes, &renamed).is_err());

    let bytes = [0u8; 4];
    assert_eq!(input_kind(&InputBinding::host_to_device("a", DataType::Float, dims(&[1]), &bytes)), PreparedInputKind::HostToDevice);
    assert_eq!(input_kind(&InputBinding::device("a", DataType::Float, dims(&[1]), 0x10, 4)), PreparedInputKind::Device);
}

#[test]
fn cuda_outputs_must_not_alias_inputs_or_each_other() {
    let inputs = [DeviceInputTensor::new("in", DataType::Float, dims(&[4]), 0x1000, 16)];
    let apart = [
        DeviceOutputTensor::new("a", DataType::Float, dims(&[4]), 0x2000, 16),
        DeviceOutputTensor::new("b", DataType::Float, dims(&[4]), 0x2010, 16),
    ];
    assert!(validate_cuda_output_aliases(&inputs, &apart).is_ok());
    let over_input = [DeviceOutputTensor::new("a", DataType::Float, dims(&[4]), 0x1008, 16)];
    let (tensor, reason) = shape_reason(validate_cuda_output_aliases(&inputs, &over_input).unwrap_err());
    assert_eq!(tensor, "a");
    assert_eq!(reason, "output CUDA memory overlaps input tensor \"in\"; preallocate a distinct output tensor");
    let together = [
        DeviceOutputTensor::new("a", DataType::Float, dims(&[4]), 0x2000, 16),
        DeviceOutputTensor::new("b", DataType::Float, dims(&[4]), 0x2008, 16),
    ];
    let (tensor, reason) = shape_reason(validate_cuda_output_aliases(&inputs, &together).unwrap_err());
    assert_eq!(tensor, "a");
    assert_eq!(reason, "output CUDA memory overlaps output tensor \"b\"; each output must use distinct storage");
    let a = CudaMemoryRange::new("a", 0x10, 8).unwrap();
    let b = CudaMemoryRange::new("b", 0x18, 8).unwrap();
    assert!(!a.overlaps(b));
    assert!(CudaMemoryRange::new("c", usize::MAX, 2).is_err());
}

#[test]
fn maps_candle_dtypes_to_tensorrt_types() {
    assert_eq!(data_type_from_candle(DType::F32).unwrap(), DataType::Float);
    assert_eq!(data_type_from_candle(DType::F16).unwrap(), DataType::Half);
    assert_eq!(data_type_from_candle(DType::BF16).unwrap(), DataType::Bf16);
    assert_eq!(data_type_from_candle(DType::I64).unwrap(), DataType::Int64);
    assert_eq!(data_type_from_candle(DType::U8).unwrap(), DataType::Uint8);
    assert!(data_type_from_candle(DType::F64).is_err());
    assert_eq!(candle_dtype_from_data_type(DataType::Int32).unwrap(), DType::I32);
    assert!(candle_dtype_from_data_type(DataType::Bool).is_err());
}

#[test]
fn candle_glue_checks_devices_and_shapes() {
    assert_eq!(candle_dims("x", &[2, 3]).unwrap(), dims(&[2, 3]));
    assert!(candle_dims("x", &[1; 9]).is_err());
    let gpu0 = DeviceLocation::Cuda { gpu_id: 0 };
    let gpu1 = DeviceLocation::Cuda { gpu_id: 1 };
    assert!(validate_stream_device(gpu0, Some(gpu0)).is_ok());
    assert!(validate_stream_device(gpu0, Some(gpu1)).is_err());
    assert!(check_candle_outputs_present(1).is_ok());
    assert!(check_candle_outputs_present(0).is_err());
    let placements = [
        TensorPlacement { name: "a", is_cuda: true, same_device_as_first: true },
        TensorPlacement { name: "b", is_cuda: true, same_device_as_first: true },
    ];
    assert!(cuda_output_device(&placements).is_ok());
    let mixed = [
        TensorPlacement { name: "a", is_cuda: true, same_device_as_first: true },
        TensorPlacement { name: "b", is_cuda: false, same_device_as_first: false },
    ];
    assert!(cuda_output_device(&mixed).is_err());
    let entries = vec![("a".to_owned(), 1), ("b".to_owned(), 2), ("b".to_owned(), 3)];
    assert_eq!(first_named(&entries, "b"), Some(1));
    assert_eq!(first_named(&entries, "c"), None);
}

#[test]
fn engine_helpers_map_counts_and_severities() {
    assert_eq!(io_tensor_count(3).unwrap(), 3);
    assert!(io_tensor_count(-1).is_err());
    assert_eq!(io_tensor_raw_index(2).unwrap(), 2);
    assert_eq!(LogSeverity::InternalError.as_raw(), 0);
    assert_eq!(LogSeverity::Verbose.as_raw(), 4);
}

#[test]
fn input_shape_cache_remembers_what_was_set() {
    let mut cache = InputShapeCache::new();
    let shapes = [TensorShape::new("input", dims(&[2, 4]))];
    assert!(!cache.input_shapes_match(&shapes));
    cache.remember_input_shapes(&shapes);
    assert!(cache.input_shapes_match(&shapes));
    assert!(!cache.input_shapes_match(&[TensorShape::new("input", dims(&[3, 4]))]));
    let device = [DeviceInputTensor::new("input", DataType::Float, dims(&[2, 4]), 0x10, 32)];
    assert!(cache.device_input_shapes_match(&device));
    cache.remember_device_input_shapes(&[]);
    assert!(!cache.device_input_shapes_match(&device));
}

#[test]
fn tensor_name_refuses_interior_nul_at_its_byte_position() {
    assert!(matches!(tensor_name("input_ids"), Ok(name) if name == "input_ids"));
    assert!(matches!(
        tensor_name("bad\0name"),
        Err(Error::InvalidTensorName { nul_position: 3 })
    ));
    assert!(matches!(
        tensor_name("é\0"),
        Err(Error::InvalidTensorName { nul_position: 2 })
    ));
}
