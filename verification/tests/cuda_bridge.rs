use tensorrt_rs::binding::{DeviceInputTensor, DeviceOutputTensor, HostInputTensor, InputBinding, TensorInfo, TensorLocation};
use tensorrt_rs::candle_bridge::{check_cuda_output, cuda_view_range, prepare_cuda_input_layout, ViewRole};
use tensorrt_rs::catalog::SessionTensors;
use tensorrt_rs::data_type::DataType;
use tensorrt_rs::dtype::DType;
use tensorrt_rs::error::Error;
use tensorrt_rs::run_plan::device_output_plan;
use tensorrt_rs::tensor::{Dims, TensorIOMode};

fn dims(values: &[i64]) -> Dims {
    Dims::new(values.to_vec()).unwrap()
}

fn shape_reason(error: Error) -> (String, String) {
    match error {
        Error::InvalidShape { tensor, reason } => (tensor, reason),
        other => panic!("expected InvalidShape, got {other:?}"),
    }
}

#[test]
fn cuda_view_range_checks_layout_storage_and_type() {
    assert_eq!(cuda_view_range("x", ViewRole::Input, true, true, 4, 6, DataType::Float).unwrap(), (4, 10));
    assert_eq!(
        shape_reason(cuda_view_range("x", ViewRole::Input, false, true, 0, 1, DataType::Float).unwrap_err()),
        ("x".to_owned(), "CUDA zero-copy input must be contiguous".to_owned())
    );
    assert_eq!(
        shape_reason(cuda_view_range("y", ViewRole::Output, true, false, 0, 1, DataType::Float).unwrap_err()),
        ("y".to_owned(), "CUDA zero-copy output is not backed by CUDA storage".to_owned())
    );
    assert_eq!(
        shape_reason(cuda_view_range("y", ViewRole::Output, true, true, usize::MAX, 1, DataType::Float).unwrap_err()),
        ("y".to_owned(), "CUDA zero-copy output offset overflow".to_owned())
    );
    match cuda_view_range("z", ViewRole::Output, true, true, 0, 1, DataType::Int8) {
        Err(Error::UnsupportedDataType { data_type, context }) => {
            assert_eq!(data_type, DataType::Int8);
            assert_eq!(context, "Candle CUDA output pointer conversion");
        }
        other => panic!("unexpected {other:?}"),
    }
}

#[test]
fn cuda_input_layout_gives_type_shape_and_bytes() {
    let (data_type, shape, bytes) = prepare_cuda_input_layout("x", DType::F16, &[2, 3]).unwrap();
    assert_eq!(data_type, DataType::Half);
    assert_eq!(shape.as_slice(), &[2, 3]);
    assert_eq!(bytes, 12);
    assert!(matches!(
        prepare_cuda_input_layout("x", DType::F64, &[2]),
        Err(Error::UnsupportedCandleDType { dtype: DType::F64, .. })
    ));
    assert!(matches!(
        prepare_cuda_input_layout("x", DType::F32, &[1; 9]),
        Err(Error::InvalidDimensions { len: 9, max: 8 })
    ));
}

#[test]
fn device_output_plan_carries_byte_length() {
    let plan = device_output_plan(TensorInfo::with_io_mode("logits", DataType::Float, dims(&[2, 5]), TensorIOMode::Output)).unwrap();
    assert_eq!(plan.name, "logits");
    assert_eq!(plan.bytes, 40);
    assert!(device_output_plan(TensorInfo::with_io_mode("dyn", DataType::Float, dims(&[-1, 5]), TensorIOMode::Output)).is_err());
}

#[test]
fn cuda_output_is_checked_against_its_plan() {
    let plan = device_output_plan(TensorInfo::with_io_mode("logits", DataType::Float, dims(&[2, 5]), TensorIOMode::Output)).unwrap();
    let (data_type, shape) = check_cuda_output(&plan, "logits", true, true, DType::F32, &[2, 5]).unwrap();
    assert_eq!(data_type, DataType::Float);
    assert_eq!(shape.as_slice(), &[2, 5]);
    assert_eq!(
        shape_reason(check_cuda_output(&plan, "other", true, true, DType::F32, &[2, 5]).unwrap_err()),
        ("other".to_owned(), "expected output binding \"logits\"".to_owned())
    );
    assert_eq!(
        shape_reason(check_cuda_output(&plan, "logits", false, true, DType::F32, &[2, 5]).unwrap_err()),
        ("logits".to_owned(), "Candle session run requires CUDA output tensors".to_owned())
    );
    assert_eq!(
        shape_reason(check_cuda_output(&plan, "logits", true, false, DType::F32, &[2, 5]).unwrap_err()),
        ("logits".to_owned(), "output tensor must be on the same CUDA device as the inputs and stream".to_owned())
    );
    assert!(matches!(
        check_cuda_output(&plan, "logits", true, true, DType::F16, &[2, 5]),
        Err(Error::TypeMismatch { expected: DataType::Float, actual: DataType::Half, .. })
    ));
    assert_eq!(
        shape_reason(check_cuda_output(&plan, "logits", true, true, DType::F32, &[5, 2]).unwrap_err()),
        ("logits".to_owned(), "expected output shape [2, 5], got [5, 2]".to_owned())
    );
}

#[test]
fn cuda_graph_key_indexes_bindings_by_engine_order() {
    let s = SessionTensors::new(vec![
        TensorInfo::with_io_mode("input", DataType::Float, dims(&[2]), TensorIOMode::Input),
        TensorInfo::with_io_mode("logits", DataType::Float, dims(&[2]), TensorIOMode::Output),
    ]);
    let inputs = [DeviceInputTensor::new("input", DataType::Float, dims(&[2]), 0x1000, 8)];
    let outputs = [DeviceOutputTensor::new("logits", DataType::Float, dims(&[2]), 0x2000, 8)];
    let key = s.cuda_graph_key(&inputs, &outputs, 7).unwrap();
    assert_eq!(key.stream, 7);
    assert_eq!(key.inputs.len(), 1);
    assert_eq!(key.outputs.len(), 1);
    let again = s.cuda_graph_key(&inputs, &outputs, 7).unwrap();
    assert!(key.same_as(&again));
    let other_stream = s.cuda_graph_key(&inputs, &outputs, 8).unwrap();
    assert!(!key.same_as(&other_stream));
    let unknown = [DeviceOutputTensor::new("missing", DataType::Float, dims(&[2]), 0x2000, 8)];
    assert_eq!(
        shape_reason(s.cuda_graph_key(&inputs, &unknown, 7).unwrap_err()),
        ("missing".to_owned(), "tensor is not an engine I/O tensor".to_owned())
    );
}

#[test]
fn dims_from_slice_copies_up_to_max_rank() {
    assert_eq!(Dims::from_slice(&[1, 2, 3]).unwrap().as_slice(), &[1, 2, 3]);
    assert!(matches!(Dims::from_slice(&[0; 9]), Err(Error::InvalidDimensions { len: 9, max: 8 })));
}

#[test]
fn input_bindings_wrap_host_and_device_inputs() {
    let bytes = [0u8; 8];
    let staged = InputBinding::from_host_input(HostInputTensor::new("input", dims(&[2]), &bytes));
    assert_eq!(staged.name(), "input");
    assert!(matches!(staged, InputBinding::HostToDevice(_)));
    let host = HostInputTensor::new("input", dims(&[2]), &bytes).with_location(TensorLocation::Host);
    assert!(matches!(InputBinding::from_host_input(host), InputBinding::Host(_)));
    let device = DeviceInputTensor::new("input", DataType::Float, dims(&[2]), 0x1000, 8);
    assert!(matches!(InputBinding::from_device_input(device), InputBinding::Device(_)));
}
