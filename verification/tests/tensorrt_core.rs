use tensorrt_rs::binding::{DeviceOutputTensor, HostInputTensor, InputBinding, TensorInfo, TensorLocation, TensorShape};
use tensorrt_rs::catalog::select_outputs;
use tensorrt_rs::data_type::DataType;
use tensorrt_rs::error::Error;
use tensorrt_rs::float_bits::{bf16_bits_to_f32, f32_to_bf16_bits};
use tensorrt_rs::host_tensor::HostTensor;
use tensorrt_rs::tensor::{dims_as_usize, element_count, tensor_byte_len, Dims, FfiDims, TensorIOMode, MAX_DIMS};

fn f32_bytes(values: &[f32]) -> Vec<u8> {
    values.iter().flat_map(|v| v.to_ne_bytes()).collect()
}

fn i32_bytes(values: &[i32]) -> Vec<u8> {
    values.iter().flat_map(|v| v.to_ne_bytes()).collect()
}

fn i64_bytes(values: &[i64]) -> Vec<u8> {
    values.iter().flat_map(|v| v.to_ne_bytes()).collect()
}

fn u16_bytes(values: &[u16]) -> Vec<u8> {
    values.iter().flat_map(|v| v.to_ne_bytes()).collect()
}

#[test]
fn binding_dtype_parses_python_mapping() {
    let pairs = [
        ("bfloat16", DataType::Bf16),
        ("float16", DataType::Half),
        ("float32", DataType::Float),
        ("int64", DataType::Int64),
        ("int32", DataType::Int32),
        ("fp8", DataType::Fp8),
    ];

    for (dtype, data_type) in pairs {
        assert_eq!(dtype.parse::<DataType>().unwrap(), data_type);
        assert_eq!(data_type.to_string(), dtype);
        assert_eq!(DataType::from_binding_dtype(dtype), Some(data_type));
        assert_eq!(data_type.as_binding_dtype(), Some(dtype));
    }
}

#[test]
fn binding_dtype_conversion_rejects_non_python_mapping_entries() {
    assert!("int8".parse::<DataType>().is_err());
    assert!("bool".parse::<DataType>().is_err());
    assert!("uint8".parse::<DataType>().is_err());
    assert_eq!(DataType::Int8.as_binding_dtype(), None);
    assert_eq!(DataType::Bool.as_binding_dtype(), None);
    assert_eq!(DataType::Uint8.as_binding_dtype(), None);
    assert_eq!(DataType::Int4.as_binding_dtype(), None);
    assert_eq!(DataType::Unknown(-1).as_binding_dtype(), None);
}

#[test]
fn raw_dtype_and_io_mode_mappings_cover_known_and_unknown_values() {
    let dtypes = [
        (0, DataType::Float, Some(4)),
        (1, DataType::Half, Some(2)),
        (2, DataType::Int8, Some(1)),
        (3, DataType::Int32, Some(4)),
        (4, DataType::Bool, Some(1)),
        (5, DataType::Uint8, Some(1)),
        (6, DataType::Fp8, Some(1)),
        (7, DataType::Bf16, Some(2)),
        (8, DataType::Int64, Some(8)),
        (9, DataType::Int4, None),
        (10, DataType::Fp4, None),
        (11, DataType::E8m0, None),
        (99, DataType::Unknown(99), None),
    ];
    for (raw, dtype, bytes) in dtypes {
        assert_eq!(DataType::from_raw(raw), dtype);
        assert_eq!(dtype.bytes_per_element(), bytes);
    }

    assert_eq!(TensorIOMode::from_raw(0), TensorIOMode::NotIo);
    assert_eq!(TensorIOMode::from_raw(1), TensorIOMode::Input);
    assert_eq!(TensorIOMode::from_raw(2), TensorIOMode::Output);
    assert_eq!(TensorIOMode::from_raw(99), TensorIOMode::Unknown(99));
}

#[test]
fn host_tensor_typed_vec_helpers_keep_raw_bits() {
    let bf16_bits = [0x3f80u16, 0x4000];
    let bf16_tensor = HostTensor {
        name: "bf16_output".to_owned(),
        shape: Dims::new(vec![2]).unwrap(),
        data_type: DataType::Bf16,
        bytes: u16_bytes(&bf16_bits),
    };
    assert_eq!(bf16_tensor.into_bf16_bits_vec().unwrap(), bf16_bits);

    let f16_bits = [0x3c00u16, 0x4000];
    let f16_tensor = HostTensor {
        name: "f16_output".to_owned(),
        shape: Dims::new(vec![2]).unwrap(),
        data_type: DataType::Half,
        bytes: u16_bytes(&f16_bits),
    };
    assert_eq!(f16_tensor.into_f16_bits_vec().unwrap(), f16_bits);
}

#[test]
fn bf16_conversion_uses_expected_bit_pattern() {
    assert_eq!(f32_to_bf16_bits(1.0f32.to_bits()), 0x3f80);
    assert_eq!(f32_to_bf16_bits(0.0f32.to_bits()), 0x0000);
    assert_eq!(f32::from_bits(bf16_bits_to_f32(0x3f80)), 1.0);
    assert_eq!(f32_to_bf16_bits(1.003_906_3f32.to_bits()), 0x3f80);
}

#[test]
fn bf16_conversion_rounds_to_nearest_even() {
    assert_eq!(f32_to_bf16_bits(0x3f80_8000), 0x3f80);
    assert_eq!(f32_to_bf16_bits(0x3f81_8000), 0x3f82);
    assert_eq!(f32_to_bf16_bits(0x3f80_8001), 0x3f81);
    assert_eq!(bf16_bits_to_f32(0x4000), 2.0f32.to_bits());
    for bits in [0u16, 0x3f80, 0x4000, 0xbf80, 0x7f7f] {
        assert_eq!(f32_to_bf16_bits(bf16_bits_to_f32(bits)), bits);
    }
}

#[test]
fn bf16_conversion_keeps_nan_a_quiet_nan() {
    assert_eq!(f32_to_bf16_bits(0x7f80_8000), 0x7fc0);
    assert_eq!(f32_to_bf16_bits(0x7fff_ffff), 0x7fff);
    assert_eq!(f32_to_bf16_bits(f32::NAN.to_bits()), 0x7fc0);
    assert_eq!(f32_to_bf16_bits(0xff80_0001), 0xffc0);
    assert_eq!(f32_to_bf16_bits(0x7f81_0000), 0x7f81);
    assert_eq!(f32_to_bf16_bits(f32::INFINITY.to_bits()), 0x7f80);
    assert_eq!(f32_to_bf16_bits(0x7f7f_ffff), 0x7f80);
    for bits in [0x7f81u16, 0x7fc0, 0xff81, 0xffff, 0x7f80, 0xff80] {
        assert_eq!(f32_to_bf16_bits(bf16_bits_to_f32(bits)), bits);
    }
}

#[test]
fn dims_reject_rank_above_ffi_limit() {
    let err = Dims::new(vec![1; MAX_DIMS + 1]).unwrap_err();
    match err {
        Error::InvalidDimensions { len, max } => {
            assert_eq!(len, MAX_DIMS + 1);
            assert_eq!(max, MAX_DIMS);
        }
        err => panic!("expected InvalidDimensions, got {err:?}"),
    }
}

#[test]
fn dims_and_tensor_metadata_roundtrip_through_public_helpers() {
    let dims = Dims::new(vec![2, 3, 4]).unwrap();
    assert_eq!(dims.rank(), 3);
    assert!(!dims.is_dynamic());
    assert_eq!(dims.clone().into_vec(), vec![2, 3, 4]);

    let ffi = dims.to_ffi();
    assert_eq!(Dims::from_ffi(ffi).unwrap(), dims);
    assert!(Dims::from_ffi(FfiDims { nb_dims: -1, d: [0; MAX_DIMS] }).is_err());

    let info = TensorInfo::new("input", dims.clone(), DataType::Float);
    assert_eq!(info.shape_info(), TensorShape::new("input", dims.clone()));
    assert_eq!(info.io_mode, TensorIOMode::Unknown(-1));

    let output = TensorInfo::with_io_mode("output", DataType::Half, dims.clone(), TensorIOMode::Output);
    assert_eq!(output.shape_info().name, "output");
    assert_eq!(output.io_mode, TensorIOMode::Output);
}

#[test]
fn ffi_dims_keep_unused_extents_zero() {
    let dims = Dims::new(vec![5, 7]).unwrap();
    let ffi = dims.to_ffi();
    assert_eq!(ffi.nb_dims, 2);
    assert_eq!(ffi.d, [5, 7, 0, 0, 0, 0, 0, 0]);
    assert!(Dims::from_ffi(FfiDims { nb_dims: 9, d: [0; MAX_DIMS] }).is_err());
}

#[test]
fn tensor_size_helpers_reject_dynamic_shapes_and_overflow() {
    let dynamic = Dims::new(vec![-1, 4]).unwrap();
    assert!(element_count("input", &dynamic).is_err());
    assert!(dims_as_usize("input", &dynamic).is_err());

    let overflowing = Dims::new(vec![i64::MAX, 3]).unwrap();
    assert!(element_count("input", &overflowing).is_err());
    assert!(tensor_byte_len("input", &overflowing, DataType::Float).is_err());
}

#[test]
fn tensor_size_helpers_compute_exact_sizes() {
    let shape = Dims::new(vec![2, 3, 4]).unwrap();
    assert_eq!(element_count("input", &shape).unwrap(), 24);
    assert_eq!(tensor_byte_len("input", &shape, DataType::Half).unwrap(), 48);
    assert_eq!(tensor_byte_len("input", &shape, DataType::Int64).unwrap(), 192);
    assert_eq!(dims_as_usize("input", &shape).unwrap(), vec![2, 3, 4]);
    let scalar = Dims::new(vec![]).unwrap();
    assert_eq!(element_count("scalar", &scalar).unwrap(), 1);
}

#[test]
fn tensor_byte_len_rejects_unknown_dtype() {
    let shape = Dims::new(vec![2, 3]).unwrap();
    assert!(tensor_byte_len("output", &shape, DataType::Unknown(-1)).is_err());
}

#[test]
fn host_tensor_typed_conversions_reject_dtype_and_size_mismatches() {
    let tensor = HostTensor {
        name: "logits".to_owned(),
        shape: Dims::new(vec![1]).unwrap(),
        data_type: DataType::Float,
        bytes: vec![0, 0, 0, 0],
    };
    assert!(tensor.into_bf16_bits_vec().is_err());

    let tensor = HostTensor {
        name: "bad".to_owned(),
        shape: Dims::new(vec![1]).unwrap(),
        data_type: DataType::Float,
        bytes: vec![0, 1, 2],
    };
    assert!(tensor.into_f32_bits_vec().is_err());
}

#[test]
fn host_tensor_typed_conversions_cover_integer_outputs() {
    let tensor = HostTensor {
        name: "logits".to_owned(),
        shape: Dims::new(vec![2]).unwrap(),
        data_type: DataType::Float,
        bytes: f32_bytes(&[1.0, 2.0]),
    };
    assert_eq!(tensor.element_count().unwrap(), 2);
    assert_eq!(tensor.shape_as_usize().unwrap(), vec![2]);
    let values: Vec<f32> = tensor.into_f32_bits_vec().unwrap().into_iter().map(f32::from_bits).collect();
    assert_eq!(values, vec![1.0, 2.0]);

    let tensor = HostTensor {
        name: "ids".to_owned(),
        shape: Dims::new(vec![2]).unwrap(),
        data_type: DataType::Int32,
        bytes: i32_bytes(&[1, 2]),
    };
    assert_eq!(tensor.into_i32_vec().unwrap(), vec![1, 2]);

    let tensor = HostTensor {
        name: "lengths".to_owned(),
        shape: Dims::new(vec![1]).unwrap(),
        data_type: DataType::Int64,
        bytes: i64_bytes(&[3]),
    };
    assert_eq!(tensor.into_i64_vec().unwrap(), vec![3]);

    let tensor = HostTensor {
        name: "mask".to_owned(),
        shape: Dims::new(vec![3]).unwrap(),
        data_type: DataType::Uint8,
        bytes: vec![1, 0, 1],
    };
    assert_eq!(tensor.into_u8_vec().unwrap(), vec![1, 0, 1]);
}

#[test]
fn input_binding_constructors_preserve_kind_and_shape() {
    let bytes = [0_u8; 4];
    let shape = Dims::new(vec![1]).unwrap();

    let host = InputBinding::host("host", DataType::Float, shape.clone(), &bytes);
    let staged = InputBinding::host_to_device("staged", DataType::Float, shape.clone(), &bytes);
    let device = InputBinding::device("device", DataType::Float, shape.clone(), 0x1000, bytes.len());

    assert_eq!(host.name(), "host");
    assert_eq!(host.shape_info().shape, shape);
    assert!(matches!(host, InputBinding::Host(_)));
    assert!(matches!(staged, InputBinding::HostToDevice(_)));
    assert!(matches!(device, InputBinding::Device(_)));

    let host_input = HostInputTensor::new("raw", shape.clone(), &bytes);
    assert_eq!(host_input.location, TensorLocation::Device);
    assert_eq!(host_input.shape_info(), TensorShape::new("raw", shape.clone()));

    let device_output = DeviceOutputTensor::new("device_out", DataType::Float, Dims::new(vec![1]).unwrap(), 0x2000, 4);
    assert_eq!(device_output.name, "device_out");
    assert_eq!(device_output.data_type, DataType::Float);
    assert_eq!(device_output.bytes, 4);
}

fn test_outputs() -> Vec<TensorInfo> {
    vec![
        TensorInfo::with_io_mode("logits", DataType::Float, Dims::new(vec![1, 2]).unwrap(), TensorIOMode::Output),
        TensorInfo::with_io_mode("hidden", DataType::Half, Dims::new(vec![1, 2, 4]).unwrap(), TensorIOMode::Output),
    ]
}

#[test]
fn select_outputs_preserves_requested_order() {
    let selected = select_outputs(test_outputs(), &["hidden", "logits"]).unwrap();
    assert_eq!(selected.iter().map(|tensor| tensor.name.as_str()).collect::<Vec<_>>(), vec!["hidden", "logits"]);
}

#[test]
fn select_outputs_returns_all_outputs_when_names_are_empty() {
    let selected = select_outputs(test_outputs(), &[]).unwrap();
    assert_eq!(selected, test_outputs());
}

#[test]
fn select_outputs_rejects_missing_output() {
    let err = select_outputs(test_outputs(), &["missing"]).unwrap_err();
    match err {
        Error::InvalidShape { tensor, reason } => {
            assert_eq!(tensor, "missing");
            assert_eq!(reason, "output tensor was not reported by TensorRT shape inference");
        }
        err => panic!("expected InvalidShape, got {err:?}"),
    }
}
