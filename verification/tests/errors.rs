use tensorrt_rs::data_type::DataType;
use tensorrt_rs::dtype::DType;
use tensorrt_rs::error::{CudaError, Error as TrtError, Status};
use tensorrt_rs::llm::error::Error;
use tensorrt_rs::tensor::TensorIOMode;

#[test]
fn ffi_status_maps_to_rust_errors() {
    assert!(TrtError::from_status(Status::Success).is_ok());
    assert!(matches!(TrtError::from_status(Status::InvalidArgument), Err(TrtError::InvalidArgument)));
    assert!(matches!(TrtError::from_status(Status::AllocationFailed), Err(TrtError::AllocationFailed)));
    assert!(matches!(TrtError::from_status(Status::NullPointer), Err(TrtError::NullPointer)));
    assert!(matches!(TrtError::from_status(Status::TensorRtError), Err(TrtError::TensorRtError)));
    assert!(matches!(TrtError::from_status(Status::Exception), Err(TrtError::Exception)));
}

#[test]
fn display_messages_cover_public_error_variants() {
    let cases = [
        TrtError::InvalidArgument,
        TrtError::AllocationFailed,
        TrtError::NullPointer,
        TrtError::TensorRtError,
        TrtError::Exception,
        TrtError::InvalidTensorName { nul_position: 3 },
        TrtError::InvalidDimensions { len: 9, max: 8 },
        TrtError::InvalidDimensionCount(-1),
        TrtError::InvalidShape { tensor: "input".to_owned(), reason: "rank mismatch".to_owned() },
        TrtError::SizeMismatch { tensor: "output".to_owned(), expected_bytes: 16, actual_bytes: 8 },
        TrtError::TypeMismatch { tensor: "output".to_owned(), expected: DataType::Float, actual: DataType::Half },
        TrtError::TensorModeMismatch { tensor: "output".to_owned(), expected: TensorIOMode::Output, actual: TensorIOMode::Input },
        TrtError::UnsupportedDataType { data_type: DataType::Int4, context: "unit test" },
        TrtError::UnsupportedCandleDType { dtype: DType::U8, context: "unit test" },
    ];

    for error in cases {
        assert!(!error.to_string().is_empty());
    }
}

#[test]
fn source_returns_nested_errors() {
    let invalid_name = TrtError::InvalidTensorName { nul_position: 3 };
    assert!(invalid_name.has_source());

    let cuda = TrtError::Cuda(CudaError { code: 1, message: "failure".to_owned() });
    assert_eq!(cuda.to_string(), "CUDA error 1: failure");
    assert!(cuda.has_source());

    let candle = TrtError::Candle(candle_core::Error::UnsupportedDTypeForOp(candle_core::DType::U8, "unit-test"));
    assert!(candle.to_string().contains("Candle tensor error"));
    assert!(candle.has_source());
    assert!(!TrtError::NullPointer.has_source());
}

#[test]
fn display_and_source_cover_error_variants() {
    let json_error = serde_json::from_str::<serde_json::Value>("not json").unwrap_err();
    let cases = [
        Error::PluginInit { status: -1 },
        Error::InvalidArgument("bad argument".to_owned()),
        Error::Executor("failed".to_owned()),
        Error::Io(std::io::Error::other("io")),
        Error::Json(json_error),
        Error::TensorRt(TrtError::InvalidArgument),
        Error::Candle(candle_core::Error::UnsupportedDTypeForOp(candle_core::DType::U8, "unit-test")),
        Error::Nul { nul_position: 3 },
    ];

    for error in cases {
        assert!(!error.to_string().is_empty());
        match error {
            Error::PluginInit { .. } | Error::InvalidArgument(_) | Error::Executor(_) => {
                assert!(!error.has_source());
            }
            _ => assert!(error.has_source()),
        }
    }
}

#[test]
fn llm_error_messages_match_their_variants() {
    assert_eq!(Error::PluginInit { status: 2 }.to_string(), "TensorRT-LLM plugin initialization failed with status 2");
    assert_eq!(Error::Executor("boom".to_owned()).to_string(), "TensorRT-LLM executor operation failed: boom");
    assert_eq!(
        Error::Nul { nul_position: 3 }.to_string(),
        "string contains interior NUL: nul byte found in provided data at position: 3"
    );
    let wrapped = Error::from_tensorrt(TrtError::NullPointer);
    assert!(matches!(wrapped, Error::TensorRt(TrtError::NullPointer)));
}
