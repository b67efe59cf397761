//! Errors of the TensorRT runtime bindings.

use vstd::prelude::*;
use candle_core::Error as CandleError;
use crate::data_type::{DataType, spec_debug_text};
use crate::dtype::{DType, spec_dtype_debug};
use crate::tensor::{TensorIOMode, spec_io_mode_debug};
use crate::text::{
    decimal_i32, decimal_usize, i32_text, join2, join3, join4, owned, usize_text,
};

verus! {

/// Status codes returned by the TensorRT C ABI shim.
#[derive(Clone, Copy, Debug, Eq, PartialEq, Structural)]
pub enum Status {
    Success,
    InvalidArgument,
    AllocationFailed,
    NullPointer,
    TensorRtError,
    Exception,
}

/// A CUDA runtime error code with its `cudaGetErrorString` message.
#[derive(Clone, Debug)]
pub struct CudaError {
    pub code: i32,
    pub message: String,
}

impl CudaError {
    /// `CUDA error <code>: <message>`.
    pub fn to_string(&self) -> (r: String)
        ensures
            r@ == "CUDA error "@ + decimal_i32(self.code) + ": "@ + self.message@,
    {
        let code = i32_text(self.code);
        join4("CUDA error ", code.as_str(), ": ", self.message.as_str())
    }
}

/// TensorRT runtime binding errors.
#[derive(Debug)]
pub enum Error {
    InvalidArgument,
    AllocationFailed,
    NullPointer,
    TensorRtError,
    Exception,
    /// A tensor name holds a NUL byte at `nul_position`, so it cannot cross
    /// the C ABI.
    InvalidTensorName { nul_position: usize },
    InvalidDimensions { len: usize, max: usize },
    InvalidDimensionCount(i32),
    InvalidShape { tensor: String, reason: String },
    SizeMismatch { tensor: String, expected_bytes: usize, actual_bytes: usize },
    TypeMismatch { tensor: String, expected: DataType, actual: DataType },
    TensorModeMismatch { tensor: String, expected: TensorIOMode, actual: TensorIOMode },
    UnsupportedDataType { data_type: DataType, context: &'static str },
    Cuda(CudaError),
    UnsupportedCandleDType { dtype: DType, context: &'static str },
    Candle(CandleError),
}

/// `candle_core::Error`, carried through as the source of a Candle failure.
#[verifier::external_type_specification]
#[verifier::external_body]
pub struct ExCandleError(CandleError);

/// Renders a Candle error with its `Display`; nothing is promised of the
/// text.
#[verifier::external_body]
pub(crate) fn candle_error_text(error: &CandleError) -> String {
    error.to_string()
}

/// The message that the error displays; a wrapped Candle error displays
/// Candle's own text after a fixed prefix, and that text is not stated here.
pub open spec fn spec_error_message(e: Error) -> Seq<char> {
    match e {
        Error::InvalidArgument => "invalid argument passed to TensorRT"@,
        Error::AllocationFailed => "allocation failed in TensorRT binding"@,
        Error::NullPointer => "TensorRT returned a null pointer"@,
        Error::TensorRtError => "TensorRT operation failed"@,
        Error::Exception => "C++ exception escaped from TensorRT binding"@,
        Error::InvalidTensorName { nul_position } =>
            "tensor name contains interior NUL: nul byte found in provided data at position: "@
                + decimal_usize(nul_position),
        Error::InvalidDimensions { len, max } =>
            "invalid dimension count "@ + decimal_usize(len)
                + "; TensorRT binding supports at most "@ + decimal_usize(max),
        Error::InvalidDimensionCount(count) =>
            "TensorRT returned invalid dimension count "@ + decimal_i32(count),
        Error::InvalidShape { tensor, reason } =>
            "invalid tensor shape for "@ + tensor@ + ": "@ + reason@,
        Error::SizeMismatch { tensor, expected_bytes, actual_bytes } =>
            "size mismatch for "@ + tensor@ + ": expected "@ + decimal_usize(expected_bytes)
                + " bytes, got "@ + decimal_usize(actual_bytes),
        Error::TypeMismatch { tensor, expected, actual } =>
            "data type mismatch for "@ + tensor@ + ": expected "@ + spec_debug_text(expected)
                + ", got "@ + spec_debug_text(actual),
        Error::TensorModeMismatch { tensor, expected, actual } =>
            "I/O mode mismatch for "@ + tensor@ + ": expected "@ + spec_io_mode_debug(expected)
                + ", got "@ + spec_io_mode_debug(actual),
        Error::UnsupportedDataType { data_type, context } =>
            "unsupported TensorRT data type for "@ + context@ + ": "@ + spec_debug_text(
                data_type,
            ),
        Error::Cuda(error) =>
            "CUDA error "@ + decimal_i32(error.code) + ": "@ + error.message@,
        Error::UnsupportedCandleDType { dtype, context } =>
            "unsupported Candle dtype for "@ + context@ + ": "@ + spec_dtype_debug(dtype)@,
        Error::Candle(_) => Seq::empty(),
    }
}

/// The error that a shim status stands for, if any.
pub open spec fn spec_status_result(status: Status) -> Result<(), Error> {
    match status {
        Status::Success => Ok(()),
        Status::InvalidArgument => Err(Error::InvalidArgument),
        Status::AllocationFailed => Err(Error::AllocationFailed),
        Status::NullPointer => Err(Error::NullPointer),
        Status::TensorRtError => Err(Error::TensorRtError),
        Status::Exception => Err(Error::Exception),
    }
}

impl Error {
    /// Maps a shim status to `Ok` or to the error of the same name.
    pub fn from_status(status: Status) -> (r: Result<(), Error>)
        ensures
            r == spec_status_result(status),
    {
        match status {
            Status::Success => Ok(()),
            Status::InvalidArgument => Err(Error::InvalidArgument),
            Status::AllocationFailed => Err(Error::AllocationFailed),
            Status::NullPointer => Err(Error::NullPointer),
            Status::TensorRtError => Err(Error::TensorRtError),
            Status::Exception => Err(Error::Exception),
        }
    }

    /// Whether the error wraps a lower-level error (its `source`).
    pub fn has_source(&self) -> (r: bool)
        ensures
            r == (self is InvalidTensorName || self is Cuda || self is Candle),
    {
        match self {
            Error::InvalidTensorName { .. } | Error::Cuda(_) | Error::Candle(_) => true,
            _ => false,
        }
    }

    /// The message that the error displays.
    pub fn to_string(&self) -> (r: String)
        ensures
            !(self is Candle) ==> r@ == spec_error_message(*self),
            self is Candle ==> "Candle tensor error: "@.is_prefix_of(r@),
    {
        match self {
            Error::InvalidArgument => owned("invalid argument passed to TensorRT"),
            Error::AllocationFailed => owned("allocation failed in TensorRT binding"),
            Error::NullPointer => owned("TensorRT returned a null pointer"),
            Error::TensorRtError => owned("TensorRT operation failed"),
            Error::Exception => owned("C++ exception escaped from TensorRT binding"),
            Error::InvalidTensorName { nul_position } => {
                let n = usize_text(*nul_position);
                join2(
                    "tensor name contains interior NUL: nul byte found in provided data at position: ",
                    n.as_str(),
                )
            },
            Error::InvalidDimensions { len, max } => {
                let l = usize_text(*len);
                let m = usize_text(*max);
                join4(
                    "invalid dimension count ",
                    l.as_str(),
                    "; TensorRT binding supports at most ",
                    m.as_str(),
                )
            },
            Error::InvalidDimensionCount(count) => {
                let c = i32_text(*count);
                join2("TensorRT returned invalid dimension count ", c.as_str())
            },
            Error::InvalidShape { tensor, reason } => {
                let head = join3("invalid tensor shape for ", tensor.as_str(), ": ");
                join2(head.as_str(), reason.as_str())
            },
            Error::SizeMismatch { tensor, expected_bytes, actual_bytes } => {
                let e = usize_text(*expected_bytes);
                let a = usize_text(*actual_bytes);
                let head = join4("size mismatch for ", tensor.as_str(), ": expected ", e.as_str());
                join3(head.as_str(), " bytes, got ", a.as_str())
            },
            Error::TypeMismatch { tensor, expected, actual } => {
                let e = expected.debug_text();
                let a = actual.debug_text();
                let head = join4("data type mismatch for ", tensor.as_str(), ": expected ", e.as_str());
                join3(head.as_str(), ", got ", a.as_str())
            },
            Error::TensorModeMismatch { tensor, expected, actual } => {
                let e = expected.debug_text();
                let a = actual.debug_text();
                let head = join4("I/O mode mismatch for ", tensor.as_str(), ": expected ", e.as_str());
                join3(head.as_str(), ", got ", a.as_str())
            },
            Error::UnsupportedDataType { data_type, context } => {
                let d = data_type.debug_text();
                let head = join3("unsupported TensorRT data type for ", context, ": ");
                join2(head.as_str(), d.as_str())
            },
            Error::Cuda(error) => error.to_string(),
            Error::UnsupportedCandleDType { dtype, context } => {
                let head = join3("unsupported Candle dtype for ", context, ": ");
                join2(head.as_str(), dtype.debug_name())
            },
            Error::Candle(error) => {
                let text = candle_error_text(error);
                let r = join2("Candle tensor error: ", text.as_str());
                assert("Candle tensor error: "@.is_prefix_of(r@)) by {
                    assert(r@.subrange(0, "Candle tensor error: "@.len() as int) =~= "Candle tensor error: "@);
                }
                r
            },
        }
    }
}

} // verus!
