//! Errors of the TensorRT-LLM executor bindings.

use vstd::prelude::*;
use candle_core::Error as CandleError;
use serde_json::Error as JsonError;
use std::io::Error as IoError;
use crate::error::{Error as TrtError, spec_error_message};
use crate::text::{decimal_i32, decimal_usize, i32_text, join2, owned, usize_text};

verus! {

/// `std::io::Error`, carried through as the source of a failed read.
#[verifier::external_type_specification]
#[verifier::external_body]
pub struct ExIoError(IoError);

/// `serde_json::Error`, carried through as the source of a failed parse.
#[verifier::external_type_specification]
#[verifier::external_body]
pub struct ExJsonError(JsonError);

/// TensorRT-LLM executor binding errors.
#[derive(Debug)]
pub enum Error {
    PluginInit { status: i32 },
    InvalidArgument(String),
    Executor(String),
    Io(IoError),
    Json(JsonError),
    TensorRt(TrtError),
    Candle(CandleError),
    /// A string holds a NUL byte at `nul_position`, so it cannot cross the C
    /// ABI.
    Nul { nul_position: usize },
}

/// Whether the message of the error is stated here: it is not for the
/// errors whose text comes from `std`, `serde_json` or Candle.
pub open spec fn message_is_stated(e: Error) -> bool {
    match e {
        Error::Io(_) | Error::Json(_) | Error::Candle(_) => false,
        Error::TensorRt(inner) => !(inner is Candle),
        _ => true,
    }
}

/// The message that the error displays, where it is stated.
pub open spec fn spec_message(e: Error) -> Seq<char> {
    match e {
        Error::PluginInit { status } =>
            "TensorRT-LLM plugin initialization failed with status "@ + decimal_i32(status),
        Error::InvalidArgument(reason) => reason@,
        Error::Executor(reason) => "TensorRT-LLM executor operation failed: "@ + reason@,
        Error::TensorRt(inner) => spec_error_message(inner),
        Error::Nul { nul_position } =>
            "string contains interior NUL: nul byte found in provided data at position: "@
                + decimal_usize(nul_position),
        _ => Seq::empty(),
    }
}

/// `e` is an `InvalidArgument` error with exactly this message.
pub open spec fn is_invalid_argument(e: Error, message: Seq<char>) -> bool {
    e matches Error::InvalidArgument(m) && m@ == message
}

/// Renders an I/O error with its `Display`; nothing is promised of the text.
#[verifier::external_body]
fn io_error_text(error: &IoError) -> String {
    error.to_string()
}

/// Renders a JSON error with its `Display`; nothing is promised of the text.
#[verifier::external_body]
fn json_error_text(error: &JsonError) -> String {
    error.to_string()
}

impl Error {
    /// An `InvalidArgument` error with `message`.
    pub fn invalid_argument(message: &str) -> (r: Error)
        ensures
            is_invalid_argument(r, message@),
    {
        Error::InvalidArgument(owned(message))
    }

    /// Wraps an error of the TensorRT runtime bindings.
    pub fn from_tensorrt(error: TrtError) -> (r: Error)
        ensures
            r == Error::TensorRt(error),
    {
        Error::TensorRt(error)
    }

    /// Whether the error wraps a lower-level error (its `source`).
    pub fn has_source(&self) -> (r: bool)
        ensures
            r == !(self is PluginInit || self is InvalidArgument || self is Executor),
    {
        match self {
            Error::PluginInit { .. } | Error::InvalidArgument(_) | Error::Executor(_) => false,
            _ => true,
        }
    }

    /// The message that the error displays.
    pub fn to_string(&self) -> (r: String)
        ensures
            message_is_stated(*self) ==> r@ == spec_message(*self),
    {
        match self {
            Error::PluginInit { status } => {
                let n = i32_text(*status);
                join2("TensorRT-LLM plugin initialization failed with status ", n.as_str())
            },
            Error::InvalidArgument(reason) => reason.clone(),
            Error::Executor(reason) => join2("TensorRT-LLM executor operation failed: ", reason.as_str()),
            Error::Io(error) => io_error_text(error),
            Error::Json(error) => json_error_text(error),
            Error::TensorRt(error) => error.to_string(),
            Error::Candle(error) => crate::error::candle_error_text(error),
            Error::Nul { nul_position } => {
                let n = usize_text(*nul_position);
                join2(
                    "string contains interior NUL: nul byte found in provided data at position: ",
                    n.as_str(),
                )
            },
        }
    }
}

} // verus!
