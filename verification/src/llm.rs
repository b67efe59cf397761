//! The TensorRT-LLM executor bindings: executor configuration and its C ABI
//! encoding, requests and their validation, sampling settings, engine
//! configuration, and the decoding of executor outputs.

pub mod builder;
pub mod config;
pub mod error;
pub mod executor;
pub mod output;
pub mod prepare;
pub mod request;
pub mod sampling;
pub mod word_list;
