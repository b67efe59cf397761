//! Verified core of safe TensorRT and TensorRT-LLM runtime bindings.
//!
//! The library holds the data types, tensor metadata, validation rules and
//! executor configuration encodings of the bindings. The calls into the C ABI
//! shims and CUDA live in the application layer, which hands plain values to
//! the functions here.

pub mod bytes;
pub mod data_type;
pub mod dtype;
pub mod error;
pub mod small_vec;
pub mod tensor;
pub mod text;
pub mod binding;
pub mod host_tensor;
pub mod catalog;
pub mod prepared;
pub mod graph;
pub mod run_plan;
pub mod alias;
pub mod candle_bridge;
pub mod engine;
pub mod cuda_status;
pub mod llm;
pub mod float_bits;
