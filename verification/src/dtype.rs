//! Candle element types, as the bridge between Candle tensors and TensorRT
//! bindings reads them.

use vstd::prelude::*;
use crate::data_type::DataType;

verus! {

/// The element type of a Candle tensor (`candle_core::DType`), with the same
/// variants.
#[derive(Clone, Copy, Debug, Eq, Hash, PartialEq, Structural)]
pub enum DType {
    U8,
    U32,
    I16,
    I32,
    I64,
    BF16,
    F16,
    F32,
    F64,
    F8E4M3,
    F6E2M3,
    F6E3M2,
    F4,
    F8E8M0,
}

/// The TensorRT data type that a Candle element type is bound as, if any.
pub open spec fn spec_data_type_of(dtype: DType) -> Option<DataType> {
    match dtype {
        DType::F32 => Some(DataType::Float),
        DType::F16 => Some(DataType::Half),
        DType::BF16 => Some(DataType::Bf16),
        DType::I32 => Some(DataType::Int32),
        DType::I64 => Some(DataType::Int64),
        DType::U8 => Some(DataType::Uint8),
        _ => None,
    }
}

/// The Candle element type that a TensorRT data type is read back as, if any.
pub open spec fn spec_dtype_of(data_type: DataType) -> Option<DType> {
    match data_type {
        DataType::Float => Some(DType::F32),
        DataType::Half => Some(DType::F16),
        DataType::Bf16 => Some(DType::BF16),
        DataType::Int32 => Some(DType::I32),
        DataType::Int64 => Some(DType::I64),
        DataType::Uint8 => Some(DType::U8),
        _ => None,
    }
}

/// The name that `Debug` prints for a Candle element type.
pub open spec fn spec_dtype_debug(dtype: DType) -> &'static str {
    match dtype {
        DType::U8 => "U8",
        DType::U32 => "U32",
        DType::I16 => "I16",
        DType::I32 => "I32",
        DType::I64 => "I64",
        DType::BF16 => "BF16",
        DType::F16 => "F16",
        DType::F32 => "F32",
        DType::F64 => "F64",
        DType::F8E4M3 => "F8E4M3",
        DType::F6E2M3 => "F6E2M3",
        DType::F6E3M2 => "F6E3M2",
        DType::F4 => "F4",
        DType::F8E8M0 => "F8E8M0",
    }
}

impl DType {
    /// The name that `Debug` prints for this element type.
    pub fn debug_name(self) -> (r: &'static str)
        ensures
            r == spec_dtype_debug(self),
    {
        match self {
            DType::U8 => "U8",
            DType::U32 => "U32",
            DType::I16 => "I16",
            DType::I32 => "I32",
            DType::I64 => "I64",
            DType::BF16 => "BF16",
            DType::F16 => "F16",
            DType::F32 => "F32",
            DType::F64 => "F64",
            DType::F8E4M3 => "F8E4M3",
            DType::F6E2M3 => "F6E2M3",
            DType::F6E3M2 => "F6E3M2",
            DType::F4 => "F4",
            DType::F8E8M0 => "F8E8M0",
        }
    }
}

/// The two conversions are inverse wherever both are defined.
pub proof fn lemma_dtype_roundtrip(dtype: DType)
    requires
        spec_data_type_of(dtype) is Some,
    ensures
        spec_dtype_of(spec_data_type_of(dtype).unwrap()) == Some(dtype),
{
}

/// A TensorRT type that Candle can hold maps back to itself.
pub proof fn lemma_data_type_roundtrip(data_type: DataType)
    requires
        spec_dtype_of(data_type) is Some,
    ensures
        spec_data_type_of(spec_dtype_of(data_type).unwrap()) == Some(data_type),
{
}

} // verus!
