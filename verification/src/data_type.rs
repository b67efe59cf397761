//! TensorRT tensor data types and their encodings.

use vstd::prelude::*;
use crate::error::Error;
use crate::text::{decimal_i32, i32_text, join3, owned, same_text};

verus! {

/// TensorRT tensor data type.
#[derive(Clone, Copy, Debug, Eq, Hash, PartialEq, Structural)]
pub enum DataType {
    Float,
    Half,
    Int8,
    Int32,
    Bool,
    Uint8,
    Fp8,
    Bf16,
    Int64,
    Int4,
    Fp4,
    E8m0,
    Unknown(i32),
}

/// The TensorRT `DataType` enumerator with raw value `value`.
pub open spec fn spec_from_raw(value: i32) -> DataType {
    if value == 0 { DataType::Float }
    else if value == 1 { DataType::Half }
    else if value == 2 { DataType::Int8 }
    else if value == 3 { DataType::Int32 }
    else if value == 4 { DataType::Bool }
    else if value == 5 { DataType::Uint8 }
    else if value == 6 { DataType::Fp8 }
    else if value == 7 { DataType::Bf16 }
    else if value == 8 { DataType::Int64 }
    else if value == 9 { DataType::Int4 }
    else if value == 10 { DataType::Fp4 }
    else if value == 11 { DataType::E8m0 }
    else { DataType::Unknown(value) }
}

/// The raw TensorRT value of a known data type.
pub open spec fn spec_raw_value(data_type: DataType) -> int {
    match data_type {
        DataType::Float => 0,
        DataType::Half => 1,
        DataType::Int8 => 2,
        DataType::Int32 => 3,
        DataType::Bool => 4,
        DataType::Uint8 => 5,
        DataType::Fp8 => 6,
        DataType::Bf16 => 7,
        DataType::Int64 => 8,
        DataType::Int4 => 9,
        DataType::Fp4 => 10,
        DataType::E8m0 => 11,
        DataType::Unknown(v) => v as int,
    }
}

/// The TensorRT binding dtype string (Python `tensorrt` naming) of a data type.
pub open spec fn spec_binding_dtype(data_type: DataType) -> Option<&'static str> {
    match data_type {
        DataType::Bf16 => Some("bfloat16"),
        DataType::Half => Some("float16"),
        DataType::Float => Some("float32"),
        DataType::Int64 => Some("int64"),
        DataType::Int32 => Some("int32"),
        DataType::Fp8 => Some("fp8"),
        _ => None,
    }
}

/// The data type whose binding dtype string is `s`.
pub open spec fn spec_from_binding_dtype(s: Seq<char>) -> Option<DataType> {
    if s == "bfloat16"@ { Some(DataType::Bf16) }
    else if s == "float16"@ { Some(DataType::Half) }
    else if s == "float32"@ { Some(DataType::Float) }
    else if s == "int64"@ { Some(DataType::Int64) }
    else if s == "int32"@ { Some(DataType::Int32) }
    else if s == "fp8"@ { Some(DataType::Fp8) }
    else { None }
}

/// The storage size of one element, for types stored in whole bytes.
pub open spec fn spec_bytes_per_element(data_type: DataType) -> Option<usize> {
    match data_type {
        DataType::Float | DataType::Int32 => Some(4),
        DataType::Half | DataType::Bf16 => Some(2),
        DataType::Int8 | DataType::Bool | DataType::Uint8 | DataType::Fp8 => Some(1),
        DataType::Int64 => Some(8),
        _ => None,
    }
}

/// The text that `Debug` prints for a data type.
pub open spec fn spec_debug_text(data_type: DataType) -> Seq<char> {
    match data_type {
        DataType::Float => "Float"@,
        DataType::Half => "Half"@,
        DataType::Int8 => "Int8"@,
        DataType::Int32 => "Int32"@,
        DataType::Bool => "Bool"@,
        DataType::Uint8 => "Uint8"@,
        DataType::Fp8 => "Fp8"@,
        DataType::Bf16 => "Bf16"@,
        DataType::Int64 => "Int64"@,
        DataType::Int4 => "Int4"@,
        DataType::Fp4 => "Fp4"@,
        DataType::E8m0 => "E8m0"@,
        DataType::Unknown(v) => "Unknown("@ + decimal_i32(v) + ")"@,
    }
}

/// The text that `Display` prints: the binding dtype string where there is
/// one, the `Debug` text otherwise.
pub open spec fn spec_display_text(data_type: DataType) -> Seq<char> {
    match spec_binding_dtype(data_type) {
        Some(name) => name@,
        None => spec_debug_text(data_type),
    }
}

impl DataType {
    /// Decodes a raw TensorRT `DataType` enumerator.
    pub fn from_raw(value: i32) -> (r: Self)
        ensures
            r == spec_from_raw(value),
    {
        match value {
            0 => DataType::Float,
            1 => DataType::Half,
            2 => DataType::Int8,
            3 => DataType::Int32,
            4 => DataType::Bool,
            5 => DataType::Uint8,
            6 => DataType::Fp8,
            7 => DataType::Bf16,
            8 => DataType::Int64,
            9 => DataType::Int4,
            10 => DataType::Fp4,
            11 => DataType::E8m0,
            other => DataType::Unknown(other),
        }
    }

    /// Parses a binding dtype string; any other string is an unsupported
    /// data type.
    pub fn parse_binding_dtype(dtype: &str) -> (r: Result<Self, Error>)
        ensures
            match spec_from_binding_dtype(dtype@) {
                Some(d) => r == Ok::<Self, Error>(d),
                None => r == Err::<Self, Error>(
                    Error::UnsupportedDataType {
                        data_type: DataType::Unknown(-1i32),
                        context: "TensorRT binding dtype parsing",
                    },
                ),
            },
    {
        match DataType::from_binding_dtype(dtype) {
            Some(d) => Ok(d),
            None => Err(
                Error::UnsupportedDataType { data_type: DataType::Unknown(-1), context: "TensorRT binding dtype parsing" },
            ),
        }
    }

    /// Converts a TensorRT binding dtype string to a TensorRT data type.
    pub fn from_binding_dtype(dtype: &str) -> (r: Option<Self>)
        ensures
            r == spec_from_binding_dtype(dtype@),
    {
        if same_text(dtype, "bfloat16") {
            Some(DataType::Bf16)
        } else if same_text(dtype, "float16") {
            Some(DataType::Half)
        } else if same_text(dtype, "float32") {
            Some(DataType::Float)
        } else if same_text(dtype, "int64") {
            Some(DataType::Int64)
        } else if same_text(dtype, "int32") {
            Some(DataType::Int32)
        } else if same_text(dtype, "fp8") {
            Some(DataType::Fp8)
        } else {
            None
        }
    }

    /// Returns the TensorRT binding dtype string for this data type.
    pub fn as_binding_dtype(self) -> (r: Option<&'static str>)
        ensures
            r == spec_binding_dtype(self),
    {
        match self {
            DataType::Bf16 => Some("bfloat16"),
            DataType::Half => Some("float16"),
            DataType::Float => Some("float32"),
            DataType::Int64 => Some("int64"),
            DataType::Int32 => Some("int32"),
            DataType::Fp8 => Some("fp8"),
            _ => None,
        }
    }

    /// The text that `Debug` prints for this data type.
    pub fn debug_text(self) -> (r: String)
        ensures
            r@ == spec_debug_text(self),
    {
        match self {
            DataType::Float => owned("Float"),
            DataType::Half => owned("Half"),
            DataType::Int8 => owned("Int8"),
            DataType::Int32 => owned("Int32"),
            DataType::Bool => owned("Bool"),
            DataType::Uint8 => owned("Uint8"),
            DataType::Fp8 => owned("Fp8"),
            DataType::Bf16 => owned("Bf16"),
            DataType::Int64 => owned("Int64"),
            DataType::Int4 => owned("Int4"),
            DataType::Fp4 => owned("Fp4"),
            DataType::E8m0 => owned("E8m0"),
            DataType::Unknown(v) => {
                let n = i32_text(v);
                join3("Unknown(", n.as_str(), ")")
            },
        }
    }

    /// The display text of this data type: its binding dtype string, or its
    /// `Debug` text when it has none.
    pub fn to_string(self) -> (r: String)
        ensures
            r@ == spec_display_text(self),
    {
        match self.as_binding_dtype() {
            Some(name) => owned(name),
            None => self.debug_text(),
        }
    }

    /// Size in bytes of one element, or `None` for sub-byte and unknown types.
    pub fn bytes_per_element(self) -> (r: Option<usize>)
        ensures
            r == spec_bytes_per_element(self),
    {
        match self {
            DataType::Float | DataType::Int32 => Some(4),
            DataType::Half | DataType::Bf16 => Some(2),
            DataType::Int8 | DataType::Bool | DataType::Uint8 | DataType::Fp8 => Some(1),
            DataType::Int64 => Some(8),
            _ => None,
        }
    }
}

/// Decoding a known type's raw value gives the type back.
pub proof fn lemma_raw_roundtrip(data_type: DataType)
    requires
        !(data_type is Unknown),
    ensures
        spec_from_raw(spec_raw_value(data_type) as i32) == data_type,
{
}

/// The binding dtype string of a type parses back to that type.
pub proof fn lemma_binding_dtype_roundtrip(data_type: DataType)
    requires
        spec_binding_dtype(data_type) is Some,
    ensures
        spec_from_binding_dtype(spec_binding_dtype(data_type).unwrap()@) == Some(data_type),
{
    reveal_strlit("bfloat16");
    reveal_strlit("float16");
    reveal_strlit("float32");
    reveal_strlit("int64");
    reveal_strlit("int32");
    reveal_strlit("fp8");
    assert("bfloat16"@.len() == 8);
    assert("float16"@.len() == 7 && "float16"@[5] == '1');
    assert("float32"@.len() == 7 && "float32"@[5] == '3');
    assert("int64"@.len() == 5 && "int64"@[3] == '6');
    assert("int32"@.len() == 5 && "int32"@[3] == '3');
    assert("fp8"@.len() == 3);
}

impl std::str::FromStr for DataType {
    type Err = Error;

    fn from_str(dtype: &str) -> Result<Self, Error> {
        DataType::parse_binding_dtype(dtype)
    }
}

} // verus!
