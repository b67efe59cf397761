//! Host tensor bytes returned by a session run, and their typed views.

use vstd::prelude::*;
use crate::bytes::{decode_i32s, decode_i64s, decode_u16s, decode_u32s, reads_natively};
use crate::data_type::DataType;
use crate::error::Error;
use crate::tensor::{CountOutcome, Dims, dims_as_usize, element_count, spec_count};
use crate::text::owned;

verus! {

/// Host tensor bytes returned by a TensorRT session.
#[derive(Debug)]
pub struct HostTensor {
    pub name: String,
    pub shape: Dims,
    pub data_type: DataType,
    pub bytes: Vec<u8>,
}

/// The error for reading a buffer whose length is not a whole number of
/// `width`-byte elements.
pub open spec fn is_ragged_error(e: Error, len: nat, width: nat) -> bool {
    e matches Error::SizeMismatch { tensor, expected_bytes, actual_bytes } && tensor@
        == "<typed-output>"@ && expected_bytes == len / width * width && actual_bytes == len
}

/// The error for reading a tensor as another type than it holds.
pub open spec fn is_type_error(e: Error, name: Seq<char>, expected: DataType, actual: DataType) -> bool {
    e matches Error::TypeMismatch { tensor, expected: x, actual: a } && tensor@ == name && x
        == expected && a == actual
}

/// The result of a typed read: a type error when the tensor holds another
/// type, a size error when the bytes are not whole elements, and otherwise
/// one element per `width` bytes, all read in the machine's byte order.
pub open spec fn typed_read_ok<T>(
    t: HostTensor,
    expected: DataType,
    width: nat,
    r: Result<Vec<T>, Error>,
    bits: spec_fn(T) -> nat,
) -> bool {
    &&& t.data_type != expected ==> (r matches Err(e) && is_type_error(
        e,
        t.name@,
        expected,
        t.data_type,
    ))
    &&& t.data_type == expected && t.bytes@.len() % width != 0 ==> (r matches Err(e)
        && is_ragged_error(e, t.bytes@.len(), width))
    &&& t.data_type == expected && t.bytes@.len() % width == 0 ==> (r matches Ok(v) && reads_natively(
        t.bytes@,
        width,
        v@,
        bits,
    ))
}

impl HostTensor {
    /// Number of elements of the tensor's shape.
    pub fn element_count(&self) -> (r: Result<usize, Error>)
        ensures
            spec_count(self.shape@) matches CountOutcome::Count(n) ==> r == Ok::<usize, Error>(n as usize),
            !(spec_count(self.shape@) is Count) ==> r is Err,
    {
        element_count(self.name.as_str(), &self.shape)
    }

    /// The shape's extents as `usize`.
    pub fn shape_as_usize(&self) -> (r: Result<Vec<usize>, Error>)
        ensures
            (forall|j: int| 0 <= j < self.shape@.len() ==> 0 <= #[trigger] self.shape@[j] <= usize::MAX)
                ==> (r matches Ok(v) && v@.len() == self.shape@.len() && forall|j: int|
                0 <= j < v@.len() ==> #[trigger] v@[j] == self.shape@[j]),
            (exists|j: int| 0 <= j < self.shape@.len() && #[trigger] self.shape@[j] < 0) ==> r is Err,
    {
        let r = dims_as_usize(self.name.as_str(), &self.shape);
        proof {
            if exists|j: int| 0 <= j < self.shape@.len() && #[trigger] self.shape@[j] < 0 {
                lemma_some_first_bad(self.shape@);
            }
        }
        r
    }

    fn check_type(&self, expected: DataType, width: usize) -> (r: Result<(), Error>)
        requires
            width > 0,
        ensures
            self.data_type != expected ==> (r matches Err(e) && is_type_error(
                e,
                self.name@,
                expected,
                self.data_type,
            )),
            self.data_type == expected && self.bytes@.len() % (width as nat) != 0 ==> (r matches Err(
                e,
            ) && is_ragged_error(e, self.bytes@.len(), width as nat)),
            self.data_type == expected && self.bytes@.len() % (width as nat) == 0 ==> r is Ok,
    {
        if self.data_type != expected {
            return Err(
                Error::TypeMismatch {
                    tensor: self.name.clone(),
                    expected,
                    actual: self.data_type,
                },
            );
        }
        let len = self.bytes.len();
        if len % width != 0 {
            assert(len / width * width <= len) by (nonlinear_arith)
                requires
                    width > 0,
            ;
            return Err(
                Error::SizeMismatch {
                    tensor: owned("<typed-output>"),
                    expected_bytes: len / width * width,
                    actual_bytes: len,
                },
            );
        }
        Ok(())
    }

    /// The elements of a `Float` tensor, as IEEE-754 bit patterns.
    pub fn into_f32_bits_vec(self) -> (r: Result<Vec<u32>, Error>)
        ensures
            typed_read_ok(self, DataType::Float, 4, r, |x: u32| x as nat),
    {
        match self.check_type(DataType::Float, 4) {
            Err(e) => Err(e),
            Ok(()) => Ok(decode_u32s(self.bytes.as_slice())),
        }
    }

    /// The elements of a `Bf16` tensor, as bit patterns.
    pub fn into_bf16_bits_vec(self) -> (r: Result<Vec<u16>, Error>)
        ensures
            typed_read_ok(self, DataType::Bf16, 2, r, |x: u16| x as nat),
    {
        match self.check_type(DataType::Bf16, 2) {
            Err(e) => Err(e),
            Ok(()) => Ok(decode_u16s(self.bytes.as_slice())),
        }
    }

    /// The elements of a `Half` tensor, as bit patterns.
    pub fn into_f16_bits_vec(self) -> (r: Result<Vec<u16>, Error>)
        ensures
            typed_read_ok(self, DataType::Half, 2, r, |x: u16| x as nat),
    {
        match self.check_type(DataType::Half, 2) {
            Err(e) => Err(e),
            Ok(()) => Ok(decode_u16s(self.bytes.as_slice())),
        }
    }

    /// The elements of an `Int32` tensor.
    pub fn into_i32_vec(self) -> (r: Result<Vec<i32>, Error>)
        ensures
            typed_read_ok(self, DataType::Int32, 4, r, |x: i32| (x as u32) as nat),
    {
        match self.check_type(DataType::Int32, 4) {
            Err(e) => Err(e),
            Ok(()) => {
                Ok(decode_i32s(self.bytes.as_slice()))
            },
        }
    }

    /// The elements of an `Int64` tensor.
    pub fn into_i64_vec(self) -> (r: Result<Vec<i64>, Error>)
        ensures
            typed_read_ok(self, DataType::Int64, 8, r, |x: i64| (x as u64) as nat),
    {
        match self.check_type(DataType::Int64, 8) {
            Err(e) => Err(e),
            Ok(()) => {
                Ok(decode_i64s(self.bytes.as_slice()))
            },
        }
    }

    /// The elements of a `Uint8` tensor: its bytes.
    pub fn into_u8_vec(self) -> (r: Result<Vec<u8>, Error>)
        ensures
            self.data_type != DataType::Uint8 ==> (r matches Err(e) && is_type_error(
                e,
                self.name@,
                DataType::Uint8,
                self.data_type,
            )),
            self.data_type == DataType::Uint8 ==> r == Ok::<Vec<u8>, Error>(self.bytes),
    {
        match self.check_type(DataType::Uint8, 1) {
            Err(e) => Err(e),
            Ok(()) => Ok(self.bytes),
        }
    }
}

/// A shape with a negative extent has a first extent that is not a `usize`.
proof fn lemma_some_first_bad(dims: Seq<i64>)
    requires
        exists|j: int| 0 <= j < dims.len() && #[trigger] dims[j] < 0,
    ensures
        exists|i: int| crate::tensor::first_bad_dim(dims, i),
{
    let j = choose|j: int| 0 <= j < dims.len() && #[trigger] dims[j] < 0;
    lemma_first_bad_from(dims, 0, j);
}

proof fn lemma_first_bad_from(dims: Seq<i64>, i: int, j: int)
    requires
        0 <= i <= j < dims.len(),
        dims[j] < 0,
        forall|k: int| 0 <= k < i ==> 0 <= #[trigger] dims[k] <= usize::MAX,
    ensures
        exists|x: int| crate::tensor::first_bad_dim(dims, x),
    decreases j - i,
{
    if !(0 <= dims[i] <= usize::MAX) {
        assert(crate::tensor::first_bad_dim(dims, i));
    } else {
        lemma_first_bad_from(dims, i + 1, j);
    }
}

} // verus!
