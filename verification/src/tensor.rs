//! Tensor shapes, tensor metadata and the byte sizes derived from them.

use vstd::prelude::*;
use crate::data_type::{DataType, spec_bytes_per_element, spec_debug_text};
use crate::error::Error;
use crate::small_vec::{DimVec, dim_values, dims_as_slice, dims_from_vec, dims_into_vec, dims_len};
use crate::text::{debug_i64_list, debug_list, decimal_i32, i32_text, join2, join3, owned};

verus! {

/// Maximum TensorRT tensor rank supported by the C ABI shim.
pub const MAX_DIMS: usize = 8;

/// Shape dimensions for a TensorRT tensor: at most `MAX_DIMS` extents, where a
/// negative extent marks a dimension that is only known at run time.
#[derive(Debug, Eq, Hash, PartialEq)]
pub struct Dims {
    values: DimVec,
}

impl View for Dims {
    type V = Seq<i64>;

    closed spec fn view(&self) -> Seq<i64> {
        dim_values(self.values)
    }
}

/// The layout of the C ABI's `Dims`: a rank and a fixed array of extents.
#[derive(Clone, Copy, Debug)]
pub struct FfiDims {
    pub nb_dims: i32,
    pub d: [i64; 8],
}

/// Whether any extent is negative (unknown until shapes are set).
pub open spec fn spec_is_dynamic(dims: Seq<i64>) -> bool {
    exists|i: int| 0 <= i < dims.len() && dims[i] < 0
}

impl Dims {
    #[verifier::type_invariant]
    spec fn rank_fits(self) -> bool {
        dim_values(self.values).len() <= MAX_DIMS
    }

    /// Builds a shape; fails when it has more than `MAX_DIMS` extents.
    pub fn new(values: Vec<i64>) -> (r: Result<Self, Error>)
        ensures
            values@.len() <= MAX_DIMS ==> (r matches Ok(d) && d@ == values@),
            values@.len() > MAX_DIMS ==> (r matches Err(Error::InvalidDimensions { len, max })
                && len == values@.len() && max == MAX_DIMS),
    {
        let len = values.len();
        if len > MAX_DIMS {
            return Err(Error::InvalidDimensions { len, max: MAX_DIMS });
        }
        Ok(Dims { values: dims_from_vec(values) })
    }

    /// Builds a shape from a slice of extents.
    pub fn from_slice(values: &[i64]) -> (r: Result<Self, Error>)
        ensures
            values@.len() <= MAX_DIMS ==> (r matches Ok(d) && d@ == values@),
            values@.len() > MAX_DIMS ==> (r matches Err(Error::InvalidDimensions { len, max })
                && len == values@.len() && max == MAX_DIMS),
    {
        let mut copy: Vec<i64> = Vec::new();
        let mut k: usize = 0;
        while k < values.len()
            invariant
                k <= values@.len(),
                copy@ == values@.subrange(0, k as int),
            decreases values@.len() - k,
        {
            copy.push(values[k]);
            assert(copy@ =~= values@.subrange(0, k + 1));
            k = k + 1;
        }
        assert(copy@ =~= values@);
        Self::new(copy)
    }

    /// The extents, in order.
    pub fn as_slice(&self) -> (r: &[i64])
        ensures
            r@ == self@,
    {
        dims_as_slice(&self.values)
    }

    /// The number of extents.
    pub fn rank(&self) -> (r: usize)
        ensures
            r == self@.len(),
            r <= MAX_DIMS,
    {
        proof {
            use_type_invariant(self);
        }
        dims_len(&self.values)
    }

    /// Whether some extent is still unknown (negative).
    pub fn is_dynamic(&self) -> (r: bool)
        ensures
            r == spec_is_dynamic(self@),
    {
        let values = self.as_slice();
        let mut k: usize = 0;
        while k < values.len()
            invariant
                values@ == self@,
                k <= values@.len(),
                forall|i: int| 0 <= i < k ==> values@[i] >= 0,
            decreases values@.len() - k,
        {
            if values[k] < 0 {
                return true;
            }
            k = k + 1;
        }
        false
    }

    /// Whether two shapes have the same extents.
    pub fn same_as(&self, other: &Dims) -> (r: bool)
        ensures
            r == (self@ == other@),
    {
        let a = self.as_slice();
        let b = other.as_slice();
        if a.len() != b.len() {
            return false;
        }
        let mut k: usize = 0;
        while k < a.len()
            invariant
                a@ == self@,
                b@ == other@,
                a@.len() == b@.len(),
                k <= a@.len(),
                forall|i: int| 0 <= i < k ==> a@[i] == b@[i],
            decreases a@.len() - k,
        {
            if a[k] != b[k] {
                return false;
            }
            k = k + 1;
        }
        assert(a@ =~= b@);
        true
    }

    /// Reads the C ABI's `Dims`; fails when its rank is negative or above
    /// `MAX_DIMS`.
    pub fn from_ffi(dims: FfiDims) -> (r: Result<Self, Error>)
        ensures
            0 <= dims.nb_dims <= MAX_DIMS ==> (r matches Ok(d)
                && d@ == dims.d@.subrange(0, dims.nb_dims as int)),
            !(0 <= dims.nb_dims <= MAX_DIMS) ==> (r matches Err(Error::InvalidDimensionCount(c))
                && c == dims.nb_dims),
    {
        if dims.nb_dims < 0 || dims.nb_dims > 8 {
            return Err(Error::InvalidDimensionCount(dims.nb_dims));
        }
        let len = dims.nb_dims as usize;
        let mut values: Vec<i64> = Vec::new();
        let mut k: usize = 0;
        while k < len
            invariant
                len == dims.nb_dims,
                len <= 8,
                k <= len,
                values@ == dims.d@.subrange(0, k as int),
            decreases len - k,
        {
            values.push(dims.d[k]);
            assert(values@ =~= dims.d@.subrange(0, k + 1));
            k = k + 1;
        }
        Self::new(values)
    }

    /// Writes the shape in the C ABI's layout, unused extents zero.
    pub fn to_ffi(&self) -> (r: FfiDims)
        ensures
            r.nb_dims == self@.len(),
            r.d@.subrange(0, self@.len() as int) == self@,
            forall|i: int| self@.len() <= i < 8 ==> r.d@[i] == 0,
    {
        let values = self.as_slice();
        let len = self.rank();
        let mut d: [i64; 8] = [0, 0, 0, 0, 0, 0, 0, 0];
        let mut k: usize = 0;
        while k < len
            invariant
                values@ == self@,
                len == values@.len(),
                len <= 8,
                k <= len,
                d@.len() == 8,
                forall|i: int| 0 <= i < k ==> d@[i] == values@[i],
                forall|i: int| k <= i < 8 ==> d@[i] == 0,
            decreases len - k,
        {
            d[k] = values[k];
            k = k + 1;
        }
        assert(d@.subrange(0, len as int) =~= self@);
        FfiDims { nb_dims: len as i32, d }
    }

    /// The extents as a `Vec`.
    pub fn into_vec(self) -> (r: Vec<i64>)
        ensures
            r@ == self@,
    {
        dims_into_vec(self.values)
    }
}

/// A shape written in the C ABI's layout (as `to_ffi` writes it) reads back
/// (through `from_ffi`) as the same shape.
pub proof fn lemma_ffi_dims_roundtrip(shape: Seq<i64>, ffi: FfiDims)
    requires
        shape.len() <= MAX_DIMS,
        ffi.nb_dims == shape.len(),
        ffi.d@.subrange(0, shape.len() as int) == shape,
    ensures
        0 <= ffi.nb_dims <= MAX_DIMS,
        ffi.d@.subrange(0, ffi.nb_dims as int) == shape,
{
}

impl Clone for Dims {
    fn clone(&self) -> (r: Self)
        ensures
            r@ == self@,
    {
        proof {
            use_type_invariant(self);
        }
        Dims { values: self.values.clone() }
    }
}

/// Whether a TensorRT tensor is an input, output, or not an I/O tensor.
#[derive(Clone, Copy, Debug, Eq, Hash, PartialEq, Structural)]
pub enum TensorIOMode {
    NotIo,
    Input,
    Output,
    Unknown(i32),
}

/// The I/O mode that a raw TensorRT `TensorIOMode` value stands for.
pub open spec fn spec_io_mode_from_raw(value: i32) -> TensorIOMode {
    if value == 0 {
        TensorIOMode::NotIo
    } else if value == 1 {
        TensorIOMode::Input
    } else if value == 2 {
        TensorIOMode::Output
    } else {
        TensorIOMode::Unknown(value)
    }
}

/// The text that `Debug` prints for an I/O mode.
pub open spec fn spec_io_mode_debug(mode: TensorIOMode) -> Seq<char> {
    match mode {
        TensorIOMode::NotIo => "None"@,
        TensorIOMode::Input => "Input"@,
        TensorIOMode::Output => "Output"@,
        TensorIOMode::Unknown(v) => "Unknown("@ + decimal_i32(v) + ")"@,
    }
}

impl TensorIOMode {
    /// Decodes a raw TensorRT `TensorIOMode` value.
    pub fn from_raw(value: i32) -> (r: Self)
        ensures
            r == spec_io_mode_from_raw(value),
    {
        match value {
            0 => TensorIOMode::NotIo,
            1 => TensorIOMode::Input,
            2 => TensorIOMode::Output,
            other => TensorIOMode::Unknown(other),
        }
    }

    /// The text that `Debug` prints for this mode.
    pub fn debug_text(self) -> (r: String)
        ensures
            r@ == spec_io_mode_debug(self),
    {
        match self {
            TensorIOMode::NotIo => owned("None"),
            TensorIOMode::Input => owned("Input"),
            TensorIOMode::Output => owned("Output"),
            TensorIOMode::Unknown(v) => {
                let n = i32_text(v);
                join3("Unknown(", n.as_str(), ")")
            },
        }
    }
}

/// How computing an element count from a shape ends, reading the extents
/// from first to last.
pub enum CountOutcome {
    Count(nat),
    Dynamic,
    Overflow,
}

/// The element count of a shape: the product of its extents, failing at the
/// first negative extent or at the first partial product above `usize::MAX`.
pub open spec fn spec_count(dims: Seq<i64>) -> CountOutcome
    decreases dims.len(),
{
    if dims.len() == 0 {
        CountOutcome::Count(1)
    } else {
        match spec_count(dims.drop_last()) {
            CountOutcome::Count(a) => {
                let d = dims.last();
                if d < 0 {
                    CountOutcome::Dynamic
                } else if a * (d as usize) > usize::MAX {
                    CountOutcome::Overflow
                } else {
                    CountOutcome::Count((a * (d as usize)) as nat)
                }
            },
            other => other,
        }
    }
}

/// The reason given for a shape that still has an unknown extent.
pub open spec fn dynamic_reason(dims: Seq<i64>) -> Seq<char> {
    "shape still has dynamic dimension: "@ + debug_list(dims)
}

/// `r` is an `InvalidShape` error for `tensor` with the given reason.
pub open spec fn is_invalid_shape(r: Error, tensor: Seq<char>, reason: Seq<char>) -> bool {
    r matches Error::InvalidShape { tensor: t, reason: why } && t@ == tensor && why@ == reason
}

/// The byte length of a tensor: its element count times the element size.
pub open spec fn spec_byte_len(dims: Seq<i64>, data_type: DataType) -> Option<nat> {
    match (spec_count(dims), spec_bytes_per_element(data_type)) {
        (CountOutcome::Count(n), Some(b)) => if n * b <= usize::MAX {
            Some((n * b) as nat)
        } else {
            None
        },
        _ => None,
    }
}

/// Number of elements of a concrete shape.
///
/// Fails with `InvalidShape` at the first negative extent ("shape still has
/// dynamic dimension") or when a partial product overflows `usize`.
pub fn element_count(tensor: &str, shape: &Dims) -> (r: Result<usize, Error>)
    ensures
        match spec_count(shape@) {
            CountOutcome::Count(n) => r == Ok::<usize, Error>(n as usize),
            CountOutcome::Dynamic => r matches Err(e) && is_invalid_shape(
                e,
                tensor@,
                dynamic_reason(shape@),
            ),
            CountOutcome::Overflow => r matches Err(e) && is_invalid_shape(
                e,
                tensor@,
                "element count overflow"@,
            ),
        },
{
    let values = shape.as_slice();
    let mut acc: usize = 1;
    let mut k: usize = 0;
    assert(values@.subrange(0, 0) =~= Seq::<i64>::empty());
    while k < values.len()
        invariant
            values@ == shape@,
            k <= values@.len(),
            spec_count(values@.subrange(0, k as int)) == CountOutcome::Count(acc as nat),
        decreases values@.len() - k,
    {
        let dim = values[k];
        assert(values@.subrange(0, k + 1).drop_last() =~= values@.subrange(0, k as int));
        if dim < 0 {
            assert(spec_count(values@.subrange(0, k + 1)) == CountOutcome::Dynamic);
            proof {
                lemma_count_stays_failed(values@, (k + 1) as nat);
            }
            let reason = join2("shape still has dynamic dimension: ", debug_i64_list(values).as_str());
            return Err(Error::InvalidShape { tensor: owned(tensor), reason });
        }
        match acc.checked_mul(dim as usize) {
            Some(next) => {
                acc = next;
            },
            None => {
                assert(spec_count(values@.subrange(0, k + 1)) == CountOutcome::Overflow);
                proof {
                    lemma_count_stays_failed(values@, (k + 1) as nat);
                }
                return Err(
                    Error::InvalidShape {
                        tensor: owned(tensor),
                        reason: owned("element count overflow"),
                    },
                );
            },
        }
        k = k + 1;
    }
    assert(values@.subrange(0, values@.len() as int) =~= values@);
    Ok(acc)
}

/// Once a prefix of the extents fails, every longer prefix fails the same way.
pub proof fn lemma_count_stays_failed(dims: Seq<i64>, k: nat)
    requires
        k <= dims.len(),
        !(spec_count(dims.subrange(0, k as int)) is Count),
    ensures
        spec_count(dims) == spec_count(dims.subrange(0, k as int)),
    decreases dims.len() - k,
{
    if k < dims.len() {
        assert(dims.subrange(0, (k + 1) as int).drop_last() =~= dims.subrange(0, k as int));
        lemma_count_stays_failed(dims, k + 1);
    } else {
        assert(dims.subrange(0, k as int) =~= dims);
    }
}

/// The error that computing a byte length reports when it fails.
pub open spec fn byte_len_error(e: Error, tensor: Seq<char>, shape: Seq<i64>, data_type: DataType) -> bool {
    match spec_count(shape) {
        CountOutcome::Dynamic => is_invalid_shape(e, tensor, dynamic_reason(shape)),
        CountOutcome::Overflow => is_invalid_shape(e, tensor, "element count overflow"@),
        CountOutcome::Count(_) => if spec_bytes_per_element(data_type) is None {
            is_invalid_shape(e, tensor, "unsupported data type "@ + spec_debug_text(data_type))
        } else {
            is_invalid_shape(e, tensor, "byte size overflow"@)
        },
    }
}

/// Byte length of a tensor of `shape` and `data_type`.
///
/// Fails with `InvalidShape` when the element count fails, when the type has
/// no whole-byte element size, or when the product overflows `usize`.
pub fn tensor_byte_len(tensor: &str, shape: &Dims, data_type: DataType) -> (r: Result<usize, Error>)
    ensures
        match spec_byte_len(shape@, data_type) {
            Some(n) => r == Ok::<usize, Error>(n as usize),
            None => r matches Err(e) && byte_len_error(e, tensor@, shape@, data_type),
        },
{
    let elements = match element_count(tensor, shape) {
        Ok(n) => n,
        Err(e) => return Err(e),
    };
    let bytes_per_element = match data_type.bytes_per_element() {
        Some(b) => b,
        None => {
            let name = data_type.debug_text();
            return Err(
                Error::InvalidShape {
                    tensor: owned(tensor),
                    reason: join2("unsupported data type ", name.as_str()),
                },
            );
        },
    };
    match elements.checked_mul(bytes_per_element) {
        Some(n) => Ok(n),
        None => Err(
            Error::InvalidShape { tensor: owned(tensor), reason: owned("byte size overflow") },
        ),
    }
}

/// The first extent that cannot be read as a `usize`, if any.
pub open spec fn first_bad_dim(dims: Seq<i64>, i: int) -> bool {
    0 <= i < dims.len() && !(0 <= dims[i] <= usize::MAX) && forall|j: int|
        0 <= j < i ==> 0 <= #[trigger] dims[j] <= usize::MAX
}

/// Shape extents as `usize`.
///
/// Fails at the first extent that is negative ("shape still has dynamic
/// dimension") or above `usize::MAX`.
pub fn dims_as_usize(tensor: &str, shape: &Dims) -> (r: Result<Vec<usize>, Error>)
    ensures
        (forall|j: int| 0 <= j < shape@.len() ==> 0 <= #[trigger] shape@[j] <= usize::MAX) ==> (
        r matches Ok(v) && v@.len() == shape@.len() && forall|j: int|
            0 <= j < v@.len() ==> #[trigger] v@[j] == shape@[j]),
        forall|i: int|
            #![trigger first_bad_dim(shape@, i)]
            first_bad_dim(shape@, i) ==> (r matches Err(e) && if shape@[i] < 0 {
                is_invalid_shape(e, tensor@, dynamic_reason(shape@))
            } else {
                e is InvalidShape
            }),
{
    let values = shape.as_slice();
    let mut out: Vec<usize> = Vec::new();
    let mut k: usize = 0;
    while k < values.len()
        invariant
            values@ == shape@,
            k <= values@.len(),
            out@.len() == k,
            forall|j: int| 0 <= j < k ==> 0 <= #[trigger] values@[j] <= usize::MAX,
            forall|j: int| 0 <= j < k ==> #[trigger] out@[j] == values@[j],
        decreases values@.len() - k,
    {
        let dim = values[k];
        if dim < 0 {
            assert(first_bad_dim(shape@, k as int));
            let reason = join2("shape still has dynamic dimension: ", debug_i64_list(values).as_str());
            return Err(Error::InvalidShape { tensor: owned(tensor), reason });
        }
        if dim as u64 > usize::MAX as u64 {
            assert(first_bad_dim(shape@, k as int));
            let d = crate::text::i64_text(dim);
            return Err(
                Error::InvalidShape {
                    tensor: owned(tensor),
                    reason: join3("dimension ", d.as_str(), " cannot be represented as usize"),
                },
            );
        }
        out.push(dim as usize);
        k = k + 1;
    }
    proof {
        assert forall|i: int| #![trigger first_bad_dim(shape@, i)] !first_bad_dim(shape@, i) by {}
    }
    Ok(out)
}

} // verus!
