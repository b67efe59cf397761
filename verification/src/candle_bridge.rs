//! The checks that bind Candle tensors to TensorRT: element types, extents,
//! devices, zero-copy views and the outputs of a cached plan.

use vstd::prelude::*;
use crate::data_type::DataType;
use crate::dtype::{DType, spec_data_type_of, spec_dtype_of};
use crate::error::Error;
use crate::run_plan::DeviceOutputPlan;
use crate::tensor::{Dims, MAX_DIMS, byte_len_error, is_invalid_shape, spec_byte_len, tensor_byte_len};
use crate::text::{
    debug_i64_list, debug_list, decimal_usize, join2, join3, join4, owned, same_text, str_debug,
    str_debug_text, usize_text,
};

verus! {

/// Where a Candle device lives (`candle_core::DeviceLocation`), with the same
/// variants.
#[derive(Clone, Copy, Debug, Eq, Hash, PartialEq, Structural)]
pub enum DeviceLocation {
    Cpu,
    Cuda { gpu_id: usize },
    Metal { gpu_id: usize },
}

/// The text that `Debug` prints for a device location.
pub open spec fn spec_location_debug(location: DeviceLocation) -> Seq<char> {
    match location {
        DeviceLocation::Cpu => "Cpu"@,
        DeviceLocation::Cuda { gpu_id } => "Cuda { gpu_id: "@ + decimal_usize(gpu_id) + " }"@,
        DeviceLocation::Metal { gpu_id } => "Metal { gpu_id: "@ + decimal_usize(gpu_id) + " }"@,
    }
}

impl DeviceLocation {
    /// The text that `Debug` prints for this location.
    pub fn debug_text(self) -> (r: String)
        ensures
            r@ == spec_location_debug(self),
    {
        match self {
            DeviceLocation::Cpu => owned("Cpu"),
            DeviceLocation::Cuda { gpu_id } => {
                let n = usize_text(gpu_id);
                join3("Cuda { gpu_id: ", n.as_str(), " }")
            },
            DeviceLocation::Metal { gpu_id } => {
                let n = usize_text(gpu_id);
                join3("Metal { gpu_id: ", n.as_str(), " }")
            },
        }
    }
}

/// Converts a Candle dtype into a TensorRT data type for bindings.
pub fn data_type_from_candle(dtype: DType) -> (r: Result<DataType, Error>)
    ensures
        match spec_data_type_of(dtype) {
            Some(d) => r == Ok::<DataType, Error>(d),
            None => r matches Err(Error::UnsupportedCandleDType { dtype: x, context })
                && x == dtype && context@ == "TensorRT input conversion"@,
        },
{
    match dtype {
        DType::F32 => Ok(DataType::Float),
        DType::F16 => Ok(DataType::Half),
        DType::BF16 => Ok(DataType::Bf16),
        DType::I32 => Ok(DataType::Int32),
        DType::I64 => Ok(DataType::Int64),
        DType::U8 => Ok(DataType::Uint8),
        _ => Err(Error::UnsupportedCandleDType { dtype, context: "TensorRT input conversion" }),
    }
}

/// Converts a TensorRT data type into the Candle dtype that holds it.
pub fn candle_dtype_from_data_type(data_type: DataType) -> (r: Result<DType, Error>)
    ensures
        match spec_dtype_of(data_type) {
            Some(d) => r == Ok::<DType, Error>(d),
            None => r matches Err(Error::UnsupportedDataType { data_type: x, context })
                && x == data_type && context@ == "Candle dtype conversion"@,
        },
{
    match data_type {
        DataType::Float => Ok(DType::F32),
        DataType::Half => Ok(DType::F16),
        DataType::Bf16 => Ok(DType::BF16),
        DataType::Int32 => Ok(DType::I32),
        DataType::Int64 => Ok(DType::I64),
        DataType::Uint8 => Ok(DType::U8),
        _ => Err(Error::UnsupportedDataType { data_type, context: "Candle dtype conversion" }),
    }
}

/// `k` is the first Candle extent above `i64::MAX`.
pub open spec fn first_wide_dim(dims: Seq<usize>, k: int) -> bool {
    &&& 0 <= k < dims.len()
    &&& dims[k] > i64::MAX
    &&& forall|j: int| 0 <= j < k ==> #[trigger] dims[j] <= i64::MAX
}

/// The TensorRT shape of a Candle tensor with extents `dims`.
///
/// Fails at the first extent above `i64::MAX`, then when the rank passes
/// `MAX_DIMS`.
pub fn candle_dims(tensor_name: &str, dims: &[usize]) -> (r: Result<Dims, Error>)
    ensures
        forall|k: int|
            #![trigger first_wide_dim(dims@, k)]
            first_wide_dim(dims@, k) ==> (r matches Err(e) && is_invalid_shape(
                e,
                tensor_name@,
                "dimension "@ + decimal_usize(dims@[k]) + " cannot be represented as i64"@,
            )),
        r is Ok ==> dims@.len() <= MAX_DIMS && forall|k: int| 0 <= k < dims@.len() ==> #[trigger] dims@[k] <= i64::MAX,
        (forall|k: int| 0 <= k < dims@.len() ==> #[trigger] dims@[k] <= i64::MAX) ==> if dims@.len() <= MAX_DIMS {
            r matches Ok(d) && d@.len() == dims@.len() && forall|k: int| 0 <= k < dims@.len() ==> #[trigger] d@[k] == dims@[k]
        } else {
            r matches Err(Error::InvalidDimensions { len, max }) && len == dims@.len() && max == MAX_DIMS
        },
{
    let mut values: Vec<i64> = Vec::new();
    let mut k: usize = 0;
    while k < dims.len()
        invariant
            k <= dims@.len(),
            values@.len() == k,
            forall|j: int| 0 <= j < k ==> #[trigger] dims@[j] <= i64::MAX,
            forall|j: int| 0 <= j < k ==> #[trigger] values@[j] == dims@[j],
        decreases dims@.len() - k,
    {
        let dim = dims[k];
        if dim as u64 > 0x7fff_ffff_ffff_ffffu64 {
            assert(first_wide_dim(dims@, k as int));
            assert forall|other: int| #![trigger first_wide_dim(dims@, other)] first_wide_dim(dims@, other) implies other == k by {
                if other < k {
                } else if other > k {
                }
            }
            let n = usize_text(dim);
            let reason = join3("dimension ", n.as_str(), " cannot be represented as i64");
            return Err(Error::InvalidShape { tensor: owned(tensor_name), reason });
        }
        values.push(dim as i64);
        k = k + 1;
    }
    proof {
        assert forall|other: int| #![trigger first_wide_dim(dims@, other)] !first_wide_dim(dims@, other) by {}
    }
    Dims::new(values)
}

/// Checks that a run's stream is on the device of its inputs.
pub fn validate_stream_device(device_location: DeviceLocation, stream_location: Option<DeviceLocation>) -> (r: Result<(), Error>)
    ensures
        stream_location is None ==> (r matches Err(e) && is_invalid_shape(
            e,
            "<cuda-stream>"@,
            "stream device is unknown; use CudaStream::from_device"@,
        )),
        stream_location matches Some(s) && s != device_location ==> (r matches Err(e) && is_invalid_shape(
            e,
            "<cuda-stream>"@,
            "stream device "@ + spec_location_debug(stream_location->0) + " does not match input device "@
                + spec_location_debug(device_location),
        )),
        stream_location == Some(device_location) ==> r is Ok,
{
    match stream_location {
        None => Err(
            Error::InvalidShape {
                tensor: owned("<cuda-stream>"),
                reason: owned("stream device is unknown; use CudaStream::from_device"),
            },
        ),
        Some(stream_location) => {
            if stream_location != device_location {
                let s = stream_location.debug_text();
                let d = device_location.debug_text();
                let reason = join4("stream device ", s.as_str(), " does not match input device ", d.as_str());
                Err(Error::InvalidShape { tensor: owned("<cuda-stream>"), reason })
            } else {
                Ok(())
            }
        },
    }
}

/// Where a Candle input lives: on a CUDA device or not, and whether that is
/// the device of the run's first input.
#[derive(Clone, Copy, Debug)]
pub struct TensorPlacement<'a> {
    pub name: &'a str,
    pub is_cuda: bool,
    pub same_device_as_first: bool,
}

/// The input at `k` is on the run's CUDA device.
pub open spec fn placement_ok(p: TensorPlacement) -> bool {
    p.is_cuda && p.same_device_as_first
}

/// `k` is the first input off the run's CUDA device.
pub open spec fn first_misplaced(ps: Seq<TensorPlacement>, k: int) -> bool {
    &&& 0 <= k < ps.len()
    &&& !placement_ok(ps[k])
    &&& forall|j: int| 0 <= j < k ==> #[trigger] placement_ok(ps[j])
}

/// Checks that a Candle run has inputs, all on the first input's CUDA device.
pub fn cuda_output_device(inputs: &[TensorPlacement<'_>]) -> (r: Result<(), Error>)
    requires
        inputs@.len() > 0 ==> inputs@[0].same_device_as_first,
    ensures
        inputs@.len() == 0 ==> (r matches Err(e) && is_invalid_shape(
            e,
            "<inputs>"@,
            "Candle session run requires at least one CUDA input tensor"@,
        )),
        forall|k: int|
            #![trigger first_misplaced(inputs@, k)]
            first_misplaced(inputs@, k) ==> (r matches Err(e) && if !inputs@[k].is_cuda {
                is_invalid_shape(e, inputs@[k].name@, "Candle session run requires CUDA input tensors"@)
            } else {
                is_invalid_shape(
                    e,
                    inputs@[k].name@,
                    "all Candle input tensors must be on the same CUDA device"@,
                )
            }),
        inputs@.len() > 0 && (forall|k: int| 0 <= k < inputs@.len() ==> #[trigger] placement_ok(inputs@[k])) ==> r is Ok,
{
    if inputs.len() == 0 {
        return Err(
            Error::InvalidShape {
                tensor: owned("<inputs>"),
                reason: owned("Candle session run requires at least one CUDA input tensor"),
            },
        );
    }
    let mut k: usize = 0;
    while k < inputs.len()
        invariant
            k <= inputs@.len(),
            forall|j: int| 0 <= j < k ==> #[trigger] placement_ok(inputs@[j]),
        decreases inputs@.len() - k,
    {
        let input = &inputs[k];
        if !input.is_cuda || !input.same_device_as_first {
            assert(first_misplaced(inputs@, k as int));
            assert forall|other: int| #![trigger first_misplaced(inputs@, other)] first_misplaced(inputs@, other) implies other == k by {
                if other < k {
                } else if other > k {
                }
            }
            if !input.is_cuda {
                return Err(
                    Error::InvalidShape {
                        tensor: owned(input.name),
                        reason: owned("Candle session run requires CUDA input tensors"),
                    },
                );
            }
            return Err(
                Error::InvalidShape {
                    tensor: owned(input.name),
                    reason: owned("all Candle input tensors must be on the same CUDA device"),
                },
            );
        }
        k = k + 1;
    }
    proof {
        assert forall|other: int| #![trigger first_misplaced(inputs@, other)] !first_misplaced(inputs@, other) by {}
    }
    Ok(())
}

/// Checks that a Candle run has at least one preallocated output.
pub fn check_candle_outputs_present(output_count: usize) -> (r: Result<(), Error>)
    ensures
        output_count == 0 ==> (r matches Err(e) && is_invalid_shape(
            e,
            "<outputs>"@,
            "Candle session run requires at least one preallocated output tensor"@,
        )),
        output_count > 0 ==> r is Ok,
{
    if output_count == 0 {
        return Err(
            Error::InvalidShape {
                tensor: owned("<outputs>"),
                reason: owned("Candle session run requires at least one preallocated output tensor"),
            },
        );
    }
    Ok(())
}

/// The error of a Candle run where CUDA support is not built: it names the
/// first input, or `<inputs>` when there is none.
pub fn candle_run_unavailable(first_input: Option<&str>) -> (r: Error)
    ensures
        is_invalid_shape(
            r,
            match first_input {
                Some(n) => n@,
                None => "<inputs>"@,
            },
            "Candle session run requires the `cuda` feature and CUDA input tensors"@,
        ),
{
    let tensor = match first_input {
        Some(name) => owned(name),
        None => owned("<inputs>"),
    };
    Error::InvalidShape {
        tensor,
        reason: owned("Candle session run requires the `cuda` feature and CUDA input tensors"),
    }
}

/// Whether a zero-copy view binds an input or an output.
#[derive(Clone, Copy, Debug, Eq, PartialEq, Structural)]
pub enum ViewRole {
    Input,
    Output,
}

/// The word a message uses for a view role.
pub open spec fn role_word(role: ViewRole) -> Seq<char> {
    match role {
        ViewRole::Input => "input"@,
        ViewRole::Output => "output"@,
    }
}

/// Checks that a Candle tensor can be bound zero-copy and returns its element
/// range `[start, start + len)` in its CUDA storage.
///
/// The tensor must be contiguous, backed by CUDA storage, have an element
/// range that fits `usize`, and hold a type that CUDA bindings support.
pub fn cuda_view_range(
    tensor_name: &str,
    role: ViewRole,
    contiguous: bool,
    cuda_storage: bool,
    start: usize,
    len: usize,
    data_type: DataType,
) -> (r: Result<(usize, usize), Error>)
    ensures
        !contiguous ==> (r matches Err(e) && is_invalid_shape(
            e,
            tensor_name@,
            "CUDA zero-copy "@ + role_word(role) + " must be contiguous"@,
        )),
        contiguous && !cuda_storage ==> (r matches Err(e) && is_invalid_shape(
            e,
            tensor_name@,
            "CUDA zero-copy "@ + role_word(role) + " is not backed by CUDA storage"@,
        )),
        contiguous && cuda_storage && start + len > usize::MAX ==> (r matches Err(e) && is_invalid_shape(
            e,
            tensor_name@,
            "CUDA zero-copy "@ + role_word(role) + " offset overflow"@,
        )),
        contiguous && cuda_storage && start + len <= usize::MAX && spec_dtype_of(data_type) is None ==> (r matches Err(
            Error::UnsupportedDataType { data_type: d, context },
        ) && d == data_type && context@ == match role {
            ViewRole::Input => "Candle CUDA input pointer conversion"@,
            ViewRole::Output => "Candle CUDA output pointer conversion"@,
        }),
        contiguous && cuda_storage && start + len <= usize::MAX && spec_dtype_of(data_type) is Some ==> r
            == Ok::<(usize, usize), Error>((start, (start + len) as usize)),
{
    let word = match role {
        ViewRole::Input => "input",
        ViewRole::Output => "output",
    };
    if !contiguous {
        return Err(
            Error::InvalidShape {
                tensor: owned(tensor_name),
                reason: join3("CUDA zero-copy ", word, " must be contiguous"),
            },
        );
    }
    if !cuda_storage {
        return Err(
            Error::InvalidShape {
                tensor: owned(tensor_name),
                reason: join3("CUDA zero-copy ", word, " is not backed by CUDA storage"),
            },
        );
    }
    let end = match start.checked_add(len) {
        Some(end) => end,
        None => return Err(
            Error::InvalidShape {
                tensor: owned(tensor_name),
                reason: join3("CUDA zero-copy ", word, " offset overflow"),
            },
        ),
    };
    match data_type {
        DataType::Float | DataType::Half | DataType::Bf16 | DataType::Int32 | DataType::Int64
        | DataType::Uint8 => Ok((start, end)),
        _ => Err(
            Error::UnsupportedDataType {
                data_type,
                context: match role {
                    ViewRole::Input => "Candle CUDA input pointer conversion",
                    ViewRole::Output => "Candle CUDA output pointer conversion",
                },
            },
        ),
    }
}

/// The data type, shape and byte length of a Candle input bound zero-copy.
pub fn prepare_cuda_input_layout(name: &str, dtype: DType, dims: &[usize]) -> (r: Result<(DataType, Dims, usize), Error>)
    ensures
        spec_data_type_of(dtype) is None ==> (r matches Err(Error::UnsupportedCandleDType { dtype: x, .. }) && x == dtype),
        spec_data_type_of(dtype) matches Some(dt) ==> {
            &&& (exists|k: int| #[trigger] first_wide_dim(dims@, k)) ==> r is Err
            &&& (forall|k: int| 0 <= k < dims@.len() ==> #[trigger] dims@[k] <= i64::MAX) && dims@.len() > MAX_DIMS ==> (r matches Err(Error::InvalidDimensions { .. }))
            &&& (forall|k: int| 0 <= k < dims@.len() ==> #[trigger] dims@[k] <= i64::MAX) && dims@.len() <= MAX_DIMS ==> {
                let shape = Seq::new(dims@.len(), |k: int| dims@[k] as i64);
                match spec_byte_len(shape, dt) {
                    Some(n) => (r matches Ok((d, s, b)) && d == dt && s@ == shape && b == n),
                    None => (r matches Err(e) && byte_len_error(e, name@, shape, dt)),
                }
            }
        },
{
    let data_type = match data_type_from_candle(dtype) {
        Ok(d) => d,
        Err(e) => return Err(e),
    };
    let shape = match candle_dims(name, dims) {
        Ok(s) => s,
        Err(e) => return Err(e),
    };
    proof {
        if forall|k: int| 0 <= k < dims@.len() ==> #[trigger] dims@[k] <= i64::MAX {
            assert(shape@ =~= Seq::new(dims@.len(), |k: int| dims@[k] as i64));
        }
    }
    let bytes = match tensor_byte_len(name, &shape, data_type) {
        Ok(n) => n,
        Err(e) => return Err(e),
    };
    Ok((data_type, shape, bytes))
}

/// `e` reports an output bound where the plan expects another.
pub open spec fn is_binding_order_error(e: Error, name: Seq<char>, expected: Seq<char>) -> bool {
    is_invalid_shape(e, name, "expected output binding "@ + str_debug(expected))
}

/// Checks a preallocated Candle output against the plan's output at its
/// position, returning its data type and shape.
///
/// The output must have the plan's name, be on the run's CUDA device, and
/// have the plan's data type and shape.
pub fn check_cuda_output(
    plan: &DeviceOutputPlan,
    output_name: &str,
    is_cuda: bool,
    same_device: bool,
    dtype: DType,
    dims: &[usize],
) -> (r: Result<(DataType, Dims), Error>)
    ensures
        output_name@ != plan.name@ ==> (r matches Err(e) && is_binding_order_error(e, output_name@, plan.name@)),
        output_name@ == plan.name@ && !is_cuda ==> (r matches Err(e) && is_invalid_shape(
            e,
            output_name@,
            "Candle session run requires CUDA output tensors"@,
        )),
        output_name@ == plan.name@ && is_cuda && !same_device ==> (r matches Err(e) && is_invalid_shape(
            e,
            output_name@,
            "output tensor must be on the same CUDA device as the inputs and stream"@,
        )),
        output_name@ == plan.name@ && is_cuda && same_device ==> match spec_data_type_of(dtype) {
            None => r matches Err(Error::UnsupportedCandleDType { dtype: x, .. }) && x == dtype,
            Some(dt) => if dt != plan.data_type {
                r matches Err(Error::TypeMismatch { tensor, expected, actual }) && tensor@ == output_name@
                    && expected == plan.data_type && actual == dt
            } else if (forall|k: int| 0 <= k < dims@.len() ==> #[trigger] dims@[k] <= i64::MAX) && dims@.len() <= MAX_DIMS {
                let shape = Seq::new(dims@.len(), |k: int| dims@[k] as i64);
                if shape == plan.shape@ {
                    r matches Ok((d, s)) && d == dt && s@ == shape
                } else {
                    r matches Err(e) && is_invalid_shape(
                        e,
                        output_name@,
                        "expected output shape "@ + debug_list(plan.shape@) + ", got "@ + debug_list(shape),
                    )
                }
            } else {
                r is Err
            },
        },
{
    if !same_text(output_name, plan.name.as_str()) {
        let quoted = str_debug_text(plan.name.as_str());
        let reason = join2("expected output binding ", quoted.as_str());
        return Err(Error::InvalidShape { tensor: owned(output_name), reason });
    }
    if !is_cuda {
        return Err(
            Error::InvalidShape {
                tensor: owned(output_name),
                reason: owned("Candle session run requires CUDA output tensors"),
            },
        );
    }
    if !same_device {
        return Err(
            Error::InvalidShape {
                tensor: owned(output_name),
                reason: owned("output tensor must be on the same CUDA device as the inputs and stream"),
            },
        );
    }
    let data_type = match data_type_from_candle(dtype) {
        Ok(d) => d,
        Err(e) => return Err(e),
    };
    if data_type != plan.data_type {
        return Err(
            Error::TypeMismatch { tensor: owned(output_name), expected: plan.data_type, actual: data_type },
        );
    }
    let shape = match candle_dims(output_name, dims) {
        Ok(s) => s,
        Err(e) => return Err(e),
    };
    proof {
        assert(shape@ =~= Seq::new(dims@.len(), |k: int| dims@[k] as i64));
    }
    if !shape.same_as(&plan.shape) {
        let expected = debug_i64_list(plan.shape.as_slice());
        let got = debug_i64_list(shape.as_slice());
        let reason = join4("expected output shape ", expected.as_str(), ", got ", got.as_str());
        return Err(Error::InvalidShape { tensor: owned(output_name), reason });
    }
    Ok((data_type, shape))
}

/// The position of the first entry named `name`.
pub fn first_named<T>(entries: &[(String, T)], name: &str) -> (r: Option<usize>)
    ensures
        r matches Some(i) ==> i < entries@.len() && entries@[i as int].0@ == name@ && forall|j: int|
            0 <= j < i ==> (#[trigger] entries@[j]).0@ != name@,
        r is None ==> forall|j: int| 0 <= j < entries@.len() ==> (#[trigger] entries@[j]).0@ != name@,
{
    let mut k: usize = 0;
    while k < entries.len()
        invariant
            k <= entries@.len(),
            forall|j: int| 0 <= j < k ==> (#[trigger] entries@[j]).0@ != name@,
        decreases entries@.len() - k,
    {
        if same_text(entries[k].0.as_str(), name) {
            return Some(k);
        }
        k = k + 1;
    }
    None
}

} // verus!
