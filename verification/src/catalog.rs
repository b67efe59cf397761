//! The engine's I/O tensors as a session holds them, and the checks that a
//! session makes of every binding against them.

use vstd::prelude::*;
use crate::binding::{
    DeviceInputTensor, DeviceOutputTensor, HostInputTensor, TensorInfo, TensorInfoView, TensorShape,
    views_of,
};
use crate::data_type::DataType;
use crate::error::Error;
use crate::tensor::{Dims, TensorIOMode, byte_len_error, spec_byte_len, spec_is_dynamic, tensor_byte_len};
use crate::text::{
    debug_i64_list, debug_list, decimal_i64, decimal_usize, i64_text, join2, join3, join4, owned,
    same_text, usize_text,
};

verus! {

/// The I/O tensors of a deserialized engine, in engine order.
pub struct SessionTensors {
    io_tensors: Vec<TensorInfo>,
}

impl View for SessionTensors {
    type V = Seq<TensorInfoView>;

    closed spec fn view(&self) -> Seq<TensorInfoView> {
        views_of(self.io_tensors@)
    }
}

/// The index that a name is looked up at: the last tensor of that name, as a
/// name-to-index map built in engine order keeps it.
pub open spec fn spec_index_of(ts: Seq<TensorInfoView>, name: Seq<char>) -> Option<int>
    decreases ts.len(),
{
    if ts.len() == 0 {
        None
    } else if ts.last().name == name {
        Some(ts.len() - 1)
    } else {
        spec_index_of(ts.drop_last(), name)
    }
}

/// `e` reports that `name` is not one of the engine's I/O tensors.
pub open spec fn is_unknown_tensor(e: Error, name: Seq<char>) -> bool {
    e matches Error::InvalidShape { tensor, reason } && tensor@ == name && reason@
        == "tensor is not an engine I/O tensor"@
}

/// `e` is an `InvalidShape` error for `tensor` with reason `reason`.
pub open spec fn is_shape_error(e: Error, tensor: Seq<char>, reason: Seq<char>) -> bool {
    e matches Error::InvalidShape { tensor: t, reason: why } && t@ == tensor && why@ == reason
}

/// The first axis at which a requested extent differs from a static engine
/// extent.
pub open spec fn first_static_mismatch(engine: Seq<i64>, shape: Seq<i64>, axis: int) -> bool {
    &&& 0 <= axis < engine.len()
    &&& engine[axis] >= 0 && engine[axis] != shape[axis]
    &&& forall|j: int|
        0 <= j < axis ==> !(#[trigger] engine[j] >= 0 && engine[j] != shape[j])
}

/// Whether a requested shape fits an engine shape: same rank, every static
/// engine extent kept, and no unknown extent left.
pub open spec fn spec_shape_fits(engine: Seq<i64>, shape: Seq<i64>) -> bool {
    &&& engine.len() == shape.len()
    &&& forall|j: int| 0 <= j < engine.len() ==> !(#[trigger] engine[j] >= 0 && engine[j] != shape[j])
    &&& !spec_is_dynamic(shape)
}

/// The outcome of checking a requested shape against an engine shape.
pub open spec fn shape_check_ok(
    engine: Seq<i64>,
    shape: Seq<i64>,
    tensor: Seq<char>,
    r: Result<(), Error>,
) -> bool {
    &&& engine.len() != shape.len() ==> (r matches Err(e) && is_shape_error(
        e,
        tensor,
        "expected rank "@ + decimal_usize(engine.len() as usize) + ", got rank "@ + decimal_usize(
            shape.len() as usize,
        ),
    ))
    &&& forall|axis: int|
        #![trigger first_static_mismatch(engine, shape, axis)]
        engine.len() == shape.len() && first_static_mismatch(engine, shape, axis) ==> (r matches Err(
            e,
        ) && is_shape_error(
            e,
            tensor,
            "axis "@ + decimal_usize(axis as usize) + " is static at "@ + decimal_i64(engine[axis])
                + ", but requested "@ + decimal_i64(shape[axis]),
        ))
    &&& engine.len() == shape.len() && (forall|j: int|
        0 <= j < engine.len() ==> !(#[trigger] engine[j] >= 0 && engine[j] != shape[j]))
        && spec_is_dynamic(shape) ==> (r matches Err(e) && is_shape_error(
        e,
        tensor,
        "runtime bindings require concrete dimensions, got "@ + debug_list(shape),
    ))
    &&& r is Ok <==> spec_shape_fits(engine, shape)
}

/// Checks a requested shape against the engine's shape of the same tensor.
pub fn check_shape_against(tensor: &str, engine_shape: &Dims, shape: &Dims) -> (r: Result<(), Error>)
    ensures
        shape_check_ok(engine_shape@, shape@, tensor@, r),
{
    let engine_rank = engine_shape.rank();
    let rank = shape.rank();
    if engine_rank != rank {
        let a = usize_text(engine_rank);
        let b = usize_text(rank);
        let head = join4("expected rank ", a.as_str(), ", got rank ", b.as_str());
        return Err(Error::InvalidShape { tensor: owned(tensor), reason: head });
    }
    let e = engine_shape.as_slice();
    let s = shape.as_slice();
    let mut axis: usize = 0;
    while axis < e.len()
        invariant
            e@ == engine_shape@,
            s@ == shape@,
            e@.len() == s@.len(),
            axis <= e@.len(),
            forall|j: int| 0 <= j < axis ==> !(#[trigger] e@[j] >= 0 && e@[j] != s@[j]),
        decreases e@.len() - axis,
    {
        if e[axis] >= 0 && e[axis] != s[axis] {
            assert(first_static_mismatch(engine_shape@, shape@, axis as int));
            assert forall|other: int|
                #![trigger first_static_mismatch(engine_shape@, shape@, other)]
                first_static_mismatch(engine_shape@, shape@, other) implies other == axis by {
                if other < axis {
                } else if other > axis {
                    assert(!(e@[axis as int] >= 0 && e@[axis as int] != s@[axis as int]));
                }
            }
            let a = usize_text(axis);
            let ed = i64_text(e[axis]);
            let sd = i64_text(s[axis]);
            let head = join4("axis ", a.as_str(), " is static at ", ed.as_str());
            let reason = join3(head.as_str(), ", but requested ", sd.as_str());
            return Err(Error::InvalidShape { tensor: owned(tensor), reason });
        }
        axis = axis + 1;
    }
    if shape.is_dynamic() {
        let d = debug_i64_list(s);
        let reason = join2("runtime bindings require concrete dimensions, got ", d.as_str());
        return Err(Error::InvalidShape { tensor: owned(tensor), reason });
    }
    Ok(())
}

/// `e` reports that `tensor` is bound in the wrong I/O role.
pub open spec fn is_mode_error(e: Error, tensor: Seq<char>, expected: TensorIOMode, actual: TensorIOMode) -> bool {
    e matches Error::TensorModeMismatch { tensor: t, expected: x, actual: a } && t@ == tensor && x
        == expected && a == actual
}

/// `e` reports that `tensor` is bound with the wrong data type.
pub open spec fn is_type_error(e: Error, tensor: Seq<char>, expected: DataType, actual: DataType) -> bool {
    e matches Error::TypeMismatch { tensor: t, expected: x, actual: a } && t@ == tensor && x
        == expected && a == actual
}

/// `e` reports a byte length other than the one the binding needs.
pub open spec fn is_size_error(e: Error, tensor: Seq<char>, expected: nat, actual: nat) -> bool {
    e matches Error::SizeMismatch { tensor: t, expected_bytes: x, actual_bytes: a } && t@ == tensor
        && x == expected && a == actual
}

/// The outcome of checking a binding's shape, I/O role, data type and byte
/// length against the engine's tensor `t`, in that order.
pub open spec fn device_layout_outcome(
    t: TensorInfoView,
    role: TensorIOMode,
    name: Seq<char>,
    shape: Seq<i64>,
    data_type: DataType,
    bytes: usize,
    r: Result<(), Error>,
) -> bool {
    if !spec_shape_fits(t.shape, shape) {
        shape_check_ok(t.shape, shape, name, r)
    } else if t.io_mode != role {
        r matches Err(e) && is_mode_error(e, name, role, t.io_mode)
    } else if t.data_type != data_type {
        r matches Err(e) && is_type_error(e, name, data_type, t.data_type)
    } else {
        match spec_byte_len(shape, data_type) {
            None => r matches Err(e) && byte_len_error(e, name, shape, data_type),
            Some(n) => if n != bytes {
                r matches Err(e) && is_size_error(e, name, n, bytes as nat)
            } else {
                r is Ok
            },
        }
    }
}

/// A binding passes the shape, role, data type and byte length checks.
pub open spec fn device_layout_passes(
    t: TensorInfoView,
    role: TensorIOMode,
    shape: Seq<i64>,
    data_type: DataType,
    bytes: usize,
) -> bool {
    spec_shape_fits(t.shape, shape) && t.io_mode == role && t.data_type == data_type
        && spec_byte_len(shape, data_type) == Some(bytes as nat)
}

/// A device input passes its layout checks against the engine's tensors.
pub open spec fn device_input_passes(ts: Seq<TensorInfoView>, input: DeviceInputTensor) -> bool {
    spec_index_of(ts, input.name@) matches Some(i) && device_layout_passes(
        ts[i],
        TensorIOMode::Input,
        input.shape@,
        input.data_type,
        input.bytes,
    )
}

/// `k` is the first device input that fails its layout checks.
pub open spec fn first_failing_device_input(ts: Seq<TensorInfoView>, inputs: Seq<DeviceInputTensor>, k: int) -> bool {
    &&& 0 <= k < inputs.len()
    &&& !device_input_passes(ts, inputs[k])
    &&& forall|j: int| 0 <= j < k ==> #[trigger] device_input_passes(ts, inputs[j])
}

/// The outcome of checking a host input against the engine's tensor `t`:
/// shape, input role, its declared data type if any, then its byte length.
pub open spec fn host_input_outcome(
    t: TensorInfoView,
    name: Seq<char>,
    shape: Seq<i64>,
    expected_data_type: Option<DataType>,
    len: nat,
    r: Result<usize, Error>,
) -> bool {
    if !spec_shape_fits(t.shape, shape) {
        r matches Err(e) && shape_check_ok(t.shape, shape, name, Err::<(), Error>(e))
    } else if t.io_mode != TensorIOMode::Input {
        r matches Err(e) && is_mode_error(e, name, TensorIOMode::Input, t.io_mode)
    } else if expected_data_type matches Some(d) && d != t.data_type {
        r matches Err(e) && is_type_error(e, name, expected_data_type->0, t.data_type)
    } else {
        match spec_byte_len(shape, t.data_type) {
            None => r matches Err(e) && byte_len_error(e, name, shape, t.data_type),
            Some(n) => if n != len {
                r matches Err(e) && is_size_error(e, name, n, len)
            } else {
                r == Ok::<usize, Error>(n as usize)
            },
        }
    }
}

/// `e` reports an output shape other than the one the context reports.
pub open spec fn is_output_shape_error(e: Error, name: Seq<char>, shape: Seq<i64>, actual: Seq<i64>) -> bool {
    is_shape_error(e, name, "expected output shape "@ + debug_list(shape) + ", got "@ + debug_list(actual))
}

/// The outcome of checking a device output against the engine's tensor `t`
/// and the shape the context reports.
pub open spec fn device_output_outcome(
    t: TensorInfoView,
    name: Seq<char>,
    shape: Seq<i64>,
    data_type: DataType,
    bytes: usize,
    ptr: usize,
    actual_shape: Seq<i64>,
    r: Result<(), Error>,
) -> bool {
    if !spec_shape_fits(t.shape, shape) {
        shape_check_ok(t.shape, shape, name, r)
    } else if t.io_mode != TensorIOMode::Output {
        r matches Err(e) && is_mode_error(e, name, TensorIOMode::Output, t.io_mode)
    } else if t.data_type != data_type {
        r matches Err(e) && is_type_error(e, name, data_type, t.data_type)
    } else if actual_shape != shape {
        r matches Err(e) && is_output_shape_error(e, name, shape, actual_shape)
    } else {
        match spec_byte_len(shape, data_type) {
            None => r matches Err(e) && byte_len_error(e, name, shape, data_type),
            Some(n) => if n != bytes {
                r matches Err(e) && is_size_error(e, name, n, bytes as nat)
            } else if ptr == 0 {
                r matches Err(e) && is_shape_error(e, name, "device output pointer is null"@)
            } else {
                r is Ok
            },
        }
    }
}

/// The outcome of checking a host output buffer against the engine's tensor
/// `t` and the shape the context reports.
pub open spec fn host_output_outcome(
    t: TensorInfoView,
    name: Seq<char>,
    shape: Seq<i64>,
    byte_len: usize,
    actual_shape: Seq<i64>,
    r: Result<usize, Error>,
) -> bool {
    if !spec_shape_fits(t.shape, shape) {
        r matches Err(e) && shape_check_ok(t.shape, shape, name, Err::<(), Error>(e))
    } else if t.io_mode != TensorIOMode::Output {
        r matches Err(e) && is_mode_error(e, name, TensorIOMode::Output, t.io_mode)
    } else if actual_shape != shape {
        r matches Err(e) && is_output_shape_error(e, name, shape, actual_shape)
    } else {
        match spec_byte_len(shape, t.data_type) {
            None => r matches Err(e) && byte_len_error(e, name, shape, t.data_type),
            Some(n) => if n != byte_len {
                r matches Err(e) && is_size_error(e, name, n, byte_len as nat)
            } else {
                r == Ok::<usize, Error>(n as usize)
            },
        }
    }
}

impl SessionTensors {
    /// A catalog of the engine's I/O tensors, in engine order.
    pub fn new(io_tensors: Vec<TensorInfo>) -> (r: Self)
        ensures
            r@ == views_of(io_tensors@),
    {
        SessionTensors { io_tensors }
    }

    /// The engine's I/O tensors, in engine order.
    pub fn io_tensors(&self) -> (r: &[TensorInfo])
        ensures
            views_of(r@) == self@,
    {
        self.io_tensors.as_slice()
    }

    /// The position of the I/O tensor named `tensor`.
    pub fn tensor_index(&self, tensor: &str) -> (r: Result<usize, Error>)
        ensures
            spec_index_of(self@, tensor@) matches Some(i) ==> r == Ok::<usize, Error>(i as usize),
            spec_index_of(self@, tensor@) is None ==> (r matches Err(e) && is_unknown_tensor(
                e,
                tensor@,
            )),
    {
        let mut k: usize = self.io_tensors.len();
        assert(self@.subrange(0, k as int) =~= self@);
        while k > 0
            invariant
                k <= self@.len(),
                self@.len() == self.io_tensors@.len(),
                spec_index_of(self@, tensor@) == spec_index_of(self@.subrange(0, k as int), tensor@),
            decreases k,
        {
            let i = k - 1;
            let ghost prefix = self@.subrange(0, k as int);
            assert(prefix.drop_last() =~= self@.subrange(0, i as int));
            if same_text(self.io_tensors[i].name.as_str(), tensor) {
                return Ok(i);
            }
            k = i;
        }
        Err(
            Error::InvalidShape {
                tensor: owned(tensor),
                reason: owned("tensor is not an engine I/O tensor"),
            },
        )
    }

    /// The metadata of the I/O tensor named `tensor`.
    pub fn tensor_info(&self, tensor: &str) -> (r: Result<&TensorInfo, Error>)
        ensures
            spec_index_of(self@, tensor@) matches Some(i) ==> (r matches Ok(t) && t@ == self@[i]),
            spec_index_of(self@, tensor@) is None ==> (r matches Err(e) && is_unknown_tensor(
                e,
                tensor@,
            )),
    {
        let count = self.io_tensors.len();
        proof {
            lemma_index_in_range(self@, tensor@);
        }
        match self.tensor_index(tensor) {
            Ok(i) => {
                assert(self@.len() == self.io_tensors@.len());
                assert(self@[i as int] == self.io_tensors@[i as int]@);
                let t = &self.io_tensors[i];
                assert(t@ == self@[i as int]);
                Ok(t)
            },
            Err(e) => Err(e),
        }
    }

    /// The data type of the I/O tensor named `tensor`.
    pub fn tensor_data_type(&self, tensor: &str) -> (r: Result<DataType, Error>)
        ensures
            spec_index_of(self@, tensor@) matches Some(i) ==> r == Ok::<DataType, Error>(
                self@[i].data_type,
            ),
            spec_index_of(self@, tensor@) is None ==> (r matches Err(e) && is_unknown_tensor(
                e,
                tensor@,
            )),
    {
        match self.tensor_info(tensor) {
            Ok(t) => Ok(t.data_type),
            Err(e) => Err(e),
        }
    }

    /// Byte length of the I/O tensor named `name` at `shape`, with the
    /// engine's data type.
    pub fn tensor_byte_len(&self, name: &str, shape: &Dims) -> (r: Result<usize, Error>)
        ensures
            spec_index_of(self@, name@) is None ==> (r matches Err(e) && is_unknown_tensor(e, name@)),
            spec_index_of(self@, name@) matches Some(i) ==> match spec_byte_len(
                shape@,
                self@[i].data_type,
            ) {
                Some(n) => r == Ok::<usize, Error>(n as usize),
                None => r matches Err(e) && byte_len_error(e, name@, shape@, self@[i].data_type),
            },
    {
        match self.tensor_data_type(name) {
            Ok(dt) => tensor_byte_len(name, shape, dt),
            Err(e) => Err(e),
        }
    }

    /// Checks a requested shape against the engine's shape of `tensor`.
    pub fn validate_tensor_shape(&self, tensor: &str, shape: &Dims) -> (r: Result<(), Error>)
        ensures
            spec_index_of(self@, tensor@) is None ==> (r matches Err(e) && is_unknown_tensor(
                e,
                tensor@,
            )),
            spec_index_of(self@, tensor@) matches Some(i) ==> shape_check_ok(
                self@[i].shape,
                shape@,
                tensor@,
                r,
            ),
    {
        match self.tensor_info(tensor) {
            Ok(info) => check_shape_against(tensor, &info.shape, shape),
            Err(e) => Err(e),
        }
    }

    /// Checks that `tensor` is an I/O tensor in the `expected` role.
    pub fn ensure_tensor_mode(&self, tensor: &str, expected: TensorIOMode) -> (r: Result<(), Error>)
        ensures
            spec_index_of(self@, tensor@) is None ==> (r matches Err(e) && is_unknown_tensor(
                e,
                tensor@,
            )),
            spec_index_of(self@, tensor@) matches Some(i) ==> (if self@[i].io_mode == expected {
                r is Ok
            } else {
                r matches Err(e) && is_mode_error(e, tensor@, expected, self@[i].io_mode)
            }),
    {
        match self.tensor_info(tensor) {
            Ok(info) => {
                let actual = info.io_mode;
                if actual == expected {
                    Ok(())
                } else {
                    Err(Error::TensorModeMismatch { tensor: owned(tensor), expected, actual })
                }
            },
            Err(e) => Err(e),
        }
    }

    /// Checks that `tensor` has the `expected` data type.
    pub fn ensure_tensor_type(&self, tensor: &str, expected: DataType) -> (r: Result<(), Error>)
        ensures
            spec_index_of(self@, tensor@) is None ==> (r matches Err(e) && is_unknown_tensor(
                e,
                tensor@,
            )),
            spec_index_of(self@, tensor@) matches Some(i) ==> (if self@[i].data_type == expected {
                r is Ok
            } else {
                r matches Err(e) && is_type_error(e, tensor@, expected, self@[i].data_type)
            }),
    {
        match self.tensor_data_type(tensor) {
            Ok(actual) => {
                if actual == expected {
                    Ok(())
                } else {
                    Err(Error::TypeMismatch { tensor: owned(tensor), expected, actual })
                }
            },
            Err(e) => Err(e),
        }
    }

    /// Checks a device buffer's type and length against what `tensor` needs
    /// at `shape`.
    pub fn validate_device_bytes(
        &self,
        tensor: &str,
        shape: &Dims,
        data_type: DataType,
        actual_bytes: usize,
    ) -> (r: Result<(), Error>)
        ensures
            spec_index_of(self@, tensor@) is None ==> (r matches Err(e) && is_unknown_tensor(
                e,
                tensor@,
            )),
            spec_index_of(self@, tensor@) matches Some(i) ==> {
                &&& self@[i].data_type != data_type ==> (r matches Err(e) && is_type_error(
                    e,
                    tensor@,
                    self@[i].data_type,
                    data_type,
                ))
                &&& self@[i].data_type == data_type ==> match spec_byte_len(shape@, data_type) {
                    None => r matches Err(e) && byte_len_error(e, tensor@, shape@, data_type),
                    Some(n) => if n == actual_bytes {
                        r is Ok
                    } else {
                        r matches Err(e) && is_size_error(e, tensor@, n, actual_bytes as nat)
                    },
                }
            },
    {
        let engine_data_type = match self.tensor_data_type(tensor) {
            Ok(dt) => dt,
            Err(e) => return Err(e),
        };
        if engine_data_type != data_type {
            return Err(
                Error::TypeMismatch { tensor: owned(tensor), expected: engine_data_type, actual: data_type },
            );
        }
        let expected_bytes = match tensor_byte_len(tensor, shape, data_type) {
            Ok(n) => n,
            Err(e) => return Err(e),
        };
        if actual_bytes == expected_bytes {
            Ok(())
        } else {
            Err(Error::SizeMismatch { tensor: owned(tensor), expected_bytes, actual_bytes })
        }
    }

    /// The metadata of an input bound at a requested shape: the engine's data
    /// type, the requested shape, the `Input` role.
    pub fn input_info_from_shape(&self, input: &TensorShape<'_>) -> (r: Result<TensorInfo, Error>)
        ensures
            spec_index_of(self@, input.name@) is None ==> (r matches Err(e) && is_unknown_tensor(
                e,
                input.name@,
            )),
            spec_index_of(self@, input.name@) matches Some(i) ==> (r matches Ok(t) && t@
                == (TensorInfoView {
                name: input.name@,
                shape: input.shape@,
                data_type: self@[i].data_type,
                io_mode: TensorIOMode::Input,
            })),
    {
        match self.tensor_info(input.name) {
            Ok(info) => Ok(
                TensorInfo::with_io_mode(
                    input.name,
                    info.data_type,
                    input.shape.clone(),
                    TensorIOMode::Input,
                ),
            ),
            Err(e) => Err(e),
        }
    }

    /// Checks a host input before it is bound or staged, returning the byte
    /// length that the engine needs for it.
    ///
    /// The input must name an engine input, fit its shape, carry its data type
    /// when it names one, and hold exactly the tensor's bytes.
    pub fn check_host_input(&self, input: &HostInputTensor<'_>) -> (r: Result<usize, Error>)
        ensures
            match spec_index_of(self@, input.name@) {
                None => r matches Err(e) && is_unknown_tensor(e, input.name@),
                Some(i) => host_input_outcome(self@[i], input.name@, input.shape@, input.expected_data_type, input.bytes@.len(), r),
            },
    {
        proof {
            lemma_index_in_range(self@, input.name@);
        }
        match self.validate_tensor_shape(input.name, &input.shape) {
            Err(e) => return Err(e),
            Ok(()) => {},
        }
        match self.ensure_tensor_mode(input.name, TensorIOMode::Input) {
            Err(e) => return Err(e),
            Ok(()) => {},
        }
        match input.expected_data_type {
            Some(expected) => match self.ensure_tensor_type(input.name, expected) {
                Err(e) => return Err(e),
                Ok(()) => {},
            },
            None => {},
        }
        let expected_bytes = match self.tensor_byte_len(input.name, &input.shape) {
            Ok(n) => n,
            Err(e) => return Err(e),
        };
        if input.bytes.len() != expected_bytes {
            return Err(
                Error::SizeMismatch {
                    tensor: owned(input.name),
                    expected_bytes,
                    actual_bytes: input.bytes.len(),
                },
            );
        }
        Ok(expected_bytes)
    }

    /// Checks a caller-owned device input's shape, role, data type and byte
    /// length before it is bound.
    pub fn check_device_input_layout(&self, input: &DeviceInputTensor<'_>) -> (r: Result<(), Error>)
        ensures
            match spec_index_of(self@, input.name@) {
                None => r matches Err(e) && is_unknown_tensor(e, input.name@),
                Some(i) => device_layout_outcome(self@[i], TensorIOMode::Input, input.name@, input.shape@, input.data_type, input.bytes, r),
            },
    {
        proof {
            lemma_index_in_range(self@, input.name@);
        }
        match self.validate_tensor_shape(input.name, &input.shape) {
            Err(e) => return Err(e),
            Ok(()) => {},
        }
        match self.ensure_tensor_mode(input.name, TensorIOMode::Input) {
            Err(e) => return Err(e),
            Ok(()) => {},
        }
        match self.ensure_tensor_type(input.name, input.data_type) {
            Err(e) => return Err(e),
            Ok(()) => {},
        }
        self.validate_device_bytes(input.name, &input.shape, input.data_type, input.bytes)
    }

    /// Checks a caller-owned device input before it is bound: its layout,
    /// then a non-null address.
    pub fn check_device_input(&self, input: &DeviceInputTensor<'_>) -> (r: Result<(), Error>)
        ensures
            match spec_index_of(self@, input.name@) {
                None => r matches Err(e) && is_unknown_tensor(e, input.name@),
                Some(i) => if device_layout_passes(self@[i], TensorIOMode::Input, input.shape@, input.data_type, input.bytes) {
                    if input.ptr == 0 {
                        r matches Err(e) && is_shape_error(e, input.name@, "device input pointer is null"@)
                    } else {
                        r is Ok
                    }
                } else {
                    device_layout_outcome(self@[i], TensorIOMode::Input, input.name@, input.shape@, input.data_type, input.bytes, r)
                },
            },
    {
        match self.check_device_input_layout(input) {
            Err(e) => return Err(e),
            Ok(()) => {},
        }
        if input.ptr == 0 {
            return Err(
                Error::InvalidShape {
                    tensor: owned(input.name),
                    reason: owned("device input pointer is null"),
                },
            );
        }
        Ok(())
    }

    /// Checks the layout of every device input, in order; fails at the first
    /// input that does not pass.
    pub fn validate_device_inputs(&self, inputs: &[DeviceInputTensor<'_>]) -> (r: Result<(), Error>)
        ensures
            (forall|k: int| 0 <= k < inputs@.len() ==> #[trigger] device_input_passes(self@, inputs@[k])) ==> r is Ok,
            forall|k: int|
                #![trigger first_failing_device_input(self@, inputs@, k)]
                first_failing_device_input(self@, inputs@, k) ==> match spec_index_of(self@, inputs@[k].name@) {
                    None => r matches Err(e) && is_unknown_tensor(e, inputs@[k].name@),
                    Some(i) => device_layout_outcome(self@[i], TensorIOMode::Input, inputs@[k].name@, inputs@[k].shape@, inputs@[k].data_type, inputs@[k].bytes, r),
                },
    {
        let mut k: usize = 0;
        while k < inputs.len()
            invariant
                k <= inputs@.len(),
                forall|j: int| 0 <= j < k ==> #[trigger] device_input_passes(self@, inputs@[j]),
            decreases inputs@.len() - k,
        {
            proof {
                lemma_index_in_range(self@, inputs@[k as int].name@);
            }
            let r = self.check_device_input_layout(&inputs[k]);
            if r.is_err() {
                assert(first_failing_device_input(self@, inputs@, k as int));
                assert forall|other: int|
                    #![trigger first_failing_device_input(self@, inputs@, other)]
                    first_failing_device_input(self@, inputs@, other) implies other == k by {
                    if other < k {
                    } else if other > k {
                    }
                }
                return r;
            }
            k = k + 1;
        }
        proof {
            assert forall|other: int|
                #![trigger first_failing_device_input(self@, inputs@, other)]
                !first_failing_device_input(self@, inputs@, other) by {}
        }
        Ok(())
    }

    /// Checks a caller-owned device output before it is bound, given the
    /// shape that the execution context reports for it.
    ///
    /// The output must name an engine output, fit its shape, carry its data
    /// type, match the reported shape, span exactly the tensor's bytes and
    /// have a non-null address.
    pub fn check_device_output(&self, output: &DeviceOutputTensor<'_>, actual_shape: &Dims) -> (r: Result<(), Error>)
        ensures
            match spec_index_of(self@, output.name@) {
                None => r matches Err(e) && is_unknown_tensor(e, output.name@),
                Some(i) => device_output_outcome(self@[i], output.name@, output.shape@, output.data_type, output.bytes, output.ptr, actual_shape@, r),
            },
    {
        proof {
            lemma_index_in_range(self@, output.name@);
        }
        match self.validate_tensor_shape(output.name, &output.shape) {
            Err(e) => return Err(e),
            Ok(()) => {},
        }
        match self.ensure_tensor_mode(output.name, TensorIOMode::Output) {
            Err(e) => return Err(e),
            Ok(()) => {},
        }
        match self.ensure_tensor_type(output.name, output.data_type) {
            Err(e) => return Err(e),
            Ok(()) => {},
        }
        if !actual_shape.same_as(&output.shape) {
            let expected = debug_i64_list(output.shape.as_slice());
            let got = debug_i64_list(actual_shape.as_slice());
            let head = join4("expected output shape ", expected.as_str(), ", got ", got.as_str());
            return Err(Error::InvalidShape { tensor: owned(output.name), reason: head });
        }
        match self.validate_device_bytes(output.name, &output.shape, output.data_type, output.bytes) {
            Err(e) => return Err(e),
            Ok(()) => {},
        }
        if output.ptr == 0 {
            return Err(
                Error::InvalidShape {
                    tensor: owned(output.name),
                    reason: owned("device output pointer is null"),
                },
            );
        }
        Ok(())
    }

    /// Checks a host output buffer before a run, given the shape that the
    /// execution context reports for it, returning the byte length that the
    /// engine writes.
    pub fn check_host_output(&self, name: &str, shape: &Dims, byte_len: usize, actual_shape: &Dims) -> (r: Result<usize, Error>)
        ensures
            match spec_index_of(self@, name@) {
                None => r matches Err(e) && is_unknown_tensor(e, name@),
                Some(i) => host_output_outcome(self@[i], name@, shape@, byte_len, actual_shape@, r),
            },
    {
        proof {
            lemma_index_in_range(self@, name@);
        }
        match self.validate_tensor_shape(name, shape) {
            Err(e) => return Err(e),
            Ok(()) => {},
        }
        match self.ensure_tensor_mode(name, TensorIOMode::Output) {
            Err(e) => return Err(e),
            Ok(()) => {},
        }
        if !actual_shape.same_as(shape) {
            let expected = debug_i64_list(shape.as_slice());
            let got = debug_i64_list(actual_shape.as_slice());
            let head = join4("expected output shape ", expected.as_str(), ", got ", got.as_str());
            return Err(Error::InvalidShape { tensor: owned(name), reason: head });
        }
        let expected_bytes = match self.tensor_byte_len(name, shape) {
            Ok(n) => n,
            Err(e) => return Err(e),
        };
        if byte_len != expected_bytes {
            return Err(
                Error::SizeMismatch { tensor: owned(name), expected_bytes, actual_bytes: byte_len },
            );
        }
        Ok(expected_bytes)
    }

    /// The engine's output tensors, in engine order.
    pub fn output_infos(&self) -> (r: Vec<TensorInfo>)
        ensures
            views_of(r@) == self@.filter(
                |t: TensorInfoView| t.io_mode == TensorIOMode::Output,
            ),
    {
        let mut out: Vec<TensorInfo> = Vec::new();
        let mut k: usize = 0;
        while k < self.io_tensors.len()
            invariant
                k <= self@.len(),
                self@.len() == self.io_tensors@.len(),
                views_of(out@) == self@.subrange(0, k as int).filter(
                    |t: TensorInfoView| t.io_mode == TensorIOMode::Output,
                ),
            decreases self@.len() - k,
        {
            let ghost before = views_of(out@);
            assert(self@.subrange(0, k + 1).drop_last() =~= self@.subrange(0, k as int));
            reveal_with_fuel(Seq::filter, 1);
            if self.io_tensors[k].io_mode == TensorIOMode::Output {
                out.push(self.io_tensors[k].clone());
                assert(views_of(out@) =~= before.push(self@[k as int]));
            } else {
                assert(views_of(out@) =~= before);
            }
            k = k + 1;
        }
        assert(self@.subrange(0, self@.len() as int) =~= self@);
        out
    }
}

/// The position of the first tensor named `name`.
pub open spec fn spec_first_index(ts: Seq<TensorInfoView>, name: Seq<char>) -> Option<int>
    decreases ts.len(),
{
    if ts.len() == 0 {
        None
    } else if ts[0].name == name {
        Some(0)
    } else {
        match spec_first_index(ts.drop_first(), name) {
            Some(i) => Some(i + 1),
            None => None,
        }
    }
}

/// A name found by the first-match lookup indexes a tensor of that name.
pub proof fn lemma_first_index_in_range(ts: Seq<TensorInfoView>, name: Seq<char>)
    ensures
        spec_first_index(ts, name) matches Some(i) ==> 0 <= i < ts.len() && ts[i].name == name,
        spec_first_index(ts, name) is None ==> forall|j: int| 0 <= j < ts.len() ==> #[trigger] ts[j].name != name,
    decreases ts.len(),
{
    if ts.len() > 0 {
        lemma_first_index_in_range(ts.drop_first(), name);
        if ts[0].name != name {
            assert forall|j: int| 1 <= j < ts.len() implies #[trigger] ts[j].name == ts.drop_first()[j - 1].name by {}
        }
    }
}

/// Finds the first tensor named `name`.
fn find_first(infos: &[TensorInfo], name: &str) -> (r: Option<usize>)
    ensures
        r matches Some(i) ==> spec_first_index(views_of(infos@), name@) == Some(i as int),
        r is None ==> spec_first_index(views_of(infos@), name@) is None,
{
    let ghost views = views_of(infos@);
    let mut k: usize = 0;
    while k < infos.len()
        invariant
            views == views_of(infos@),
            k <= infos@.len(),
            forall|j: int| 0 <= j < k ==> #[trigger] views[j].name != name@,
        decreases infos@.len() - k,
    {
        if same_text(infos[k].name.as_str(), name) {
            proof {
                lemma_first_index_in_range(views, name@);
                lemma_first_index_is_first(views, name@, k as int);
            }
            return Some(k);
        }
        k = k + 1;
    }
    proof {
        lemma_first_index_in_range(views, name@);
    }
    None
}

/// The first-match lookup finds the first index holding the name.
pub proof fn lemma_first_index_is_first(ts: Seq<TensorInfoView>, name: Seq<char>, k: int)
    requires
        0 <= k < ts.len(),
        ts[k].name == name,
        forall|j: int| 0 <= j < k ==> #[trigger] ts[j].name != name,
    ensures
        spec_first_index(ts, name) == Some(k),
    decreases k,
{
    if k > 0 {
        assert forall|j: int| 0 <= j < k - 1 implies #[trigger] ts.drop_first()[j].name != name by {
            assert(ts.drop_first()[j] == ts[j + 1]);
        }
        lemma_first_index_is_first(ts.drop_first(), name, k - 1);
    }
}

/// The first requested output name that shape inference did not report.
pub open spec fn first_missing(infos: Seq<TensorInfoView>, names: Seq<&str>, k: int) -> bool {
    &&& 0 <= k < names.len()
    &&& spec_first_index(infos, names[k]@) is None
    &&& forall|j: int| 0 <= j < k ==> spec_first_index(infos, #[trigger] names[j]@) is Some
}

/// Picks the requested outputs, in the requested order; no names selects every
/// output as reported.
///
/// Each name selects the first output of that name. The first name without an
/// output fails with `InvalidShape` ("output tensor was not reported by
/// TensorRT shape inference").
pub fn select_outputs(output_infos: Vec<TensorInfo>, output_names: &[&str]) -> (r: Result<Vec<TensorInfo>, Error>)
    ensures
        output_names@.len() == 0 ==> r == Ok::<Vec<TensorInfo>, Error>(output_infos),
        output_names@.len() > 0 && (forall|k: int| 0 <= k < output_names@.len() ==> spec_first_index(
            views_of(output_infos@),
            #[trigger] output_names@[k]@,
        ) is Some) ==> (r matches Ok(v) && v@.len() == output_names@.len() && forall|k: int|
            0 <= k < v@.len() ==> (#[trigger] v@[k])@ == views_of(output_infos@)[
            spec_first_index(views_of(output_infos@), output_names@[k]@).unwrap()]),
        forall|k: int|
            #![trigger first_missing(views_of(output_infos@), output_names@, k)]
            first_missing(views_of(output_infos@), output_names@, k) ==> (r matches Err(
                e,
            ) && is_shape_error(
                e,
                output_names@[k]@,
                "output tensor was not reported by TensorRT shape inference"@,
            )),
{
    if output_names.len() == 0 {
        return Ok(output_infos);
    }
    let ghost views = views_of(output_infos@);
    let mut selected: Vec<TensorInfo> = Vec::new();
    let mut k: usize = 0;
    while k < output_names.len()
        invariant
            views == views_of(output_infos@),
            k <= output_names@.len(),
            selected@.len() == k,
            forall|j: int| 0 <= j < k ==> spec_first_index(views, #[trigger] output_names@[j]@) is Some,
            forall|j: int|
                0 <= j < k ==> (#[trigger] selected@[j])@ == views[spec_first_index(
                    views,
                    output_names@[j]@,
                ).unwrap()],
        decreases output_names@.len() - k,
    {
        let name = output_names[k];
        match find_first(output_infos.as_slice(), name) {
            Some(i) => {
                proof {
                    lemma_first_index_in_range(views, name@);
                }
                selected.push(output_infos[i].clone());
            },
            None => {
                assert(first_missing(views, output_names@, k as int));
                assert forall|other: int|
                    #![trigger first_missing(views, output_names@, other)]
                    first_missing(views, output_names@, other) implies other == k by {
                    if other < k {
                    } else if other > k {
                    }
                }
                return Err(
                    Error::InvalidShape {
                        tensor: owned(name),
                        reason: owned("output tensor was not reported by TensorRT shape inference"),
                    },
                );
            },
        }
        k = k + 1;
    }
    proof {
        assert forall|other: int|
            #![trigger first_missing(views, output_names@, other)]
            !first_missing(views, output_names@, other) by {}
    }
    Ok(selected)
}

/// A name found by the lookup indexes an existing tensor of that name.
pub proof fn lemma_index_in_range(ts: Seq<TensorInfoView>, name: Seq<char>)
    ensures
        spec_index_of(ts, name) matches Some(i) ==> 0 <= i < ts.len() && ts[i].name == name,
    decreases ts.len(),
{
    if ts.len() > 0 && ts.last().name != name {
        lemma_index_in_range(ts.drop_last(), name);
    }
}

} // verus!
