//! The checks of a prepared runner: binding layouts fixed once, then each
//! launch's bindings held to that layout in order.

use vstd::prelude::*;
use crate::binding::{
    DeviceInputTensor, DeviceOutputTensor, InputBinding, TensorInfo, TensorInfoView, spec_binding_name,
    views_of,
};
use crate::catalog::{is_size_error, is_type_error};
use crate::data_type::DataType;
use crate::error::Error;
use crate::tensor::{Dims, byte_len_error, is_invalid_shape, spec_byte_len, tensor_byte_len};
use crate::text::{debug_i64_list, debug_list, decimal_usize, join3, join4, owned, same_text, usize_text};

verus! {

/// How a prepared mixed input is bound at every launch.
#[derive(Clone, Copy, Debug, Eq, PartialEq, Structural)]
pub enum PreparedInputKind {
    Host,
    HostToDevice,
    Device,
}

/// The kind of a binding.
pub open spec fn spec_input_kind(input: InputBinding) -> PreparedInputKind {
    match input {
        InputBinding::Host(_) => PreparedInputKind::Host,
        InputBinding::HostToDevice(_) => PreparedInputKind::HostToDevice,
        InputBinding::Device(_) => PreparedInputKind::Device,
    }
}

/// A binding's kind follows its variant alone, and the three variants get
/// three different kinds: host pointers are `Host`, staged host bytes
/// `HostToDevice`, device pointers `Device`.
pub proof fn lemma_input_kind_follows_variant(input: InputBinding)
    ensures
        (input is Host) <==> spec_input_kind(input) == PreparedInputKind::Host,
        (input is HostToDevice) <==> spec_input_kind(input) == PreparedInputKind::HostToDevice,
        (input is Device) <==> spec_input_kind(input) == PreparedInputKind::Device,
{
}

/// Two bindings of different variants never share a kind, so a launch that
/// binds an input under another variant than the one it was prepared with is
/// refused ("prepared mixed binding kind changed"), whatever else it carries.
pub proof fn lemma_changed_binding_variant_is_refused(
    prepared: InputBinding,
    run: InputBinding,
    expected: TensorInfoView,
    expected_bytes: usize,
    r: Result<(), Error>,
)
    requires
        (prepared is Host) != (run is Host) || (prepared is HostToDevice) != (run is HostToDevice),
        expected.name == spec_binding_name(run)@,
        mixed_binding_outcome(expected, expected_bytes, spec_input_kind(prepared), run, r),
    ensures
        r matches Err(e) && is_invalid_shape(e, spec_binding_name(run)@, "prepared mixed binding kind changed"@),
{
    lemma_input_kind_follows_variant(prepared);
    lemma_input_kind_follows_variant(run);
}

/// The kind of a binding: host pointer, staged host bytes or device pointer.
pub fn input_kind(input: &InputBinding<'_>) -> (r: PreparedInputKind)
    ensures
        r == spec_input_kind(*input),
{
    match input {
        InputBinding::Host(_) => PreparedInputKind::Host,
        InputBinding::HostToDevice(_) => PreparedInputKind::HostToDevice,
        InputBinding::Device(_) => PreparedInputKind::Device,
    }
}

/// The byte lengths of fully sized tensors, in order.
pub open spec fn byte_lens(infos: Seq<TensorInfoView>) -> Seq<usize> {
    Seq::new(infos.len(), |k: int| spec_byte_len(infos[k].shape, infos[k].data_type).unwrap() as usize)
}

/// Every tensor has a byte length.
pub open spec fn all_sized(infos: Seq<TensorInfoView>) -> bool {
    forall|k: int| 0 <= k < infos.len() ==> (#[trigger] spec_byte_len(infos[k].shape, infos[k].data_type)) is Some
}

/// `k` is the first tensor without a byte length.
pub open spec fn first_unsized(infos: Seq<TensorInfoView>, k: int) -> bool {
    &&& 0 <= k < infos.len()
    &&& spec_byte_len(infos[k].shape, infos[k].data_type) is None
    &&& forall|j: int| 0 <= j < k ==> (#[trigger] spec_byte_len(infos[j].shape, infos[j].data_type)) is Some
}

/// The outcome of sizing every tensor: the byte lengths, or the error of the
/// first tensor that has none.
pub open spec fn sizing_outcome(infos: Seq<TensorInfoView>, r: Result<Vec<usize>, Error>) -> bool {
    &&& all_sized(infos) ==> (r matches Ok(v) && v@ == byte_lens(infos))
    &&& forall|k: int|
        #![trigger first_unsized(infos, k)]
        first_unsized(infos, k) ==> (r matches Err(e) && byte_len_error(
            e,
            infos[k].name,
            infos[k].shape,
            infos[k].data_type,
        ))
}

/// The byte length of every tensor, in order; fails at the first tensor whose
/// byte length cannot be computed.
pub fn prepared_tensor_bytes(infos: &[TensorInfo]) -> (r: Result<Vec<usize>, Error>)
    ensures
        sizing_outcome(views_of(infos@), r),
{
    let ghost views = views_of(infos@);
    let mut out: Vec<usize> = Vec::new();
    let mut k: usize = 0;
    while k < infos.len()
        invariant
            views == views_of(infos@),
            k <= infos@.len(),
            out@.len() == k,
            forall|j: int| 0 <= j < k ==> (#[trigger] spec_byte_len(views[j].shape, views[j].data_type)) is Some,
            forall|j: int| 0 <= j < k ==> #[trigger] out@[j] == byte_lens(views)[j],
        decreases infos@.len() - k,
    {
        let info = &infos[k];
        match tensor_byte_len(info.name.as_str(), &info.shape, info.data_type) {
            Ok(n) => {
                out.push(n);
            },
            Err(e) => {
                assert(first_unsized(views, k as int));
                assert forall|other: int|
                    #![trigger first_unsized(views, other)]
                    first_unsized(views, other) implies other == k by {
                    if other < k {
                    } else if other > k {
                    }
                }
                return Err(e);
            },
        }
        k = k + 1;
    }
    assert(out@ =~= byte_lens(views));
    proof {
        assert forall|other: int| #![trigger first_unsized(views, other)] !first_unsized(views, other) by {}
    }
    Ok(out)
}

/// The byte lengths that a prepared device runner fixes for its inputs and
/// outputs.
pub fn prepare_device_bytes(input_infos: &[TensorInfo], output_infos: &[TensorInfo]) -> (r: Result<(Vec<usize>, Vec<usize>), Error>)
    ensures
        all_sized(views_of(input_infos@)) && all_sized(views_of(output_infos@)) ==> (r matches Ok(
            (i, o),
        ) && i@ == byte_lens(views_of(input_infos@)) && o@ == byte_lens(views_of(output_infos@))),
        forall|k: int|
            #![trigger first_unsized(views_of(input_infos@), k)]
            first_unsized(views_of(input_infos@), k) ==> (r matches Err(e) && byte_len_error(
                e,
                views_of(input_infos@)[k].name,
                views_of(input_infos@)[k].shape,
                views_of(input_infos@)[k].data_type,
            )),
        all_sized(views_of(input_infos@)) ==> forall|k: int|
            #![trigger first_unsized(views_of(output_infos@), k)]
            first_unsized(views_of(output_infos@), k) ==> (r matches Err(e) && byte_len_error(
                e,
                views_of(output_infos@)[k].name,
                views_of(output_infos@)[k].shape,
                views_of(output_infos@)[k].data_type,
            )),
{
    let input_bytes = match prepared_tensor_bytes(input_infos) {
        Ok(v) => v,
        Err(e) => return Err(e),
    };
    proof {
        lemma_sized_when_ok(views_of(input_infos@));
    }
    let output_bytes = match prepared_tensor_bytes(output_infos) {
        Ok(v) => v,
        Err(e) => return Err(e),
    };
    proof {
        lemma_sized_when_ok(views_of(output_infos@));
    }
    Ok((input_bytes, output_bytes))
}

/// When no tensor is the first without a byte length, every tensor has one.
pub proof fn lemma_sized_when_ok(infos: Seq<TensorInfoView>)
    requires
        forall|k: int| #![trigger first_unsized(infos, k)] !first_unsized(infos, k),
    ensures
        all_sized(infos),
{
    if !all_sized(infos) {
        let bad = choose|k: int| 0 <= k < infos.len() && !((#[trigger] spec_byte_len(infos[k].shape, infos[k].data_type)) is Some);
        lemma_first_unsized_exists(infos, bad);
    }
}

/// Below an unsized tensor there is a first one.
proof fn lemma_first_unsized_exists(infos: Seq<TensorInfoView>, bad: int)
    requires
        0 <= bad < infos.len(),
        spec_byte_len(infos[bad].shape, infos[bad].data_type) is None,
    ensures
        exists|k: int| #[trigger] first_unsized(infos, k),
    decreases bad,
{
    if !first_unsized(infos, bad) {
        let j = choose|j: int| 0 <= j < bad && !((#[trigger] spec_byte_len(infos[j].shape, infos[j].data_type)) is Some);
        lemma_first_unsized_exists(infos, j);
    }
}

/// The byte lengths that a prepared mixed runner fixes, after checking that
/// every input has a binding kind.
pub fn prepare_mixed_bytes(
    input_infos: &[TensorInfo],
    output_infos: &[TensorInfo],
    input_kinds: &[PreparedInputKind],
) -> (r: Result<(Vec<usize>, Vec<usize>), Error>)
    ensures
        input_infos@.len() != input_kinds@.len() ==> (r matches Err(e) && is_invalid_shape(
            e,
            "<prepared-mixed-inputs>"@,
            decimal_usize(input_infos@.len() as usize) + " input infos for "@ + decimal_usize(
                input_kinds@.len() as usize,
            ) + " input kinds"@,
        )),
        input_infos@.len() == input_kinds@.len() && all_sized(views_of(input_infos@)) && all_sized(
            views_of(output_infos@),
        ) ==> (r matches Ok((i, o)) && i@ == byte_lens(views_of(input_infos@)) && o@ == byte_lens(
            views_of(output_infos@),
        )),
        input_infos@.len() == input_kinds@.len() && !(all_sized(views_of(input_infos@)) && all_sized(
            views_of(output_infos@),
        )) ==> r is Err,
{
    if input_infos.len() != input_kinds.len() {
        let a = usize_text(input_infos.len());
        let b = usize_text(input_kinds.len());
        let reason = join4(a.as_str(), " input infos for ", b.as_str(), " input kinds");
        return Err(Error::InvalidShape { tensor: owned("<prepared-mixed-inputs>"), reason });
    }
    let r = prepare_device_bytes(input_infos, output_infos);
    proof {
        if r is Ok {
            if !all_sized(views_of(input_infos@)) {
                lemma_sized_when_ok(views_of(input_infos@));
            }
            if !all_sized(views_of(output_infos@)) {
                lemma_sized_when_ok(views_of(output_infos@));
            }
        }
    }
    r
}

/// The staging buffer size of each mixed input: its byte length for a
/// host-to-device input, none for the others.
pub fn staging_sizes(input_kinds: &[PreparedInputKind], input_bytes: &[usize]) -> (r: Vec<Option<usize>>)
    requires
        input_kinds@.len() == input_bytes@.len(),
    ensures
        r@.len() == input_kinds@.len(),
        forall|k: int|
            0 <= k < r@.len() ==> #[trigger] r@[k] == if input_kinds@[k]
                == PreparedInputKind::HostToDevice {
                Some(input_bytes@[k])
            } else {
                None
            },
{
    let mut out: Vec<Option<usize>> = Vec::new();
    let mut k: usize = 0;
    while k < input_kinds.len()
        invariant
            input_kinds@.len() == input_bytes@.len(),
            k <= input_kinds@.len(),
            out@.len() == k,
            forall|j: int|
                0 <= j < k ==> #[trigger] out@[j] == if input_kinds@[j]
                    == PreparedInputKind::HostToDevice {
                    Some(input_bytes@[j])
                } else {
                    None
                },
        decreases input_kinds@.len() - k,
    {
        match input_kinds[k] {
            PreparedInputKind::HostToDevice => out.push(Some(input_bytes[k])),
            PreparedInputKind::Host | PreparedInputKind::Device => out.push(None),
        }
        k = k + 1;
    }
    out
}

/// `e` reports a binding out of the prepared order.
pub open spec fn is_order_error(e: Error, kind: Seq<char>, expected: Seq<char>, actual: Seq<char>) -> bool {
    is_invalid_shape(e, actual, "prepared "@ + kind + " binding order expects "@ + expected + ", got "@ + actual)
}

/// `e` reports a shape other than the prepared one.
pub open spec fn is_prepared_shape_error(e: Error, expected: TensorInfoView, actual: Seq<i64>) -> bool {
    is_invalid_shape(e, expected.name, "prepared shape is "@ + debug_list(expected.shape) + ", got "@ + debug_list(actual))
}

/// Checks that the binding at this position names the prepared tensor.
pub fn validate_prepared_binding_name(expected: &TensorInfo, actual: &str, binding_kind: &str) -> (r: Result<(), Error>)
    ensures
        expected.name@ == actual@ ==> r is Ok,
        expected.name@ != actual@ ==> (r matches Err(e) && is_order_error(e, binding_kind@, expected.name@, actual@)),
{
    if same_text(expected.name.as_str(), actual) {
        Ok(())
    } else {
        let head = join4("prepared ", binding_kind, " binding order expects ", expected.name.as_str());
        let reason = join3(head.as_str(), ", got ", actual);
        Err(Error::InvalidShape { tensor: owned(actual), reason })
    }
}

/// Checks that a binding keeps the prepared shape.
pub fn validate_prepared_shape(expected: &TensorInfo, actual: &Dims) -> (r: Result<(), Error>)
    ensures
        expected.shape@ == actual@ ==> r is Ok,
        expected.shape@ != actual@ ==> (r matches Err(e) && is_prepared_shape_error(e, expected@, actual@)),
{
    if expected.shape.same_as(actual) {
        Ok(())
    } else {
        let a = debug_i64_list(expected.shape.as_slice());
        let b = debug_i64_list(actual.as_slice());
        let reason = join4("prepared shape is ", a.as_str(), ", got ", b.as_str());
        Err(Error::InvalidShape { tensor: owned(expected.name.as_str()), reason })
    }
}

/// Checks a device binding's data type and byte length against the prepared
/// ones.
pub fn validate_prepared_device_bytes(
    expected: &TensorInfo,
    expected_bytes: usize,
    data_type: DataType,
    actual_bytes: usize,
) -> (r: Result<(), Error>)
    ensures
        expected.data_type != data_type ==> (r matches Err(e) && is_type_error(
            e,
            expected.name@,
            expected.data_type,
            data_type,
        )),
        expected.data_type == data_type && actual_bytes != expected_bytes ==> (r matches Err(e)
            && is_size_error(e, expected.name@, expected_bytes as nat, actual_bytes as nat)),
        expected.data_type == data_type && actual_bytes == expected_bytes ==> r is Ok,
{
    if expected.data_type != data_type {
        return Err(
            Error::TypeMismatch {
                tensor: owned(expected.name.as_str()),
                expected: expected.data_type,
                actual: data_type,
            },
        );
    }
    if actual_bytes == expected_bytes {
        Ok(())
    } else {
        Err(
            Error::SizeMismatch {
                tensor: owned(expected.name.as_str()),
                expected_bytes,
                actual_bytes,
            },
        )
    }
}

/// The outcome of checking one device binding against its prepared tensor:
/// name, shape, data type, byte length, then a non-null address.
pub open spec fn device_binding_outcome(
    expected: TensorInfoView,
    expected_bytes: usize,
    kind: Seq<char>,
    name: Seq<char>,
    shape: Seq<i64>,
    data_type: DataType,
    bytes: usize,
    ptr: usize,
    null_reason: Seq<char>,
    r: Result<(), Error>,
) -> bool {
    if expected.name != name {
        r matches Err(e) && is_order_error(e, kind, expected.name, name)
    } else if expected.shape != shape {
        r matches Err(e) && is_prepared_shape_error(e, expected, shape)
    } else if expected.data_type != data_type {
        r matches Err(e) && is_type_error(e, expected.name, expected.data_type, data_type)
    } else if bytes != expected_bytes {
        r matches Err(e) && is_size_error(e, expected.name, expected_bytes as nat, bytes as nat)
    } else if ptr == 0 {
        r matches Err(e) && is_invalid_shape(e, name, null_reason)
    } else {
        r is Ok
    }
}

/// One device binding passes every check against its prepared tensor.
pub open spec fn device_binding_passes(
    expected: TensorInfoView,
    expected_bytes: usize,
    name: Seq<char>,
    shape: Seq<i64>,
    data_type: DataType,
    bytes: usize,
    ptr: usize,
) -> bool {
    expected.name == name && expected.shape == shape && expected.data_type == data_type && bytes
        == expected_bytes && ptr != 0
}

/// Checks one device binding against its prepared tensor.
fn check_prepared_device_binding(
    expected: &TensorInfo,
    expected_bytes: usize,
    kind: &str,
    name: &str,
    shape: &Dims,
    data_type: DataType,
    bytes: usize,
    ptr: usize,
    null_reason: &str,
) -> (r: Result<(), Error>)
    ensures
        device_binding_outcome(expected@, expected_bytes, kind@, name@, shape@, data_type, bytes, ptr, null_reason@, r),
        r is Ok <==> device_binding_passes(expected@, expected_bytes, name@, shape@, data_type, bytes, ptr),
{
    match validate_prepared_binding_name(expected, name, kind) {
        Err(e) => return Err(e),
        Ok(()) => {},
    }
    match validate_prepared_shape(expected, shape) {
        Err(e) => return Err(e),
        Ok(()) => {},
    }
    match validate_prepared_device_bytes(expected, expected_bytes, data_type, bytes) {
        Err(e) => return Err(e),
        Ok(()) => {},
    }
    if ptr == 0 {
        return Err(Error::InvalidShape { tensor: owned(name), reason: owned(null_reason) });
    }
    Ok(())
}

/// The input at `k` passes its prepared checks.
pub open spec fn input_passes(infos: Seq<TensorInfo>, bytes: Seq<usize>, inputs: Seq<DeviceInputTensor>, k: int) -> bool {
    device_binding_passes(infos[k]@, bytes[k], inputs[k].name@, inputs[k].shape@, inputs[k].data_type, inputs[k].bytes, inputs[k].ptr)
}

/// `k` is the first input that fails its prepared checks.
pub open spec fn first_failing_input(infos: Seq<TensorInfo>, bytes: Seq<usize>, inputs: Seq<DeviceInputTensor>, k: int) -> bool {
    &&& 0 <= k < inputs.len()
    &&& !input_passes(infos, bytes, inputs, k)
    &&& forall|j: int| 0 <= j < k ==> #[trigger] input_passes(infos, bytes, inputs, j)
}

/// `e` reports a binding count other than the prepared one.
pub open spec fn is_count_error(e: Error, tensor: Seq<char>, what: Seq<char>, expected: nat, actual: nat) -> bool {
    is_invalid_shape(e, tensor, "expected "@ + decimal_usize(expected as usize) + " "@ + what + " bindings, got "@ + decimal_usize(actual as usize))
}

/// Renders `expected <n> <what> bindings, got <m>`.
fn count_reason(expected: usize, what: &str, actual: usize) -> (r: String)
    ensures
        r@ == "expected "@ + decimal_usize(expected) + " "@ + what@ + " bindings, got "@ + decimal_usize(actual),
{
    let a = usize_text(expected);
    let b = usize_text(actual);
    let head = join4("expected ", a.as_str(), " ", what);
    join3(head.as_str(), " bindings, got ", b.as_str())
}

/// Holds a launch's device inputs to the prepared inputs, in order: same
/// count, then each input's name, shape, type, byte length and address.
pub fn validate_prepared_inputs(
    expected_infos: &[TensorInfo],
    expected_bytes: &[usize],
    inputs: &[DeviceInputTensor<'_>],
) -> (r: Result<(), Error>)
    requires
        expected_bytes@.len() == expected_infos@.len(),
    ensures
        inputs@.len() != expected_infos@.len() ==> (r matches Err(e) && is_count_error(
            e,
            "<prepared-inputs>"@,
            "input"@,
            expected_infos@.len(),
            inputs@.len(),
        )),
        inputs@.len() == expected_infos@.len() ==> {
            &&& (forall|k: int| 0 <= k < inputs@.len() ==> #[trigger] input_passes(expected_infos@, expected_bytes@, inputs@, k)) ==> r is Ok
            &&& forall|k: int|
                #![trigger first_failing_input(expected_infos@, expected_bytes@, inputs@, k)]
                first_failing_input(expected_infos@, expected_bytes@, inputs@, k) ==> device_binding_outcome(
                    expected_infos@[k]@,
                    expected_bytes@[k],
                    "input"@,
                    inputs@[k].name@,
                    inputs@[k].shape@,
                    inputs@[k].data_type,
                    inputs@[k].bytes,
                    inputs@[k].ptr,
                    "device input pointer is null"@,
                    r,
                )
        },
{
    if inputs.len() != expected_infos.len() {
        let reason = count_reason(expected_infos.len(), "input", inputs.len());
        return Err(Error::InvalidShape { tensor: owned("<prepared-inputs>"), reason });
    }
    let mut k: usize = 0;
    while k < inputs.len()
        invariant
            expected_bytes@.len() == expected_infos@.len(),
            inputs@.len() == expected_infos@.len(),
            k <= inputs@.len(),
            forall|j: int| 0 <= j < k ==> #[trigger] input_passes(expected_infos@, expected_bytes@, inputs@, j),
        decreases inputs@.len() - k,
    {
        let input = &inputs[k];
        let r = check_prepared_device_binding(
            &expected_infos[k],
            expected_bytes[k],
            "input",
            input.name,
            &input.shape,
            input.data_type,
            input.bytes,
            input.ptr,
            "device input pointer is null",
        );
        if r.is_err() {
            assert(first_failing_input(expected_infos@, expected_bytes@, inputs@, k as int));
            assert forall|other: int|
                #![trigger first_failing_input(expected_infos@, expected_bytes@, inputs@, other)]
                first_failing_input(expected_infos@, expected_bytes@, inputs@, other) implies other == k by {
                if other < k {
                } else if other > k {
                }
            }
            return r;
        }
        k = k + 1;
    }
    proof {
        assert forall|other: int|
            #![trigger first_failing_input(expected_infos@, expected_bytes@, inputs@, other)]
            !first_failing_input(expected_infos@, expected_bytes@, inputs@, other) by {}
    }
    Ok(())
}

/// The output at `k` passes its prepared checks.
pub open spec fn output_passes(infos: Seq<TensorInfo>, bytes: Seq<usize>, outputs: Seq<DeviceOutputTensor>, k: int) -> bool {
    device_binding_passes(infos[k]@, bytes[k], outputs[k].name@, outputs[k].shape@, outputs[k].data_type, outputs[k].bytes, outputs[k].ptr)
}

/// `k` is the first output that fails its prepared checks.
pub open spec fn first_failing_output(infos: Seq<TensorInfo>, bytes: Seq<usize>, outputs: Seq<DeviceOutputTensor>, k: int) -> bool {
    &&& 0 <= k < outputs.len()
    &&& !output_passes(infos, bytes, outputs, k)
    &&& forall|j: int| 0 <= j < k ==> #[trigger] output_passes(infos, bytes, outputs, j)
}

/// Holds a launch's device outputs to the prepared outputs, in order: same
/// count, then each output's name, shape, type, byte length and address.
pub fn validate_prepared_outputs(
    expected_infos: &[TensorInfo],
    expected_bytes: &[usize],
    outputs: &[DeviceOutputTensor<'_>],
) -> (r: Result<(), Error>)
    requires
        expected_bytes@.len() == expected_infos@.len(),
    ensures
        outputs@.len() != expected_infos@.len() ==> (r matches Err(e) && is_count_error(
            e,
            "<prepared-outputs>"@,
            "output"@,
            expected_infos@.len(),
            outputs@.len(),
        )),
        outputs@.len() == expected_infos@.len() ==> {
            &&& (forall|k: int| 0 <= k < outputs@.len() ==> #[trigger] output_passes(expected_infos@, expected_bytes@, outputs@, k)) ==> r is Ok
            &&& forall|k: int|
                #![trigger first_failing_output(expected_infos@, expected_bytes@, outputs@, k)]
                first_failing_output(expected_infos@, expected_bytes@, outputs@, k) ==> device_binding_outcome(
                    expected_infos@[k]@,
                    expected_bytes@[k],
                    "output"@,
                    outputs@[k].name@,
                    outputs@[k].shape@,
                    outputs@[k].data_type,
                    outputs@[k].bytes,
                    outputs@[k].ptr,
                    "device output pointer is null"@,
                    r,
                )
        },
{
    if outputs.len() != expected_infos.len() {
        let reason = count_reason(expected_infos.len(), "output", outputs.len());
        return Err(Error::InvalidShape { tensor: owned("<prepared-outputs>"), reason });
    }
    let mut k: usize = 0;
    while k < outputs.len()
        invariant
            expected_bytes@.len() == expected_infos@.len(),
            outputs@.len() == expected_infos@.len(),
            k <= outputs@.len(),
            forall|j: int| 0 <= j < k ==> #[trigger] output_passes(expected_infos@, expected_bytes@, outputs@, j),
        decreases outputs@.len() - k,
    {
        let output = &outputs[k];
        let r = check_prepared_device_binding(
            &expected_infos[k],
            expected_bytes[k],
            "output",
            output.name,
            &output.shape,
            output.data_type,
            output.bytes,
            output.ptr,
            "device output pointer is null",
        );
        if r.is_err() {
            assert(first_failing_output(expected_infos@, expected_bytes@, outputs@, k as int));
            assert forall|other: int|
                #![trigger first_failing_output(expected_infos@, expected_bytes@, outputs@, other)]
                first_failing_output(expected_infos@, expected_bytes@, outputs@, other) implies other == k by {
                if other < k {
                } else if other > k {
                }
            }
            return r;
        }
        k = k + 1;
    }
    proof {
        assert forall|other: int|
            #![trigger first_failing_output(expected_infos@, expected_bytes@, outputs@, other)]
            !first_failing_output(expected_infos@, expected_bytes@, outputs@, other) by {}
    }
    Ok(())
}

/// The outcome of checking one mixed binding against its prepared tensor:
/// name, binding kind, then the checks of its kind.
pub open spec fn mixed_binding_outcome(
    expected: TensorInfoView,
    expected_bytes: usize,
    expected_kind: PreparedInputKind,
    input: InputBinding,
    r: Result<(), Error>,
) -> bool {
    let name = spec_binding_name(input)@;
    if expected.name != name {
        r matches Err(e) && is_order_error(e, "mixed input"@, expected.name, name)
    } else if spec_input_kind(input) != expected_kind {
        r matches Err(e) && is_invalid_shape(e, name, "prepared mixed binding kind changed"@)
    } else {
        match input {
            InputBinding::Host(t) | InputBinding::HostToDevice(t) => if expected.shape != t.shape@ {
                r matches Err(e) && is_prepared_shape_error(e, expected, t.shape@)
            } else if t.expected_data_type matches Some(d) && d != expected.data_type {
                r matches Err(e) && is_type_error(e, expected.name, expected.data_type, t.expected_data_type->0)
            } else if t.bytes@.len() != expected_bytes {
                r matches Err(e) && is_size_error(e, expected.name, expected_bytes as nat, t.bytes@.len())
            } else {
                r is Ok
            },
            InputBinding::Device(t) => device_binding_outcome(
                expected,
                expected_bytes,
                "mixed input"@,
                t.name@,
                t.shape@,
                t.data_type,
                t.bytes,
                t.ptr,
                "device input pointer is null"@,
                r,
            ),
        }
    }
}

/// One mixed binding passes every check against its prepared tensor.
pub open spec fn mixed_binding_passes(
    expected: TensorInfoView,
    expected_bytes: usize,
    expected_kind: PreparedInputKind,
    input: InputBinding,
) -> bool {
    &&& expected.name == spec_binding_name(input)@
    &&& spec_input_kind(input) == expected_kind
    &&& match input {
        InputBinding::Host(t) | InputBinding::HostToDevice(t) => expected.shape == t.shape@ && (
        t.expected_data_type matches Some(d) ==> d == expected.data_type) && t.bytes@.len()
            == expected_bytes,
        InputBinding::Device(t) => device_binding_passes(
            expected,
            expected_bytes,
            t.name@,
            t.shape@,
            t.data_type,
            t.bytes,
            t.ptr,
        ),
    }
}

/// Checks one mixed binding against its prepared tensor.
fn check_prepared_mixed_binding(
    expected: &TensorInfo,
    expected_bytes: usize,
    expected_kind: PreparedInputKind,
    input: &InputBinding<'_>,
) -> (r: Result<(), Error>)
    ensures
        mixed_binding_outcome(expected@, expected_bytes, expected_kind, *input, r),
        r is Ok <==> mixed_binding_passes(expected@, expected_bytes, expected_kind, *input),
{
    match validate_prepared_binding_name(expected, input.name(), "mixed input") {
        Err(e) => return Err(e),
        Ok(()) => {},
    }
    if input_kind(input) != expected_kind {
        return Err(
            Error::InvalidShape {
                tensor: owned(input.name()),
                reason: owned("prepared mixed binding kind changed"),
            },
        );
    }
    match input {
        InputBinding::Host(t) | InputBinding::HostToDevice(t) => {
            match validate_prepared_shape(expected, &t.shape) {
                Err(e) => return Err(e),
                Ok(()) => {},
            }
            match t.expected_data_type {
                Some(d) => if expected.data_type != d {
                    return Err(
                        Error::TypeMismatch {
                            tensor: owned(expected.name.as_str()),
                            expected: expected.data_type,
                            actual: d,
                        },
                    );
                },
                None => {},
            }
            if t.bytes.len() != expected_bytes {
                return Err(
                    Error::SizeMismatch {
                        tensor: owned(expected.name.as_str()),
                        expected_bytes,
                        actual_bytes: t.bytes.len(),
                    },
                );
            }
            Ok(())
        },
        InputBinding::Device(t) => check_prepared_device_binding(
            expected,
            expected_bytes,
            "mixed input",
            t.name,
            &t.shape,
            t.data_type,
            t.bytes,
            t.ptr,
            "device input pointer is null",
        ),
    }
}

/// The mixed input at `k` passes its prepared checks.
pub open spec fn mixed_passes(
    infos: Seq<TensorInfo>,
    bytes: Seq<usize>,
    kinds: Seq<PreparedInputKind>,
    inputs: Seq<InputBinding>,
    k: int,
) -> bool {
    mixed_binding_passes(infos[k]@, bytes[k], kinds[k], inputs[k])
}

/// `k` is the first mixed input that fails its prepared checks.
pub open spec fn first_failing_mixed(
    infos: Seq<TensorInfo>,
    bytes: Seq<usize>,
    kinds: Seq<PreparedInputKind>,
    inputs: Seq<InputBinding>,
    k: int,
) -> bool {
    &&& 0 <= k < inputs.len()
    &&& !mixed_passes(infos, bytes, kinds, inputs, k)
    &&& forall|j: int| 0 <= j < k ==> #[trigger] mixed_passes(infos, bytes, kinds, inputs, j)
}

/// Holds a launch's mixed inputs to the prepared inputs, in order: same
/// count, then each input's name and binding kind, then the checks of its
/// kind.
pub fn validate_prepared_mixed_inputs(
    expected_infos: &[TensorInfo],
    expected_bytes: &[usize],
    expected_kinds: &[PreparedInputKind],
    inputs: &[InputBinding<'_>],
) -> (r: Result<(), Error>)
    requires
        expected_bytes@.len() == expected_infos@.len(),
        expected_kinds@.len() == expected_infos@.len(),
    ensures
        inputs@.len() != expected_infos@.len() ==> (r matches Err(e) && is_count_error(
            e,
            "<prepared-mixed-inputs>"@,
            "input"@,
            expected_infos@.len(),
            inputs@.len(),
        )),
        inputs@.len() == expected_infos@.len() ==> {
            &&& (forall|k: int| 0 <= k < inputs@.len() ==> #[trigger] mixed_passes(expected_infos@, expected_bytes@, expected_kinds@, inputs@, k)) ==> r is Ok
            &&& forall|k: int|
                #![trigger first_failing_mixed(expected_infos@, expected_bytes@, expected_kinds@, inputs@, k)]
                first_failing_mixed(expected_infos@, expected_bytes@, expected_kinds@, inputs@, k) ==> mixed_binding_outcome(
                    expected_infos@[k]@,
                    expected_bytes@[k],
                    expected_kinds@[k],
                    inputs@[k],
                    r,
                )
        },
{
    if inputs.len() != expected_infos.len() {
        let reason = count_reason(expected_infos.len(), "input", inputs.len());
        return Err(Error::InvalidShape { tensor: owned("<prepared-mixed-inputs>"), reason });
    }
    let mut k: usize = 0;
    while k < inputs.len()
        invariant
            expected_bytes@.len() == expected_infos@.len(),
            expected_kinds@.len() == expected_infos@.len(),
            inputs@.len() == expected_infos@.len(),
            k <= inputs@.len(),
            forall|j: int| 0 <= j < k ==> #[trigger] mixed_passes(expected_infos@, expected_bytes@, expected_kinds@, inputs@, j),
        decreases inputs@.len() - k,
    {
        let r = check_prepared_mixed_binding(&expected_infos[k], expected_bytes[k], expected_kinds[k], &inputs[k]);
        if r.is_err() {
            assert(first_failing_mixed(expected_infos@, expected_bytes@, expected_kinds@, inputs@, k as int));
            assert forall|other: int|
                #![trigger first_failing_mixed(expected_infos@, expected_bytes@, expected_kinds@, inputs@, other)]
                first_failing_mixed(expected_infos@, expected_bytes@, expected_kinds@, inputs@, other) implies other == k by {
                if other < k {
                } else if other > k {
                }
            }
            return r;
        }
        k = k + 1;
    }
    proof {
        assert forall|other: int|
            #![trigger first_failing_mixed(expected_infos@, expected_bytes@, expected_kinds@, inputs@, other)]
            !first_failing_mixed(expected_infos@, expected_bytes@, expected_kinds@, inputs@, other) by {}
    }
    Ok(())
}

} // verus!
