//! Cached device run plans and the keys that launches are looked up by.

use vstd::prelude::*;
use crate::binding::{DeviceInputTensor, DeviceOutputTensor, TensorInfo, TensorInfoView, views_of};
use crate::catalog::{SessionTensors, is_mode_error, is_unknown_tensor, spec_index_of};
use crate::data_type::DataType;
use crate::error::Error;
use crate::graph::{CudaGraphKey, CudaGraphTensorKey, TensorKeyView, key_views};
use crate::tensor::{Dims, TensorIOMode, byte_len_error, is_invalid_shape, spec_byte_len, tensor_byte_len};
use crate::text::{decimal_usize, join3, owned, usize_text};

verus! {

/// One input of a cached run plan: the plan is reused for the same tensor at
/// the same type, shape and length, whatever its address.
#[derive(Debug, Eq, Hash, PartialEq)]
pub struct RunPlanInputKey {
    pub tensor_index: usize,
    pub data_type: DataType,
    pub shape: Dims,
    pub bytes: usize,
}

impl RunPlanInputKey {
    /// The plan key of a device input bound at `tensor_index`.
    pub fn new(tensor_index: usize, input: &DeviceInputTensor<'_>) -> (r: Self)
        ensures
            r.tensor_index == tensor_index,
            r.data_type == input.data_type,
            r.shape@ == input.shape@,
            r.bytes == input.bytes,
    {
        RunPlanInputKey {
            tensor_index,
            data_type: input.data_type,
            shape: input.shape.clone(),
            bytes: input.bytes,
        }
    }
}

/// Identity of a cached run plan: the inputs in binding order and the
/// requested output indices in order.
#[derive(Debug, Eq, Hash, PartialEq)]
pub struct RunPlanKey {
    pub inputs: Vec<RunPlanInputKey>,
    pub outputs: Vec<usize>,
}

impl RunPlanKey {
    /// A plan key from its inputs and output indices, order kept.
    pub fn new(inputs: Vec<RunPlanInputKey>, output_indices: Vec<usize>) -> (r: Self)
        ensures
            r.inputs@ == inputs@,
            r.outputs@ == output_indices@,
    {
        RunPlanKey { inputs, outputs: output_indices }
    }
}

/// The output of a cached plan with its byte length.
#[derive(Debug)]
pub struct DeviceOutputPlan {
    pub name: String,
    pub data_type: DataType,
    pub shape: Dims,
    pub bytes: usize,
}

/// The plan of an output: its metadata and byte length.
pub fn device_output_plan(info: TensorInfo) -> (r: Result<DeviceOutputPlan, Error>)
    ensures
        match spec_byte_len(info.shape@, info.data_type) {
            Some(n) => r matches Ok(p) && p.name@ == info.name@ && p.data_type == info.data_type
                && p.shape@ == info.shape@ && p.bytes == n,
            None => r matches Err(e) && byte_len_error(e, info.name@, info.shape@, info.data_type),
        },
{
    let bytes = match tensor_byte_len(info.name.as_str(), &info.shape, info.data_type) {
        Ok(n) => n,
        Err(e) => return Err(e),
    };
    Ok(DeviceOutputPlan { name: info.name, data_type: info.data_type, shape: info.shape, bytes })
}

/// Every name is an engine I/O tensor.
pub open spec fn all_known(ts: Seq<TensorInfoView>, names: Seq<Seq<char>>) -> bool {
    forall|k: int| 0 <= k < names.len() ==> (#[trigger] spec_index_of(ts, names[k])) is Some
}

/// `k` is the first name that is not an engine I/O tensor.
pub open spec fn first_unknown(ts: Seq<TensorInfoView>, names: Seq<Seq<char>>, k: int) -> bool {
    &&& 0 <= k < names.len()
    &&& spec_index_of(ts, names[k]) is None
    &&& forall|j: int| 0 <= j < k ==> (#[trigger] spec_index_of(ts, names[j])) is Some
}

/// The tensor indices of known names, in order.
pub open spec fn indices_of(ts: Seq<TensorInfoView>, names: Seq<Seq<char>>) -> Seq<usize> {
    Seq::new(names.len(), |k: int| spec_index_of(ts, names[k]).unwrap() as usize)
}

/// The outcome of looking names up: their indices, or the error of the first
/// unknown one.
pub open spec fn lookup_outcome(ts: Seq<TensorInfoView>, names: Seq<Seq<char>>, r: Result<Vec<usize>, Error>) -> bool {
    &&& all_known(ts, names) ==> (r matches Ok(v) && v@ == indices_of(ts, names))
    &&& forall|k: int|
        #![trigger first_unknown(ts, names, k)]
        first_unknown(ts, names, k) ==> (r matches Err(e) && is_unknown_tensor(e, names[k]))
}

/// The names of device inputs.
pub open spec fn input_names(inputs: Seq<DeviceInputTensor>) -> Seq<Seq<char>> {
    inputs.map_values(|t: DeviceInputTensor| t.name@)
}

/// The names of device outputs.
pub open spec fn output_names(outputs: Seq<DeviceOutputTensor>) -> Seq<Seq<char>> {
    outputs.map_values(|t: DeviceOutputTensor| t.name@)
}

/// The names in a list of string slices.
pub open spec fn str_names(names: Seq<&str>) -> Seq<Seq<char>> {
    names.map_values(|s: &str| s@)
}

/// When no name is the first unknown one, every name is known.
proof fn lemma_known_when_none_first(ts: Seq<TensorInfoView>, names: Seq<Seq<char>>)
    requires
        forall|k: int| #![trigger first_unknown(ts, names, k)] !first_unknown(ts, names, k),
    ensures
        all_known(ts, names),
{
    if !all_known(ts, names) {
        let bad = choose|k: int| 0 <= k < names.len() && !((#[trigger] spec_index_of(ts, names[k])) is Some);
        lemma_first_unknown_exists(ts, names, bad);
    }
}

/// Below an unknown name there is a first one.
proof fn lemma_first_unknown_exists(ts: Seq<TensorInfoView>, names: Seq<Seq<char>>, bad: int)
    requires
        0 <= bad < names.len(),
        spec_index_of(ts, names[bad]) is None,
    ensures
        exists|k: int| #[trigger] first_unknown(ts, names, k),
    decreases bad,
{
    if !first_unknown(ts, names, bad) {
        let j = choose|j: int| 0 <= j < bad && !((#[trigger] spec_index_of(ts, names[j])) is Some);
        lemma_first_unknown_exists(ts, names, j);
    }
}

impl SessionTensors {
    /// The indices of the named I/O tensors, in order; fails at the first
    /// unknown name.
    pub fn tensor_indices(&self, names: &[&str]) -> (r: Result<Vec<usize>, Error>)
        ensures
            lookup_outcome(self@, str_names(names@), r),
    {
        let ghost ns = str_names(names@);
        let mut out: Vec<usize> = Vec::new();
        let mut k: usize = 0;
        while k < names.len()
            invariant
                ns == str_names(names@),
                k <= names@.len(),
                out@.len() == k,
                forall|j: int| 0 <= j < k ==> (#[trigger] spec_index_of(self@, ns[j])) is Some,
                forall|j: int| 0 <= j < k ==> #[trigger] out@[j] == indices_of(self@, ns)[j],
            decreases names@.len() - k,
        {
            match self.tensor_index(names[k]) {
                Ok(i) => out.push(i),
                Err(e) => {
                    assert(first_unknown(self@, ns, k as int));
                    assert forall|other: int|
                        #![trigger first_unknown(self@, ns, other)]
                        first_unknown(self@, ns, other) implies other == k by {
                        if other < k {
                        } else if other > k {
                        }
                    }
                    return Err(e);
                },
            }
            k = k + 1;
        }
        assert(out@ =~= indices_of(self@, ns));
        proof {
            assert forall|other: int| #![trigger first_unknown(self@, ns, other)] !first_unknown(self@, ns, other) by {}
        }
        Ok(out)
    }

    /// The indices of device inputs' tensors, in order.
    fn input_indices(&self, inputs: &[DeviceInputTensor<'_>]) -> (r: Result<Vec<usize>, Error>)
        ensures
            lookup_outcome(self@, input_names(inputs@), r),
    {
        let ghost ns = input_names(inputs@);
        let mut out: Vec<usize> = Vec::new();
        let mut k: usize = 0;
        while k < inputs.len()
            invariant
                ns == input_names(inputs@),
                k <= inputs@.len(),
                out@.len() == k,
                forall|j: int| 0 <= j < k ==> (#[trigger] spec_index_of(self@, ns[j])) is Some,
                forall|j: int| 0 <= j < k ==> #[trigger] out@[j] == indices_of(self@, ns)[j],
            decreases inputs@.len() - k,
        {
            match self.tensor_index(inputs[k].name) {
                Ok(i) => out.push(i),
                Err(e) => {
                    assert(first_unknown(self@, ns, k as int));
                    assert forall|other: int|
                        #![trigger first_unknown(self@, ns, other)]
                        first_unknown(self@, ns, other) implies other == k by {
                        if other < k {
                        } else if other > k {
                        }
                    }
                    return Err(e);
                },
            }
            k = k + 1;
        }
        assert(out@ =~= indices_of(self@, ns));
        proof {
            assert forall|other: int| #![trigger first_unknown(self@, ns, other)] !first_unknown(self@, ns, other) by {}
        }
        Ok(out)
    }

    /// The indices of device outputs' tensors, in order.
    fn output_indices(&self, outputs: &[DeviceOutputTensor<'_>]) -> (r: Result<Vec<usize>, Error>)
        ensures
            lookup_outcome(self@, output_names(outputs@), r),
    {
        let ghost ns = output_names(outputs@);
        let mut out: Vec<usize> = Vec::new();
        let mut k: usize = 0;
        while k < outputs.len()
            invariant
                ns == output_names(outputs@),
                k <= outputs@.len(),
                out@.len() == k,
                forall|j: int| 0 <= j < k ==> (#[trigger] spec_index_of(self@, ns[j])) is Some,
                forall|j: int| 0 <= j < k ==> #[trigger] out@[j] == indices_of(self@, ns)[j],
            decreases outputs@.len() - k,
        {
            match self.tensor_index(outputs[k].name) {
                Ok(i) => out.push(i),
                Err(e) => {
                    assert(first_unknown(self@, ns, k as int));
                    assert forall|other: int|
                        #![trigger first_unknown(self@, ns, other)]
                        first_unknown(self@, ns, other) implies other == k by {
                        if other < k {
                        } else if other > k {
                        }
                    }
                    return Err(e);
                },
            }
            k = k + 1;
        }
        assert(out@ =~= indices_of(self@, ns));
        proof {
            assert forall|other: int| #![trigger first_unknown(self@, ns, other)] !first_unknown(self@, ns, other) by {}
        }
        Ok(out)
    }

    /// The key of a cached run plan: each input's tensor index, type, shape
    /// and length, then the requested outputs' indices.
    ///
    /// Fails at the first unknown input name, then at the first unknown
    /// output name.
    pub fn device_run_plan_key(&self, inputs: &[DeviceInputTensor<'_>], output_names: &[&str]) -> (r: Result<RunPlanKey, Error>)
        ensures
            all_known(self@, input_names(inputs@)) && all_known(self@, str_names(output_names@)) ==> (
            r matches Ok(key) && key.outputs@ == indices_of(self@, str_names(output_names@))
                && key.inputs@.len() == inputs@.len() && forall|k: int|
                0 <= k < inputs@.len() ==> {
                    let x = #[trigger] key.inputs@[k];
                    &&& x.tensor_index == indices_of(self@, input_names(inputs@))[k]
                    &&& x.data_type == inputs@[k].data_type
                    &&& x.shape@ == inputs@[k].shape@
                    &&& x.bytes == inputs@[k].bytes
                }),
            forall|k: int|
                #![trigger first_unknown(self@, input_names(inputs@), k)]
                first_unknown(self@, input_names(inputs@), k) ==> (r matches Err(e) && is_unknown_tensor(e, inputs@[k].name@)),
            all_known(self@, input_names(inputs@)) ==> forall|k: int|
                #![trigger first_unknown(self@, str_names(output_names@), k)]
                first_unknown(self@, str_names(output_names@), k) ==> (r matches Err(e) && is_unknown_tensor(e, output_names@[k]@)),
    {
        let input_indices = match self.input_indices(inputs) {
            Ok(v) => v,
            Err(e) => return Err(e),
        };
        proof {
            lemma_known_when_none_first(self@, input_names(inputs@));
        }
        let output_indices = match self.tensor_indices(output_names) {
            Ok(v) => v,
            Err(e) => return Err(e),
        };
        proof {
            lemma_known_when_none_first(self@, str_names(output_names@));
        }
        let mut keys: Vec<RunPlanInputKey> = Vec::new();
        let mut k: usize = 0;
        while k < inputs.len()
            invariant
                input_indices@ == indices_of(self@, input_names(inputs@)),
                k <= inputs@.len(),
                keys@.len() == k,
                forall|j: int|
                    0 <= j < k ==> {
                        let x = #[trigger] keys@[j];
                        &&& x.tensor_index == input_indices@[j]
                        &&& x.data_type == inputs@[j].data_type
                        &&& x.shape@ == inputs@[j].shape@
                        &&& x.bytes == inputs@[j].bytes
                    },
            decreases inputs@.len() - k,
        {
            keys.push(RunPlanInputKey::new(input_indices[k], &inputs[k]));
            k = k + 1;
        }
        Ok(RunPlanKey::new(keys, output_indices))
    }

    /// The key of a CUDA Graph for a launch on the stream at `stream`: every
    /// input's and output's tensor index, type, shape, address and length.
    ///
    /// Fails at the first unknown input name, then at the first unknown
    /// output name.
    pub fn cuda_graph_key(
        &self,
        inputs: &[DeviceInputTensor<'_>],
        outputs: &[DeviceOutputTensor<'_>],
        stream: usize,
    ) -> (r: Result<CudaGraphKey, Error>)
        ensures
            all_known(self@, input_names(inputs@)) && all_known(self@, output_names(outputs@)) ==> (
            r matches Ok(key) && key@ == (
                stream,
                input_key_views(indices_of(self@, input_names(inputs@)), inputs@),
                output_key_views(indices_of(self@, output_names(outputs@)), outputs@),
            )),
            forall|k: int|
                #![trigger first_unknown(self@, input_names(inputs@), k)]
                first_unknown(self@, input_names(inputs@), k) ==> (r matches Err(e) && is_unknown_tensor(e, inputs@[k].name@)),
            all_known(self@, input_names(inputs@)) ==> forall|k: int|
                #![trigger first_unknown(self@, output_names(outputs@), k)]
                first_unknown(self@, output_names(outputs@), k) ==> (r matches Err(e) && is_unknown_tensor(e, outputs@[k].name@)),
    {
        let input_indices = match self.input_indices(inputs) {
            Ok(v) => v,
            Err(e) => return Err(e),
        };
        proof {
            lemma_known_when_none_first(self@, input_names(inputs@));
        }
        let output_indices = match self.output_indices(outputs) {
            Ok(v) => v,
            Err(e) => return Err(e),
        };
        proof {
            lemma_known_when_none_first(self@, output_names(outputs@));
        }
        let mut input_keys: Vec<CudaGraphTensorKey> = Vec::new();
        let mut k: usize = 0;
        while k < inputs.len()
            invariant
                input_indices@.len() == inputs@.len(),
                k <= inputs@.len(),
                input_keys@.len() == k,
                forall|j: int| 0 <= j < k ==> (#[trigger] input_keys@[j])@ == input_key_views(input_indices@, inputs@)[j],
            decreases inputs@.len() - k,
        {
            input_keys.push(CudaGraphTensorKey::from_input(input_indices[k], &inputs[k]));
            k = k + 1;
        }
        let mut output_keys: Vec<CudaGraphTensorKey> = Vec::new();
        let mut k: usize = 0;
        while k < outputs.len()
            invariant
                output_indices@.len() == outputs@.len(),
                k <= outputs@.len(),
                output_keys@.len() == k,
                forall|j: int| 0 <= j < k ==> (#[trigger] output_keys@[j])@ == output_key_views(output_indices@, outputs@)[j],
            decreases outputs@.len() - k,
        {
            output_keys.push(CudaGraphTensorKey::from_output(output_indices[k], &outputs[k]));
            k = k + 1;
        }
        assert(key_views(input_keys@) =~= input_key_views(input_indices@, inputs@));
        assert(key_views(output_keys@) =~= output_key_views(output_indices@, outputs@));
        Ok(CudaGraphKey::new(input_keys, output_keys, stream))
    }

    /// The output tensors at the given engine indices, in order; no indices
    /// selects every output.
    ///
    /// Fails at the first index past the engine's tensors, or that names a
    /// tensor that is not an output.
    pub fn outputs_for_indices(&self, output_indices: &[usize]) -> (r: Result<Vec<TensorInfo>, Error>)
        ensures
            output_indices@.len() == 0 ==> (r matches Ok(v) && views_of(v@) == self@.filter(
                |t: TensorInfoView| t.io_mode == TensorIOMode::Output,
            )),
            output_indices@.len() > 0 && (forall|k: int| 0 <= k < output_indices@.len() ==> #[trigger] index_is_output(self@, output_indices@[k])) ==> (r matches Ok(v)
                && v@.len() == output_indices@.len() && forall|k: int|
                0 <= k < v@.len() ==> (#[trigger] v@[k])@ == self@[output_indices@[k] as int]),
            forall|k: int|
                #![trigger first_bad_index(self@, output_indices@, k)]
                first_bad_index(self@, output_indices@, k) ==> (r matches Err(e) && if output_indices@[k] >= self@.len() {
                    is_invalid_shape(
                        e,
                        "<tensor-index:"@ + decimal_usize(output_indices@[k]) + ">"@,
                        "tensor index is not an engine I/O tensor"@,
                    )
                } else {
                    is_mode_error(
                        e,
                        self@[output_indices@[k] as int].name,
                        TensorIOMode::Output,
                        self@[output_indices@[k] as int].io_mode,
                    )
                }),
    {
        if output_indices.len() == 0 {
            return Ok(self.output_infos());
        }
        let tensors = self.io_tensors();
        let mut out: Vec<TensorInfo> = Vec::new();
        let mut k: usize = 0;
        while k < output_indices.len()
            invariant
                views_of(tensors@) == self@,
                k <= output_indices@.len(),
                out@.len() == k,
                forall|j: int| 0 <= j < k ==> #[trigger] index_is_output(self@, output_indices@[j]),
                forall|j: int| 0 <= j < k ==> (#[trigger] out@[j])@ == self@[output_indices@[j] as int],
            decreases output_indices@.len() - k,
        {
            let index = output_indices[k];
            if index >= tensors.len() {
                assert(first_bad_index(self@, output_indices@, k as int));
                assert forall|other: int|
                    #![trigger first_bad_index(self@, output_indices@, other)]
                    first_bad_index(self@, output_indices@, other) implies other == k by {
                    if other < k {
                    } else if other > k {
                    }
                }
                let n = usize_text(index);
                return Err(
                    Error::InvalidShape {
                        tensor: join3("<tensor-index:", n.as_str(), ">"),
                        reason: owned("tensor index is not an engine I/O tensor"),
                    },
                );
            }
            let t = &tensors[index];
            assert(t@ == self@[index as int]);
            if t.io_mode != TensorIOMode::Output {
                assert(first_bad_index(self@, output_indices@, k as int));
                assert forall|other: int|
                    #![trigger first_bad_index(self@, output_indices@, other)]
                    first_bad_index(self@, output_indices@, other) implies other == k by {
                    if other < k {
                    } else if other > k {
                    }
                }
                return Err(
                    Error::TensorModeMismatch {
                        tensor: owned(t.name.as_str()),
                        expected: TensorIOMode::Output,
                        actual: t.io_mode,
                    },
                );
            }
            out.push(t.clone());
            k = k + 1;
        }
        proof {
            assert forall|other: int|
                #![trigger first_bad_index(self@, output_indices@, other)]
                !first_bad_index(self@, output_indices@, other) by {}
        }
        Ok(out)
    }
}

/// The graph keys of device inputs at the given tensor indices.
pub open spec fn input_key_views(indices: Seq<usize>, inputs: Seq<DeviceInputTensor>) -> Seq<TensorKeyView> {
    Seq::new(inputs.len(), |k: int| (indices[k], inputs[k].data_type, inputs[k].shape@, inputs[k].ptr, inputs[k].bytes))
}

/// The graph keys of device outputs at the given tensor indices.
pub open spec fn output_key_views(indices: Seq<usize>, outputs: Seq<DeviceOutputTensor>) -> Seq<TensorKeyView> {
    Seq::new(outputs.len(), |k: int| (indices[k], outputs[k].data_type, outputs[k].shape@, outputs[k].ptr, outputs[k].bytes))
}

/// The index is an engine output tensor.
pub open spec fn index_is_output(ts: Seq<TensorInfoView>, index: usize) -> bool {
    index < ts.len() && ts[index as int].io_mode == TensorIOMode::Output
}

/// `k` is the first requested index that is not an output tensor.
pub open spec fn first_bad_index(ts: Seq<TensorInfoView>, indices: Seq<usize>, k: int) -> bool {
    &&& 0 <= k < indices.len()
    &&& !index_is_output(ts, indices[k])
    &&& forall|j: int| 0 <= j < k ==> #[trigger] index_is_output(ts, indices[j])
}

} // verus!
