//! Runtime settings of the TensorRT shim, the counts it reports, and the
//! input shapes an execution context remembers between runs.

use vstd::prelude::*;
use crate::binding::{DeviceInputTensor, TensorShape};
use crate::catalog::{SessionTensors, is_mode_error, is_unknown_tensor, shape_check_ok, spec_index_of, spec_shape_fits, lemma_index_in_range};
use crate::error::Error;
use crate::tensor::{Dims, TensorIOMode};
use crate::text::{first_nul, first_zero_byte, name_crosses_abi, owned, same_text};
use vstd::utf8::encode_utf8;

verus! {

/// TensorRT version compiled into the binding shim.
#[derive(Clone, Copy, Debug, Eq, PartialEq, Structural)]
pub struct Version {
    pub major: i32,
    pub minor: i32,
    pub patch: i32,
    pub build: i32,
}

/// Minimum severity emitted by the TensorRT logger.
#[derive(Clone, Copy, Debug, Eq, PartialEq, Structural)]
pub enum LogSeverity {
    InternalError,
    Error,
    Warning,
    Info,
    Verbose,
}

/// The C ABI value of a severity.
pub open spec fn spec_severity_raw(severity: LogSeverity) -> i32 {
    match severity {
        LogSeverity::InternalError => 0,
        LogSeverity::Error => 1,
        LogSeverity::Warning => 2,
        LogSeverity::Info => 3,
        LogSeverity::Verbose => 4,
    }
}

/// The C ABI codes of the severities are TensorRT's logger severities: they
/// start at zero for internal errors and rise by one with each step in
/// verbosity, so a more verbose level always has a larger code.
pub proof fn lemma_severity_codes_rise_with_verbosity()
    ensures
        spec_severity_raw(LogSeverity::InternalError) == 0,
        spec_severity_raw(LogSeverity::Error) == spec_severity_raw(LogSeverity::InternalError) + 1,
        spec_severity_raw(LogSeverity::Warning) == spec_severity_raw(LogSeverity::Error) + 1,
        spec_severity_raw(LogSeverity::Info) == spec_severity_raw(LogSeverity::Warning) + 1,
        spec_severity_raw(LogSeverity::Verbose) == spec_severity_raw(LogSeverity::Info) + 1,
        forall|s: LogSeverity| 0 <= #[trigger] spec_severity_raw(s) <= 4,
{
}

impl LogSeverity {
    /// The value the C ABI takes for this severity.
    pub fn as_raw(self) -> (r: i32)
        ensures
            r == spec_severity_raw(self),
    {
        match self {
            LogSeverity::InternalError => 0,
            LogSeverity::Error => 1,
            LogSeverity::Warning => 2,
            LogSeverity::Info => 3,
            LogSeverity::Verbose => 4,
        }
    }
}

/// The I/O tensor count the shim reports; a negative count is an invalid
/// argument.
pub fn io_tensor_count(raw: i32) -> (r: Result<usize, Error>)
    ensures
        raw >= 0 ==> r == Ok::<usize, Error>(raw as usize),
        raw < 0 ==> r matches Err(Error::InvalidArgument),
{
    if raw < 0 {
        Err(Error::InvalidArgument)
    } else {
        Ok(raw as usize)
    }
}

/// The C ABI index of an I/O tensor; one past `i32::MAX` is an invalid
/// argument.
pub fn io_tensor_raw_index(index: usize) -> (r: Result<i32, Error>)
    ensures
        index <= i32::MAX ==> r == Ok::<i32, Error>(index as i32),
        index > i32::MAX ==> r matches Err(Error::InvalidArgument),
{
    if index as u64 > 0x7fff_ffffu64 {
        Err(Error::InvalidArgument)
    } else {
        Ok(index as i32)
    }
}

/// The input shapes last set on an execution context, in order, if any.
pub struct InputShapeCache {
    input_shapes: Option<Vec<(String, Dims)>>,
}

/// The value of a remembered input: its name and extents.
pub type ShapeEntry = (Seq<char>, Seq<i64>);

/// The values of remembered inputs.
pub open spec fn shape_entries(v: Seq<(String, Dims)>) -> Seq<ShapeEntry> {
    v.map_values(|e: (String, Dims)| (e.0@, e.1@))
}

/// The values of named shapes.
pub open spec fn shape_infos_of(v: Seq<TensorShape>) -> Seq<ShapeEntry> {
    v.map_values(|t: TensorShape| (t.name@, t.shape@))
}

/// The names and shapes of device inputs.
pub open spec fn device_shapes_of(v: Seq<DeviceInputTensor>) -> Seq<ShapeEntry> {
    v.map_values(|t: DeviceInputTensor| (t.name@, t.shape@))
}

impl View for InputShapeCache {
    type V = Option<Seq<ShapeEntry>>;

    closed spec fn view(&self) -> Option<Seq<ShapeEntry>> {
        match self.input_shapes {
            Some(v) => Some(shape_entries(v@)),
            None => None,
        }
    }
}

impl InputShapeCache {
    /// A context with no shapes set yet.
    pub fn new() -> (r: Self)
        ensures
            r@ is None,
    {
        InputShapeCache { input_shapes: None }
    }

    /// Whether the remembered shapes are exactly `entries`, in order.
    fn matches_entries(&self, names: &[&str], shapes: &[&Dims]) -> (r: bool)
        requires
            names@.len() == shapes@.len(),
        ensures
            r == (self@ matches Some(c) && c == Seq::new(names@.len(), |k: int| (names@[k]@, shapes@[k]@))),
    {
        let ghost want = Seq::new(names@.len(), |k: int| (names@[k]@, shapes@[k]@));
        match &self.input_shapes {
            None => false,
            Some(cached) => {
                if cached.len() != names.len() {
                    proof {
                        assert(shape_entries(cached@).len() != want.len());
                    }
                    return false;
                }
                let mut k: usize = 0;
                while k < cached.len()
                    invariant
                        self@ == Some(shape_entries(cached@)),
                        cached@.len() == names@.len(),
                        names@.len() == shapes@.len(),
                        want == Seq::new(names@.len(), |k: int| (names@[k]@, shapes@[k]@)),
                        k <= cached@.len(),
                        forall|j: int| 0 <= j < k ==> #[trigger] shape_entries(cached@)[j] == want[j],
                    decreases cached@.len() - k,
                {
                    if !same_text(cached[k].0.as_str(), names[k]) || !cached[k].1.same_as(shapes[k]) {
                        proof {
                            assert(shape_entries(cached@)[k as int] != want[k as int]);
                            assert(shape_entries(cached@) != want);
                            assert(self@ == Some(shape_entries(cached@)));
                        }
                        return false;
                    }
                    k = k + 1;
                }
                assert(shape_entries(cached@) =~= want);
                true
            },
        }
    }

    /// Whether the context's input shapes are already those of `inputs`.
    pub fn input_shapes_match(&self, inputs: &[TensorShape<'_>]) -> (r: bool)
        ensures
            r == (self@ == Some(shape_infos_of(inputs@))),
    {
        let mut names: Vec<&str> = Vec::new();
        let mut shapes: Vec<&Dims> = Vec::new();
        let mut k: usize = 0;
        while k < inputs.len()
            invariant
                k <= inputs@.len(),
                names@.len() == k,
                shapes@.len() == k,
                forall|j: int| 0 <= j < k ==> #[trigger] names@[j] == inputs@[j].name,
                forall|j: int| 0 <= j < k ==> #[trigger] shapes@[j]@ == inputs@[j].shape@,
            decreases inputs@.len() - k,
        {
            names.push(inputs[k].name);
            shapes.push(&inputs[k].shape);
            k = k + 1;
        }
        let r = self.matches_entries(names.as_slice(), shapes.as_slice());
        proof {
            assert(Seq::new(names@.len(), |k: int| (names@[k]@, shapes@[k]@)) =~= shape_infos_of(inputs@));
        }
        r
    }

    /// Whether the context's input shapes are already those of the device
    /// inputs.
    pub fn device_input_shapes_match(&self, inputs: &[DeviceInputTensor<'_>]) -> (r: bool)
        ensures
            r == (self@ == Some(device_shapes_of(inputs@))),
    {
        let mut names: Vec<&str> = Vec::new();
        let mut shapes: Vec<&Dims> = Vec::new();
        let mut k: usize = 0;
        while k < inputs.len()
            invariant
                k <= inputs@.len(),
                names@.len() == k,
                shapes@.len() == k,
                forall|j: int| 0 <= j < k ==> #[trigger] names@[j] == inputs@[j].name,
                forall|j: int| 0 <= j < k ==> #[trigger] shapes@[j]@ == inputs@[j].shape@,
            decreases inputs@.len() - k,
        {
            names.push(inputs[k].name);
            shapes.push(&inputs[k].shape);
            k = k + 1;
        }
        let r = self.matches_entries(names.as_slice(), shapes.as_slice());
        proof {
            assert(Seq::new(names@.len(), |k: int| (names@[k]@, shapes@[k]@)) =~= device_shapes_of(inputs@));
        }
        r
    }

    /// Remembers the shapes just set on the context.
    pub fn remember_input_shapes(&mut self, inputs: &[TensorShape<'_>])
        ensures
            final(self)@ == Some(shape_infos_of(inputs@)),
    {
        let mut v: Vec<(String, Dims)> = Vec::new();
        let mut k: usize = 0;
        while k < inputs.len()
            invariant
                k <= inputs@.len(),
                v@.len() == k,
                forall|j: int| 0 <= j < k ==> #[trigger] shape_entries(v@)[j] == shape_infos_of(inputs@)[j],
            decreases inputs@.len() - k,
        {
            let ghost before = v@;
            v.push((owned(inputs[k].name), inputs[k].shape.clone()));
            proof {
                assert forall|j: int| 0 <= j < k + 1 implies #[trigger] shape_entries(v@)[j] == shape_infos_of(inputs@)[j] by {
                    if j < k {
                        assert(v@[j] == before[j]);
                        assert(shape_entries(before)[j] == shape_infos_of(inputs@)[j]);
                    }
                }
            }
            k = k + 1;
        }
        assert(shape_entries(v@) =~= shape_infos_of(inputs@));
        self.input_shapes = Some(v);
    }

    /// Remembers the device inputs' shapes just set on the context.
    pub fn remember_device_input_shapes(&mut self, inputs: &[DeviceInputTensor<'_>])
        ensures
            final(self)@ == Some(device_shapes_of(inputs@)),
    {
        let mut v: Vec<(String, Dims)> = Vec::new();
        let mut k: usize = 0;
        while k < inputs.len()
            invariant
                k <= inputs@.len(),
                v@.len() == k,
                forall|j: int| 0 <= j < k ==> #[trigger] shape_entries(v@)[j] == device_shapes_of(inputs@)[j],
            decreases inputs@.len() - k,
        {
            let ghost before = v@;
            v.push((owned(inputs[k].name), inputs[k].shape.clone()));
            proof {
                assert forall|j: int| 0 <= j < k + 1 implies #[trigger] shape_entries(v@)[j] == device_shapes_of(inputs@)[j] by {
                    if j < k {
                        assert(v@[j] == before[j]);
                        assert(shape_entries(before)[j] == device_shapes_of(inputs@)[j]);
                    }
                }
            }
            k = k + 1;
        }
        assert(shape_entries(v@) =~= device_shapes_of(inputs@));
        self.input_shapes = Some(v);
    }
}

/// Two runs name the same tensors with the same shapes, in the same order.
pub open spec fn same_named_shapes(a: Seq<TensorShape>, b: Seq<TensorShape>) -> bool {
    &&& a.len() == b.len()
    &&& forall|k: int| 0 <= k < a.len() ==> #[trigger] a[k].name@ == b[k].name@ && a[k].shape@ == b[k].shape@
}

/// A context that remembered `inputs` finds a later run's `again` already set
/// exactly when `again` names the same tensors with the same shapes, in the
/// same order.
pub proof fn lemma_shape_cache_hit(inputs: Seq<TensorShape>, again: Seq<TensorShape>)
    ensures
        (Some(shape_infos_of(inputs)) == Some(shape_infos_of(again))) <==> same_named_shapes(inputs, again),
{
    if same_named_shapes(inputs, again) {
        assert forall|k: int| 0 <= k < inputs.len() implies #[trigger] shape_infos_of(inputs)[k] == shape_infos_of(again)[k] by {
            assert(inputs[k].name@ == again[k].name@ && inputs[k].shape@ == again[k].shape@);
        }
        assert(shape_infos_of(inputs) =~= shape_infos_of(again));
    }
    if Some(shape_infos_of(inputs)) == Some(shape_infos_of(again)) {
        assert(shape_infos_of(inputs) == shape_infos_of(again));
        assert(shape_infos_of(inputs).len() == inputs.len());
        assert(shape_infos_of(again).len() == again.len());
        assert forall|k: int| 0 <= k < inputs.len() implies #[trigger] inputs[k].name@ == again[k].name@ && inputs[k].shape@
            == again[k].shape@ by {
            assert(shape_infos_of(inputs)[k] == shape_infos_of(again)[k]);
        }
    }
}

impl SessionTensors {
    /// Checks a named shape before it is set on a context: it must fit the
    /// engine's shape of an input tensor.
    pub fn check_shape_input(&self, input: &TensorShape<'_>) -> (r: Result<(), Error>)
        ensures
            match spec_index_of(self@, input.name@) {
                None => r matches Err(e) && is_unknown_tensor(e, input.name@),
                Some(i) => if !spec_shape_fits(self@[i].shape, input.shape@) {
                    shape_check_ok(self@[i].shape, input.shape@, input.name@, r)
                } else if self@[i].io_mode != TensorIOMode::Input {
                    r matches Err(e) && is_mode_error(e, input.name@, TensorIOMode::Input, self@[i].io_mode)
                } else {
                    r is Ok
                },
            },
    {
        proof {
            lemma_index_in_range(self@, input.name@);
        }
        match self.validate_tensor_shape(input.name, &input.shape) {
            Err(e) => return Err(e),
            Ok(()) => {},
        }
        self.ensure_tensor_mode(input.name, TensorIOMode::Input)
    }
}

/// A tensor name as the C ABI takes it: refused when it holds a zero byte,
/// with the position of the first one.
pub fn tensor_name(name: &str) -> (r: Result<String, Error>)
    ensures
        name_crosses_abi(name@) ==> (r matches Ok(s) && s@ == name@),
        !name_crosses_abi(name@) ==> (r matches Err(e) && e matches Error::InvalidTensorName {
            nul_position,
        } && first_zero_byte(encode_utf8(name@), nul_position as int)),
{
    match first_nul(name) {
        Some(position) => Err(Error::InvalidTensorName { nul_position: position }),
        None => Ok(owned(name)),
    }
}

} // verus!
