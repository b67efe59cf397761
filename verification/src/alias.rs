//! Device memory ranges of a launch's bindings, and the rule that no output
//! shares memory with an input or with another output.

use vstd::prelude::*;
use crate::binding::{DeviceInputTensor, DeviceOutputTensor};
use crate::error::Error;
use crate::tensor::is_invalid_shape;
use crate::text::{join3, owned, str_debug, str_debug_text};

verus! {

/// The device bytes `[start, end)` of a named binding.
#[derive(Clone, Copy, Debug)]
pub struct CudaMemoryRange<'a> {
    pub name: &'a str,
    pub start: usize,
    pub end: usize,
}

/// A binding's byte range fits the address space.
pub open spec fn range_fits(ptr: usize, bytes: usize) -> bool {
    ptr + bytes <= usize::MAX
}

/// Two byte ranges `[a, a + n)` and `[b, b + m)` share a byte.
pub open spec fn ranges_overlap(a: usize, n: usize, b: usize, m: usize) -> bool {
    a < b + m && b < a + n
}

impl<'a> CudaMemoryRange<'a> {
    /// The range of `bytes` bytes at `ptr`; fails when its end passes the
    /// address space.
    pub fn new(name: &'a str, ptr: usize, bytes: usize) -> (r: Result<Self, Error>)
        ensures
            range_fits(ptr, bytes) ==> (r matches Ok(range) && range.name == name && range.start
                == ptr && range.end == ptr + bytes),
            !range_fits(ptr, bytes) ==> (r matches Err(e) && is_invalid_shape(
                e,
                name@,
                "CUDA tensor pointer range overflow"@,
            )),
    {
        match ptr.checked_add(bytes) {
            Some(end) => Ok(CudaMemoryRange { name, start: ptr, end }),
            None => Err(
                Error::InvalidShape {
                    tensor: owned(name),
                    reason: owned("CUDA tensor pointer range overflow"),
                },
            ),
        }
    }

    /// Whether the two ranges share a byte.
    pub fn overlaps(self, other: Self) -> (r: bool)
        ensures
            r == (self.start < other.end && other.start < self.end),
    {
        self.start < other.end && other.start < self.end
    }
}

/// Output `o` overlaps input `i`, or input `i`'s range does not fit.
pub open spec fn input_event_fails(outputs: Seq<DeviceOutputTensor>, inputs: Seq<DeviceInputTensor>, o: int, i: int) -> bool {
    !range_fits(inputs[i].ptr, inputs[i].bytes) || ranges_overlap(
        outputs[o].ptr,
        outputs[o].bytes,
        inputs[i].ptr,
        inputs[i].bytes,
    )
}

/// Output `o`'s range fits and it overlaps no input.
pub open spec fn output_row_passes(outputs: Seq<DeviceOutputTensor>, inputs: Seq<DeviceInputTensor>, o: int) -> bool {
    range_fits(outputs[o].ptr, outputs[o].bytes) && forall|i: int|
        0 <= i < inputs.len() ==> !#[trigger] input_event_fails(outputs, inputs, o, i)
}

/// Every output's range fits and no output overlaps an input.
pub open spec fn inputs_phase_passes(outputs: Seq<DeviceOutputTensor>, inputs: Seq<DeviceInputTensor>) -> bool {
    forall|o: int| 0 <= o < outputs.len() ==> #[trigger] output_row_passes(outputs, inputs, o)
}

/// Output `o` is the first whose own range does not fit.
pub open spec fn first_output_overflow(outputs: Seq<DeviceOutputTensor>, inputs: Seq<DeviceInputTensor>, o: int) -> bool {
    &&& 0 <= o < outputs.len()
    &&& !range_fits(outputs[o].ptr, outputs[o].bytes)
    &&& forall|p: int| 0 <= p < o ==> #[trigger] output_row_passes(outputs, inputs, p)
}

/// `(o, i)` is the first output-input pair that fails.
pub open spec fn first_input_event(outputs: Seq<DeviceOutputTensor>, inputs: Seq<DeviceInputTensor>, o: int, i: int) -> bool {
    &&& 0 <= o < outputs.len() && 0 <= i < inputs.len()
    &&& range_fits(outputs[o].ptr, outputs[o].bytes)
    &&& input_event_fails(outputs, inputs, o, i)
    &&& forall|p: int| 0 <= p < o ==> #[trigger] output_row_passes(outputs, inputs, p)
    &&& forall|j: int| 0 <= j < i ==> !#[trigger] input_event_fails(outputs, inputs, o, j)
}

/// Outputs `o` and `p` share a byte.
pub open spec fn outputs_overlap(outputs: Seq<DeviceOutputTensor>, o: int, p: int) -> bool {
    ranges_overlap(outputs[o].ptr, outputs[o].bytes, outputs[p].ptr, outputs[p].bytes)
}

/// `(o, p)`, with `o < p`, is the first pair of overlapping outputs.
pub open spec fn first_output_pair(outputs: Seq<DeviceOutputTensor>, o: int, p: int) -> bool {
    &&& 0 <= o < p < outputs.len()
    &&& outputs_overlap(outputs, o, p)
    &&& forall|a: int, b: int| 0 <= a < o && a < b < outputs.len() ==> !#[trigger] outputs_overlap(outputs, a, b)
    &&& forall|b: int| o < b < p ==> !#[trigger] outputs_overlap(outputs, o, b)
}

/// No two outputs share a byte.
pub open spec fn outputs_disjoint(outputs: Seq<DeviceOutputTensor>) -> bool {
    forall|a: int, b: int| 0 <= a < b < outputs.len() ==> !#[trigger] outputs_overlap(outputs, a, b)
}

/// `e` reports output `name` overlapping input `other`.
pub open spec fn is_input_alias_error(e: Error, name: Seq<char>, other: Seq<char>) -> bool {
    is_invalid_shape(
        e,
        name,
        "output CUDA memory overlaps input tensor "@ + str_debug(other)
            + "; preallocate a distinct output tensor"@,
    )
}

/// `e` reports output `name` overlapping output `other`.
pub open spec fn is_output_alias_error(e: Error, name: Seq<char>, other: Seq<char>) -> bool {
    is_invalid_shape(
        e,
        name,
        "output CUDA memory overlaps output tensor "@ + str_debug(other)
            + "; each output must use distinct storage"@,
    )
}

/// Rejects outputs whose device memory overlaps an input, then outputs that
/// overlap each other.
///
/// Outputs are taken in order; for each, its own range is formed, then each
/// input's range in order. Every range must fit the address space.
pub fn validate_cuda_output_aliases(
    inputs: &[DeviceInputTensor<'_>],
    outputs: &[DeviceOutputTensor<'_>],
) -> (r: Result<(), Error>)
    ensures
        forall|o: int|
            #![trigger first_output_overflow(outputs@, inputs@, o)]
            first_output_overflow(outputs@, inputs@, o) ==> (r matches Err(e) && is_invalid_shape(
                e,
                outputs@[o].name@,
                "CUDA tensor pointer range overflow"@,
            )),
        forall|o: int, i: int|
            #![trigger first_input_event(outputs@, inputs@, o, i)]
            first_input_event(outputs@, inputs@, o, i) ==> (r matches Err(e) && if !range_fits(
                inputs@[i].ptr,
                inputs@[i].bytes,
            ) {
                is_invalid_shape(e, inputs@[i].name@, "CUDA tensor pointer range overflow"@)
            } else {
                is_input_alias_error(e, outputs@[o].name@, inputs@[i].name@)
            }),
        inputs_phase_passes(outputs@, inputs@) ==> forall|o: int, p: int|
            #![trigger first_output_pair(outputs@, o, p)]
            first_output_pair(outputs@, o, p) ==> (r matches Err(e) && is_output_alias_error(
                e,
                outputs@[o].name@,
                outputs@[p].name@,
            )),
        inputs_phase_passes(outputs@, inputs@) && outputs_disjoint(outputs@) ==> r is Ok,
        r is Ok ==> inputs_phase_passes(outputs@, inputs@) && outputs_disjoint(outputs@),
{
    let mut o: usize = 0;
    while o < outputs.len()
        invariant
            o <= outputs@.len(),
            forall|p: int| 0 <= p < o ==> #[trigger] output_row_passes(outputs@, inputs@, p),
        decreases outputs@.len() - o,
    {
        let output = &outputs[o];
        let output_range = match CudaMemoryRange::new(output.name, output.ptr, output.bytes) {
            Ok(range) => range,
            Err(e) => {
                assert(first_output_overflow(outputs@, inputs@, o as int));
                proof {
                    lemma_first_events_unique(outputs@, inputs@, o as int, -1);
                }
                return Err(e);
            },
        };
        let mut i: usize = 0;
        while i < inputs.len()
            invariant
                o < outputs@.len(),
                i <= inputs@.len(),
                output_range.name == outputs@[o as int].name,
                output_range.start == outputs@[o as int].ptr,
                output_range.end == outputs@[o as int].ptr + outputs@[o as int].bytes,
                range_fits(outputs@[o as int].ptr, outputs@[o as int].bytes),
                forall|p: int| 0 <= p < o ==> #[trigger] output_row_passes(outputs@, inputs@, p),
                forall|j: int| 0 <= j < i ==> !#[trigger] input_event_fails(outputs@, inputs@, o as int, j),
            decreases inputs@.len() - i,
        {
            let input = &inputs[i];
            let input_range = match CudaMemoryRange::new(input.name, input.ptr, input.bytes) {
                Ok(range) => range,
                Err(e) => {
                    assert(input_event_fails(outputs@, inputs@, o as int, i as int));
                    assert(first_input_event(outputs@, inputs@, o as int, i as int));
                    proof {
                        lemma_first_events_unique(outputs@, inputs@, o as int, i as int);
                    }
                    return Err(e);
                },
            };
            if output_range.overlaps(input_range) {
                assert(input_event_fails(outputs@, inputs@, o as int, i as int));
                assert(first_input_event(outputs@, inputs@, o as int, i as int));
                proof {
                    lemma_first_events_unique(outputs@, inputs@, o as int, i as int);
                }
                let quoted = str_debug_text(input_range.name);
                let reason = join3(
                    "output CUDA memory overlaps input tensor ",
                    quoted.as_str(),
                    "; preallocate a distinct output tensor",
                );
                return Err(Error::InvalidShape { tensor: owned(output_range.name), reason });
            }
            i = i + 1;
        }
        assert(output_row_passes(outputs@, inputs@, o as int));
        o = o + 1;
    }
    proof {
        lemma_no_first_event(outputs@, inputs@);
    }
    let mut o: usize = 0;
    while o < outputs.len()
        invariant
            inputs_phase_passes(outputs@, inputs@),
            o <= outputs@.len(),
            forall|a: int, b: int| 0 <= a < o && a < b < outputs@.len() ==> !#[trigger] outputs_overlap(outputs@, a, b),
        decreases outputs@.len() - o,
    {
        let output = &outputs[o];
        assert(output_row_passes(outputs@, inputs@, o as int));
        let output_range = match CudaMemoryRange::new(output.name, output.ptr, output.bytes) {
            Ok(range) => range,
            Err(e) => return Err(e),
        };
        let mut p: usize = o + 1;
        while p < outputs.len()
            invariant
                inputs_phase_passes(outputs@, inputs@),
                o < p <= outputs@.len(),
                output_range.name == outputs@[o as int].name,
                output_range.start == outputs@[o as int].ptr,
                output_range.end == outputs@[o as int].ptr + outputs@[o as int].bytes,
                forall|a: int, b: int| 0 <= a < o && a < b < outputs@.len() ==> !#[trigger] outputs_overlap(outputs@, a, b),
                forall|b: int| o < b < p ==> !#[trigger] outputs_overlap(outputs@, o as int, b),
            decreases outputs@.len() - p,
        {
            let other = &outputs[p];
            assert(output_row_passes(outputs@, inputs@, p as int));
            let other_range = match CudaMemoryRange::new(other.name, other.ptr, other.bytes) {
                Ok(range) => range,
                Err(e) => return Err(e),
            };
            if output_range.overlaps(other_range) {
                assert(first_output_pair(outputs@, o as int, p as int));
                assert forall|a: int, b: int|
                    #![trigger first_output_pair(outputs@, a, b)]
                    first_output_pair(outputs@, a, b) implies a == o && b == p by {
                    if a < o {
                        assert(!outputs_overlap(outputs@, a, b));
                    } else if a > o {
                        assert(!outputs_overlap(outputs@, o as int, p as int));
                    } else if b < p {
                        assert(!outputs_overlap(outputs@, o as int, b));
                    } else if b > p {
                        assert(!outputs_overlap(outputs@, o as int, p as int));
                    }
                }
                proof {
                    lemma_no_first_event(outputs@, inputs@);
                }
                let quoted = str_debug_text(other_range.name);
                let reason = join3(
                    "output CUDA memory overlaps output tensor ",
                    quoted.as_str(),
                    "; each output must use distinct storage",
                );
                return Err(Error::InvalidShape { tensor: owned(output_range.name), reason });
            }
            p = p + 1;
        }
        o = o + 1;
    }
    proof {
        assert forall|a: int, b: int| #![trigger first_output_pair(outputs@, a, b)] !first_output_pair(outputs@, a, b) by {
            if 0 <= a < b < outputs@.len() {
                assert(!outputs_overlap(outputs@, a, b));
            }
        }
        lemma_no_first_event(outputs@, inputs@);
    }
    Ok(())
}

/// When every output passes its checks against the inputs, no event fails
/// first.
proof fn lemma_no_first_event(outputs: Seq<DeviceOutputTensor>, inputs: Seq<DeviceInputTensor>)
    requires
        inputs_phase_passes(outputs, inputs),
    ensures
        forall|q: int| #![trigger first_output_overflow(outputs, inputs, q)] !first_output_overflow(outputs, inputs, q),
        forall|q: int, j: int| #![trigger first_input_event(outputs, inputs, q, j)] !first_input_event(outputs, inputs, q, j),
{
    assert forall|q: int| #![trigger first_output_overflow(outputs, inputs, q)] !first_output_overflow(outputs, inputs, q) by {
        if 0 <= q < outputs.len() {
            assert(output_row_passes(outputs, inputs, q));
        }
    }
    assert forall|q: int, j: int| #![trigger first_input_event(outputs, inputs, q, j)] !first_input_event(outputs, inputs, q, j) by {
        if 0 <= q < outputs.len() && 0 <= j < inputs.len() {
            assert(output_row_passes(outputs, inputs, q));
            assert(!input_event_fails(outputs, inputs, q, j));
        }
    }
}

/// At most one event is the first failing one: if output `o`'s own range
/// (`i == -1`) or its pair with input `i` fails first, no other event does.
proof fn lemma_first_events_unique(outputs: Seq<DeviceOutputTensor>, inputs: Seq<DeviceInputTensor>, o: int, i: int)
    requires
        i >= -1,
        i == -1 ==> first_output_overflow(outputs, inputs, o),
        i >= 0 ==> first_input_event(outputs, inputs, o, i),
    ensures
        forall|q: int| #![trigger first_output_overflow(outputs, inputs, q)] first_output_overflow(outputs, inputs, q) ==> i == -1 && q == o,
        forall|q: int, j: int| #![trigger first_input_event(outputs, inputs, q, j)] first_input_event(outputs, inputs, q, j) ==> q == o && j == i,
        !inputs_phase_passes(outputs, inputs),
        !(forall|p: int| 0 <= p < outputs.len() ==> #[trigger] output_row_passes(outputs, inputs, p)),
{
    assert(!output_row_passes(outputs, inputs, o));
    assert forall|q: int| #![trigger first_output_overflow(outputs, inputs, q)] first_output_overflow(outputs, inputs, q) implies i == -1 && q == o by {
        if q < o {
            assert(output_row_passes(outputs, inputs, q));
        } else if q > o {
            assert(output_row_passes(outputs, inputs, o));
        } else if i >= 0 {
        }
    }
    assert forall|q: int, j: int| #![trigger first_input_event(outputs, inputs, q, j)] first_input_event(outputs, inputs, q, j) implies q == o && j == i by {
        if q < o {
            assert(output_row_passes(outputs, inputs, q));
            assert(!input_event_fails(outputs, inputs, q, j));
        } else if q > o {
            assert(output_row_passes(outputs, inputs, o));
        } else if i == -1 {
        } else if j < i {
            assert(!input_event_fails(outputs, inputs, o, j));
        } else if j > i {
            assert(!input_event_fails(outputs, inputs, o, i));
        }
    }
}

} // verus!
