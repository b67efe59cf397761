//! CUDA Graph replay keys, the capture back-off kept per key, and the choice
//! between replaying, capturing and a plain enqueue for a device launch.

use vstd::prelude::*;
use crate::binding::{DeviceInputTensor, DeviceOutputTensor};
use crate::data_type::DataType;
use crate::tensor::Dims;

verus! {

/// Launches skipped after the first failed capture of a key.
pub const CUDA_GRAPH_INITIAL_BACKOFF_RUNS: usize = 8;

/// Upper bound on the launches skipped after a failed capture.
pub const CUDA_GRAPH_MAX_BACKOFF_RUNS: usize = 64;

/// Number of captured graphs a session keeps.
pub const CUDA_GRAPH_MAX_CACHE_ENTRIES: usize = 16;

/// The value of a graph tensor key: tensor index, data type, extents, device
/// address, byte length.
pub type TensorKeyView = (usize, DataType, Seq<i64>, usize, usize);

/// One bound tensor of a captured launch: a replay is valid only for the same
/// tensor at the same address, type, shape and length.
#[derive(Debug, Eq, Hash, PartialEq)]
pub struct CudaGraphTensorKey {
    pub tensor_index: usize,
    pub data_type: DataType,
    pub shape: Dims,
    pub ptr: usize,
    pub bytes: usize,
}

impl View for CudaGraphTensorKey {
    type V = TensorKeyView;

    open spec fn view(&self) -> TensorKeyView {
        (self.tensor_index, self.data_type, self.shape@, self.ptr, self.bytes)
    }
}

impl Clone for CudaGraphTensorKey {
    fn clone(&self) -> (r: Self)
        ensures
            r@ == self@,
    {
        CudaGraphTensorKey {
            tensor_index: self.tensor_index,
            data_type: self.data_type,
            shape: self.shape.clone(),
            ptr: self.ptr,
            bytes: self.bytes,
        }
    }
}

impl CudaGraphTensorKey {
    /// The key of a device input bound at `tensor_index`.
    pub fn from_input(tensor_index: usize, input: &DeviceInputTensor<'_>) -> (r: Self)
        ensures
            r@ == (tensor_index, input.data_type, input.shape@, input.ptr, input.bytes),
    {
        CudaGraphTensorKey {
            tensor_index,
            data_type: input.data_type,
            shape: input.shape.clone(),
            ptr: input.ptr,
            bytes: input.bytes,
        }
    }

    /// The key of a device output bound at `tensor_index`.
    pub fn from_output(tensor_index: usize, output: &DeviceOutputTensor<'_>) -> (r: Self)
        ensures
            r@ == (tensor_index, output.data_type, output.shape@, output.ptr, output.bytes),
    {
        CudaGraphTensorKey {
            tensor_index,
            data_type: output.data_type,
            shape: output.shape.clone(),
            ptr: output.ptr,
            bytes: output.bytes,
        }
    }

    /// Whether two tensor keys are equal.
    pub fn same_as(&self, other: &CudaGraphTensorKey) -> (r: bool)
        ensures
            r == (self@ == other@),
    {
        self.tensor_index == other.tensor_index && self.data_type == other.data_type
            && self.shape.same_as(&other.shape) && self.ptr == other.ptr && self.bytes
            == other.bytes
    }
}

/// The values of a sequence of tensor keys.
pub open spec fn key_views(ks: Seq<CudaGraphTensorKey>) -> Seq<TensorKeyView> {
    ks.map_values(|k: CudaGraphTensorKey| k@)
}

/// Whether two sequences of tensor keys are equal.
fn same_tensor_keys(a: &[CudaGraphTensorKey], b: &[CudaGraphTensorKey]) -> (r: bool)
    ensures
        r == (key_views(a@) == key_views(b@)),
{
    if a.len() != b.len() {
        proof {
            assert(key_views(a@).len() != key_views(b@).len());
        }
        return false;
    }
    let mut k: usize = 0;
    while k < a.len()
        invariant
            a@.len() == b@.len(),
            k <= a@.len(),
            forall|j: int| 0 <= j < k ==> a@[j]@ == b@[j]@,
        decreases a@.len() - k,
    {
        if !a[k].same_as(&b[k]) {
            proof {
                assert(key_views(a@)[k as int] != key_views(b@)[k as int]);
            }
            return false;
        }
        k = k + 1;
    }
    assert(key_views(a@) =~= key_views(b@));
    true
}

/// The value of a graph key: stream address, input keys, output keys.
pub type GraphKeyView = (usize, Seq<TensorKeyView>, Seq<TensorKeyView>);

/// Identity of a captured CUDA Graph: the stream it was captured on and every
/// bound tensor, in binding order.
#[derive(Debug, Eq, Hash, PartialEq)]
pub struct CudaGraphKey {
    pub stream: usize,
    pub inputs: Vec<CudaGraphTensorKey>,
    pub outputs: Vec<CudaGraphTensorKey>,
}

impl View for CudaGraphKey {
    type V = GraphKeyView;

    open spec fn view(&self) -> GraphKeyView {
        (self.stream, key_views(self.inputs@), key_views(self.outputs@))
    }
}

/// Clones a sequence of tensor keys.
fn clone_tensor_keys(ks: &[CudaGraphTensorKey]) -> (r: Vec<CudaGraphTensorKey>)
    ensures
        key_views(r@) == key_views(ks@),
{
    let mut out: Vec<CudaGraphTensorKey> = Vec::new();
    let mut k: usize = 0;
    while k < ks.len()
        invariant
            k <= ks@.len(),
            out@.len() == k,
            forall|j: int| 0 <= j < k ==> (#[trigger] out@[j])@ == ks@[j]@,
        decreases ks@.len() - k,
    {
        out.push(ks[k].clone());
        k = k + 1;
    }
    assert(key_views(out@) =~= key_views(ks@));
    out
}

impl Clone for CudaGraphKey {
    fn clone(&self) -> (r: Self)
        ensures
            r@ == self@,
    {
        CudaGraphKey {
            stream: self.stream,
            inputs: clone_tensor_keys(self.inputs.as_slice()),
            outputs: clone_tensor_keys(self.outputs.as_slice()),
        }
    }
}

impl CudaGraphKey {
    /// The key of a launch on the stream at address `stream`.
    pub fn new(inputs: Vec<CudaGraphTensorKey>, outputs: Vec<CudaGraphTensorKey>, stream: usize) -> (r: Self)
        ensures
            r@ == (stream, key_views(inputs@), key_views(outputs@)),
    {
        CudaGraphKey { stream, inputs, outputs }
    }

    /// Whether two graph keys are equal.
    pub fn same_as(&self, other: &CudaGraphKey) -> (r: bool)
        ensures
            r == (self@ == other@),
    {
        self.stream == other.stream && same_tensor_keys(self.inputs.as_slice(), other.inputs.as_slice())
            && same_tensor_keys(self.outputs.as_slice(), other.outputs.as_slice())
    }
}

/// The back-off state of a key after `step` on a state `(remaining, next)`:
/// the next back-off becomes the skip count and the one after it doubles, up
/// to the bound.
pub open spec fn backoff_step(state: (nat, nat)) -> (nat, nat) {
    (state.1, if state.1 * 2 <= CUDA_GRAPH_MAX_BACKOFF_RUNS { (state.1 * 2) as nat } else { CUDA_GRAPH_MAX_BACKOFF_RUNS as nat })
}

/// The back-off state of a key whose capture failed for the first time.
pub open spec fn backoff_initial() -> (nat, nat) {
    (CUDA_GRAPH_INITIAL_BACKOFF_RUNS as nat, (CUDA_GRAPH_INITIAL_BACKOFF_RUNS * 2) as nat)
}

/// The back-off state of a key after `failures` failed captures, with no
/// launches skipped in between.
pub open spec fn backoff_after(failures: nat) -> (nat, nat)
    decreases failures,
{
    if failures <= 1 {
        backoff_initial()
    } else {
        backoff_step(backoff_after((failures - 1) as nat))
    }
}

/// The back-off of one graph key after a failed capture: how many more
/// launches run without a capture attempt, and the count to use after the
/// next failure.
#[derive(Debug)]
pub struct CudaGraphBackoff {
    remaining_runs: usize,
    next_runs: usize,
}

impl View for CudaGraphBackoff {
    type V = (nat, nat);

    closed spec fn view(&self) -> (nat, nat) {
        (self.remaining_runs as nat, self.next_runs as nat)
    }
}

impl CudaGraphBackoff {
    #[verifier::type_invariant]
    spec fn bounded(self) -> bool {
        self.remaining_runs <= CUDA_GRAPH_MAX_BACKOFF_RUNS && CUDA_GRAPH_INITIAL_BACKOFF_RUNS
            <= self.next_runs <= CUDA_GRAPH_MAX_BACKOFF_RUNS
    }

    /// The state after a first failed capture: skip
    /// `CUDA_GRAPH_INITIAL_BACKOFF_RUNS` launches, then twice that.
    pub fn new() -> (r: Self)
        ensures
            r@ == backoff_initial(),
    {
        CudaGraphBackoff {
            remaining_runs: CUDA_GRAPH_INITIAL_BACKOFF_RUNS,
            next_runs: if CUDA_GRAPH_INITIAL_BACKOFF_RUNS * 2 <= CUDA_GRAPH_MAX_BACKOFF_RUNS {
                CUDA_GRAPH_INITIAL_BACKOFF_RUNS * 2
            } else {
                CUDA_GRAPH_MAX_BACKOFF_RUNS
            },
        }
    }

    /// Launches still to run without a capture attempt.
    pub fn remaining_runs(&self) -> (r: usize)
        ensures
            r == self@.0,
            r <= CUDA_GRAPH_MAX_BACKOFF_RUNS,
    {
        proof {
            use_type_invariant(self);
        }
        self.remaining_runs
    }

    /// The skip count to use after the next failed capture.
    pub fn next_runs(&self) -> (r: usize)
        ensures
            r == self@.1,
            CUDA_GRAPH_INITIAL_BACKOFF_RUNS <= r <= CUDA_GRAPH_MAX_BACKOFF_RUNS,
    {
        proof {
            use_type_invariant(self);
        }
        self.next_runs
    }

    /// Another failed capture: skip the next count, then double it up to the
    /// bound.
    pub fn back_off_again(&mut self)
        ensures
            final(self)@ == backoff_step(old(self)@),
    {
        proof {
            use_type_invariant(&*self);
        }
        let next = self.next_runs;
        self.remaining_runs = next;
        self.next_runs = if next <= CUDA_GRAPH_MAX_BACKOFF_RUNS / 2 {
            next * 2
        } else {
            CUDA_GRAPH_MAX_BACKOFF_RUNS
        };
    }

    /// Counts one launch against the back-off: true while launches remain to
    /// be skipped, in which case one fewer remains.
    pub fn take_skip(&mut self) -> (r: bool)
        ensures
            r == (old(self)@.0 > 0),
            r ==> final(self)@ == (((old(self)@.0 - 1) as nat), old(self)@.1),
            !r ==> final(self)@ == old(self)@,
    {
        proof {
            use_type_invariant(&*self);
        }
        if self.remaining_runs == 0 {
            return false;
        }
        self.remaining_runs = self.remaining_runs - 1;
        true
    }
}

/// Every back-off state reachable by failed captures stays within the bound,
/// and from the fourth failure on both counts sit at the bound.
pub proof fn lemma_backoff_bounded(failures: nat)
    ensures
        backoff_after(failures).0 <= CUDA_GRAPH_MAX_BACKOFF_RUNS,
        backoff_after(failures).1 <= CUDA_GRAPH_MAX_BACKOFF_RUNS,
        backoff_after(failures).0 >= CUDA_GRAPH_INITIAL_BACKOFF_RUNS,
        backoff_after(failures).1 >= CUDA_GRAPH_INITIAL_BACKOFF_RUNS,
        failures >= 4 ==> backoff_after(failures) == (
            CUDA_GRAPH_MAX_BACKOFF_RUNS as nat,
            CUDA_GRAPH_MAX_BACKOFF_RUNS as nat,
        ),
    decreases failures,
{
    if failures > 1 {
        lemma_backoff_bounded((failures - 1) as nat);
        if failures == 2 {
            assert(backoff_after(1) == (8nat, 16nat));
        }
        if failures == 4 {
            assert(backoff_after(1) == (8nat, 16nat));
            assert(backoff_after(2) == (16nat, 32nat));
            assert(backoff_after(3) == (32nat, 64nat));
        }
    }
}

/// What a device launch does with CUDA Graphs.
#[derive(Clone, Copy, Debug, Eq, PartialEq, Structural)]
pub enum GraphLaunch {
    /// Replay the graph cached for the key.
    Replay,
    /// Capture a graph for the key, then replay it.
    Capture,
    /// Enqueue TensorRT directly, without a graph.
    Enqueue,
}

/// The capture back-off of every graph key that failed to capture, each key
/// held once.
pub struct CudaGraphBackoffs {
    entries: Vec<(CudaGraphKey, CudaGraphBackoff)>,
}

/// The back-off map that a sequence of entries holds.
pub open spec fn entries_map(es: Seq<(CudaGraphKey, CudaGraphBackoff)>) -> Map<GraphKeyView, (nat, nat)>
    decreases es.len(),
{
    if es.len() == 0 {
        Map::empty()
    } else {
        entries_map(es.drop_last()).insert(es.last().0@, es.last().1@)
    }
}

impl View for CudaGraphBackoffs {
    type V = Map<GraphKeyView, (nat, nat)>;

    closed spec fn view(&self) -> Map<GraphKeyView, (nat, nat)> {
        entries_map(self.entries@)
    }
}

/// The entries hold no key twice.
pub open spec fn keys_distinct(es: Seq<(CudaGraphKey, CudaGraphBackoff)>) -> bool {
    forall|i: int, j: int| 0 <= i < j < es.len() ==> (#[trigger] es[i]).0@ != (#[trigger] es[j]).0@
}

/// The map of entries with distinct keys holds exactly their keys, each with
/// its own state.
proof fn lemma_entries_map(es: Seq<(CudaGraphKey, CudaGraphBackoff)>)
    requires
        keys_distinct(es),
    ensures
        forall|k: GraphKeyView|
            entries_map(es).contains_key(k) <==> exists|i: int| 0 <= i < es.len() && (#[trigger] es[i]).0@ == k,
        forall|i: int| 0 <= i < es.len() ==> entries_map(es)[(#[trigger] es[i]).0@] == es[i].1@,
    decreases es.len(),
{
    if es.len() > 0 {
        let init = es.drop_last();
        assert(keys_distinct(init)) by {
            assert forall|i: int, j: int| 0 <= i < j < init.len() implies (#[trigger] init[i]).0@ != (#[trigger] init[j]).0@ by {
                assert(init[i] == es[i] && init[j] == es[j]);
            }
        }
        lemma_entries_map(init);
        assert forall|k: GraphKeyView|
            entries_map(es).contains_key(k) <==> exists|i: int| 0 <= i < es.len() && (#[trigger] es[i]).0@ == k by {
            if entries_map(es).contains_key(k) {
                if k == es.last().0@ {
                    assert(es[es.len() - 1].0@ == k);
                } else {
                    assert(entries_map(init).contains_key(k));
                    let i = choose|i: int| 0 <= i < init.len() && (#[trigger] init[i]).0@ == k;
                    assert(es[i] == init[i]);
                    assert(es[i].0@ == k);
                }
            }
            if exists|i: int| 0 <= i < es.len() && (#[trigger] es[i]).0@ == k {
                let i = choose|i: int| 0 <= i < es.len() && (#[trigger] es[i]).0@ == k;
                if i < es.len() - 1 {
                    assert(init[i] == es[i]);
                    assert(init[i].0@ == k);
                    assert(entries_map(init).contains_key(k));
                }
            }
        }
        assert forall|i: int| 0 <= i < es.len() implies entries_map(es)[(#[trigger] es[i]).0@] == es[i].1@ by {
            if i < es.len() - 1 {
                assert(init[i] == es[i]);
                assert(es[i].0@ != es[es.len() - 1].0@);
            }
        }
    }
}

impl CudaGraphBackoffs {
    #[verifier::type_invariant]
    spec fn distinct(self) -> bool {
        keys_distinct(self.entries@)
    }

    /// No key backed off.
    pub fn new() -> (r: Self)
        ensures
            r@ == Map::<GraphKeyView, (nat, nat)>::empty(),
    {
        CudaGraphBackoffs { entries: Vec::new() }
    }

    /// The position of `key`'s entry.
    fn find(&self, key: &CudaGraphKey) -> (r: Option<usize>)
        ensures
            r matches Some(i) ==> i < self.entries@.len() && self.entries@[i as int].0@ == key@,
            r is None ==> forall|i: int| 0 <= i < self.entries@.len() ==> (#[trigger] self.entries@[i]).0@ != key@,
    {
        let mut k: usize = 0;
        while k < self.entries.len()
            invariant
                k <= self.entries@.len(),
                forall|i: int| 0 <= i < k ==> (#[trigger] self.entries@[i]).0@ != key@,
            decreases self.entries@.len() - k,
        {
            if self.entries[k].0.same_as(key) {
                return Some(k);
            }
            k = k + 1;
        }
        None
    }

    /// Whether a launch with `key` skips its capture attempt: true while the
    /// key's back-off has launches left, which consumes one of them.
    pub fn should_skip_cuda_graph_capture(&mut self, key: &CudaGraphKey) -> (r: bool)
        ensures
            !old(self)@.contains_key(key@) ==> !r && final(self)@ == old(self)@,
            old(self)@.contains_key(key@) && old(self)@[key@].0 == 0 ==> !r && final(self)@ == old(self)@,
            old(self)@.contains_key(key@) && old(self)@[key@].0 > 0 ==> r && final(self)@ == old(self)@.insert(
                key@,
                (((old(self)@[key@].0 - 1) as nat), old(self)@[key@].1),
            ),
    {
        proof {
            use_type_invariant(&*self);
            lemma_entries_map(self.entries@);
        }
        match self.find(key) {
            None => false,
            Some(i) => {
                let ghost before = self.entries@;
                let mut entries: Vec<(CudaGraphKey, CudaGraphBackoff)> = Vec::new();
                std::mem::swap(&mut entries, &mut self.entries);
                let (k, mut backoff) = entries.remove(i);
                let skip = backoff.take_skip();
                entries.insert(i, (k, backoff));
                proof {
                    let after = entries@;
                    assert(after =~= before.update(i as int, after[i as int]));
                    assert(keys_distinct(after)) by {
                        assert forall|a: int, b: int| 0 <= a < b < after.len() implies (#[trigger] after[a]).0@ != (#[trigger] after[b]).0@ by {
                            assert(before[a].0@ != before[b].0@);
                        }
                    }
                    lemma_entries_map(after);
                    assert(entries_map(after) =~= if skip {
                        entries_map(before).insert(key@, after[i as int].1@)
                    } else {
                        entries_map(before)
                    }) by {
                        assert forall|g: GraphKeyView| entries_map(after).contains_key(g) <==> entries_map(before).contains_key(g) by {
                            if entries_map(after).contains_key(g) {
                                let j = choose|j: int| 0 <= j < after.len() && (#[trigger] after[j]).0@ == g;
                                assert(before[j].0@ == g);
                            }
                            if entries_map(before).contains_key(g) {
                                let j = choose|j: int| 0 <= j < before.len() && (#[trigger] before[j]).0@ == g;
                                assert(after[j].0@ == g);
                            }
                        }
                        assert forall|g: GraphKeyView| #[trigger] entries_map(after).contains_key(g) implies entries_map(after)[g] == (if skip {
                            entries_map(before).insert(key@, after[i as int].1@)
                        } else {
                            entries_map(before)
                        })[g] by {
                            let j = choose|j: int| 0 <= j < after.len() && (#[trigger] after[j]).0@ == g;
                            if j != i {
                                assert(after[j] == before[j]);
                            }
                        }
                    }
                }
                self.entries = entries;
                skip
            },
        }
    }

    /// Records a failed capture of `key`: a first failure starts the back-off,
    /// a later one backs off again.
    pub fn record_cuda_graph_capture_failure(&mut self, key: CudaGraphKey)
        ensures
            !old(self)@.contains_key(key@) ==> final(self)@ == old(self)@.insert(key@, backoff_initial()),
            old(self)@.contains_key(key@) ==> final(self)@ == old(self)@.insert(
                key@,
                backoff_step(old(self)@[key@]),
            ),
    {
        proof {
            use_type_invariant(&*self);
            lemma_entries_map(self.entries@);
        }
        let ghost before = self.entries@;
        match self.find(&key) {
            None => {
                let mut entries: Vec<(CudaGraphKey, CudaGraphBackoff)> = Vec::new();
                std::mem::swap(&mut entries, &mut self.entries);
                entries.push((key, CudaGraphBackoff::new()));
                proof {
                    let after = entries@;
                    assert(after.drop_last() =~= before);
                    assert(keys_distinct(after)) by {
                        assert forall|a: int, b: int| 0 <= a < b < after.len() implies (#[trigger] after[a]).0@ != (#[trigger] after[b]).0@ by {
                            if b < before.len() {
                                assert(before[a].0@ != before[b].0@);
                            } else {
                                assert(after[a] == before[a]);
                            }
                        }
                    }
                }
                self.entries = entries;
            },
            Some(i) => {
                let mut entries: Vec<(CudaGraphKey, CudaGraphBackoff)> = Vec::new();
                std::mem::swap(&mut entries, &mut self.entries);
                let (k, mut backoff) = entries.remove(i);
                backoff.back_off_again();
                entries.insert(i, (k, backoff));
                proof {
                    let after = entries@;
                    assert(after =~= before.update(i as int, after[i as int]));
                    assert(keys_distinct(after)) by {
                        assert forall|a: int, b: int| 0 <= a < b < after.len() implies (#[trigger] after[a]).0@ != (#[trigger] after[b]).0@ by {
                            assert(before[a].0@ != before[b].0@);
                        }
                    }
                    lemma_entries_map(after);
                    assert(entries_map(after) =~= entries_map(before).insert(key@, after[i as int].1@)) by {
                        assert forall|g: GraphKeyView| entries_map(after).contains_key(g) <==> entries_map(before).insert(key@, after[i as int].1@).contains_key(g) by {
                            if entries_map(after).contains_key(g) {
                                let j = choose|j: int| 0 <= j < after.len() && (#[trigger] after[j]).0@ == g;
                                assert(before[j].0@ == g);
                            }
                            if entries_map(before).contains_key(g) {
                                let j = choose|j: int| 0 <= j < before.len() && (#[trigger] before[j]).0@ == g;
                                assert(after[j].0@ == g);
                            }
                        }
                        assert forall|g: GraphKeyView| #[trigger] entries_map(after).contains_key(g) implies entries_map(after)[g] == entries_map(before).insert(key@, after[i as int].1@)[g] by {
                            let j = choose|j: int| 0 <= j < after.len() && (#[trigger] after[j]).0@ == g;
                            if j != i {
                                assert(after[j] == before[j]);
                            }
                        }
                    }
                }
                self.entries = entries;
            },
        }
    }

    /// Forgets `key`'s back-off after a successful capture.
    pub fn clear_cuda_graph_capture_backoff(&mut self, key: &CudaGraphKey)
        ensures
            final(self)@ == old(self)@.remove(key@),
    {
        proof {
            use_type_invariant(&*self);
            lemma_entries_map(self.entries@);
        }
        let ghost before = self.entries@;
        match self.find(key) {
            None => {
                assert(entries_map(before) =~= entries_map(before).remove(key@));
            },
            Some(i) => {
                let mut entries: Vec<(CudaGraphKey, CudaGraphBackoff)> = Vec::new();
                std::mem::swap(&mut entries, &mut self.entries);
                let _ = entries.remove(i);
                proof {
                    let after = entries@;
                    assert(after =~= before.remove(i as int));
                    assert(keys_distinct(after)) by {
                        assert forall|a: int, b: int| 0 <= a < b < after.len() implies (#[trigger] after[a]).0@ != (#[trigger] after[b]).0@ by {
                            let a0 = if a < i { a } else { a + 1 };
                            let b0 = if b < i { b } else { b + 1 };
                            assert(after[a] == before[a0] && after[b] == before[b0]);
                            assert(before[a0].0@ != before[b0].0@);
                        }
                    }
                    lemma_entries_map(after);
                    assert(entries_map(after) =~= entries_map(before).remove(key@)) by {
                        assert forall|g: GraphKeyView| entries_map(after).contains_key(g) <==> entries_map(before).remove(key@).contains_key(g) by {
                            if entries_map(after).contains_key(g) {
                                let j = choose|j: int| 0 <= j < after.len() && (#[trigger] after[j]).0@ == g;
                                let j0 = if j < i { j } else { j + 1 };
                                assert(after[j] == before[j0]);
                                assert(before[j0].0@ != before[i as int].0@);
                            }
                            if entries_map(before).remove(key@).contains_key(g) {
                                let j = choose|j: int| 0 <= j < before.len() && (#[trigger] before[j]).0@ == g;
                                assert(j != i);
                                let j1 = if j < i { j } else { j - 1 };
                                assert(after[j1] == before[j]);
                            }
                        }
                        assert forall|g: GraphKeyView| #[trigger] entries_map(after).contains_key(g) implies entries_map(after)[g] == entries_map(before).remove(key@)[g] by {
                            let j = choose|j: int| 0 <= j < after.len() && (#[trigger] after[j]).0@ == g;
                            let j0 = if j < i { j } else { j + 1 };
                            assert(after[j] == before[j0]);
                        }
                    }
                }
                self.entries = entries;
            },
        }
    }

    /// Forgets every key's back-off.
    pub fn clear(&mut self)
        ensures
            final(self)@ == Map::<GraphKeyView, (nat, nat)>::empty(),
    {
        self.entries = Vec::new();
    }

    /// Decides how a device launch with `key` uses CUDA Graphs: replay a
    /// cached graph; with none cached and no graph in flight, capture unless
    /// the key's back-off skips this launch; otherwise enqueue directly.
    pub fn plan_graph_launch(&mut self, key: &CudaGraphKey, cached: bool, graphs_in_flight: bool) -> (r: GraphLaunch)
        ensures
            cached ==> r == GraphLaunch::Replay && final(self)@ == old(self)@,
            !cached && graphs_in_flight ==> r == GraphLaunch::Enqueue && final(self)@ == old(self)@,
            !cached && !graphs_in_flight && !(old(self)@.contains_key(key@) && old(self)@[key@].0 > 0) ==> r
                == GraphLaunch::Capture && final(self)@ == old(self)@,
            !cached && !graphs_in_flight && old(self)@.contains_key(key@) && old(self)@[key@].0 > 0 ==> r
                == GraphLaunch::Enqueue && final(self)@ == old(self)@.insert(
                key@,
                (((old(self)@[key@].0 - 1) as nat), old(self)@[key@].1),
            ),
    {
        if cached {
            return GraphLaunch::Replay;
        }
        if graphs_in_flight {
            return GraphLaunch::Enqueue;
        }
        if self.should_skip_cuda_graph_capture(key) {
            GraphLaunch::Enqueue
        } else {
            GraphLaunch::Capture
        }
    }

    /// Records how a capture of `key` ended: success clears its back-off,
    /// failure backs off.
    pub fn capture_finished(&mut self, key: CudaGraphKey, captured: bool)
        ensures
            captured ==> final(self)@ == old(self)@.remove(key@),
            !captured && !old(self)@.contains_key(key@) ==> final(self)@ == old(self)@.insert(key@, backoff_initial()),
            !captured && old(self)@.contains_key(key@) ==> final(self)@ == old(self)@.insert(
                key@,
                backoff_step(old(self)@[key@]),
            ),
    {
        if captured {
            self.clear_cuda_graph_capture_backoff(&key);
        } else {
            self.record_cuda_graph_capture_failure(key);
        }
    }
}

/// Whether caching a new graph first evicts one: the cache is full and does
/// not hold the key yet.
pub fn graph_cache_needs_eviction(cached_graphs: usize, holds_key: bool) -> (r: bool)
    ensures
        r == (cached_graphs >= CUDA_GRAPH_MAX_CACHE_ENTRIES && !holds_key),
{
    cached_graphs >= CUDA_GRAPH_MAX_CACHE_ENTRIES && !holds_key
}

} // verus!
