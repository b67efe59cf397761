use tensorrt_rs::binding::{DeviceInputTensor, DeviceOutputTensor};
use tensorrt_rs::data_type::DataType;
use tensorrt_rs::graph::{
    graph_cache_needs_eviction, CudaGraphBackoff, CudaGraphBackoffs, CudaGraphKey, CudaGraphTensorKey, GraphLaunch,
    CUDA_GRAPH_INITIAL_BACKOFF_RUNS, CUDA_GRAPH_MAX_BACKOFF_RUNS, CUDA_GRAPH_MAX_CACHE_ENTRIES,
};
use tensorrt_rs::tensor::Dims;

fn input(ptr: usize, shape: Dims) -> DeviceInputTensor<'static> {
    DeviceInputTensor::new("input", DataType::Float, shape, ptr, 16)
}

fn output(ptr: usize, shape: Dims) -> DeviceOutputTensor<'static> {
    DeviceOutputTensor::new("output", DataType::Float, shape, ptr, 16)
}

fn key(input_index: usize, input_ptr: usize, output_ptr: usize, stream: usize) -> CudaGraphKey {
    let shape = Dims::new(vec![1, 4]).unwrap();
    CudaGraphKey::new(
        vec![CudaGraphTensorKey::from_input(input_index, &input(input_ptr, shape.clone()))],
        vec![CudaGraphTensorKey::from_output(1, &output(output_ptr, shape))],
        stream,
    )
}

#[test]
fn cuda_graph_capture_backoff_is_bounded() {
    let mut backoff = CudaGraphBackoff::new();

    assert_eq!(backoff.remaining_runs(), CUDA_GRAPH_INITIAL_BACKOFF_RUNS);
    assert_eq!(backoff.next_runs(), (CUDA_GRAPH_INITIAL_BACKOFF_RUNS * 2).min(CUDA_GRAPH_MAX_BACKOFF_RUNS));

    for _ in 0..16 {
        backoff.back_off_again();
    }

    assert_eq!(backoff.remaining_runs(), CUDA_GRAPH_MAX_BACKOFF_RUNS);
    assert_eq!(backoff.next_runs(), CUDA_GRAPH_MAX_BACKOFF_RUNS);
}

#[test]
fn cuda_graph_backoff_doubles_until_the_bound() {
    let mut backoff = CudaGraphBackoff::new();
    let mut seen = vec![(backoff.remaining_runs(), backoff.next_runs())];
    for _ in 0..4 {
        backoff.back_off_again();
        seen.push((backoff.remaining_runs(), backoff.next_runs()));
    }
    assert_eq!(seen, vec![(8, 16), (16, 32), (32, 64), (64, 64), (64, 64)]);
    assert!(backoff.take_skip());
    assert_eq!(backoff.remaining_runs(), 63);
}

#[test]
fn cuda_graph_key_requires_same_stream_and_binding_addresses() {
    let left = key(0, 0x1000, 0x2000, 0x3000);
    assert!(left.same_as(&key(0, 0x1000, 0x2000, 0x3000)));
    assert!(!left.same_as(&key(0, 0x1100, 0x2000, 0x3000)));
    assert!(!left.same_as(&key(0, 0x1000, 0x2100, 0x3000)));
    assert!(!left.same_as(&key(0, 0x1000, 0x2000, 0x3100)));
    assert!(!left.same_as(&key(2, 0x1000, 0x2000, 0x3000)));

    let other_type = CudaGraphKey::new(
        vec![CudaGraphTensorKey::from_input(
            0,
            &DeviceInputTensor::new("input", DataType::Half, Dims::new(vec![1, 4]).unwrap(), 0x1000, 16),
        )],
        vec![CudaGraphTensorKey::from_output(1, &output(0x2000, Dims::new(vec![1, 4]).unwrap()))],
        0x3000,
    );
    assert!(!left.same_as(&other_type));
}

#[test]
fn failed_capture_skips_the_next_launches_then_retries() {
    let mut backoffs = CudaGraphBackoffs::new();
    let k = key(0, 0x1000, 0x2000, 0x3000);
    assert_eq!(backoffs.plan_graph_launch(&k, false, false), GraphLaunch::Capture);
    backoffs.capture_finished(key(0, 0x1000, 0x2000, 0x3000), false);
    for _ in 0..CUDA_GRAPH_INITIAL_BACKOFF_RUNS {
        assert_eq!(backoffs.plan_graph_launch(&k, false, false), GraphLaunch::Enqueue);
    }
    assert_eq!(backoffs.plan_graph_launch(&k, false, false), GraphLaunch::Capture);
    assert_eq!(backoffs.plan_graph_launch(&k, true, false), GraphLaunch::Replay);
    assert_eq!(backoffs.plan_graph_launch(&k, false, true), GraphLaunch::Enqueue);

    backoffs.capture_finished(key(0, 0x1000, 0x2000, 0x3000), false);
    for _ in 0..(CUDA_GRAPH_INITIAL_BACKOFF_RUNS * 2) {
        assert!(backoffs.should_skip_cuda_graph_capture(&k));
    }
    assert!(!backoffs.should_skip_cuda_graph_capture(&k));

    backoffs.capture_finished(key(0, 0x1000, 0x2000, 0x3000), true);
    assert!(!backoffs.should_skip_cuda_graph_capture(&k));
}

#[test]
fn clearing_backoffs_forgets_failures() {
    let mut backoffs = CudaGraphBackoffs::new();
    let k = key(0, 0x1000, 0x2000, 0x3000);
    backoffs.record_cuda_graph_capture_failure(key(0, 0x1000, 0x2000, 0x3000));
    let other = key(0, 0x1100, 0x2000, 0x3000);
    assert!(!backoffs.should_skip_cuda_graph_capture(&other));
    backoffs.clear_cuda_graph_capture_backoff(&other);
    assert!(backoffs.should_skip_cuda_graph_capture(&k));
    backoffs.clear();
    assert!(!backoffs.should_skip_cuda_graph_capture(&k));
}

#[test]
fn graph_cache_evicts_only_when_full_and_missing_the_key() {
    assert!(!graph_cache_needs_eviction(CUDA_GRAPH_MAX_CACHE_ENTRIES - 1, false));
    assert!(graph_cache_needs_eviction(CUDA_GRAPH_MAX_CACHE_ENTRIES, false));
    assert!(!graph_cache_needs_eviction(CUDA_GRAPH_MAX_CACHE_ENTRIES, true));
}
