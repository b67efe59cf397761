# tensorrt_rs

Bindings logic for NVIDIA TensorRT and the TensorRT-LLM Executor, verified
with Verus.

- `src/` is the verified library: tensor shapes and byte sizes, data-type
  mappings, the engine's I/O catalog and every check made before a launch,
  prepared-run and CUDA-graph bookkeeping, Candle/CUDA binding checks, and for
  TensorRT-LLM the executor builder and its C-ABI encoding, the `config.json`
  checks, request validation and encoding, and the decoding of executor
  responses. Each public function states its result in `requires`/`ensures`;
  the laws that tie functions together are public proof functions.
- `app/` is ordinary Rust around the library: the C ABI declarations of the
  TensorRT and TensorRT-LLM shims and of the CUDA runtime, the runtime, engine,
  session and executor handles, file reads, JSON parsing and Candle tensor
  transfers. It hands the library plain values and acts on what it returns.
- `tests/` runs the library on concrete values.
