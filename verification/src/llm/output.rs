//! Decoding of executor results: element types and sizes, byte buffers read
//! as typed elements, sequence offsets, finish reasons, and the metadata of
//! an output.

use vstd::prelude::*;
use vstd::string::StrSliceExecFns;
use crate::bytes::{decode_i32s, decode_i64s, decode_u16s, decode_u32s, lemma_native_bytes_roundtrip, reads_natively};
use crate::data_type::{DataType, spec_debug_text};
use crate::llm::error::{Error, is_invalid_argument};
use crate::llm::executor::spec_executor_code;
use crate::tensor::first_bad_dim;
use crate::text::{decimal_i64, decimal_usize, i64_text, join2, join3, join4, owned, same_text, usize_text};

verus! {

/// The element size of an executor output type that Candle can hold.
pub open spec fn spec_output_size(data_type: DataType) -> Option<usize> {
    match data_type {
        DataType::Uint8 => Some(1),
        DataType::Int32 | DataType::Float => Some(4),
        DataType::Int64 => Some(8),
        DataType::Bf16 | DataType::Half => Some(2),
        _ => None,
    }
}

/// The error of an output type that Candle cannot hold.
pub open spec fn is_unsupported_output(e: Error, data_type: DataType) -> bool {
    is_invalid_argument(
        e,
        "TensorRT-LLM Executor output dtype "@ + spec_debug_text(data_type) + " is not supported as a Candle tensor"@,
    )
}

/// The element size of an executor output type.
pub fn data_type_size(data_type: DataType) -> (r: Result<usize, Error>)
    ensures
        match spec_output_size(data_type) {
            Some(n) => r == Ok::<usize, Error>(n),
            None => r matches Err(e) && is_unsupported_output(e, data_type),
        },
{
    match data_type {
        DataType::Uint8 => Ok(1),
        DataType::Int32 | DataType::Float => Ok(4),
        DataType::Int64 => Ok(8),
        DataType::Bf16 | DataType::Half => Ok(2),
        _ => {
            let d = data_type.debug_text();
            Err(Error::InvalidArgument(join2(join2("TensorRT-LLM Executor output dtype ", d.as_str()).as_str(), " is not supported as a Candle tensor")))
        },
    }
}

/// The element count of a shape, or `None` when a running product passes
/// `usize::MAX`.
pub open spec fn shape_product(shape: Seq<usize>) -> Option<nat>
    decreases shape.len(),
{
    if shape.len() == 0 {
        Some(1)
    } else {
        match shape_product(shape.drop_last()) {
            Some(p) => if p * shape.last() <= usize::MAX {
                Some((p * shape.last()) as nat)
            } else {
                None
            },
            None => None,
        }
    }
}

/// Checks that a buffer of `elem_count` elements fills `shape` exactly.
pub fn validate_tensor_len(elem_count: usize, shape: &[usize]) -> (r: Result<(), Error>)
    ensures
        match shape_product(shape@) {
            None => r matches Err(e) && is_invalid_argument(e, "TensorRT-LLM Executor output shape overflowed"@),
            Some(p) => if p == elem_count {
                r is Ok
            } else {
                r matches Err(e) && is_invalid_argument(
                    e,
                    "TensorRT-LLM Executor output element count mismatch: shape expects "@ + decimal_usize(p as usize)
                        + ", buffer has "@ + decimal_usize(elem_count),
                )
            },
        },
{
    let mut acc: usize = 1;
    let mut k: usize = 0;
    assert(shape@.subrange(0, 0) =~= Seq::<usize>::empty());
    while k < shape.len()
        invariant
            k <= shape@.len(),
            shape_product(shape@.subrange(0, k as int)) == Some(acc as nat),
        decreases shape@.len() - k,
    {
        assert(shape@.subrange(0, k + 1).drop_last() =~= shape@.subrange(0, k as int));
        match acc.checked_mul(shape[k]) {
            Some(next) => {
                acc = next;
            },
            None => {
                proof {
                    lemma_product_stays_none(shape@, (k + 1) as nat);
                }
                return Err(Error::invalid_argument("TensorRT-LLM Executor output shape overflowed"));
            },
        }
        k = k + 1;
    }
    assert(shape@.subrange(0, shape@.len() as int) =~= shape@);
    if elem_count != acc {
        let a = usize_text(acc);
        let b = usize_text(elem_count);
        return Err(
            Error::InvalidArgument(
                join4("TensorRT-LLM Executor output element count mismatch: shape expects ", a.as_str(), ", buffer has ", b.as_str()),
            ),
        );
    }
    Ok(())
}

/// Once a prefix overflows, the whole shape does.
proof fn lemma_product_stays_none(shape: Seq<usize>, k: nat)
    requires
        k <= shape.len(),
        shape_product(shape.subrange(0, k as int)) is None,
    ensures
        shape_product(shape) is None,
    decreases shape.len() - k,
{
    if k == shape.len() {
        assert(shape.subrange(0, k as int) =~= shape);
    } else {
        assert(shape.subrange(0, k + 1 as int).drop_last() =~= shape.subrange(0, k as int));
        lemma_product_stays_none(shape, k + 1);
    }
}

/// `v` holds one element per `width` bytes, all read in the machine's byte
/// order, with `bits` giving an element's unsigned bit pattern.
pub open spec fn decodes<T>(bytes: Seq<u8>, width: nat, v: Seq<T>, bits: spec_fn(T) -> nat) -> bool {
    reads_natively(bytes, width, v, bits)
}

/// An executor buffer that holds elements in the machine's byte order (as
/// `encode_*s` writes them, the way the executor stores them) is read back
/// as exactly those elements by the `read_*` functions.
pub proof fn lemma_read_gives_back_native_elements<T>(
    bytes: Seq<u8>,
    width: nat,
    written: Seq<T>,
    read: Seq<T>,
    bits: spec_fn(T) -> nat,
)
    requires
        reads_natively(bytes, width, written, bits),
        decodes(bytes, width, read, bits),
        forall|x: T, y: T| #[trigger] bits(x) == #[trigger] bits(y) ==> x == y,
    ensures
        read == written,
{
    lemma_native_bytes_roundtrip(bytes, width, written, read, bits);
}

/// Reads BF16 elements as their bit patterns.
pub fn read_bf16(bytes: &[u8]) -> (r: Result<Vec<u16>, Error>)
    ensures
        bytes@.len() % 2 != 0 ==> (r matches Err(e) && is_invalid_argument(
            e,
            "BF16 tensor byte length is not divisible by 2"@,
        )),
        bytes@.len() % 2 == 0 ==> (r matches Ok(v) && decodes(bytes@, 2, v@, |x: u16| x as nat)),
{
    if bytes.len() % 2 != 0 {
        return Err(Error::invalid_argument("BF16 tensor byte length is not divisible by 2"));
    }
    Ok(decode_u16s(bytes))
}

/// Reads FP16 elements as their bit patterns.
pub fn read_f16(bytes: &[u8]) -> (r: Result<Vec<u16>, Error>)
    ensures
        bytes@.len() % 2 != 0 ==> (r matches Err(e) && is_invalid_argument(
            e,
            "FP16 tensor byte length is not divisible by 2"@,
        )),
        bytes@.len() % 2 == 0 ==> (r matches Ok(v) && decodes(bytes@, 2, v@, |x: u16| x as nat)),
{
    if bytes.len() % 2 != 0 {
        return Err(Error::invalid_argument("FP16 tensor byte length is not divisible by 2"));
    }
    Ok(decode_u16s(bytes))
}

/// Reads FP32 elements as their bit patterns.
pub fn read_f32(bytes: &[u8]) -> (r: Result<Vec<u32>, Error>)
    ensures
        bytes@.len() % 4 != 0 ==> (r matches Err(e) && is_invalid_argument(
            e,
            "FP32 tensor byte length is not divisible by 4"@,
        )),
        bytes@.len() % 4 == 0 ==> (r matches Ok(v) && decodes(bytes@, 4, v@, |x: u32| x as nat)),
{
    if bytes.len() % 4 != 0 {
        return Err(Error::invalid_argument("FP32 tensor byte length is not divisible by 4"));
    }
    Ok(decode_u32s(bytes))
}

/// Reads INT32 elements.
pub fn read_i32(bytes: &[u8]) -> (r: Result<Vec<i32>, Error>)
    ensures
        bytes@.len() % 4 != 0 ==> (r matches Err(e) && is_invalid_argument(
            e,
            "INT32 tensor byte length is not divisible by 4"@,
        )),
        bytes@.len() % 4 == 0 ==> (r matches Ok(v) && decodes(bytes@, 4, v@, |x: i32| (x as u32) as nat)),
{
    if bytes.len() % 4 != 0 {
        return Err(Error::invalid_argument("INT32 tensor byte length is not divisible by 4"));
    }
    Ok(decode_i32s(bytes))
}

/// Reads INT64 elements.
pub fn read_i64(bytes: &[u8]) -> (r: Result<Vec<i64>, Error>)
    ensures
        bytes@.len() % 8 != 0 ==> (r matches Err(e) && is_invalid_argument(
            e,
            "INT64 tensor byte length is not divisible by 8"@,
        )),
        bytes@.len() % 8 == 0 ==> (r matches Ok(v) && decodes(bytes@, 8, v@, |x: i64| (x as u64) as nat)),
{
    if bytes.len() % 8 != 0 {
        return Err(Error::invalid_argument("INT64 tensor byte length is not divisible by 8"));
    }
    Ok(decode_i64s(bytes))
}

/// An owned copy of a slice.
pub fn copy_of<T: Copy>(s: &[T]) -> (r: Vec<T>)
    ensures
        r@ == s@,
{
    let mut out: Vec<T> = Vec::new();
    let mut k: usize = 0;
    while k < s.len()
        invariant
            k <= s@.len(),
            out@ == s@.subrange(0, k as int),
        decreases s@.len() - k,
    {
        out.push(s[k]);
        k = k + 1;
    }
    assert(s@.subrange(0, s@.len() as int) =~= s@);
    out
}

/// The elements of an executor output, decoded from its bytes; float
/// elements are held as their bit patterns.
#[derive(Clone, Debug)]
pub enum TensorData {
    Uint8(Vec<u8>),
    Int32(Vec<i32>),
    Int64(Vec<i64>),
    Bf16(Vec<u16>),
    Float16(Vec<u16>),
    Float32(Vec<u32>),
}

/// The outcome of decoding `bytes` as elements of `data_type`.
pub open spec fn tensor_data_outcome(data_type: DataType, bytes: Seq<u8>, r: Result<TensorData, Error>) -> bool {
    match data_type {
        DataType::Uint8 => r matches Ok(TensorData::Uint8(v)) && v@ == bytes,
        DataType::Int32 => if bytes.len() % 4 != 0 {
            r matches Err(e) && is_invalid_argument(e, "INT32 tensor byte length is not divisible by 4"@)
        } else {
            r matches Ok(TensorData::Int32(v)) && decodes(bytes, 4, v@, |x: i32| (x as u32) as nat)
        },
        DataType::Int64 => if bytes.len() % 8 != 0 {
            r matches Err(e) && is_invalid_argument(e, "INT64 tensor byte length is not divisible by 8"@)
        } else {
            r matches Ok(TensorData::Int64(v)) && decodes(bytes, 8, v@, |x: i64| (x as u64) as nat)
        },
        DataType::Bf16 => if bytes.len() % 2 != 0 {
            r matches Err(e) && is_invalid_argument(e, "BF16 tensor byte length is not divisible by 2"@)
        } else {
            r matches Ok(TensorData::Bf16(v)) && decodes(bytes, 2, v@, |x: u16| x as nat)
        },
        DataType::Half => if bytes.len() % 2 != 0 {
            r matches Err(e) && is_invalid_argument(e, "FP16 tensor byte length is not divisible by 2"@)
        } else {
            r matches Ok(TensorData::Float16(v)) && decodes(bytes, 2, v@, |x: u16| x as nat)
        },
        DataType::Float => if bytes.len() % 4 != 0 {
            r matches Err(e) && is_invalid_argument(e, "FP32 tensor byte length is not divisible by 4"@)
        } else {
            r matches Ok(TensorData::Float32(v)) && decodes(bytes, 4, v@, |x: u32| x as nat)
        },
        _ => r matches Err(e) && is_unsupported_output(e, data_type),
    }
}

impl TensorData {
    /// The number of elements.
    pub open spec fn spec_elem_count(&self) -> nat {
        match self {
            TensorData::Uint8(v) => v@.len(),
            TensorData::Int32(v) => v@.len(),
            TensorData::Int64(v) => v@.len(),
            TensorData::Bf16(v) => v@.len(),
            TensorData::Float16(v) => v@.len(),
            TensorData::Float32(v) => v@.len(),
        }
    }

    /// Decodes `bytes` as elements of `data_type`.
    pub fn from_bytes(data_type: DataType, bytes: &[u8]) -> (r: Result<Self, Error>)
        ensures
            tensor_data_outcome(data_type, bytes@, r),
    {
        match data_type {
            DataType::Uint8 => Ok(TensorData::Uint8(copy_of(bytes))),
            DataType::Int32 => match read_i32(bytes) {
                Ok(v) => Ok(TensorData::Int32(v)),
                Err(e) => Err(e),
            },
            DataType::Int64 => match read_i64(bytes) {
                Ok(v) => Ok(TensorData::Int64(v)),
                Err(e) => Err(e),
            },
            DataType::Bf16 => match read_bf16(bytes) {
                Ok(v) => Ok(TensorData::Bf16(v)),
                Err(e) => Err(e),
            },
            DataType::Half => match read_f16(bytes) {
                Ok(v) => Ok(TensorData::Float16(v)),
                Err(e) => Err(e),
            },
            DataType::Float => match read_f32(bytes) {
                Ok(v) => Ok(TensorData::Float32(v)),
                Err(e) => Err(e),
            },
            _ => {
                let d = data_type.debug_text();
                Err(Error::InvalidArgument(join2(join2("TensorRT-LLM Executor output dtype ", d.as_str()).as_str(), " is not supported as a Candle tensor")))
            },
        }
    }

    /// The number of elements.
    pub fn elem_count(&self) -> (r: usize)
        ensures
            r == self.spec_elem_count(),
    {
        match self {
            TensorData::Uint8(v) => v.len(),
            TensorData::Int32(v) => v.len(),
            TensorData::Int64(v) => v.len(),
            TensorData::Bf16(v) => v.len(),
            TensorData::Float16(v) => v.len(),
            TensorData::Float32(v) => v.len(),
        }
    }
}

/// The TensorRT data type of an executor type code, where the code has one.
pub open spec fn spec_data_type_of_code(code: i32) -> Option<DataType> {
    match code {
        0 => Some(DataType::Bool),
        1 => Some(DataType::Uint8),
        2 => Some(DataType::Int8),
        3 => Some(DataType::Int32),
        4 => Some(DataType::Int64),
        5 => Some(DataType::Bf16),
        6 => Some(DataType::Fp8),
        7 => Some(DataType::Half),
        8 => Some(DataType::Float),
        _ => None,
    }
}

/// The TensorRT data type of an executor type code.
pub fn data_type_from_executor_i32(data_type: i32) -> (r: Result<DataType, Error>)
    ensures
        match spec_data_type_of_code(data_type) {
            Some(d) => r == Ok::<DataType, Error>(d),
            None => r matches Err(e) && is_invalid_argument(
                e,
                "unsupported TensorRT-LLM Executor dtype id "@ + crate::text::decimal_i32(data_type),
            ),
        },
{
    match data_type {
        0 => Ok(DataType::Bool),
        1 => Ok(DataType::Uint8),
        2 => Ok(DataType::Int8),
        3 => Ok(DataType::Int32),
        4 => Ok(DataType::Int64),
        5 => Ok(DataType::Bf16),
        6 => Ok(DataType::Fp8),
        7 => Ok(DataType::Half),
        8 => Ok(DataType::Float),
        _ => {
            let n = crate::text::i32_text(data_type);
            Err(Error::InvalidArgument(join2("unsupported TensorRT-LLM Executor dtype id ", n.as_str())))
        },
    }
}

/// Reading a type code back gives the type it was written for, and every
/// code that reads as a type is the code written for that type.
pub proof fn lemma_executor_code_roundtrip(data_type: DataType, code: i32)
    ensures
        spec_executor_code(data_type) matches Some(c) ==> spec_data_type_of_code(c) == Some(data_type),
        spec_data_type_of_code(code) matches Some(d) ==> spec_executor_code(d) == Some(code),
{
}

/// Why a generation finished, as the executor reports it.
#[derive(Clone, Copy, Debug, Eq, PartialEq, Structural)]
pub enum FinishReason {
    NotFinished,
    EndId,
    StopWords,
    Length,
    TimedOut,
    Cancelled,
    Unknown(i32),
}

/// The finish reason of an executor code.
pub open spec fn spec_finish_reason(value: i32) -> FinishReason {
    match value {
        0 => FinishReason::NotFinished,
        1 => FinishReason::EndId,
        2 => FinishReason::StopWords,
        3 => FinishReason::Length,
        4 => FinishReason::TimedOut,
        5 => FinishReason::Cancelled,
        _ => FinishReason::Unknown(value),
    }
}

impl FinishReason {
    /// The finish reason of an executor code; codes past the known ones are
    /// kept as `Unknown`.
    pub fn from_raw(value: i32) -> (r: Self)
        ensures
            r == spec_finish_reason(value),
    {
        match value {
            0 => FinishReason::NotFinished,
            1 => FinishReason::EndId,
            2 => FinishReason::StopWords,
            3 => FinishReason::Length,
            4 => FinishReason::TimedOut,
            5 => FinishReason::Cancelled,
            _ => FinishReason::Unknown(value),
        }
    }
}

/// The finish reasons of `count` executor codes; `raw` is `None` when the
/// executor gave no buffer.
pub fn finish_reasons(raw: Option<&[i32]>, count: usize) -> (r: Result<Vec<FinishReason>, Error>)
    requires
        raw matches Some(s) ==> s@.len() == count,
    ensures
        count == 0 ==> (r matches Ok(v) && v@.len() == 0),
        count > 0 && raw is None ==> (r matches Err(e) && is_invalid_argument(
            e,
            "TensorRT-LLM Executor finish_reasons pointer is null"@,
        )),
        count > 0 && raw is Some ==> (r matches Ok(v) && v@ == raw->0@.map_values(
            |c: i32| spec_finish_reason(c),
        )),
{
    if count == 0 {
        return Ok(Vec::new());
    }
    let codes = match raw {
        Some(s) => s,
        None => return Err(Error::invalid_argument("TensorRT-LLM Executor finish_reasons pointer is null")),
    };
    let mut out: Vec<FinishReason> = Vec::new();
    let mut k: usize = 0;
    while k < codes.len()
        invariant
            k <= codes@.len(),
            out@ == codes@.subrange(0, k as int).map_values(|c: i32| spec_finish_reason(c)),
        decreases codes@.len() - k,
    {
        out.push(FinishReason::from_raw(codes[k]));
        assert(codes@.subrange(0, k + 1).map_values(|c: i32| spec_finish_reason(c)) =~= codes@.subrange(
            0,
            k as int,
        ).map_values(|c: i32| spec_finish_reason(c)).push(spec_finish_reason(codes@[k as int])));
        k = k + 1;
    }
    assert(codes@.subrange(0, codes@.len() as int) =~= codes@);
    Ok(out)
}

/// The byte length of an executor output of `count` elements of
/// `data_type`.
pub fn typed_byte_len(data_type: DataType, count: usize) -> (r: Result<usize, Error>)
    ensures
        match spec_output_size(data_type) {
            None => r matches Err(e) && is_unsupported_output(e, data_type),
            Some(n) => if count * n <= usize::MAX {
                r == Ok::<usize, Error>((count * n) as usize)
            } else {
                r matches Err(e) && is_invalid_argument(e, "TensorRT-LLM Executor output byte length overflowed"@)
            },
        },
{
    let size = match data_type_size(data_type) {
        Ok(n) => n,
        Err(e) => return Err(e),
    };
    match count.checked_mul(size) {
        Some(n) => Ok(n),
        None => Err(Error::invalid_argument("TensorRT-LLM Executor output byte length overflowed")),
    }
}

/// An executor output still held in the executor's memory: its type, its
/// address and its byte length.
#[derive(Clone, Copy, Debug)]
pub struct RawTensorData {
    pub data_type: DataType,
    pub ptr: usize,
    pub byte_len: usize,
}

impl RawTensorData {
    /// Output data of `byte_len` bytes at address `ptr`; the type must be
    /// one Candle can hold, and a non-empty buffer needs an address.
    pub fn new(data_type: DataType, ptr: usize, byte_len: usize) -> (r: Result<Self, Error>)
        ensures
            spec_output_size(data_type) is None ==> (r matches Err(e) && is_unsupported_output(e, data_type)),
            spec_output_size(data_type) is Some && byte_len > 0 && ptr == 0 ==> (r matches Err(e)
                && is_invalid_argument(e, "TensorRT-LLM Executor tensor data pointer is null"@)),
            spec_output_size(data_type) is Some && !(byte_len > 0 && ptr == 0) ==> r == Ok::<Self, Error>(
                RawTensorData { data_type, ptr, byte_len },
            ),
    {
        match data_type_size(data_type) {
            Ok(_) => {},
            Err(e) => return Err(e),
        }
        if byte_len > 0 && ptr == 0 {
            return Err(Error::invalid_argument("TensorRT-LLM Executor tensor data pointer is null"));
        }
        Ok(RawTensorData { data_type, ptr, byte_len })
    }

    /// The number of whole elements in the buffer.
    pub fn elem_count(&self) -> (r: Result<usize, Error>)
        ensures
            match spec_output_size(self.data_type) {
                None => r matches Err(e) && is_unsupported_output(e, self.data_type),
                Some(n) => if self.byte_len % n == 0 {
                    r == Ok::<usize, Error>(self.byte_len / n)
                } else {
                    r matches Err(e) && is_invalid_argument(
                        e,
                        spec_debug_text(self.data_type) + " tensor byte length is not divisible by "@ + decimal_usize(n),
                    )
                },
            },
    {
        let size = match data_type_size(self.data_type) {
            Ok(n) => n,
            Err(e) => return Err(e),
        };
        if self.byte_len % size != 0 {
            let d = self.data_type.debug_text();
            let n = usize_text(size);
            return Err(Error::InvalidArgument(join3(d.as_str(), " tensor byte length is not divisible by ", n.as_str())));
        }
        Ok(self.byte_len / size)
    }
}

/// The sequence offsets of an output pass their checks: with no sequences
/// the data count fits `i64`; otherwise they were given, run from zero to
/// the data count, and each fits `i64`.
pub open spec fn offsets_ok(offsets: Option<Seq<usize>>, sequence_count: usize, data_count: usize) -> bool {
    if sequence_count == 0 {
        data_count <= i64::MAX
    } else {
        offsets matches Some(o) && o[0] == 0 && o.last() == data_count && forall|k: int|
            0 <= k < o.len() ==> #[trigger] o[k] <= i64::MAX
    }
}

/// The error of the first failing offset check.
pub open spec fn offsets_error(offsets: Option<Seq<usize>>, sequence_count: usize, data_count: usize, e: Error) -> bool {
    if sequence_count == 0 {
        is_invalid_argument(e, "TensorRT-LLM Executor output length cannot fit in i64"@)
    } else if offsets is None {
        is_invalid_argument(e, "TensorRT-LLM Executor output sequence offsets are null"@)
    } else if offsets->0[0] != 0 || offsets->0.last() != data_count {
        is_invalid_argument(e, "TensorRT-LLM Executor output sequence offsets are invalid"@)
    } else {
        is_invalid_argument(e, "TensorRT-LLM Executor output offset cannot fit in i64"@)
    }
}

/// The offsets as `i64`: `[0, data_count]` with no sequences, the given
/// offsets otherwise.
pub open spec fn offsets_values(offsets: Option<Seq<usize>>, sequence_count: usize, data_count: usize) -> Seq<i64> {
    if sequence_count == 0 {
        seq![0i64, data_count as i64]
    } else {
        Seq::new(offsets->0.len(), |k: int| offsets->0[k] as i64)
    }
}

/// How many offsets an output with `sequence_count` sequences carries: the
/// start of each sequence and the end of the last, or two with none.
pub open spec fn spec_offset_count(sequence_count: usize) -> nat {
    if sequence_count == 0 {
        2
    } else {
        (sequence_count + 1) as nat
    }
}

/// Checked offsets are as many as `OffsetTensorData::len` counts, start at
/// zero and end at the element count, so the offsets tensor's shape always
/// matches its values.
pub proof fn lemma_offsets_shape(offsets: Option<Seq<usize>>, sequence_count: usize, data_count: usize)
    requires
        offsets_ok(offsets, sequence_count, data_count),
        offsets matches Some(o) ==> o.len() == sequence_count + 1,
    ensures
        offsets_values(offsets, sequence_count, data_count).len() == spec_offset_count(sequence_count),
        offsets_values(offsets, sequence_count, data_count)[0] == 0,
        offsets_values(offsets, sequence_count, data_count).last() == data_count as i64,
        forall|k: int|
            0 <= k < offsets_values(offsets, sequence_count, data_count).len() ==> 0 <= #[trigger] offsets_values(
                offsets,
                sequence_count,
                data_count,
            )[k],
{
    if sequence_count > 0 {
        let o = offsets->0;
        let v = offsets_values(offsets, sequence_count, data_count);
        assert(v.len() == o.len());
        assert(v[0] == o[0] as i64);
        assert(v[v.len() - 1] == o[o.len() - 1] as i64);
        assert forall|k: int| 0 <= k < v.len() implies 0 <= #[trigger] v[k] by {
            assert(o[k] <= i64::MAX);
        }
    }
}

/// Checked offsets read back as many values as `len` counts, the first 0
/// and the last the element count, so the offsets tensor's shape always
/// matches its data.
pub proof fn lemma_offset_data_shape(o: OffsetTensorData)
    requires
        o.wf(),
    ensures
        o.values().len() == spec_offset_count(o.sequence_count),
        o.values()[0] == 0,
        o.values().last() == o.data_count as i64,
{
    lemma_offsets_shape(o.given(), o.sequence_count, o.data_count);
}

/// The option of a slice, as a sequence.
pub open spec fn seq_of(s: Option<&[usize]>) -> Option<Seq<usize>> {
    match s {
        Some(v) => Some(v@),
        None => None,
    }
}

/// The start offset of each of `sequence_count` sequences, and the end of
/// the last; `offsets` is `None` when the executor gave no buffer.
pub fn output_offsets(offsets: Option<&[usize]>, sequence_count: usize, data_count: usize) -> (r: Result<Vec<i64>, Error>)
    requires
        offsets matches Some(s) ==> s@.len() == sequence_count + 1,
    ensures
        offsets_ok(seq_of(offsets), sequence_count, data_count) ==> (r matches Ok(v) && v@ == offsets_values(
            seq_of(offsets),
            sequence_count,
            data_count,
        )),
        !offsets_ok(seq_of(offsets), sequence_count, data_count) ==> (r matches Err(e) && offsets_error(
            seq_of(offsets),
            sequence_count,
            data_count,
            e,
        )),
{
    if sequence_count == 0 {
        if data_count as u64 > 0x7fff_ffff_ffff_ffffu64 {
            return Err(Error::invalid_argument("TensorRT-LLM Executor output length cannot fit in i64"));
        }
        let v: Vec<i64> = vec![0i64, data_count as i64];
        assert(v@ =~= seq![0i64, data_count as i64]);
        return Ok(v);
    }
    let s = match offsets {
        Some(s) => s,
        None => return Err(Error::invalid_argument("TensorRT-LLM Executor output sequence offsets are null")),
    };
    if s[0] != 0 || s[sequence_count] != data_count {
        return Err(Error::invalid_argument("TensorRT-LLM Executor output sequence offsets are invalid"));
    }
    let mut out: Vec<i64> = Vec::new();
    let mut k: usize = 0;
    while k < s.len()
        invariant
            offsets == Some(s),
            sequence_count > 0,
            s@.len() == sequence_count + 1,
            s@[0] == 0,
            s@.last() == data_count,
            k <= s@.len(),
            out@.len() == k,
            forall|j: int| 0 <= j < k ==> #[trigger] s@[j] <= i64::MAX,
            forall|j: int| 0 <= j < k ==> #[trigger] out@[j] == s@[j] as i64,
        decreases s@.len() - k,
    {
        if s[k] as u64 > 0x7fff_ffff_ffff_ffffu64 {
            return Err(Error::invalid_argument("TensorRT-LLM Executor output offset cannot fit in i64"));
        }
        out.push(s[k] as i64);
        k = k + 1;
    }
    assert(out@ =~= offsets_values(seq_of(offsets), sequence_count, data_count));
    Ok(out)
}

/// Sequence offsets still held in the executor's memory: their address, the
/// counts they were checked against, and (as ghost state) the offsets that
/// were checked, none when there is no sequence.
#[derive(Clone, Copy)]
pub struct OffsetTensorData {
    pub ptr: usize,
    pub sequence_count: usize,
    pub data_count: usize,
    pub checked: Ghost<Seq<usize>>,
}

impl OffsetTensorData {
    /// The offsets as they were checked: `None` with no sequence.
    pub open spec fn given(self) -> Option<Seq<usize>> {
        if self.sequence_count == 0 {
            None
        } else {
            Some(self.checked@)
        }
    }

    /// The offsets passed the checks of `output_offsets`, and there is one
    /// more of them than there are sequences.
    pub open spec fn wf(self) -> bool {
        &&& offsets_ok(self.given(), self.sequence_count, self.data_count)
        &&& self.sequence_count > 0 ==> self.checked@.len() == self.sequence_count + 1
    }

    /// The offset values the tensor holds.
    pub open spec fn values(self) -> Seq<i64> {
        offsets_values(self.given(), self.sequence_count, self.data_count)
    }

    /// Offsets at address `ptr`, whose values are `offsets` when there is a
    /// sequence and the address is not null; checked as `output_offsets`
    /// checks them.
    pub fn new(ptr: usize, offsets: &[usize], sequence_count: usize, data_count: usize) -> (r: Result<Self, Error>)
        requires
            sequence_count > 0 && ptr != 0 ==> offsets@.len() == sequence_count + 1,
        ensures
            ({
                let given = if ptr == 0 { None } else { Some(offsets@) };
                &&& offsets_ok(given, sequence_count, data_count) ==> (r matches Ok(o) && o.ptr == (if sequence_count
                    == 0 { 0 } else { ptr }) && o.sequence_count == sequence_count && o.data_count == data_count
                    && o.wf() && (sequence_count > 0 ==> o.checked@ == offsets@))
                &&& !offsets_ok(given, sequence_count, data_count) ==> (r matches Err(e) && offsets_error(
                    given,
                    sequence_count,
                    data_count,
                    e,
                ))
            }),
    {
        let given = if ptr == 0 || sequence_count == 0 { None } else { Some(offsets) };
        proof {
            if sequence_count == 0 {
                assert(offsets_ok(seq_of(given), 0, data_count) == offsets_ok(
                    if ptr == 0 { None } else { Some(offsets@) },
                    0,
                    data_count,
                ));
            }
        }
        let ghost checked = if sequence_count == 0 { Seq::<usize>::empty() } else { offsets@ };
        match output_offsets(given, sequence_count, data_count) {
            Ok(_) => Ok(
                OffsetTensorData {
                    ptr: if sequence_count == 0 { 0 } else { ptr },
                    sequence_count,
                    data_count,
                    checked: Ghost(checked),
                },
            ),
            Err(e) => Err(e),
        }
    }

    /// The offset values, read from `offsets`, the memory at `ptr` (unread
    /// when there is no sequence).
    pub fn to_vec(&self, offsets: &[usize]) -> (r: Vec<i64>)
        requires
            self.wf(),
            self.sequence_count > 0 ==> offsets@ == self.checked@,
        ensures
            r@ == self.values(),
            r@.len() == spec_offset_count(self.sequence_count),
    {
        let given = if self.sequence_count == 0 { None } else { Some(offsets) };
        proof {
            lemma_offsets_shape(self.given(), self.sequence_count, self.data_count);
        }
        match output_offsets(given, self.sequence_count, self.data_count) {
            Ok(v) => v,
            Err(_) => Vec::new(),
        }
    }

    /// The number of offsets: two with no sequences, one more than the
    /// sequences otherwise.
    pub fn len(&self) -> (r: usize)
        requires
            self.sequence_count < usize::MAX,
        ensures
            r == if self.sequence_count == 0 { 2 } else { self.sequence_count + 1 },
            r == spec_offset_count(self.sequence_count),
    {
        if self.sequence_count == 0 {
            2
        } else {
            self.sequence_count + 1
        }
    }
}

/// The first `count` values of an executor result buffer; `raw` is `None`
/// when the executor gave no buffer.
pub fn i32_vec(raw: Option<&[i32]>, count: usize) -> (r: Result<Vec<i32>, Error>)
    requires
        raw matches Some(s) ==> s@.len() == count,
    ensures
        count == 0 ==> (r matches Ok(v) && v@.len() == 0),
        count > 0 && raw is None ==> (r matches Err(e) && is_invalid_argument(
            e,
            "TensorRT-LLM Executor i32 result pointer is null"@,
        )),
        count > 0 && raw is Some ==> (r matches Ok(v) && v@ == raw->0@),
{
    if count == 0 {
        return Ok(Vec::new());
    }
    match raw {
        Some(s) => Ok(copy_of(s)),
        None => Err(Error::invalid_argument("TensorRT-LLM Executor i32 result pointer is null")),
    }
}

/// The first `count` bytes of an executor result buffer; `raw` is `None`
/// when the executor gave no buffer.
pub fn u8_vec(raw: Option<&[u8]>, count: usize) -> (r: Result<Vec<u8>, Error>)
    requires
        raw matches Some(s) ==> s@.len() == count,
    ensures
        count == 0 ==> (r matches Ok(v) && v@.len() == 0),
        count > 0 && raw is None ==> (r matches Err(e) && is_invalid_argument(
            e,
            "TensorRT-LLM Executor byte result pointer is null"@,
        )),
        count > 0 && raw is Some ==> (r matches Ok(v) && v@ == raw->0@),
{
    if count == 0 {
        return Ok(Vec::new());
    }
    match raw {
        Some(s) => Ok(copy_of(s)),
        None => Err(Error::invalid_argument("TensorRT-LLM Executor byte result pointer is null")),
    }
}

/// The context phase state that a context-only request returns, for the
/// generation request that continues it.
#[derive(Clone, Debug, Eq, PartialEq)]
pub struct OutputContextPhaseParams {
    pub first_gen_tokens: Vec<i32>,
    pub request_id: u64,
    pub serialized_state: Vec<u8>,
    pub draft_tokens: Option<Vec<i32>>,
    pub context_data_parallel_rank: Option<i32>,
    pub disaggregated_info_endpoint: Option<String>,
}

/// The context phase state as the executor hands it over: each buffer is
/// `None` when the executor gave none, and the endpoint is already text.
pub struct RawContextPhaseParams<'a> {
    pub first_gen_tokens: Option<&'a [i32]>,
    pub first_gen_token_count: usize,
    pub request_id: u64,
    pub serialized_state: Option<&'a [u8]>,
    pub serialized_state_len: usize,
    pub draft_tokens: Option<&'a [i32]>,
    pub draft_token_count: usize,
    pub has_ctx_dp_rank: i32,
    pub ctx_dp_rank: i32,
    pub disagg_info_endpoint: Option<String>,
}

/// Each buffer has the length the executor states for it.
pub open spec fn raw_context_wf(raw: RawContextPhaseParams) -> bool {
    &&& raw.first_gen_tokens matches Some(s) ==> s@.len() == raw.first_gen_token_count
    &&& raw.serialized_state matches Some(s) ==> s@.len() == raw.serialized_state_len
    &&& raw.draft_tokens matches Some(s) ==> s@.len() == raw.draft_token_count
}

/// A stated buffer that is missing.
pub open spec fn missing<T>(buffer: Option<&[T]>, count: usize) -> bool {
    count > 0 && buffer is None
}

/// The values of a stated buffer.
pub open spec fn buffer_values<T>(buffer: Option<&[T]>, count: usize) -> Seq<T> {
    if count == 0 {
        Seq::empty()
    } else {
        buffer->0@
    }
}

/// Copies the context phase state out of the executor's buffers.
pub fn context_phase_params(raw: &RawContextPhaseParams) -> (r: Result<OutputContextPhaseParams, Error>)
    requires
        raw_context_wf(*raw),
    ensures
        missing(raw.first_gen_tokens, raw.first_gen_token_count) ==> (r matches Err(e) && is_invalid_argument(
            e,
            "TensorRT-LLM Executor i32 result pointer is null"@,
        )),
        !missing(raw.first_gen_tokens, raw.first_gen_token_count) && missing(
            raw.serialized_state,
            raw.serialized_state_len,
        ) ==> (r matches Err(e) && is_invalid_argument(e, "TensorRT-LLM Executor byte result pointer is null"@)),
        !missing(raw.first_gen_tokens, raw.first_gen_token_count) && !missing(
            raw.serialized_state,
            raw.serialized_state_len,
        ) && missing(raw.draft_tokens, raw.draft_token_count) ==> (r matches Err(e) && is_invalid_argument(
            e,
            "TensorRT-LLM Executor i32 result pointer is null"@,
        )),
        !missing(raw.first_gen_tokens, raw.first_gen_token_count) && !missing(
            raw.serialized_state,
            raw.serialized_state_len,
        ) && !missing(raw.draft_tokens, raw.draft_token_count) ==> (r matches Ok(p) && p.first_gen_tokens@
            == buffer_values(raw.first_gen_tokens, raw.first_gen_token_count) && p.request_id == raw.request_id
            && p.serialized_state@ == buffer_values(raw.serialized_state, raw.serialized_state_len)
            && (raw.draft_token_count == 0 ==> p.draft_tokens is None) && (raw.draft_token_count > 0
            ==> (p.draft_tokens matches Some(d) && d@ == raw.draft_tokens->0@)) && p.context_data_parallel_rank == (
        if raw.has_ctx_dp_rank != 0 {
            Some(raw.ctx_dp_rank)
        } else {
            None
        }) && p.disaggregated_info_endpoint == raw.disagg_info_endpoint),
{
    let first_gen_tokens = match i32_vec(raw.first_gen_tokens, raw.first_gen_token_count) {
        Ok(v) => v,
        Err(e) => return Err(e),
    };
    let serialized_state = match u8_vec(raw.serialized_state, raw.serialized_state_len) {
        Ok(v) => v,
        Err(e) => return Err(e),
    };
    let draft_tokens = if raw.draft_token_count > 0 {
        match i32_vec(raw.draft_tokens, raw.draft_token_count) {
            Ok(v) => Some(v),
            Err(e) => return Err(e),
        }
    } else {
        None
    };
    let context_data_parallel_rank = if raw.has_ctx_dp_rank != 0 {
        Some(raw.ctx_dp_rank)
    } else {
        None
    };
    let disaggregated_info_endpoint = match &raw.disagg_info_endpoint {
        Some(s) => Some(s.clone()),
        None => None,
    };
    Ok(OutputContextPhaseParams {
        first_gen_tokens,
        request_id: raw.request_id,
        serialized_state,
        draft_tokens,
        context_data_parallel_rank,
        disaggregated_info_endpoint,
    })
}

/// Speculative decoding information for fast logits.
#[derive(Clone, Copy, Debug, Eq, PartialEq)]
pub struct SpeculativeDecodingFastLogitsInfo {
    pub draft_request_id: u64,
    pub draft_participant_id: i32,
}

/// The extents of an executor output as `usize`; `dims` is `None` when the
/// executor gave no shape buffer.
pub fn output_shape(dims: Option<&[i64]>, rank: usize) -> (r: Result<Vec<usize>, Error>)
    requires
        dims matches Some(s) ==> s@.len() == rank,
    ensures
        rank == 0 ==> (r matches Ok(v) && v@.len() == 0),
        rank > 0 && dims is None ==> (r matches Err(e) && is_invalid_argument(
            e,
            "TensorRT-LLM Executor tensor shape pointer is null"@,
        )),
        rank > 0 && dims is Some && (forall|k: int| 0 <= k < rank ==> 0 <= #[trigger] dims->0@[k] <= usize::MAX)
            ==> (r matches Ok(v) && v@.len() == rank && forall|k: int| 0 <= k < rank ==> #[trigger] v@[k]
            == dims->0@[k]),
        forall|i: int|
            #![trigger first_bad_dim(dims->0@, i)]
            rank > 0 && dims is Some && first_bad_dim(dims->0@, i) ==> (r matches Err(e) && is_invalid_argument(
                e,
                "TensorRT-LLM Executor output dimension "@ + decimal_i64(dims->0@[i])
                    + " cannot fit in usize"@,
            )),
{
    if rank == 0 {
        return Ok(Vec::new());
    }
    let s = match dims {
        Some(s) => s,
        None => return Err(Error::invalid_argument("TensorRT-LLM Executor tensor shape pointer is null")),
    };
    let mut out: Vec<usize> = Vec::new();
    let mut k: usize = 0;
    while k < s.len()
        invariant
            dims == Some(s),
            rank > 0,
            s@.len() == rank,
            k <= s@.len(),
            out@.len() == k,
            forall|j: int| 0 <= j < k ==> 0 <= #[trigger] s@[j] <= usize::MAX,
            forall|j: int| 0 <= j < k ==> #[trigger] out@[j] == s@[j],
        decreases s@.len() - k,
    {
        let dim = s[k];
        if dim < 0 || dim as u64 > usize::MAX as u64 {
            assert(!(0 <= dims->0@[k as int] <= usize::MAX));
            assert(first_bad_dim(s@, k as int));
            assert forall|other: int| #![trigger first_bad_dim(s@, other)] first_bad_dim(s@, other) implies other == k by {
                if other < k {
                } else if other > k {
                }
            }
            let n = i64_text(dim);
            return Err(
                Error::InvalidArgument(join3("TensorRT-LLM Executor output dimension ", n.as_str(), " cannot fit in usize")),
            );
        }
        out.push(dim as usize);
        k = k + 1;
    }
    assert forall|other: int| #![trigger first_bad_dim(s@, other)] !first_bad_dim(s@, other) by {}
    Ok(out)
}

/// The prefix that marks context-phase copies of named outputs.
pub open spec fn context_prefix() -> Seq<char> {
    "context_"@
}

/// The public name of a named executor output: its name without a leading
/// `context_`.
pub open spec fn spec_output_name(name: Seq<char>) -> Seq<char> {
    if name.len() >= context_prefix().len() && name.subrange(0, context_prefix().len() as int) == context_prefix() {
        name.subrange(context_prefix().len() as int, name.len() as int)
    } else {
        name
    }
}

/// The public name of a named executor output; `name` is `None` when the
/// executor gave no name.
pub fn output_tensor_name(name: Option<&str>) -> (r: Result<String, Error>)
    ensures
        name is None ==> (r matches Err(e) && is_invalid_argument(
            e,
            "TensorRT-LLM Executor named tensor name is null"@,
        )),
        name is Some ==> (r matches Ok(n) && n@ == spec_output_name(name->0@)),
{
    let name = match name {
        Some(n) => n,
        None => return Err(Error::invalid_argument("TensorRT-LLM Executor named tensor name is null")),
    };
    proof {
        reveal_strlit("context_");
    }
    let len = name.unicode_len();
    if len >= 8 {
        let head = name.substring_char(0, 8);
        if same_text(head, "context_") {
            return Ok(owned(name.substring_char(8, len)));
        }
    }
    Ok(owned(name))
}

/// What an executor output holds besides its named tensors: the element
/// counts of its standard buffers and which optional tensors it carries.
#[derive(Clone, Copy, Debug)]
pub struct OutputCounts {
    pub token_count: usize,
    pub cum_log_probs_count: usize,
    pub log_prob_count: usize,
    pub has_context_logits: bool,
    pub has_generation_logits: bool,
    pub has_encoder_output: bool,
}

/// A name when a condition holds, nothing otherwise.
pub open spec fn names_if(cond: bool, names: Seq<Seq<char>>) -> Seq<Seq<char>> {
    if cond {
        names
    } else {
        Seq::empty()
    }
}

/// The standard tensors of an output, in the order it exposes them: token
/// ids and their offsets, cumulative log probabilities, log probabilities
/// and their offsets, then context logits, generation logits and encoder
/// output.
pub open spec fn spec_standard_outputs(c: OutputCounts) -> Seq<Seq<char>> {
    names_if(c.token_count > 0, seq!["token_ids"@, "token_offsets"@]) + names_if(
        c.cum_log_probs_count > 0,
        seq!["cum_log_probs"@],
    ) + names_if(c.log_prob_count > 0, seq!["log_probs"@, "log_prob_offsets"@]) + names_if(
        c.has_context_logits,
        seq!["context_logits"@],
    ) + names_if(c.has_generation_logits, seq!["generation_logits"@]) + names_if(
        c.has_encoder_output,
        seq!["encoder_output"@],
    )
}

/// The count of a condition: one when it holds, none otherwise.
pub open spec fn count_if(cond: bool) -> nat {
    if cond {
        1
    } else {
        0
    }
}

proof fn lemma_concat_contains(a: Seq<Seq<char>>, b: Seq<Seq<char>>, n: Seq<char>)
    ensures
        (a + b).contains(n) <==> a.contains(n) || b.contains(n),
{
    if a.contains(n) {
        let i = choose|i: int| 0 <= i < a.len() && a[i] == n;
        assert((a + b)[i] == n);
    }
    if b.contains(n) {
        let i = choose|i: int| 0 <= i < b.len() && b[i] == n;
        assert((a + b)[a.len() + i] == n);
    }
    if (a + b).contains(n) {
        let i = choose|i: int| 0 <= i < (a + b).len() && (a + b)[i] == n;
        if i < a.len() {
            assert(a[i] == n);
        } else {
            assert(b[i - a.len()] == n);
        }
    }
}

proof fn lemma_names_if_contains(cond: bool, names: Seq<Seq<char>>, n: Seq<char>)
    ensures
        names_if(cond, names).contains(n) <==> cond && names.contains(n),
{
}

proof fn lemma_pair_contains(x: Seq<char>, y: Seq<char>, n: Seq<char>)
    ensures
        seq![x, y].contains(n) <==> n == x || n == y,
{
    if n == x {
        assert(seq![x, y][0] == n);
    }
    if n == y {
        assert(seq![x, y][1] == n);
    }
}

proof fn lemma_single_contains(x: Seq<char>, n: Seq<char>)
    ensures
        seq![x].contains(n) <==> n == x,
{
    if n == x {
        assert(seq![x][0] == n);
    }
}

/// Which standard tensors an output lists depends on each tensor's own count
/// or flag and on nothing else: token ids and their offsets exactly when there
/// are tokens, cumulative log probabilities exactly when there are any, log
/// probabilities and their offsets exactly when there are any, and each of
/// context logits, generation logits and encoder output exactly when the
/// output has it. The list holds nothing else, each name once.
pub proof fn lemma_standard_outputs_follow_their_flags(c: OutputCounts)
    ensures
        spec_standard_outputs(c).contains("token_ids"@) <==> c.token_count > 0,
        spec_standard_outputs(c).contains("token_offsets"@) <==> c.token_count > 0,
        spec_standard_outputs(c).contains("cum_log_probs"@) <==> c.cum_log_probs_count > 0,
        spec_standard_outputs(c).contains("log_probs"@) <==> c.log_prob_count > 0,
        spec_standard_outputs(c).contains("log_prob_offsets"@) <==> c.log_prob_count > 0,
        spec_standard_outputs(c).contains("context_logits"@) <==> c.has_context_logits,
        spec_standard_outputs(c).contains("generation_logits"@) <==> c.has_generation_logits,
        spec_standard_outputs(c).contains("encoder_output"@) <==> c.has_encoder_output,
        spec_standard_outputs(c).len() == 2 * count_if(c.token_count > 0) + count_if(c.cum_log_probs_count > 0) + 2
            * count_if(c.log_prob_count > 0) + count_if(c.has_context_logits) + count_if(c.has_generation_logits)
            + count_if(c.has_encoder_output),
{
    reveal_strlit("token_ids");
    reveal_strlit("token_offsets");
    reveal_strlit("cum_log_probs");
    reveal_strlit("log_probs");
    reveal_strlit("log_prob_offsets");
    reveal_strlit("context_logits");
    reveal_strlit("generation_logits");
    reveal_strlit("encoder_output");
    let n0 = "token_ids"@;
    let n1 = "token_offsets"@;
    let n2 = "cum_log_probs"@;
    let n3 = "log_probs"@;
    let n4 = "log_prob_offsets"@;
    let n5 = "context_logits"@;
    let n6 = "generation_logits"@;
    let n7 = "encoder_output"@;
    let a = names_if(c.token_count > 0, seq![n0, n1]);
    let b = names_if(c.cum_log_probs_count > 0, seq![n2]);
    let d = names_if(c.log_prob_count > 0, seq![n3, n4]);
    let e = names_if(c.has_context_logits, seq![n5]);
    let f = names_if(c.has_generation_logits, seq![n6]);
    let g = names_if(c.has_encoder_output, seq![n7]);
    assert(spec_standard_outputs(c) == a + b + d + e + f + g);
    let all = seq![n0, n1, n2, n3, n4, n5, n6, n7];
    assert(n0[0] == 't' && n1[0] == 't' && n2[0] == 'c' && n3[0] == 'l' && n4[0] == 'l');
    assert(n5[0] == 'c' && n6[0] == 'g' && n7[0] == 'e');
    assert(n0.len() == 9 && n1.len() == 13 && n2.len() == 13 && n3.len() == 9 && n4.len() == 16);
    assert(n5.len() == 14 && n6.len() == 17 && n7.len() == 14);
    assert forall|i: int| 0 <= i < 8 implies {
        let n = #[trigger] all[i];
        &&& (a + b + d + e + f + g).contains(n) == (a.contains(n) || b.contains(n) || d.contains(n) || e.contains(n)
            || f.contains(n) || g.contains(n))
        &&& a.contains(n) <==> c.token_count > 0 && (n == n0 || n == n1)
        &&& b.contains(n) <==> c.cum_log_probs_count > 0 && n == n2
        &&& d.contains(n) <==> c.log_prob_count > 0 && (n == n3 || n == n4)
        &&& e.contains(n) <==> c.has_context_logits && n == n5
        &&& f.contains(n) <==> c.has_generation_logits && n == n6
        &&& g.contains(n) <==> c.has_encoder_output && n == n7
    } by {
        let n = all[i];
        lemma_concat_contains(a + b + d + e + f, g, n);
        lemma_concat_contains(a + b + d + e, f, n);
        lemma_concat_contains(a + b + d, e, n);
        lemma_concat_contains(a + b, d, n);
        lemma_concat_contains(a, b, n);
        lemma_names_if_contains(c.token_count > 0, seq![n0, n1], n);
        lemma_names_if_contains(c.cum_log_probs_count > 0, seq![n2], n);
        lemma_names_if_contains(c.log_prob_count > 0, seq![n3, n4], n);
        lemma_names_if_contains(c.has_context_logits, seq![n5], n);
        lemma_names_if_contains(c.has_generation_logits, seq![n6], n);
        lemma_names_if_contains(c.has_encoder_output, seq![n7], n);
        lemma_pair_contains(n0, n1, n);
        lemma_single_contains(n2, n);
        lemma_pair_contains(n3, n4, n);
        lemma_single_contains(n5, n);
        lemma_single_contains(n6, n);
        lemma_single_contains(n7, n);
    }
    assert(all[0] == n0 && all[1] == n1 && all[2] == n2 && all[3] == n3);
    assert(all[4] == n4 && all[5] == n5 && all[6] == n6 && all[7] == n7);
    assert(n0 != n1 && n0 != n3 && n1 != n2 && n2 != n5 && n3 != n4 && n5 != n7);
}

/// The names of the standard tensors an output holds, in order.
pub fn standard_output_names(c: OutputCounts) -> (r: Vec<&'static str>)
    ensures
        r@.map_values(|n: &str| n@) == spec_standard_outputs(c),
{
    let mut names: Vec<&'static str> = Vec::new();
    if c.token_count > 0 {
        names.push("token_ids");
        names.push("token_offsets");
    }
    assert(names@.map_values(|n: &str| n@) =~= names_if(c.token_count > 0, seq!["token_ids"@, "token_offsets"@]));
    let ghost a = names@.map_values(|n: &str| n@);
    if c.cum_log_probs_count > 0 {
        names.push("cum_log_probs");
    }
    assert(names@.map_values(|n: &str| n@) =~= a + names_if(c.cum_log_probs_count > 0, seq!["cum_log_probs"@]));
    let ghost b = names@.map_values(|n: &str| n@);
    if c.log_prob_count > 0 {
        names.push("log_probs");
        names.push("log_prob_offsets");
    }
    assert(names@.map_values(|n: &str| n@) =~= b + names_if(c.log_prob_count > 0, seq!["log_probs"@, "log_prob_offsets"@]));
    let ghost d = names@.map_values(|n: &str| n@);
    if c.has_context_logits {
        names.push("context_logits");
    }
    assert(names@.map_values(|n: &str| n@) =~= d + names_if(c.has_context_logits, seq!["context_logits"@]));
    let ghost f = names@.map_values(|n: &str| n@);
    if c.has_generation_logits {
        names.push("generation_logits");
    }
    assert(names@.map_values(|n: &str| n@) =~= f + names_if(c.has_generation_logits, seq!["generation_logits"@]));
    let ghost g = names@.map_values(|n: &str| n@);
    if c.has_encoder_output {
        names.push("encoder_output");
    }
    assert(names@.map_values(|n: &str| n@) =~= g + names_if(c.has_encoder_output, seq!["encoder_output"@]));
    names
}

} // verus!
