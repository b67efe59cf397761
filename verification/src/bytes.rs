//! Tensor bytes and the integer elements they hold, in one byte order for a
//! whole buffer: reading elements out of bytes and writing them back.

use vstd::prelude::*;
use vstd::endian::{Endian, endianness};

verus! {

/// The unsigned value of `s` read least significant byte first.
pub open spec fn le_value(s: Seq<u8>) -> nat
    decreases s.len(),
{
    if s.len() == 0 {
        0
    } else {
        s[0] as nat + 256 * le_value(s.drop_first())
    }
}

/// The unsigned value of `s` read most significant byte first.
pub open spec fn be_value(s: Seq<u8>) -> nat
    decreases s.len(),
{
    if s.len() == 0 {
        0
    } else {
        be_value(s.drop_last()) * 256 + s.last() as nat
    }
}

/// `v` is what `s` reads as in one of the two byte orders a machine may have.
pub open spec fn native_value(s: Seq<u8>, v: nat) -> bool {
    v == le_value(s) || v == be_value(s)
}

/// The executing machine stores integers least significant byte first
/// (`vstd`'s abstraction of the hardware's endianness).
pub open spec fn native_little() -> bool {
    endianness() == Endian::Little
}

/// What `s` reads as: least significant byte first when `little`, most
/// significant first otherwise.
pub open spec fn ordered_value(s: Seq<u8>, little: bool) -> nat {
    if little {
        le_value(s)
    } else {
        be_value(s)
    }
}

/// `256` to the power `n`: one more than the largest value of `n` bytes.
pub open spec fn pow256(n: nat) -> nat
    decreases n,
{
    if n == 0 {
        1
    } else {
        256 * pow256((n - 1) as nat)
    }
}

/// The `width` bytes of element `k` of a packed buffer.
pub open spec fn element_bytes(bytes: Seq<u8>, width: nat, k: int) -> Seq<u8> {
    bytes.subrange(k * width, k * width + width)
}

/// `v` holds one element per `width` bytes, each element (given as its
/// unsigned bit pattern by `bits`) read in the byte order `little`.
pub open spec fn reads_in<T>(bytes: Seq<u8>, width: nat, v: Seq<T>, bits: spec_fn(T) -> nat, little: bool) -> bool {
    &&& v.len() == bytes.len() / width
    &&& forall|k: int| 0 <= k < v.len() ==> #[trigger] bits(v[k]) == ordered_value(element_bytes(bytes, width, k), little)
}

/// `v` holds one element per `width` bytes, all read in the machine's own
/// byte order (the one `from_ne_bytes` and `to_ne_bytes` use).
pub open spec fn reads_natively<T>(bytes: Seq<u8>, width: nat, v: Seq<T>, bits: spec_fn(T) -> nat) -> bool {
    reads_in(bytes, width, v, bits, native_little())
}

proof fn lemma_pow256_grows(a: nat, b: nat)
    requires
        a <= b,
    ensures
        1 <= pow256(a) <= pow256(b),
    decreases b,
{
    if b > a {
        lemma_pow256_grows(a, (b - 1) as nat);
    } else if a > 0 {
        lemma_pow256_grows((a - 1) as nat, (a - 1) as nat);
    }
}

proof fn lemma_pow256_eight()
    ensures
        pow256(8) == 0x1_0000_0000_0000_0000,
        pow256(4) == 0x1_0000_0000,
        pow256(2) == 0x1_0000,
{
    reveal_with_fuel(pow256, 9);
}

proof fn lemma_le_bound(s: Seq<u8>)
    ensures
        le_value(s) < pow256(s.len()),
    decreases s.len(),
{
    if s.len() > 0 {
        lemma_le_bound(s.drop_first());
    }
}

proof fn lemma_be_bound(s: Seq<u8>)
    ensures
        be_value(s) < pow256(s.len()),
    decreases s.len(),
{
    if s.len() > 0 {
        lemma_be_bound(s.drop_last());
    }
}

proof fn lemma_le_push(s: Seq<u8>, b: u8)
    ensures
        le_value(s.push(b)) == le_value(s) + pow256(s.len()) * b,
    decreases s.len(),
{
    if s.len() == 0 {
        assert(s.push(b).drop_first() =~= Seq::<u8>::empty());
        assert(le_value(Seq::<u8>::empty()) == 0);
        assert(le_value(s) == 0);
        assert(pow256(0) == 1);
        assert(s.push(b)[0] == b);
    } else {
        assert(s.push(b).drop_first() =~= s.drop_first().push(b));
        assert(s.push(b)[0] == s[0]);
        lemma_le_push(s.drop_first(), b);
        let x = le_value(s.drop_first());
        let p = pow256((s.len() - 1) as nat);
        assert(le_value(s) == s[0] + 256 * x);
        assert(pow256(s.len()) == 256 * p);
        assert(le_value(s.push(b)) == s[0] + 256 * (x + p * b));
        assert(256 * (x + p * b) == 256 * x + (256 * p) * b) by (nonlinear_arith);
    }
}

/// The value of the `width` bytes at `start`, read in the order `little`.
fn read_element(bytes: &[u8], start: usize, width: usize, little: bool) -> (r: u64)
    requires
        1 <= width <= 8,
        start + width <= bytes@.len(),
    ensures
        r as nat == ordered_value(bytes@.subrange(start as int, start + width), little),
        (r as nat) < pow256(width as nat),
{
    let len = bytes.len();
    let end = start + width;
    let mut acc: u64 = 0;
    if little {
        let mut j: usize = width;
        while j > 0
            invariant
                1 <= width <= 8,
                end == start + width,
                end <= bytes@.len(),
                j <= width,
                acc as nat == le_value(bytes@.subrange(start + j, end as int)),
                (acc as nat) < pow256((width - j) as nat),
            decreases j,
        {
            let b = bytes[start + j - 1];
            let ghost tail = bytes@.subrange(start + j, end as int);
            let ghost next = bytes@.subrange(start + j - 1, end as int);
            assert(next.drop_first() =~= tail);
            proof {
                lemma_pow256_grows((width - j + 1) as nat, 8);
                lemma_pow256_eight();
            }
            acc = acc * 256 + b as u64;
            j = j - 1;
        }
        assert(bytes@.subrange(start + j, end as int) == bytes@.subrange(start as int, end as int));
    } else {
        let mut j: usize = 0;
        while j < width
            invariant
                1 <= width <= 8,
                end == start + width,
                end <= bytes@.len(),
                j <= width,
                acc as nat == be_value(bytes@.subrange(start as int, start + j)),
                (acc as nat) < pow256(j as nat),
            decreases width - j,
        {
            let b = bytes[start + j];
            let ghost head = bytes@.subrange(start as int, start + j);
            let ghost next = bytes@.subrange(start as int, start + j + 1);
            assert(next.drop_last() =~= head);
            proof {
                lemma_pow256_grows((j + 1) as nat, 8);
                lemma_pow256_eight();
            }
            acc = acc * 256 + b as u64;
            j = j + 1;
        }
    }
    acc
}

/// Appends the `width` bytes of `x` in the order `little`.
fn write_element(out: &mut Vec<u8>, x: u64, width: usize, little: bool)
    requires
        1 <= width <= 8,
        (x as nat) < pow256(width as nat),
    ensures
        final(out)@.len() == old(out)@.len() + width,
        final(out)@.subrange(0, old(out)@.len() as int) == old(out)@,
        ordered_value(final(out)@.subrange(old(out)@.len() as int, final(out)@.len() as int), little) == x as nat,
{
    let mut le: Vec<u8> = Vec::new();
    let mut rest: u64 = x;
    let mut j: usize = 0;
    assert(le@ =~= Seq::<u8>::empty());
    assert(le_value(le@) == 0);
    assert(pow256(0) == 1);
    while j < width
        invariant
            1 <= width <= 8,
            (x as nat) < pow256(width as nat),
            j <= width,
            le@.len() == j,
            le_value(le@) + pow256(j as nat) * rest == x as nat,
            (rest as nat) < pow256((width - j) as nat),
        decreases width - j,
    {
        let b = (rest % 256) as u8;
        proof {
            lemma_le_push(le@, b);
            let p = pow256(j as nat);
            let q = pow256((width - j - 1) as nat);
            assert(pow256((width - j) as nat) == 256 * q);
            assert(p * (rest % 256) + (256 * p) * (rest / 256) == p * rest) by (nonlinear_arith);
            assert((rest as nat) < 256 * q ==> (rest / 256) < q) by (nonlinear_arith);
        }
        le.push(b);
        rest = rest / 256;
        j = j + 1;
    }
    assert(le_value(le@) == x as nat) by {
        assert(rest == 0);
    }
    let ghost start = out@.len();
    let ghost before = out@;
    if little {
        let mut k: usize = 0;
        while k < width
            invariant
                width == le@.len(),
                k <= width,
                out@.len() == start + k,
                out@.subrange(0, start as int) == before,
                out@.subrange(start as int, out@.len() as int) == le@.subrange(0, k as int),
            decreases width - k,
        {
            out.push(le[k]);
            assert(out@.subrange(start as int, out@.len() as int) =~= le@.subrange(0, k + 1));
            assert(out@.subrange(0, start as int) =~= before);
            k = k + 1;
        }
        assert(le@.subrange(0, width as int) =~= le@);
    } else {
        let mut k: usize = 0;
        while k < width
            invariant
                width == le@.len(),
                k <= width,
                out@.len() == start + k,
                out@.subrange(0, start as int) == before,
                be_value(out@.subrange(start as int, out@.len() as int)) == le_value(
                    le@.subrange(width - k, width as int),
                ),
            decreases width - k,
        {
            let ghost chunk = out@.subrange(start as int, out@.len() as int);
            let b = le[width - k - 1];
            out.push(b);
            let ghost chunk2 = out@.subrange(start as int, out@.len() as int);
            assert(chunk2.drop_last() =~= chunk);
            assert(le@.subrange(width - k - 1, width as int).drop_first() =~= le@.subrange(width - k, width as int));
            assert(out@.subrange(0, start as int) =~= before);
            k = k + 1;
        }
        assert(le@.subrange(0, width as int) =~= le@);
    }
}

/// Whether the machine stores integers least significant byte first, read
/// from `u16::from_ne_bytes` of the bytes `[1, 0]`.
pub fn native_little_endian() -> (r: bool)
    ensures
        r == native_little(),
{
    let one_zero: [u8; 2] = [1u8, 0u8];
    let probe = u16_from_ne_bytes(one_zero);
    proof {
        let b = one_zero@;
        assert(b =~= seq![1u8, 0u8]);
        let e = Seq::<u8>::empty();
        assert(le_value(e) == 0 && be_value(e) == 0);
        assert(seq![0u8].drop_first() =~= e);
        assert(le_value(seq![0u8]) == 0);
        assert(seq![1u8].drop_last() =~= e);
        assert(be_value(seq![1u8]) == 1);
        assert(b.drop_first() =~= seq![0u8]);
        assert(b.drop_last() =~= seq![1u8]);
        assert(le_value(b) == 1);
        assert(be_value(b) == 256);
    }
    probe == 1
}

/// Reads a buffer of 2-byte elements in the byte order `little`.
pub fn decode_u16s_in(bytes: &[u8], little: bool) -> (r: Vec<u16>)
    requires
        bytes@.len() % 2 == 0,
    ensures
        reads_in(bytes@, 2, r@, |x: u16| x as nat, little),
{
    let len = bytes.len();
    let n = len / 2;
    let mut out: Vec<u16> = Vec::new();
    let mut k: usize = 0;
    while k < n
        invariant
            n == bytes@.len() / 2,
            len == bytes@.len(),
            bytes@.len() % 2 == 0,
            k <= n,
            out@.len() == k,
            forall|j: int| 0 <= j < k ==> #[trigger] out@[j] as nat == ordered_value(element_bytes(bytes@, 2, j), little),
        decreases n - k,
    {
        assert(k * 2 + 2 <= bytes@.len()) by (nonlinear_arith)
            requires
                k < n,
                n == bytes@.len() / 2,
        ;
        let v = read_element(bytes, k * 2, 2, little);
        proof {
            lemma_pow256_eight();
        }
        out.push(v as u16);
        k = k + 1;
    }
    out
}

/// Reads a buffer of 4-byte elements in the byte order `little`.
pub fn decode_u32s_in(bytes: &[u8], little: bool) -> (r: Vec<u32>)
    requires
        bytes@.len() % 4 == 0,
    ensures
        reads_in(bytes@, 4, r@, |x: u32| x as nat, little),
{
    let len = bytes.len();
    let n = len / 4;
    let mut out: Vec<u32> = Vec::new();
    let mut k: usize = 0;
    while k < n
        invariant
            n == bytes@.len() / 4,
            len == bytes@.len(),
            bytes@.len() % 4 == 0,
            k <= n,
            out@.len() == k,
            forall|j: int| 0 <= j < k ==> #[trigger] out@[j] as nat == ordered_value(element_bytes(bytes@, 4, j), little),
        decreases n - k,
    {
        assert(k * 4 + 4 <= bytes@.len()) by (nonlinear_arith)
            requires
                k < n,
                n == bytes@.len() / 4,
        ;
        let v = read_element(bytes, k * 4, 4, little);
        proof {
            lemma_pow256_eight();
        }
        out.push(v as u32);
        k = k + 1;
    }
    out
}

/// Reads a buffer of 8-byte elements in the byte order `little`.
pub fn decode_u64s_in(bytes: &[u8], little: bool) -> (r: Vec<u64>)
    requires
        bytes@.len() % 8 == 0,
    ensures
        reads_in(bytes@, 8, r@, |x: u64| x as nat, little),
{
    let len = bytes.len();
    let n = len / 8;
    let mut out: Vec<u64> = Vec::new();
    let mut k: usize = 0;
    while k < n
        invariant
            n == bytes@.len() / 8,
            len == bytes@.len(),
            bytes@.len() % 8 == 0,
            k <= n,
            out@.len() == k,
            forall|j: int| 0 <= j < k ==> #[trigger] out@[j] as nat == ordered_value(element_bytes(bytes@, 8, j), little),
        decreases n - k,
    {
        assert(k * 8 + 8 <= bytes@.len()) by (nonlinear_arith)
            requires
                k < n,
                n == bytes@.len() / 8,
        ;
        let v = read_element(bytes, k * 8, 8, little);
        out.push(v);
        k = k + 1;
    }
    out
}

/// Reads a buffer of 2-byte elements in the machine's byte order.
pub fn decode_u16s(bytes: &[u8]) -> (r: Vec<u16>)
    requires
        bytes@.len() % 2 == 0,
    ensures
        reads_natively(bytes@, 2, r@, |x: u16| x as nat),
{
    decode_u16s_in(bytes, native_little_endian())
}

/// Reads a buffer of 4-byte elements in the machine's byte order.
pub fn decode_u32s(bytes: &[u8]) -> (r: Vec<u32>)
    requires
        bytes@.len() % 4 == 0,
    ensures
        reads_natively(bytes@, 4, r@, |x: u32| x as nat),
{
    decode_u32s_in(bytes, native_little_endian())
}

/// Reads a buffer of 8-byte elements in the machine's byte order.
pub fn decode_u64s(bytes: &[u8]) -> (r: Vec<u64>)
    requires
        bytes@.len() % 8 == 0,
    ensures
        reads_natively(bytes@, 8, r@, |x: u64| x as nat),
{
    decode_u64s_in(bytes, native_little_endian())
}

/// Writes u16 elements as 2-byte groups in the byte order `little`.
pub fn encode_u16s_in(values: &[u16], little: bool) -> (r: Vec<u8>)
    requires
        values@.len() * 2 <= usize::MAX,
    ensures
        r@.len() == values@.len() * 2,
        reads_in(r@, 2, values@, |x: u16| x as nat, little),
{
    let mut out: Vec<u8> = Vec::new();
    let mut k: usize = 0;
    while k < values.len()
        invariant
            values@.len() * 2 <= usize::MAX,
            k <= values@.len(),
            out@.len() == k * 2,
            forall|j: int| 0 <= j < k ==> #[trigger] values@[j] as nat == ordered_value(element_bytes(out@, 2, j), little),
        decreases values@.len() - k,
    {
        let ghost before = out@;
        proof {
            lemma_pow256_eight();
        }
        write_element(&mut out, values[k] as u64, 2, little);
        assert forall|j: int| 0 <= j < k + 1 implies #[trigger] values@[j] as nat == ordered_value(
            element_bytes(out@, 2, j),
            little,
        ) by {
            if j < k {
                assert(element_bytes(out@, 2, j) =~= element_bytes(before, 2, j)) by {
                    assert(out@.subrange(0, before.len() as int) == before);
                    assert forall|i: int| 0 <= i < 2 implies #[trigger] element_bytes(out@, 2, j)[i] == element_bytes(before, 2, j)[i] by {
                        assert(out@.subrange(0, before.len() as int)[j * 2 + i] == out@[j * 2 + i]);
                    }
                }
            } else {
                assert(element_bytes(out@, 2, j) =~= out@.subrange(before.len() as int, out@.len() as int));
            }
        }
        k = k + 1;
    }
    out
}

/// Writes u16 elements as 2-byte groups in the machine's byte order.
pub fn encode_u16s(values: &[u16]) -> (r: Vec<u8>)
    requires
        values@.len() * 2 <= usize::MAX,
    ensures
        r@.len() == values@.len() * 2,
        reads_natively(r@, 2, values@, |x: u16| x as nat),
{
    encode_u16s_in(values, native_little_endian())
}

/// Writes u32 elements as 4-byte groups in the byte order `little`.
pub fn encode_u32s_in(values: &[u32], little: bool) -> (r: Vec<u8>)
    requires
        values@.len() * 4 <= usize::MAX,
    ensures
        r@.len() == values@.len() * 4,
        reads_in(r@, 4, values@, |x: u32| x as nat, little),
{
    let mut out: Vec<u8> = Vec::new();
    let mut k: usize = 0;
    while k < values.len()
        invariant
            values@.len() * 4 <= usize::MAX,
            k <= values@.len(),
            out@.len() == k * 4,
            forall|j: int| 0 <= j < k ==> #[trigger] values@[j] as nat == ordered_value(element_bytes(out@, 4, j), little),
        decreases values@.len() - k,
    {
        let ghost before = out@;
        proof {
            lemma_pow256_eight();
        }
        write_element(&mut out, values[k] as u64, 4, little);
        assert forall|j: int| 0 <= j < k + 1 implies #[trigger] values@[j] as nat == ordered_value(
            element_bytes(out@, 4, j),
            little,
        ) by {
            if j < k {
                assert(element_bytes(out@, 4, j) =~= element_bytes(before, 4, j)) by {
                    assert(out@.subrange(0, before.len() as int) == before);
                    assert forall|i: int| 0 <= i < 4 implies #[trigger] element_bytes(out@, 4, j)[i] == element_bytes(before, 4, j)[i] by {
                        assert(out@.subrange(0, before.len() as int)[j * 4 + i] == out@[j * 4 + i]);
                    }
                }
            } else {
                assert(element_bytes(out@, 4, j) =~= out@.subrange(before.len() as int, out@.len() as int));
            }
        }
        k = k + 1;
    }
    out
}

/// Writes u32 elements as 4-byte groups in the machine's byte order.
pub fn encode_u32s(values: &[u32]) -> (r: Vec<u8>)
    requires
        values@.len() * 4 <= usize::MAX,
    ensures
        r@.len() == values@.len() * 4,
        reads_natively(r@, 4, values@, |x: u32| x as nat),
{
    encode_u32s_in(values, native_little_endian())
}

/// Writes u64 elements as 8-byte groups in the byte order `little`.
pub fn encode_u64s_in(values: &[u64], little: bool) -> (r: Vec<u8>)
    requires
        values@.len() * 8 <= usize::MAX,
    ensures
        r@.len() == values@.len() * 8,
        reads_in(r@, 8, values@, |x: u64| x as nat, little),
{
    let mut out: Vec<u8> = Vec::new();
    let mut k: usize = 0;
    while k < values.len()
        invariant
            values@.len() * 8 <= usize::MAX,
            k <= values@.len(),
            out@.len() == k * 8,
            forall|j: int| 0 <= j < k ==> #[trigger] values@[j] as nat == ordered_value(element_bytes(out@, 8, j), little),
        decreases values@.len() - k,
    {
        let ghost before = out@;
        proof {
            lemma_pow256_eight();
        }
        write_element(&mut out, values[k] as u64, 8, little);
        assert forall|j: int| 0 <= j < k + 1 implies #[trigger] values@[j] as nat == ordered_value(
            element_bytes(out@, 8, j),
            little,
        ) by {
            if j < k {
                assert(element_bytes(out@, 8, j) =~= element_bytes(before, 8, j)) by {
                    assert(out@.subrange(0, before.len() as int) == before);
                    assert forall|i: int| 0 <= i < 8 implies #[trigger] element_bytes(out@, 8, j)[i] == element_bytes(before, 8, j)[i] by {
                        assert(out@.subrange(0, before.len() as int)[j * 8 + i] == out@[j * 8 + i]);
                    }
                }
            } else {
                assert(element_bytes(out@, 8, j) =~= out@.subrange(before.len() as int, out@.len() as int));
            }
        }
        k = k + 1;
    }
    out
}

/// Writes u64 elements as 8-byte groups in the machine's byte order.
pub fn encode_u64s(values: &[u64]) -> (r: Vec<u8>)
    requires
        values@.len() * 8 <= usize::MAX,
    ensures
        r@.len() == values@.len() * 8,
        reads_natively(r@, 8, values@, |x: u64| x as nat),
{
    encode_u64s_in(values, native_little_endian())
}

/// Bytes read in one byte order determine the elements: two element
/// sequences that the same bytes read as, in the same order, are equal when
/// `bits` tells elements apart. Writing elements in an order and reading them
/// back in that order therefore gives them back.
pub proof fn lemma_reads_in_unique<T>(
    bytes: Seq<u8>,
    width: nat,
    a: Seq<T>,
    b: Seq<T>,
    bits: spec_fn(T) -> nat,
    little: bool,
)
    requires
        reads_in(bytes, width, a, bits, little),
        reads_in(bytes, width, b, bits, little),
        forall|x: T, y: T| #[trigger] bits(x) == #[trigger] bits(y) ==> x == y,
    ensures
        a == b,
{
    assert forall|k: int| 0 <= k < a.len() implies a[k] == b[k] by {
        assert(bits(a[k]) == bits(b[k]));
    }
    assert(a =~= b);
}

/// Reading the same bytes into elements of another type whose bit patterns
/// agree element by element: one reading holds exactly when the other does.
pub proof fn lemma_reads_in_reinterpret<T, U>(
    bytes: Seq<u8>,
    width: nat,
    a: Seq<T>,
    b: Seq<U>,
    bits_a: spec_fn(T) -> nat,
    bits_b: spec_fn(U) -> nat,
    little: bool,
)
    requires
        a.len() == b.len(),
        forall|k: int| 0 <= k < a.len() ==> #[trigger] bits_a(a[k]) == bits_b(b[k]),
    ensures
        reads_in(bytes, width, a, bits_a, little) == reads_in(bytes, width, b, bits_b, little),
{
    if reads_in(bytes, width, a, bits_a, little) {
        assert forall|k: int| 0 <= k < b.len() implies #[trigger] bits_b(b[k]) == ordered_value(
            element_bytes(bytes, width, k),
            little,
        ) by {
            assert(bits_a(a[k]) == bits_b(b[k]));
        }
    }
    if reads_in(bytes, width, b, bits_b, little) {
        assert forall|k: int| 0 <= k < a.len() implies #[trigger] bits_a(a[k]) == ordered_value(
            element_bytes(bytes, width, k),
            little,
        ) by {
            assert(bits_a(a[k]) == bits_b(b[k]));
        }
    }
}

/// `u16::from_ne_bytes` (std): the value the two bytes encode in the
/// executing machine's byte order (`vstd::endian::endianness`), little- or
/// big-endian.
#[verifier::external_body]
pub(crate) fn u16_from_ne_bytes(b: [u8; 2]) -> (r: u16)
    ensures
        native_value(b@, r as nat),
        r as nat == ordered_value(b@, native_little()),
{
    u16::from_ne_bytes(b)
}

/// Reinterprets each element's bits as `i32`.
pub fn u32s_as_i32s(v: Vec<u32>) -> (r: Vec<i32>)
    ensures
        r@.len() == v@.len(),
        forall|k: int| 0 <= k < r@.len() ==> #[trigger] r@[k] == v@[k] as i32,
{
    let mut out: Vec<i32> = Vec::new();
    let mut k: usize = 0;
    while k < v.len()
        invariant
            k <= v@.len(),
            out@.len() == k,
            forall|j: int| 0 <= j < k ==> #[trigger] out@[j] == v@[j] as i32,
        decreases v@.len() - k,
    {
        out.push(v[k] as i32);
        k = k + 1;
    }
    out
}

/// Reinterprets each element's bits as `i64`.
pub fn u64s_as_i64s(v: Vec<u64>) -> (r: Vec<i64>)
    ensures
        r@.len() == v@.len(),
        forall|k: int| 0 <= k < r@.len() ==> #[trigger] r@[k] == v@[k] as i64,
{
    let mut out: Vec<i64> = Vec::new();
    let mut k: usize = 0;
    while k < v.len()
        invariant
            k <= v@.len(),
            out@.len() == k,
            forall|j: int| 0 <= j < k ==> #[trigger] out@[j] == v@[j] as i64,
        decreases v@.len() - k,
    {
        out.push(v[k] as i64);
        k = k + 1;
    }
    out
}

/// Reinterprets each element's bits as `u32`.
pub fn i32s_as_u32s(v: &[i32]) -> (r: Vec<u32>)
    ensures
        r@.len() == v@.len(),
        forall|k: int| 0 <= k < r@.len() ==> #[trigger] r@[k] == v@[k] as u32,
{
    let mut out: Vec<u32> = Vec::new();
    let mut k: usize = 0;
    while k < v.len()
        invariant
            k <= v@.len(),
            out@.len() == k,
            forall|j: int| 0 <= j < k ==> #[trigger] out@[j] == v@[j] as u32,
        decreases v@.len() - k,
    {
        out.push(v[k] as u32);
        k = k + 1;
    }
    out
}

/// Reinterprets each element's bits as `u64`.
pub fn i64s_as_u64s(v: &[i64]) -> (r: Vec<u64>)
    ensures
        r@.len() == v@.len(),
        forall|k: int| 0 <= k < r@.len() ==> #[trigger] r@[k] == v@[k] as u64,
{
    let mut out: Vec<u64> = Vec::new();
    let mut k: usize = 0;
    while k < v.len()
        invariant
            k <= v@.len(),
            out@.len() == k,
            forall|j: int| 0 <= j < k ==> #[trigger] out@[j] == v@[j] as u64,
        decreases v@.len() - k,
    {
        out.push(v[k] as u64);
        k = k + 1;
    }
    out
}

/// Writes `i32` elements as 4-byte groups in the byte order `little`.
pub fn encode_i32s_in(values: &[i32], little: bool) -> (r: Vec<u8>)
    requires
        values@.len() * 4 <= usize::MAX,
    ensures
        r@.len() == values@.len() * 4,
        reads_in(r@, 4, values@, |x: i32| (x as u32) as nat, little),
{
    let raw = i32s_as_u32s(values);
    let r = encode_u32s_in(raw.as_slice(), little);
    proof {
        lemma_reads_in_reinterpret(r@, 4, values@, raw@, |x: i32| (x as u32) as nat, |x: u32| x as nat, little);
    }
    r
}

/// Writes `i64` elements as 8-byte groups in the byte order `little`.
pub fn encode_i64s_in(values: &[i64], little: bool) -> (r: Vec<u8>)
    requires
        values@.len() * 8 <= usize::MAX,
    ensures
        r@.len() == values@.len() * 8,
        reads_in(r@, 8, values@, |x: i64| (x as u64) as nat, little),
{
    let raw = i64s_as_u64s(values);
    let r = encode_u64s_in(raw.as_slice(), little);
    proof {
        lemma_reads_in_reinterpret(r@, 8, values@, raw@, |x: i64| (x as u64) as nat, |x: u64| x as nat, little);
    }
    r
}

/// Writes `i32` elements as 4-byte groups in the machine's byte order.
pub fn encode_i32s(values: &[i32]) -> (r: Vec<u8>)
    requires
        values@.len() * 4 <= usize::MAX,
    ensures
        r@.len() == values@.len() * 4,
        reads_natively(r@, 4, values@, |x: i32| (x as u32) as nat),
{
    encode_i32s_in(values, native_little_endian())
}

/// Writes `i64` elements as 8-byte groups in the machine's byte order.
pub fn encode_i64s(values: &[i64]) -> (r: Vec<u8>)
    requires
        values@.len() * 8 <= usize::MAX,
    ensures
        r@.len() == values@.len() * 8,
        reads_natively(r@, 8, values@, |x: i64| (x as u64) as nat),
{
    encode_i64s_in(values, native_little_endian())
}

/// Reads a buffer of 4-byte `i32` elements in the byte order `little`.
pub fn decode_i32s_in(bytes: &[u8], little: bool) -> (r: Vec<i32>)
    requires
        bytes@.len() % 4 == 0,
    ensures
        reads_in(bytes@, 4, r@, |x: i32| (x as u32) as nat, little),
{
    let raw = decode_u32s_in(bytes, little);
    let v = u32s_as_i32s(raw);
    proof {
        assert forall|k: int| 0 <= k < v@.len() implies #[trigger] (v@[k] as u32) as nat == raw@[k] as nat by {
            let x: u32 = raw@[k];
            assert(x as i32 as u32 == x) by (bit_vector);
        }
        lemma_reads_in_reinterpret(bytes@, 4, v@, raw@, |x: i32| (x as u32) as nat, |x: u32| x as nat, little);
    }
    v
}

/// Reads a buffer of 8-byte `i64` elements in the byte order `little`.
pub fn decode_i64s_in(bytes: &[u8], little: bool) -> (r: Vec<i64>)
    requires
        bytes@.len() % 8 == 0,
    ensures
        reads_in(bytes@, 8, r@, |x: i64| (x as u64) as nat, little),
{
    let raw = decode_u64s_in(bytes, little);
    let v = u64s_as_i64s(raw);
    proof {
        assert forall|k: int| 0 <= k < v@.len() implies #[trigger] (v@[k] as u64) as nat == raw@[k] as nat by {
            let x: u64 = raw@[k];
            assert(x as i64 as u64 == x) by (bit_vector);
        }
        lemma_reads_in_reinterpret(bytes@, 8, v@, raw@, |x: i64| (x as u64) as nat, |x: u64| x as nat, little);
    }
    v
}

/// Reads a buffer of 4-byte `i32` elements in the machine's byte order.
pub fn decode_i32s(bytes: &[u8]) -> (r: Vec<i32>)
    requires
        bytes@.len() % 4 == 0,
    ensures
        reads_natively(bytes@, 4, r@, |x: i32| (x as u32) as nat),
{
    decode_i32s_in(bytes, native_little_endian())
}

/// Reads a buffer of 8-byte `i64` elements in the machine's byte order.
pub fn decode_i64s(bytes: &[u8]) -> (r: Vec<i64>)
    requires
        bytes@.len() % 8 == 0,
    ensures
        reads_natively(bytes@, 8, r@, |x: i64| (x as u64) as nat),
{
    decode_i64s_in(bytes, native_little_endian())
}

/// Elements written in the machine's byte order read back as themselves:
/// bytes that hold `values` natively (as the `encode_*s` functions write
/// them) and read natively as `back` (as the `decode_*s` functions and the
/// executor's `read_*` functions read them) give `back == values`, for any
/// element type whose bit patterns tell elements apart.
pub proof fn lemma_native_bytes_roundtrip<T>(bytes: Seq<u8>, width: nat, values: Seq<T>, back: Seq<T>, bits: spec_fn(T) -> nat)
    requires
        reads_natively(bytes, width, values, bits),
        reads_natively(bytes, width, back, bits),
        forall|x: T, y: T| #[trigger] bits(x) == #[trigger] bits(y) ==> x == y,
    ensures
        back == values,
{
    lemma_reads_in_unique(bytes, width, values, back, bits, native_little());
}

} // verus!
