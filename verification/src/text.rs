//! Text helpers: decimal rendering of integers and string concatenation.

use vstd::prelude::*;
use vstd::string::StringExecFns;
use vstd::utf8::encode_utf8;

verus! {

/// The character of a decimal digit.
pub open spec fn digit_char(d: nat) -> char {
    (48 + d) as char
}

/// The decimal digits of `n`, most significant first, without leading zeros
/// (a single `0` for zero).
pub open spec fn decimal_digits(n: nat) -> Seq<char>
    decreases n,
{
    if n < 10 {
        seq![digit_char(n)]
    } else {
        decimal_digits(n / 10).push(digit_char(n % 10))
    }
}

/// The decimal rendering of a signed value: a `-` before the digits of its
/// magnitude when it is negative.
pub open spec fn signed_decimal(n: int) -> Seq<char> {
    if n < 0 {
        seq!['-'] + decimal_digits((-n) as nat)
    } else {
        decimal_digits(n as nat)
    }
}

/// The decimal rendering that `usize`'s `Display` produces.
pub open spec fn decimal_usize(n: usize) -> Seq<char> {
    decimal_digits(n as nat)
}

/// The decimal rendering that `i64`'s `Display` produces.
pub open spec fn decimal_i64(n: i64) -> Seq<char> {
    signed_decimal(n as int)
}

/// The decimal rendering that `i32`'s `Display` produces.
pub open spec fn decimal_i32(n: i32) -> Seq<char> {
    signed_decimal(n as int)
}

/// Renders `n` with `usize::to_string` (std's `Display`): its decimal
/// digits, without leading zeros.
#[verifier::external_body]
pub(crate) fn usize_text(n: usize) -> (r: String)
    ensures
        r@ == decimal_usize(n),
{
    n.to_string()
}

/// Renders `n` with `i64::to_string` (std's `Display`): a `-` when negative,
/// then the decimal digits of its magnitude.
#[verifier::external_body]
pub(crate) fn i64_text(n: i64) -> (r: String)
    ensures
        r@ == decimal_i64(n),
{
    n.to_string()
}

/// Renders `n` with `i32::to_string` (std's `Display`): a `-` when negative,
/// then the decimal digits of its magnitude.
#[verifier::external_body]
pub(crate) fn i32_text(n: i32) -> (r: String)
    ensures
        r@ == decimal_i32(n),
{
    n.to_string()
}

/// The quoted, escaped rendering that `str`'s `Debug` produces.
pub uninterp spec fn str_debug(s: Seq<char>) -> Seq<char>;

/// Renders `s` with `str`'s `Debug` (quoted, with escapes); the result is
/// named `str_debug(s)`, a function of `s` alone.
#[verifier::external_body]
pub(crate) fn str_debug_text(s: &str) -> (r: String)
    ensures
        r@ == str_debug(s@),
{
    format!("{:?}", s)
}

/// Copies a string slice into an owned `String`.
pub fn owned(s: &str) -> (r: String)
    ensures
        r@ == s@,
{
    s.to_owned()
}

/// Concatenates two pieces of text.
pub fn join2(a: &str, b: &str) -> (r: String)
    ensures
        r@ == a@ + b@,
{
    let mut r = a.to_owned();
    r.append(b);
    r
}

/// Concatenates three pieces of text.
pub fn join3(a: &str, b: &str, c: &str) -> (r: String)
    ensures
        r@ == a@ + b@ + c@,
{
    let mut r = a.to_owned();
    r.append(b);
    r.append(c);
    r
}

/// Concatenates four pieces of text.
pub fn join4(a: &str, b: &str, c: &str, d: &str) -> (r: String)
    ensures
        r@ == a@ + b@ + c@ + d@,
{
    let mut r = a.to_owned();
    r.append(b);
    r.append(c);
    r.append(d);
    r
}

/// Whether two string slices hold the same characters.
pub fn same_text(a: &str, b: &str) -> (r: bool)
    ensures
        r == (a@ == b@),
{
    let x = a.to_owned();
    let y = b.to_owned();
    x == y
}

/// The comma-separated decimal items of a list, as `Debug` prints them.
pub open spec fn list_items(s: Seq<i64>) -> Seq<char>
    decreases s.len(),
{
    if s.len() == 0 {
        Seq::empty()
    } else if s.len() == 1 {
        decimal_i64(s[0])
    } else {
        list_items(s.drop_last()) + ", "@ + decimal_i64(s.last())
    }
}

/// The text that `Debug` prints for a slice of `i64`: `[a, b, c]`.
pub open spec fn debug_list(s: Seq<i64>) -> Seq<char> {
    "["@ + list_items(s) + "]"@
}

/// Renders a slice of `i64` as `Debug` prints it.
pub fn debug_i64_list(s: &[i64]) -> (r: String)
    ensures
        r@ == debug_list(s@),
{
    let mut items = String::new();
    let mut k: usize = 0;
    while k < s.len()
        invariant
            k <= s@.len(),
            items@ == list_items(s@.subrange(0, k as int)),
        decreases s@.len() - k,
    {
        let n = i64_text(s[k]);
        if k > 0 {
            items.append(", ");
        }
        items.append(n.as_str());
        assert(s@.subrange(0, k + 1).drop_last() =~= s@.subrange(0, k as int));
        k = k + 1;
    }
    assert(s@.subrange(0, s@.len() as int) =~= s@);
    join3("[", items.as_str(), "]")
}


/// The comma-separated decimal items of a list of `usize`.
pub open spec fn usize_items(s: Seq<usize>) -> Seq<char>
    decreases s.len(),
{
    if s.len() == 0 {
        Seq::empty()
    } else if s.len() == 1 {
        decimal_usize(s[0])
    } else {
        usize_items(s.drop_last()) + ", "@ + decimal_usize(s.last())
    }
}

/// The text that `Debug` prints for a slice of `usize`: `[a, b, c]`.
pub open spec fn debug_usize_list(s: Seq<usize>) -> Seq<char> {
    "["@ + usize_items(s) + "]"@
}

/// Renders a slice of `usize` as `Debug` prints it.
pub fn debug_usize_text(s: &[usize]) -> (r: String)
    ensures
        r@ == debug_usize_list(s@),
{
    let mut items = String::new();
    let mut k: usize = 0;
    while k < s.len()
        invariant
            k <= s@.len(),
            items@ == usize_items(s@.subrange(0, k as int)),
        decreases s@.len() - k,
    {
        let n = usize_text(s[k]);
        if k > 0 {
            items.append(", ");
        }
        items.append(n.as_str());
        assert(s@.subrange(0, k + 1).drop_last() =~= s@.subrange(0, k as int));
        k = k + 1;
    }
    assert(s@.subrange(0, s@.len() as int) =~= s@);
    join3("[", items.as_str(), "]")
}

/// `k` is the index of the first zero byte.
pub open spec fn first_zero_byte(bytes: Seq<u8>, k: int) -> bool {
    &&& 0 <= k < bytes.len()
    &&& bytes[k] == 0
    &&& forall|j: int| 0 <= j < k ==> #[trigger] bytes[j] != 0
}

/// The name holds no zero byte, so it can cross the C ABI.
pub open spec fn name_crosses_abi(name: Seq<char>) -> bool {
    forall|j: int| 0 <= j < encode_utf8(name).len() ==> #[trigger] encode_utf8(name)[j] != 0
}

/// The index of the first zero byte of `s`, if any.
pub(crate) fn first_nul(s: &str) -> (r: Option<usize>)
    ensures
        r is None <==> name_crosses_abi(s@),
        r matches Some(k) ==> first_zero_byte(encode_utf8(s@), k as int),
{
    let bytes = s.as_bytes();
    let mut k: usize = 0;
    while k < bytes.len()
        invariant
            bytes@ == encode_utf8(s@),
            k <= bytes@.len(),
            forall|j: int| 0 <= j < k ==> #[trigger] bytes@[j] != 0,
        decreases bytes@.len() - k,
    {
        if bytes[k] == 0 {
            return Some(k);
        }
        k = k + 1;
    }
    None
}

} // verus!
