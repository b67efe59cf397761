//! The `smallvec` crate's inline vector, as it holds tensor dimensions and
//! the extra ids of a prompt's tokens.

use vstd::prelude::*;
use smallvec::SmallVec;

verus! {

/// An inline `smallvec::SmallVec` of up to eight `i64` dimensions (spilling to
/// the heap beyond that). Verus does not accept `SmallVec` as a declared
/// outside type (its `smallvec::Array` bound), so the vector is held in this
/// opaque struct; its contents are named below.
#[verifier::external_body]
#[derive(Debug, Eq, Hash, PartialEq)]
pub struct DimVec {
    inner: SmallVec<[i64; 8]>,
}

/// The dimensions held by a `DimVec`, in order.
pub uninterp spec fn dim_values(v: DimVec) -> Seq<i64>;

/// `SmallVec::from_vec`: the new vector holds the elements of `values`, in
/// order (the source moves the elements inline or adopts the heap buffer).
#[verifier::external_body]
pub(crate) fn dims_from_vec(values: Vec<i64>) -> (r: DimVec)
    ensures
        dim_values(r) == values@,
{
    DimVec { inner: SmallVec::from_vec(values) }
}

/// `SmallVec::as_slice`: a slice over exactly the held elements.
#[verifier::external_body]
pub(crate) fn dims_as_slice(v: &DimVec) -> (r: &[i64])
    ensures
        r@ == dim_values(*v),
{
    v.inner.as_slice()
}

/// `SmallVec::len`: the number of held elements.
#[verifier::external_body]
pub(crate) fn dims_len(v: &DimVec) -> (r: usize)
    ensures
        r == dim_values(*v).len(),
{
    v.inner.len()
}

/// `SmallVec::into_vec`: a `Vec` holding the same elements, in order.
#[verifier::external_body]
pub(crate) fn dims_into_vec(v: DimVec) -> (r: Vec<i64>)
    ensures
        r@ == dim_values(v),
{
    v.inner.into_vec()
}

/// `SmallVec`'s `Clone`: the copy holds the same elements, in order.
impl Clone for DimVec {
    #[verifier::external_body]
    fn clone(&self) -> (r: Self)
        ensures
            dim_values(r) == dim_values(*self),
    {
        DimVec { inner: self.inner.clone() }
    }
}

/// An inline `smallvec::SmallVec` of up to sixteen `u64` token extra ids
/// (spilling to the heap beyond that), held opaque for the same reason as
/// `DimVec`; its contents are named below.
#[verifier::external_body]
#[derive(Debug)]
pub struct ExtraIdVec {
    inner: SmallVec<[u64; 16]>,
}

/// The ids held by an `ExtraIdVec`, in order.
pub uninterp spec fn extra_id_values(v: ExtraIdVec) -> Seq<u64>;

/// `SmallVec::from_vec`: the new vector holds the elements of `values`, in
/// order.
#[verifier::external_body]
pub(crate) fn extra_ids_from_vec(values: Vec<u64>) -> (r: ExtraIdVec)
    ensures
        extra_id_values(r) == values@,
{
    ExtraIdVec { inner: SmallVec::from_vec(values) }
}

/// `SmallVec::as_slice`: a slice over exactly the held elements.
#[verifier::external_body]
pub(crate) fn extra_ids_as_slice(v: &ExtraIdVec) -> (r: &[u64])
    ensures
        r@ == extra_id_values(*v),
{
    v.inner.as_slice()
}

} // verus!
