//! The dynamically allocated storage of the heap strategy: a one-dimensional
//! `ndarray` array of 64-bit words.
//!
//! Everything in this file is taken on trust from `ndarray`; nothing here is
//! proved. Each contract says what the named `ndarray` function documents.
use vstd::prelude::*;

verus! {

/// An owned one-dimensional `ndarray::Array1<u64>`.
///
/// The array is opaque to the verifier: what it holds is spoken of only
/// through [`array_elements`].
#[verifier::external_body]
pub struct DenseArray {
    inner: ndarray::Array1<u64>,
}

/// The elements of the array, from index zero upwards.
pub uninterp spec fn array_elements(a: DenseArray) -> Seq<u64>;

/// Whether `n` words can be allocated at all: their size in bytes has to fit
/// in `isize`.
pub open spec fn allocatable(n: usize) -> bool {
    n * 8 <= isize::MAX
}

/// `ndarray::Array1::from_iter` over the elements of a slice: the array
/// holds the elements that the iterator yields, in the order it yields them.
#[verifier::external_body]
pub(crate) fn array_from_iter(data: &[u64]) -> (a: DenseArray)
    ensures
        array_elements(a) == data@,
{
    DenseArray { inner: ndarray::Array1::from_iter(data.iter().copied()) }
}

/// `ndarray::Array1::from_elem` with a one-dimensional shape: an array of `n`
/// elements, each a copy of `value`. It panics when the shape is too large
/// to allocate, which `requires` leaves out.
#[verifier::external_body]
pub(crate) fn array_from_elem(n: usize, value: u64) -> (a: DenseArray)
    requires
        allocatable(n),
    ensures
        array_elements(a) == Seq::new(n as nat, |i: int| value),
{
    DenseArray { inner: ndarray::Array1::from_elem(n, value) }
}

/// `ndarray::ArrayBase::len`: the total number of elements.
#[verifier::external_body]
pub(crate) fn array_len(a: &DenseArray) -> (n: usize)
    ensures
        n == array_elements(*a).len(),
{
    a.inner.len()
}

/// Indexing a one-dimensional array by `usize` (`Index::index`): the element
/// at that index. It panics out of bounds, which `requires` leaves out.
#[verifier::external_body]
pub(crate) fn array_index(a: &DenseArray, i: usize) -> (x: u64)
    requires
        i < array_elements(*a).len(),
    ensures
        x == array_elements(*a)[i as int],
{
    a.inner[i]
}

} // verus!
