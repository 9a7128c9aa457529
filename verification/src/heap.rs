//! The heap strategy: elements live in a dynamically allocated array.
use vstd::prelude::*;
use crate::dense::{
    allocatable, array_elements, array_from_elem, array_from_iter, array_index, array_len,
    DenseArray,
};
use crate::{is_progression, CapacityOverflow, DEFAULT_SIZE, ONE_BITS, ZERO_BITS};

verus! {

/// Whether an array of `n` elements can be allocated, which the sized
/// constructors ask of `N`.
pub fn can_allocate(n: usize) -> (ok: bool)
    ensures
        ok == allocatable(n),
{
    n <= isize::MAX as usize / 8
}

/// A vector whose length is set when it is built.
///
/// `N` is the number of elements that the sized constructors produce; the
/// storage itself has no upper bound.
pub struct Vector<const N: usize> {
    data: DenseArray,
}

impl<const N: usize> View for Vector<N> {
    type V = Seq<u64>;

    /// The elements, in order.
    closed spec fn view(&self) -> Seq<u64> {
        array_elements(self.data)
    }
}

impl<const N: usize> Vector<N> {
    /// The vector that holds the elements of `data`, in order.
    ///
    /// This strategy has room for any source, so the result is always `Ok`,
    /// whatever `N` is.
    pub fn new(data: &[u64]) -> (r: Result<Self, CapacityOverflow>)
        ensures
            r is Ok,
            r->Ok_0@ == data@,
    {
        Ok(Vector { data: array_from_iter(data) })
    }

    /// The vector of `N` elements that are all zero.
    pub fn zeros() -> (v: Self)
        requires
            N != DEFAULT_SIZE,
            allocatable(N),
        ensures
            v@.len() == N,
            forall|i: int| 0 <= i < N ==> v@[i] == ZERO_BITS,
    {
        Vector { data: array_from_elem(N, ZERO_BITS) }
    }

    /// The vector of `N` elements that are all one.
    pub fn ones() -> (v: Self)
        requires
            N != DEFAULT_SIZE,
            allocatable(N),
        ensures
            v@.len() == N,
            forall|i: int| 0 <= i < N ==> v@[i] == ONE_BITS,
    {
        Vector { data: array_from_elem(N, ONE_BITS) }
    }

    /// The arithmetic progression of `N` elements from `start` by `step`.
    ///
    /// The first element is `start` itself. For each later index `i`,
    /// `element_at(start, step, i)` is asked for the element: it is to
    /// compute `start + i * step` in binary64 arithmetic.
    pub fn range<F: Fn(u64, u64, usize) -> u64>(start: u64, step: u64, element_at: F) -> (v: Self)
        requires
            N != DEFAULT_SIZE,
            forall|i: usize| 0 < i < N ==> call_requires(element_at, (start, step, i)),
        ensures
            is_progression(v@, N, start, step, element_at),
    {
        let mut items: Vec<u64> = Vec::new();
        items.push(start);
        let mut i: usize = 1;
        while i < N
            invariant
                1 <= i <= N,
                items@.len() == i,
                items@[0] == start,
                forall|j: usize| 0 < j < N ==> call_requires(element_at, (start, step, j)),
                forall|j: usize|
                    0 < j < i ==> call_ensures(element_at, (start, step, j), #[trigger] items@[j as int]),
            decreases N - i,
        {
            items.push(element_at(start, step, i));
            i = i + 1;
        }
        Vector { data: array_from_iter(items.as_slice()) }
    }

    /// `N` elements evenly spaced from `start` to `end`, both included.
    ///
    /// With one element only, that element is `start` and no arithmetic is
    /// asked for. Otherwise `spacing(start, end, N - 1)` is asked once for
    /// the step, which is to be `(end - start) / (N - 1)` in binary64
    /// arithmetic, and the elements are the progression from `start` by
    /// that one step.
    pub fn linspace<S: Fn(u64, u64, usize) -> u64, F: Fn(u64, u64, usize) -> u64>(
        start: u64,
        end: u64,
        spacing: S,
        element_at: F,
    ) -> (v: Self)
        requires
            N != DEFAULT_SIZE,
            N > 1 ==> call_requires(spacing, (start, end, (N - 1) as usize)),
            forall|step: u64, i: usize|
                call_ensures(spacing, (start, end, (N - 1) as usize), step) && 0 < i < N
                    ==> call_requires(element_at, (start, step, i)),
        ensures
            v@.len() == N,
            v@[0] == start,
            N == 1 ==> v@ == seq![start],
            N > 1 ==> exists|step: u64|
                #[trigger] call_ensures(spacing, (start, end, (N - 1) as usize), step)
                    && is_progression(v@, N, start, step, element_at),
    {
        if N > 1 {
            let step = spacing(start, end, N - 1);
            Self::range(start, step, element_at)
        } else {
            let v = Self::range(start, ZERO_BITS, element_at);
            assert(v@ =~= seq![start]);
            v
        }
    }

    /// The number of elements.
    pub fn len(&self) -> (n: usize)
        ensures
            n == self@.len(),
    {
        array_len(&self.data)
    }

    /// The element at index `i`.
    pub fn get(&self, i: usize) -> (x: u64)
        requires
            i < self@.len(),
        ensures
            x == self@[i as int],
    {
        array_index(&self.data, i)
    }
}

} // verus!
