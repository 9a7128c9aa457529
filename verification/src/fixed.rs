//! The fixed strategy: an inline buffer of `N` slots, no allocation.
use vstd::prelude::*;
use crate::{is_progression, CapacityOverflow, DEFAULT_SIZE, ONE_BITS, ZERO_BITS};

verus! {

/// A vector of at most `N` elements, stored inline.
pub struct Vector<const N: usize> {
    slots: [u64; N],
    used: usize,
}

impl<const N: usize> View for Vector<N> {
    type V = Seq<u64>;

    /// The elements, in order: the used prefix of the buffer.
    closed spec fn view(&self) -> Seq<u64> {
        self.slots@.subrange(0, self.used as int)
    }
}

impl<const N: usize> Vector<N> {
    #[verifier::type_invariant]
    spec fn within_capacity(self) -> bool {
        self.used <= N
    }

    /// Appends `item`, or hands it back when every slot is taken.
    fn push(&mut self, item: u64) -> (r: Result<(), u64>)
        ensures
            old(self)@.len() < N ==> r is Ok && final(self)@ == old(self)@.push(item),
            old(self)@.len() >= N ==> r == Err::<(), u64>(item) && final(self)@ == old(self)@,
    {
        proof {
            use_type_invariant(&*self);
        }
        if self.used < N {
            self.slots[self.used] = item;
            self.used = self.used + 1;
            assert(self@ =~= old(self)@.push(item));
            Ok(())
        } else {
            Err(item)
        }
    }

    /// The vector of `N` elements that are all zero.
    pub fn zeros() -> (v: Self)
        requires
            N != DEFAULT_SIZE,
        ensures
            v@.len() == N,
            forall|i: int| 0 <= i < N ==> v@[i] == ZERO_BITS,
    {
        Vector { slots: [ZERO_BITS; N], used: N }
    }

    /// The vector of `N` elements that are all one.
    pub fn ones() -> (v: Self)
        requires
            N != DEFAULT_SIZE,
        ensures
            v@.len() == N,
            forall|i: int| 0 <= i < N ==> v@[i] == ONE_BITS,
    {
        Vector { slots: [ONE_BITS; N], used: N }
    }

    /// The vector that holds the elements of `data`, in order.
    ///
    /// The elements are appended one at a time. A source longer than `N` is
    /// refused as a whole: nothing shorter is ever handed out in its place.
    pub fn new(data: &[u64]) -> (r: Result<Self, CapacityOverflow>)
        requires
            N != DEFAULT_SIZE,
        ensures
            data@.len() <= N ==> r is Ok && r->Ok_0@ == data@,
            data@.len() > N ==> r == Err::<Self, CapacityOverflow>(
                (CapacityOverflow { capacity: N, len: data@.len() as usize }),
            ),
    {
        let mut v = Vector { slots: [ZERO_BITS; N], used: 0 };
        let mut i: usize = 0;
        while i < data.len()
            invariant
                i <= data@.len(),
                i <= N,
                v@ == data@.subrange(0, i as int),
            decreases data@.len() - i,
        {
            match v.push(data[i]) {
                Ok(()) => {},
                Err(_) => {
                    return Err(CapacityOverflow { capacity: N, len: data.len() });
                },
            }
            assert(v@ =~= data@.subrange(0, i + 1));
            i = i + 1;
        }
        assert(v@ =~= data@);
        Ok(v)
    }

    /// The arithmetic progression of `N` elements from `start` by `step`.
    ///
    /// The first element is `start` itself. For each later index `i`,
    /// `element_at(start, step, i)` is asked for the element: it is to
    /// compute `start + i * step` in binary64 arithmetic.
    pub fn range<F: Fn(u64, u64, usize) -> u64>(start: u64, step: u64, element_at: F) -> (v: Self)
        requires
            N != DEFAULT_SIZE,
            forall|i: usize| 0 < i < N ==> call_requires(element_at, (start, step, i)),
        ensures
            is_progression(v@, N, start, step, element_at),
    {
        let mut slots = [start; N];
        let mut i: usize = 1;
        while i < N
            invariant
                1 <= i <= N,
                slots@[0] == start,
                forall|j: usize| 0 < j < N ==> call_requires(element_at, (start, step, j)),
                forall|j: usize|
                    0 < j < i ==> call_ensures(element_at, (start, step, j), #[trigger] slots@[j as int]),
            decreases N - i,
        {
            slots[i] = element_at(start, step, i);
            i = i + 1;
        }
        let v = Vector { slots, used: N };
        assert(v@ =~= slots@);
        v
    }

    /// `N` elements evenly spaced from `start` to `end`, both included.
    ///
    /// With one element only, that element is `start` and no arithmetic is
    /// asked for. Otherwise `spacing(start, end, N - 1)` is asked once for
    /// the step, which is to be `(end - start) / (N - 1)` in binary64
    /// arithmetic, and the elements are the progression from `start` by
    /// that one step.
    pub fn linspace<S: Fn(u64, u64, usize) -> u64, F: Fn(u64, u64, usize) -> u64>(
        start: u64,
        end: u64,
        spacing: S,
        element_at: F,
    ) -> (v: Self)
        requires
            N != DEFAULT_SIZE,
            N > 1 ==> call_requires(spacing, (start, end, (N - 1) as usize)),
            forall|step: u64, i: usize|
                call_ensures(spacing, (start, end, (N - 1) as usize), step) && 0 < i < N
                    ==> call_requires(element_at, (start, step, i)),
        ensures
            v@.len() == N,
            v@[0] == start,
            N == 1 ==> v@ == seq![start],
            N > 1 ==> exists|step: u64|
                #[trigger] call_ensures(spacing, (start, end, (N - 1) as usize), step)
                    && is_progression(v@, N, start, step, element_at),
    {
        if N > 1 {
            let step = spacing(start, end, N - 1);
            Self::range(start, step, element_at)
        } else {
            let v = Self::range(start, ZERO_BITS, element_at);
            assert(v@ =~= seq![start]);
            v
        }
    }

    /// The number of elements, which never exceeds `N`.
    pub fn len(&self) -> (n: usize)
        ensures
            n == self@.len(),
            n <= N,
    {
        proof {
            use_type_invariant(self);
        }
        self.used
    }

    /// The element at index `i`.
    pub fn get(&self, i: usize) -> (x: u64)
        requires
            i < self@.len(),
        ensures
            x == self@[i as int],
    {
        proof {
            use_type_invariant(self);
        }
        self.slots[i]
    }
}

} // verus!
