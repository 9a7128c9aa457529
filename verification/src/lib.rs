//! Numeric vectors whose elements are IEEE 754 binary64 numbers, held by their
//! bit patterns, with two interchangeable storage strategies:
//!
//! * [`heap::Vector`] keeps its elements in a dynamically allocated array;
//! * [`fixed::Vector`] keeps them in an inline buffer of `N` slots and never
//!   allocates.
//!
//! Both offer the same constructors with the same meaning, so code written
//! against one builds against the other.
//!
//! The library moves and compares bit patterns and holds no floating-point
//! arithmetic of its own. The constructors that space their elements,
//! `linspace` and `range`, decide how many elements there are, which of them
//! is computed from what, and by how many intervals a span is divided; the
//! arithmetic itself they ask of their caller, as functions on bit patterns.
use vstd::prelude::*;

pub mod dense;
pub mod fixed;
pub mod heap;

verus! {

/// The capacity that means "no capacity was chosen".
pub const DEFAULT_SIZE: usize = 0;

/// The binary64 encoding of positive zero.
pub const ZERO_BITS: u64 = 0;

/// The binary64 encoding of one: sign 0, biased exponent 1023, fraction 0.
pub const ONE_BITS: u64 = 0x3FF0_0000_0000_0000;

/// A source held more elements than the vector has room for.
#[derive(Debug, Clone, Copy, PartialEq, Eq)]
pub struct CapacityOverflow {
    /// The number of slots of the vector.
    pub capacity: usize,
    /// The number of elements that were offered.
    pub len: usize,
}

/// Whether `n` is a capacity that a sized constructor accepts: any capacity
/// but [`DEFAULT_SIZE`].
pub fn capacity_is_set(n: usize) -> (set: bool)
    ensures
        set == (n != DEFAULT_SIZE),
{
    n != DEFAULT_SIZE
}

/// Whether `s` is the progression of `n` elements that begins at `start` and
/// whose element at each later index `i` is what `element_at` returns for
/// `start`, `step` and `i`.
pub open spec fn is_progression<F: Fn(u64, u64, usize) -> u64>(
    s: Seq<u64>,
    n: usize,
    start: u64,
    step: u64,
    element_at: F,
) -> bool {
    &&& s.len() == n
    &&& n > 0
    &&& s[0] == start
    &&& forall|i: usize| 0 < i < n ==> call_ensures(element_at, (start, step, i), #[trigger] s[i as int])
}

} // verus!
