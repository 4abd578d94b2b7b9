use vstd::prelude::*;

verus! {

/// Multiplier of Fibonacci hashing: 2^64 divided by the golden ratio.
pub const GOLDEN_RATIO_MUL: usize = 0x9e3779b97f4a7c15u64 as usize;

/// Fibonacci (multiplicative) hashing of a pointer-sized value.
pub trait FibonacciHash: Sized {
    /// The hash of `self`.
    fn fibonacci_hash(&self) -> Self;
}

/// The Fibonacci hash of `x`: the value shifted right by two (dropping the alignment bits of a
/// pointer), multiplied by the golden-ratio constant modulo 2^(bits of usize).
pub open spec fn fibonacci_hash_spec(x: usize) -> usize {
    (((x >> 2usize) as int * GOLDEN_RATIO_MUL as int) % (usize::MAX as int + 1)) as usize
}

impl FibonacciHash for usize {
    fn fibonacci_hash(&self) -> (r: usize)
        ensures
            r == fibonacci_hash_spec(*self),
    {
        (*self >> 2usize).wrapping_mul(GOLDEN_RATIO_MUL)
    }
}

} // verus!
