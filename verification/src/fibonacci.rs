//! The Fibonacci sequence.

use vstd::prelude::*;

verus! {

/// The mathematical Fibonacci sequence: 0, 1, 1, 2, 3, 5, ...
pub open spec fn spec_fibonacci(index: nat) -> nat
    decreases index,
{
    if index == 0 {
        0
    } else if index == 1 {
        1
    } else {
        spec_fibonacci((index - 1) as nat) + spec_fibonacci((index - 2) as nat)
    }
}

/// The sequence never decreases from one index to the next.
proof fn lemma_fibonacci_step_monotonic(index: nat)
    ensures
        spec_fibonacci(index) <= spec_fibonacci(index + 1),
    decreases index,
{
    if index >= 2 {
        lemma_fibonacci_step_monotonic((index - 1) as nat);
    }
}

/// The sequence never decreases between any two ordered indices.
pub proof fn lemma_fibonacci_monotonic(lo: nat, hi: nat)
    requires
        lo <= hi,
    ensures
        spec_fibonacci(lo) <= spec_fibonacci(hi),
    decreases hi - lo,
{
    if lo < hi {
        lemma_fibonacci_monotonic(lo, (hi - 1) as nat);
        lemma_fibonacci_step_monotonic((hi - 1) as nat);
    }
}

/// Computes the Fibonacci number at `index`. The result must fit the
/// return type, which confines `index` to at most 24.
pub fn fibonacci(index: u16) -> (number: u16)
    requires
        spec_fibonacci(index as nat) <= u16::MAX,
    ensures
        number == spec_fibonacci(index as nat),
    decreases index,
{
    match index {
        0 => 0,
        1 => 1,
        i => {
            proof {
                lemma_fibonacci_monotonic((i - 2) as nat, (i - 1) as nat);
                lemma_fibonacci_monotonic((i - 1) as nat, i as nat);
            }
            fibonacci(i - 1) + fibonacci(i - 2)
        },
    }
}

} // verus!
