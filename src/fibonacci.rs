use vstd::prelude::*;

verus! {

/// The Fibonacci sequence, starting 0, 1.
pub open spec fn fib(n: nat) -> nat
    decreases n,
{
    if n == 0 {
        0
    } else if n == 1 {
        1
    } else {
        fib((n - 1) as nat) + fib((n - 2) as nat)
    }
}

pub proof fn lemma_fib_monotonic(i: nat, j: nat)
    requires
        i <= j,
    ensures
        fib(i) <= fib(j),
    decreases j - i,
{
    if i < j {
        lemma_fib_monotonic(i, (j - 1) as nat);
        if j >= 2 {
            assert(fib(j) == fib((j - 1) as nat) + fib((j - 2) as nat));
        }
    }
}

/// The `n`-th Fibonacci number, for every `n` whose value fits in 64 bits.
pub fn fibonacci(n: u32) -> (r: u64)
    requires
        fib(n as nat) <= u64::MAX,
    ensures
        r == fib(n as nat),
{
    if n == 0 {
        0
    } else if n == 1 {
        1
    } else {
        let mut accumulator: u64 = 0;
        let mut last: u64 = 0;
        let mut current: u64 = 1;
        let mut i: u32 = 1;
        while i < n
            invariant
                1 <= i <= n,
                last == fib((i - 1) as nat),
                current == fib(i as nat),
                i > 1 ==> accumulator == current,
                fib(n as nat) <= u64::MAX,
            decreases n - i,
        {
            proof {
                lemma_fib_monotonic((i + 1) as nat, n as nat);
                assert(fib((i + 1) as nat) == fib(i as nat) + fib((i - 1) as nat));
            }
            accumulator = last + current;
            last = current;
            current = accumulator;
            i = i + 1;
        }
        accumulator
    }
}

} // verus!
