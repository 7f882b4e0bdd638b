//! Naive recursive Fibonacci computation.

use vstd::prelude::*;

verus! {

/// The Fibonacci value of `n` under the convention `fib(0) == 0`,
/// `fib(1) == 1`, `fib(k) == fib(k - 1) + fib(k - 2)` for `k >= 2`.
/// Every `n <= 1` is its own Fibonacci value, negative arguments included.
pub open spec fn fib(n: int) -> int
    decreases n,
{
    if n <= 1 {
        n
    } else {
        fib(n - 1) + fib(n - 2)
    }
}

/// Law: for every `n` of at least 2, the Fibonacci value is the sum of the
/// two values before it.
pub proof fn lemma_fib_recurrence(n: int)
    requires
        n >= 2,
    ensures
        fib(n) == fib(n - 1) + fib(n - 2),
{
}

/// Fibonacci values are never negative from 0 on.
pub proof fn lemma_fib_nonneg(n: int)
    requires
        0 <= n,
    ensures
        0 <= fib(n),
    decreases n,
{
    if n >= 2 {
        lemma_fib_nonneg(n - 1);
        lemma_fib_nonneg(n - 2);
    }
}

/// The Fibonacci sequence never decreases from 0 on.
pub proof fn lemma_fib_nondecreasing(i: int, j: int)
    requires
        0 <= i <= j,
    ensures
        fib(i) <= fib(j),
    decreases j - i,
{
    if i < j && j >= 2 {
        lemma_fib_nonneg(j - 2);
        if i < j - 1 {
            lemma_fib_nondecreasing(i, j - 1);
        }
    }
}

/// Up to 46, every Fibonacci value fits in a 32-bit signed integer;
/// `fib(47)` is the first that does not.
pub proof fn lemma_fib_fits_i32(n: int)
    requires
        n <= 46,
    ensures
        fib(n) <= i32::MAX,
{
    if n >= 2 {
        assert(fib(46) == 1836311903) by {
            reveal_with_fuel(fib, 47);
        }
        lemma_fib_nondecreasing(n, 46);
    }
}

/// Returns the `n`-th Fibonacci number by the naive exponential-time
/// recursion; every `n <= 1`, negative values included, is returned
/// unchanged. The bound on `n` keeps the result within `i32`.
pub fn fibonacci(n: i32) -> (r: i32)
    requires
        n <= 46,
    ensures
        r == fib(n as int),
    decreases n,
{
    if n <= 1 {
        n
    } else {
        proof {
            lemma_fib_fits_i32(n as int);
            lemma_fib_nonneg(n - 1);
            lemma_fib_nonneg(n - 2);
        }
        fibonacci(n - 1) + fibonacci(n - 2)
    }
}

} // verus!
