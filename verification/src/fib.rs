//! Naive doubly-recursive Fibonacci over signed 32-bit integers.
//!
//! The base case returns any argument below 2 unchanged, so negative
//! arguments come back as themselves; the contracts state exactly that.

use vstd::prelude::*;

verus! {

/// The Fibonacci value of `n`: any `n` below 2 is its own value, and from
/// 2 upward each value is the sum of the two before it.
pub open spec fn spec_fib(n: int) -> int
    decreases n,
{
    if n < 2 {
        n
    } else {
        spec_fib(n - 1) + spec_fib(n - 2)
    }
}

/// Recurrence law: from 2 upward, each Fibonacci value is the sum of the
/// two before it.
pub proof fn lemma_fib_recurrence(n: int)
    requires
        2 <= n,
    ensures
        spec_fib(n) == spec_fib(n - 1) + spec_fib(n - 2),
{
}

/// On a negative argument the base-case branch returns the argument
/// itself, so the function is the identity there.
pub proof fn lemma_fib_negative(n: int)
    requires
        n < 0,
    ensures
        spec_fib(n) == n,
{
}

/// Fibonacci values of non-negative arguments are non-negative.
pub proof fn lemma_fib_nonneg(n: int)
    requires
        0 <= n,
    ensures
        0 <= spec_fib(n),
    decreases n,
{
    if 2 <= n {
        lemma_fib_nonneg(n - 1);
        lemma_fib_nonneg(n - 2);
    }
}

/// Over non-negative arguments the Fibonacci sequence never goes down.
pub proof fn lemma_fib_monotone(m: int, n: int)
    requires
        0 <= m <= n,
    ensures
        spec_fib(m) <= spec_fib(n),
    decreases n - m,
{
    if m < n {
        if n == m + 1 {
            if 1 <= m {
                lemma_fib_nonneg(m - 1);
            }
        } else {
            lemma_fib_monotone(m, n - 1);
            lemma_fib_nonneg(n - 2);
        }
    }
}

/// The largest Fibonacci value a signed 32-bit integer can hold is the
/// one at 46.
pub proof fn lemma_fib_46()
    ensures
        spec_fib(45) == 1134903170,
        spec_fib(46) == 1836311903,
{
    assert(spec_fib(0) == 0);
    assert(spec_fib(1) == 1);
    assert(spec_fib(2) == 1);
    assert(spec_fib(3) == 2);
    assert(spec_fib(4) == 3);
    assert(spec_fib(5) == 5);
    assert(spec_fib(6) == 8);
    assert(spec_fib(7) == 13);
    assert(spec_fib(8) == 21);
    assert(spec_fib(9) == 34);
    assert(spec_fib(10) == 55);
    assert(spec_fib(11) == 89);
    assert(spec_fib(12) == 144);
    assert(spec_fib(13) == 233);
    assert(spec_fib(14) == 377);
    assert(spec_fib(15) == 610);
    assert(spec_fib(16) == 987);
    assert(spec_fib(17) == 1597);
    assert(spec_fib(18) == 2584);
    assert(spec_fib(19) == 4181);
    assert(spec_fib(20) == 6765);
    assert(spec_fib(21) == 10946);
    assert(spec_fib(22) == 17711);
    assert(spec_fib(23) == 28657);
    assert(spec_fib(24) == 46368);
    assert(spec_fib(25) == 75025);
    assert(spec_fib(26) == 121393);
    assert(spec_fib(27) == 196418);
    assert(spec_fib(28) == 317811);
    assert(spec_fib(29) == 514229);
    assert(spec_fib(30) == 832040);
    assert(spec_fib(31) == 1346269);
    assert(spec_fib(32) == 2178309);
    assert(spec_fib(33) == 3524578);
    assert(spec_fib(34) == 5702887);
    assert(spec_fib(35) == 9227465);
    assert(spec_fib(36) == 14930352);
    assert(spec_fib(37) == 24157817);
    assert(spec_fib(38) == 39088169);
    assert(spec_fib(39) == 63245986);
    assert(spec_fib(40) == 102334155);
    assert(spec_fib(41) == 165580141);
    assert(spec_fib(42) == 267914296);
    assert(spec_fib(43) == 433494437);
    assert(spec_fib(44) == 701408733);
    assert(spec_fib(45) == 1134903170);
    assert(spec_fib(46) == 1836311903);
}

/// Every Fibonacci value up to the one at 46 fits in a signed 32-bit
/// integer.
pub proof fn lemma_fib_fits_i32(n: int)
    requires
        0 <= n <= 46,
    ensures
        0 <= spec_fib(n) <= 1836311903,
{
    lemma_fib_nonneg(n);
    lemma_fib_monotone(n, 46);
    lemma_fib_46();
}

/// The Fibonacci value of `nth`, by the naive doubly-recursive algorithm.
/// Any `nth` below 2, negative ones included, comes back unchanged. The
/// value at 47 no longer fits in a signed 32-bit integer, so arguments
/// stop at 46.
pub fn fib(nth: i32) -> (r: i32)
    requires
        nth <= 46,
    ensures
        r == spec_fib(nth as int),
    decreases nth,
{
    if nth < 2 {
        return nth;
    }
    proof {
        lemma_fib_fits_i32(nth - 1);
        lemma_fib_fits_i32(nth - 2);
        lemma_fib_fits_i32(nth as int);
    }
    fib(nth - 1) + fib(nth - 2)
}

} // verus!
