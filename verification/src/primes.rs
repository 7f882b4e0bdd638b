//! Trial-division primality test.

use vstd::prelude::*;
use vstd::arithmetic::div_mod::lemma_fundamental_div_mod;
use vstd::arithmetic::div_mod::lemma_mod_bound;
use vstd::arithmetic::div_mod::lemma_mod_multiples_basic;

verus! {

/// `n` is prime: at least 2, with no divisor strictly between 1 and `n`.
pub open spec fn is_prime_spec(n: int) -> bool {
    n >= 2 && forall|d: int| 2 <= d < n ==> #[trigger] (n % d) != 0
}

/// A composite's divisor pair has one member no larger than the square root:
/// any proper divisor `d` of `n` yields a proper divisor `e` with
/// `e * e <= n`.
proof fn lemma_divisor_below_sqrt(n: int, d: int)
    requires
        2 <= d < n,
        n % d == 0,
    ensures
        exists|e: int| 2 <= e && e * e <= n && #[trigger] (n % e) == 0,
{
    if d * d <= n {
        assert(2 <= d && d * d <= n && n % d == 0);
    } else {
        let e = n / d;
        lemma_fundamental_div_mod(n, d);
        assert(n == d * e);
        assert(e >= 2) by (nonlinear_arith)
            requires
                n == d * e,
                2 <= d,
                d < n,
        ;
        assert(e * e <= n) by (nonlinear_arith)
            requires
                n == d * e,
                d * d > n,
                e >= 2,
                d >= 2,
        ;
        lemma_mod_multiples_basic(d, e);
        assert(n % e == 0);
        assert(2 <= e && e * e <= n && n % e == 0);
    }
}

/// The quotient test `i <= m / i` says exactly that `i * i <= m`; it is the
/// overflow-free way to compare a square against `m`.
proof fn lemma_square_vs_quotient(m: int, i: int)
    requires
        0 <= m,
        1 <= i,
    ensures
        (i <= m / i) <==> (i * i <= m),
{
    lemma_fundamental_div_mod(m, i);
    lemma_mod_bound(m, i);
    let q = m / i;
    let r = m % i;
    assert((i <= q) ==> (i * i <= m)) by (nonlinear_arith)
        requires
            m == i * q + r,
            0 <= r,
            1 <= i,
    ;
    assert((q < i) ==> (m < i * i)) by (nonlinear_arith)
        requires
            m == i * q + r,
            r < i,
            1 <= i,
    ;
}

/// Returns whether `n` is prime, by trial division: `false` for every
/// `n <= 1`, and otherwise the answer of testing each candidate divisor `i`
/// from 2 upward while `i * i <= n`. The square test is phrased as
/// `i <= n / i` so that the candidate's square is never computed beyond `n`.
pub fn is_prime(n: i32) -> (r: bool)
    ensures
        r == is_prime_spec(n as int),
{
    if n <= 1 {
        return false;
    }
    let mut i: i32 = 2;
    while i <= n / i
        invariant
            2 <= i,
            2 <= n,
            forall|d: int| 2 <= d < i ==> #[trigger] ((n as int) % d) != 0,
        decreases n - i,
    {
        proof {
            lemma_square_vs_quotient(n as int, i as int);
            assert(2 * i <= i * i) by (nonlinear_arith)
                requires
                    2 <= i,
            ;
        }
        if n % i == 0 {
            proof {
                assert(2 <= i < n as int);
                assert((n as int) % (i as int) == 0);
            }
            return false;
        }
        i = i + 1;
    }
    proof {
        lemma_square_vs_quotient(n as int, i as int);
        assert forall|d: int| 2 <= d < n as int implies #[trigger] ((n as int) % d) != 0 by {
            if (n as int) % d == 0 {
                lemma_divisor_below_sqrt(n as int, d);
                let e = choose|e: int|
                    2 <= e && e * e <= n as int && #[trigger] ((n as int) % e) == 0;
                assert(e < i) by (nonlinear_arith)
                    requires
                        e * e <= n as int,
                        (i as int) * (i as int) > n as int,
                        e >= 2,
                        i >= 2,
                ;
                assert((n as int) % e != 0);
            }
        }
    }
    true
}

} // verus!
