//! Recursion and pure arithmetic: `factorial` and `square`.

use vstd::prelude::*;

verus! {

/// The mathematical factorial: `fact(0) == 1`, `fact(n) == n * fact(n - 1)`.
pub open spec fn fact(n: nat) -> nat
    decreases n,
{
    if n <= 1 {
        1
    } else {
        n * fact((n - 1) as nat)
    }
}

/// The factorial of any natural number is at least one.
pub proof fn lemma_fact_pos(n: nat)
    ensures
        fact(n) >= 1,
    decreases n,
{
    if n > 1 {
        lemma_fact_pos((n - 1) as nat);
        assert(fact(n) == n * fact((n - 1) as nat));
        assert(n * fact((n - 1) as nat) >= 1) by (nonlinear_arith)
            requires
                n >= 2,
                fact((n - 1) as nat) >= 1,
        ;
    }
}

/// Computes the factorial of `n` by structural recursion.
///
/// The precondition only excludes inputs whose factorial does not fit
/// in the return type.
pub fn factorial(n: u64) -> (r: u64)
    requires
        fact(n as nat) <= u64::MAX,
    ensures
        r == fact(n as nat),
    decreases n,
{
    if n <= 1 {
        1
    } else {
        proof {
            lemma_fact_pos((n - 1) as nat);
            assert(fact((n - 1) as nat) <= (n as nat) * fact((n - 1) as nat)) by (nonlinear_arith)
                requires
                    n >= 2,
                    fact((n - 1) as nat) >= 1,
            ;
        }
        let rec = factorial(n - 1);
        n * rec
    }
}

/// Multiplies `n` by itself. A pure function: the result is pinned to
/// `n * n`, and is never negative.
pub fn square(n: i32) -> (r: i32)
    requires
        n * n <= i32::MAX,
    ensures
        r == n * n,
        r >= 0,
{
    proof {
        assert(n * n >= 0) by (nonlinear_arith);
    }
    n * n
}

} // verus!
