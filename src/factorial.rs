use vstd::prelude::*;

verus! {

/// `n!`, with `0! == 1! == 1`.
pub open spec fn fact(n: nat) -> nat
    decreases n,
{
    if n == 0 {
        1
    } else {
        n * fact((n - 1) as nat)
    }
}

/// Factorials never decrease: `m <= n` implies `m! <= n!`.
pub proof fn lemma_fact_monotonic(m: nat, n: nat)
    requires
        m <= n,
    ensures
        fact(m) <= fact(n),
    decreases n - m,
{
    if m < n {
        lemma_fact_monotonic(m, (n - 1) as nat);
        assert(fact((n - 1) as nat) <= fact(n)) by (nonlinear_arith)
            requires
                n >= 1,
                fact(n) == n * fact((n - 1) as nat),
        ;
    }
}

/// Computes `n!` by multiplying `1, 2, ..., n` in turn.
pub fn factorial(n: u32) -> (r: u32)
    requires
        fact(n as nat) <= u32::MAX,
    ensures
        r == fact(n as nat),
{
    let mut result: u32 = 1;
    let mut i: u32 = 0;
    while i < n
        invariant
            i <= n,
            result == fact(i as nat),
            fact(n as nat) <= u32::MAX,
        decreases n - i,
    {
        i = i + 1;
        proof {
            lemma_fact_monotonic(i as nat, n as nat);
            assert(fact(i as nat) == i * fact((i - 1) as nat));
            assert(result * i == i * result) by (nonlinear_arith);
        }
        result = result * i;
    }
    result
}

} // verus!
