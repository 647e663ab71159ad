//! Integer helpers shared by the pricing and fee code.
use vstd::prelude::*;

verus! {

/// `r` is the floor of the square root of `n`.
pub open spec fn is_floor_sqrt(n: int, r: int) -> bool {
    0 <= r && r * r <= n && n < (r + 1) * (r + 1)
}

/// Searches `k, k - 1, ..., 0` for the first value whose square is at most `n`.
pub open spec fn sqrt_search(n: int, k: nat) -> int
    decreases k,
{
    if k == 0 {
        0
    } else if k * k <= n {
        k as int
    } else {
        sqrt_search(n, (k - 1) as nat)
    }
}

/// The floor of the square root of a non-negative `n`.
pub open spec fn floor_sqrt(n: int) -> int {
    sqrt_search(n, n as nat)
}

proof fn lemma_sqrt_search(n: int, k: nat)
    requires
        0 <= n,
        (k + 1) * (k + 1) > n,
    ensures
        is_floor_sqrt(n, sqrt_search(n, k)),
    decreases k,
{
    if k > 0 && k * k > n {
        lemma_sqrt_search(n, (k - 1) as nat);
    }
}

/// There is exactly one floor square root, and `floor_sqrt` is it.
pub proof fn lemma_floor_sqrt(n: int, r: int)
    requires
        0 <= n,
    ensures
        is_floor_sqrt(n, floor_sqrt(n)),
        is_floor_sqrt(n, r) ==> r == floor_sqrt(n),
{
    assert((n + 1) * (n + 1) > n) by (nonlinear_arith)
        requires
            0 <= n,
    ;
    lemma_sqrt_search(n, n as nat);
    let f = floor_sqrt(n);
    if is_floor_sqrt(n, r) && r != f {
        if r < f {
            assert((r + 1) * (r + 1) <= f * f) by (nonlinear_arith)
                requires
                    0 <= r < f,
            ;
        } else {
            assert((f + 1) * (f + 1) <= r * r) by (nonlinear_arith)
                requires
                    0 <= f < r,
            ;
        }
    }
}

/// The floor square root does not decrease as its argument grows.
pub proof fn lemma_floor_sqrt_monotone(p: int, q: int)
    requires
        0 <= p <= q,
    ensures
        floor_sqrt(p) <= floor_sqrt(q),
{
    lemma_floor_sqrt(p, 0);
    lemma_floor_sqrt(q, 0);
    let a = floor_sqrt(p);
    let b = floor_sqrt(q);
    if a > b {
        assert((b + 1) * (b + 1) <= a * a) by (nonlinear_arith)
            requires
                0 <= b < a,
        ;
    }
}

/// One Newton step towards the square root of `n`, starting from `x > 0`.
pub open spec fn newton_step(n: int, x: int) -> int {
    (x + n / x) / 2
}

/// For any `m` with `m * m <= n`, a Newton step from `x > 0` lands at `m` or above.
proof fn lemma_newton_step_bounded_below(n: int, x: int, m: int)
    requires
        0 <= n,
        0 < x,
        0 <= m,
        m * m <= n,
    ensures
        newton_step(n, x) >= m,
{
    let q = n / x;
    assert(n < x * (q + 1)) by (nonlinear_arith)
        requires
            q == n / x,
            0 < x,
            0 <= n,
    ;
    if x + q < 2 * m {
        assert(x * (q + 1) <= x * (2 * m - x)) by (nonlinear_arith)
            requires
                x + q < 2 * m,
                0 < x,
        ;
        assert(x * (2 * m - x) <= m * m) by (nonlinear_arith);
        assert(false);
    }
}

/// A Newton step from above the root strictly decreases.
proof fn lemma_newton_step_decreases(n: int, x: int)
    requires
        0 <= n,
        0 < x,
        x * x > n,
    ensures
        newton_step(n, x) < x,
{
    assert(n / x < x) by (nonlinear_arith)
        requires
            x * x > n,
            0 < x,
            0 <= n,
    ;
}

/// Floor of the square root of `n`, by Newton's method seeded at `(n + 1) / 2`
/// and iterated while the estimate keeps decreasing.
pub fn integer_sqrt(n: u64) -> (r: u64)
    ensures
        is_floor_sqrt(n as int, r as int),
        r == floor_sqrt(n as int),
{
    proof {
        lemma_floor_sqrt(n as int, n as int);
    }
    if n == 0 {
        return 0;
    }
    if n == 1 {
        return 1;
    }
    let mut x: u64 = n;
    let mut y: u64 = ((n as u128 + 1) / 2) as u64;
    assert((n + 1) * (n + 1) > n) by (nonlinear_arith)
        requires
            n > 1,
    ;
    while y < x
        invariant
            n > 1,
            0 < x <= n,
            (x + 1) * (x + 1) > n,
            y as int == newton_step(n as int, x as int),
        decreases x,
    {
        proof {
            if (y + 1) * (y + 1) <= n {
                lemma_newton_step_bounded_below(n as int, x as int, y + 1);
            }
        }
        x = y;
        assert(x > 0) by {
            lemma_newton_step_bounded_below(n as int, x as int, 1);
        }
        let q: u64 = n / x;
        y = ((x as u128 + q as u128) / 2) as u64;
    }
    proof {
        if x * x > n {
            lemma_newton_step_decreases(n as int, x as int);
        }
        lemma_floor_sqrt(n as int, x as int);
    }
    x
}

} // verus!
