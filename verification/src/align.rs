//! Rounding to multiples.

use vstd::prelude::*;
use vstd::arithmetic::div_mod::{
    lemma_fundamental_div_mod, lemma_fundamental_div_mod_converse, lemma_mod_multiples_basic,
};

verus! {

/// `n` is a whole number of `m`s.
pub open spec fn is_multiple(n: int, m: int) -> bool {
    n % m == 0
}

/// The largest multiple of `m` that is not above `n`.
pub open spec fn rounded_down(n: int, m: int) -> int {
    n - n % m
}

/// The smallest multiple of `m` that is not below `n`.
pub open spec fn rounded_up(n: int, m: int) -> int {
    if is_multiple(n, m) {
        n
    } else {
        n - n % m + m
    }
}

/// Round number down to multiple
pub fn align_down(n: usize, m: usize) -> (r: usize)
    requires
        m > 0,
    ensures
        r == rounded_down(n as int, m as int),
        is_multiple(r as int, m as int),
        r <= n < r + m,
{
    proof {
        law_align_down_is_greatest(n as int, m as int, 0);
        lemma_fundamental_div_mod(n as int, m as int);
        assert((n as int / m as int) * (m as int) == n - n as int % m as int) by (nonlinear_arith)
            requires
                n as int == m as int * (n as int / m as int) + n as int % m as int,
        ;
    }
    n / m * m
}

/// Round number up to multiple
pub fn align_up(n: usize, m: usize) -> (r: usize)
    requires
        m > 0,
        n + m <= usize::MAX,
    ensures
        r == rounded_up(n as int, m as int),
        is_multiple(r as int, m as int),
        n <= r < n + m,
{
    proof {
        law_align_up_is_least(n as int, m as int, 0);
        lemma_round_up_by_rounding_down(n as int, m as int);
    }
    align_down(n + m - 1, m)
}

proof fn lemma_round_up_by_rounding_down(n: int, m: int)
    requires
        0 <= n,
        0 < m,
    ensures
        rounded_down(n + m - 1, m) == rounded_up(n, m),
{
    let q = n / m;
    let r = n % m;
    lemma_fundamental_div_mod(n, m);
    if r == 0 {
        assert(n + m - 1 == q * m + (m - 1)) by (nonlinear_arith)
            requires
                n == m * q + r,
                r == 0,
        ;
        lemma_fundamental_div_mod_converse(n + m - 1, m, q, m - 1);
    } else {
        assert(n + m - 1 == (q + 1) * m + (r - 1)) by (nonlinear_arith)
            requires
                n == m * q + r,
        ;
        lemma_fundamental_div_mod_converse(n + m - 1, m, q + 1, r - 1);
    }
}

/// Rounding down gives a multiple of `m`, and no multiple of `m` lies between it and `n`.
pub proof fn law_align_down_is_greatest(n: int, m: int, other: int)
    requires
        0 <= n,
        0 < m,
    ensures
        is_multiple(rounded_down(n, m), m),
        0 <= rounded_down(n, m) <= n < rounded_down(n, m) + m,
        is_multiple(other, m) && other <= n ==> other <= rounded_down(n, m),
{
    let q = n / m;
    lemma_fundamental_div_mod(n, m);
    assert(rounded_down(n, m) == q * m) by (nonlinear_arith)
        requires
            n == m * q + n % m,
            rounded_down(n, m) == n - n % m,
    ;
    lemma_mod_multiples_basic(q, m);
    assert(q >= 0 && q * m >= 0) by (nonlinear_arith)
        requires
            0 <= n,
            0 < m,
            q == n / m,
    ;
    if is_multiple(other, m) && other <= n {
        let k = other / m;
        lemma_fundamental_div_mod(other, m);
        assert(k <= q) by (nonlinear_arith)
            requires
                other == m * k,
                other <= n,
                n == m * q + n % m,
                0 <= n % m < m,
                0 < m,
        ;
        assert(other <= q * m) by (nonlinear_arith)
            requires
                other == m * k,
                k <= q,
                0 < m,
        ;
    }
}

/// Rounding up gives a multiple of `m`, and no multiple of `m` lies between `n` and it.
pub proof fn law_align_up_is_least(n: int, m: int, other: int)
    requires
        0 <= n,
        0 < m,
    ensures
        is_multiple(rounded_up(n, m), m),
        n <= rounded_up(n, m) < n + m,
        is_multiple(other, m) && n <= other ==> rounded_up(n, m) <= other,
{
    lemma_round_up_by_rounding_down(n, m);
    law_align_down_is_greatest(n + m - 1, m, other);
    law_align_down_is_greatest(n, m, other);
    if is_multiple(other, m) && n <= other && !is_multiple(n, m) {
        let k = other / m;
        let q = n / m;
        lemma_fundamental_div_mod(other, m);
        lemma_fundamental_div_mod(n, m);
        assert(q < k) by (nonlinear_arith)
            requires
                other == m * k,
                n <= other,
                n == m * q + n % m,
                0 < n % m < m,
                0 < m,
        ;
        assert(m * q + m <= other) by (nonlinear_arith)
            requires
                other == m * k,
                q < k,
                0 < m,
        ;
    }
}

/// Rounding a multiple leaves it alone, so rounding twice is rounding once.
pub proof fn law_rounding_is_idempotent(n: int, m: int)
    requires
        0 <= n,
        0 < m,
    ensures
        is_multiple(n, m) ==> rounded_down(n, m) == n && rounded_up(n, m) == n,
        rounded_down(rounded_down(n, m), m) == rounded_down(n, m),
        rounded_up(rounded_up(n, m), m) == rounded_up(n, m),
{
    law_align_down_is_greatest(n, m, 0);
    law_align_up_is_least(n, m, 0);
}

} // verus!
