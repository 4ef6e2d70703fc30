//! Overflow-checked 64-bit arithmetic shared by the three operations.

use integer_sqrt::IntegerSquareRoot;
use vstd::prelude::*;

verus! {

/// `floor(a * b / c)` where the product fits 64 bits and `c` is not zero;
/// `None` otherwise.
pub open spec fn spec_mul_div(a: u64, b: u64, c: u64) -> Option<u64> {
    if a * b > u64::MAX || c == 0 {
        None
    } else {
        Some(((a * b) / (c as int)) as u64)
    }
}

/// Multiplies, then divides rounding down, in 64 bits throughout.
pub fn mul_div(a: u64, b: u64, c: u64) -> (r: Option<u64>)
    ensures
        r == spec_mul_div(a, b, c),
{
    match a.checked_mul(b) {
        None => None,
        Some(product) => product.checked_div(c),
    }
}

/// Division rounds down: `x / d` is the greatest `q` with `q * d <= x`.
pub proof fn lemma_floor_bounds(x: nat, d: nat)
    requires
        d > 0,
    ensures
        (x / d) * d <= x < (x / d + 1) * d,
{
    assert((x / d) * d <= x < (x / d + 1) * d) by (nonlinear_arith)
        requires
            d > 0,
    ;
}

/// `r` is the integer square root of `n`: the greatest number whose square
/// does not exceed `n`.
pub open spec fn is_floor_sqrt(n: nat, r: nat) -> bool {
    r * r <= n && n < (r + 1) * (r + 1)
}

/// The integer square root of `n`.
pub open spec fn floor_sqrt(n: nat) -> nat {
    choose|r: nat| is_floor_sqrt(n, r)
}

/// A number has at most one integer square root.
pub proof fn lemma_floor_sqrt_unique(n: nat, r: nat, s: nat)
    requires
        is_floor_sqrt(n, r),
        is_floor_sqrt(n, s),
    ensures
        r == s,
{
    if r < s {
        assert((r + 1) * (r + 1) <= s * s) by (nonlinear_arith)
            requires
                r + 1 <= s,
        ;
    } else if s < r {
        assert((s + 1) * (s + 1) <= r * r) by (nonlinear_arith)
            requires
                s + 1 <= r,
        ;
    }
}

/// Every number has an integer square root, and it is no greater than the
/// number itself.
pub proof fn lemma_floor_sqrt_exists(n: nat)
    ensures
        is_floor_sqrt(n, floor_sqrt(n)),
        floor_sqrt(n) <= n,
    decreases n,
{
    if n == 0 {
        assert(0nat * 0nat == 0 && (0nat + 1) * (0nat + 1) == 1) by (nonlinear_arith);
        assert(is_floor_sqrt(0, 0));
    } else {
        let below = (n - 1) as nat;
        lemma_floor_sqrt_exists(below);
        let r = floor_sqrt(below);
        if n < (r + 1) * (r + 1) {
            assert(is_floor_sqrt(n, r));
        } else {
            let next = r + 1;
            assert(next * next < (next + 1) * (next + 1)) by (nonlinear_arith);
            assert(is_floor_sqrt(n, next));
        }
    }
    let root = floor_sqrt(n);
    assert(root <= n) by (nonlinear_arith)
        requires
            root * root <= n,
    ;
}

/// Calls `integer_sqrt::IntegerSquareRoot::integer_sqrt` on a `u64`.
///
/// Not proved: that the result is the integer square root of `n`, as the
/// crate documents it. On an unsigned argument the call cannot panic.
#[verifier::external_body]
fn integer_sqrt_u64(n: u64) -> (r: u64)
    ensures
        is_floor_sqrt(n as nat, r as nat),
{
    n.integer_sqrt()
}

/// The integer square root of `n`.
pub fn sqrt_floor(n: u64) -> (r: u64)
    ensures
        r == floor_sqrt(n as nat),
        is_floor_sqrt(n as nat, r as nat),
{
    let r: u64 = integer_sqrt_u64(n);
    proof {
        lemma_floor_sqrt_unique(n as nat, r as nat, floor_sqrt(n as nat));
    }
    r
}

} // verus!
