//! Percentage arithmetic on prices.
//!
//! Every adjustment in the engine has the same shape: an amount changes by a
//! signed percentage of itself, and the division by one hundred drops the
//! fraction, whatever the sign.

use vstd::prelude::*;

verus! {

/// Largest magnitude of an amount that [`apply_percent`] accepts.
pub const AMOUNT_LIMIT: i128 = 0x8000_0000_0000_0000_0000_0000;

/// Quotient of `a` by a positive `b`, rounded toward zero.
pub open spec fn trunc_div(a: int, b: int) -> int {
    if a >= 0 {
        a / b
    } else {
        -((-a) / b)
    }
}

/// Magnitude of an integer.
pub open spec fn magnitude(a: int) -> int {
    if a >= 0 {
        a
    } else {
        -a
    }
}

/// `amount` changed by `percent` hundredths of itself, the change rounded toward zero.
pub open spec fn percent_applied(amount: int, percent: int) -> int {
    amount + trunc_div(amount * percent, 100)
}

/// `amount` changed by `percent` hundredths of itself, but never below zero.
pub open spec fn percent_applied_floored(amount: int, percent: int) -> int {
    if percent_applied(amount, percent) < 0 {
        0
    } else {
        percent_applied(amount, percent)
    }
}

/// The change that a percentage makes is at most `k` times the amount when the
/// percentage is at most `100 * k` in magnitude.
pub proof fn lemma_percent_applied_bound(amount: int, percent: int, k: int)
    requires
        0 <= k,
        magnitude(percent) <= 100 * k,
    ensures
        magnitude(percent_applied(amount, percent)) <= magnitude(amount) * (k + 1),
        magnitude(amount * percent) <= magnitude(amount) * 100 * k,
{
    let a = magnitude(amount);
    let p = magnitude(percent);
    assert(magnitude(amount * percent) == a * p) by (nonlinear_arith)
        requires
            a == magnitude(amount),
            p == magnitude(percent),
    ;
    assert(a * p <= a * (100 * k)) by (nonlinear_arith)
        requires
            0 <= a,
            0 <= p <= 100 * k,
    ;
    assert(a * (100 * k) == a * 100 * k) by (nonlinear_arith);
    assert(a * (100 * k) == (a * k) * 100) by (nonlinear_arith);
    assert(magnitude(trunc_div(amount * percent, 100)) == (a * p) / 100);
    assert((a * p) / 100 <= a * k) by (nonlinear_arith)
        requires
            0 <= a * p <= (a * k) * 100,
    ;
    assert(a * (k + 1) == a * k + a) by (nonlinear_arith);
}

/// Changes `amount` by `percent` hundredths of itself.
pub fn apply_percent(amount: i128, percent: i32) -> (adjusted: i128)
    requires
        -AMOUNT_LIMIT <= amount <= AMOUNT_LIMIT,
    ensures
        adjusted == percent_applied(amount as int, percent as int),
{
    proof {
        let k: int = 21474837;
        lemma_percent_applied_bound(amount as int, percent as int, k);
        assert(magnitude(amount as int) * 100 * k <= AMOUNT_LIMIT * 100 * k) by (nonlinear_arith)
            requires
                0 <= magnitude(amount as int) <= AMOUNT_LIMIT,
                k == 21474837,
        ;
        assert(magnitude(amount as int) * (k + 1) <= AMOUNT_LIMIT * (k + 1)) by (nonlinear_arith)
            requires
                0 <= magnitude(amount as int) <= AMOUNT_LIMIT,
                k == 21474837,
        ;
    }
    let change: i128 = amount * (percent as i128) / 100;
    amount + change
}

} // verus!
