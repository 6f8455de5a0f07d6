//! Streak multipliers and net payout arithmetic.

use vstd::prelude::*;

verus! {

/// Gross multiplier for a first win (1.9x), in basis points.
pub const MULTIPLIER_STREAK_1: u32 = 19_000;

/// Gross multiplier for a second consecutive win (3.5x), in basis points.
pub const MULTIPLIER_STREAK_2: u32 = 35_000;

/// Gross multiplier for a third consecutive win (6.0x), in basis points.
pub const MULTIPLIER_STREAK_3: u32 = 60_000;

/// Gross multiplier for four or more consecutive wins (10.0x), in basis points.
pub const MULTIPLIER_STREAK_4_PLUS: u32 = 100_000;

/// One whole unit (1x) expressed in basis points.
pub const BPS_DENOMINATOR: i128 = 10_000;

/// The multiplier table: streak 1, 2, 3 have their own tier, every other
/// streak (0 included) falls to the 10x tier.
pub open spec fn multiplier_bps(streak: u32) -> int {
    if streak == 1 {
        19_000
    } else if streak == 2 {
        35_000
    } else if streak == 3 {
        60_000
    } else {
        100_000
    }
}

/// Division by a positive divisor that rounds toward zero, as Rust's
/// integer division does.
pub open spec fn trunc_div(a: int, d: int) -> int
    recommends
        d > 0,
{
    if a >= 0 {
        a / d
    } else {
        -((-a) / d)
    }
}

/// `x` is representable as an `i128`.
pub open spec fn fits_i128(x: int) -> bool {
    i128::MIN <= x <= i128::MAX
}

/// Gross payout before fees: `wager * multiplier / 10_000`, rounded toward zero.
pub open spec fn gross_payout(wager: int, streak: u32) -> int {
    trunc_div(wager * multiplier_bps(streak), 10_000)
}

/// Protocol fee taken from a gross payout: `gross * fee_bps / 10_000`,
/// rounded toward zero.
pub open spec fn payout_fee(gross: int, fee_bps: u32) -> int {
    trunc_div(gross * fee_bps, 10_000)
}

/// The net payout `gross - fee`, or `None` when one of the intermediate
/// values (`wager * multiplier`, `gross * fee_bps`, `gross - fee`) does not
/// fit in an `i128`.
pub open spec fn payout_spec(wager: int, streak: u32, fee_bps: u32) -> Option<int> {
    let product = wager * multiplier_bps(streak);
    if !fits_i128(product) {
        None
    } else {
        let gross = trunc_div(product, 10_000);
        let fee_product = gross * fee_bps;
        if !fits_i128(fee_product) {
            None
        } else {
            let net = gross - payout_fee(gross, fee_bps);
            if !fits_i128(net) {
                None
            } else {
                Some(net)
            }
        }
    }
}

/// Returns the gross payout multiplier (in basis points, 10_000 = 1x)
/// for the given win `streak` level: 19_000 for streak 1, 35_000 for
/// streak 2, 60_000 for streak 3 and 100_000 for every other streak.
pub fn get_multiplier(streak: u32) -> (m: u32)
    ensures
        m == multiplier_bps(streak),
{
    match streak {
        1 => MULTIPLIER_STREAK_1,
        2 => MULTIPLIER_STREAK_2,
        3 => MULTIPLIER_STREAK_3,
        _ => MULTIPLIER_STREAK_4_PLUS,
    }
}

/// Calculates the net payout for a winning streak:
/// `gross = wager * multiplier / 10_000`, `fee = gross * fee_bps / 10_000`,
/// `net = gross - fee`, each division rounding toward zero.
///
/// Returns `None` exactly when an intermediate value overflows `i128`.
pub fn calculate_payout(wager: i128, streak: u32, fee_bps: u32) -> (r: Option<i128>)
    ensures
        match r {
            Some(net) => payout_spec(wager as int, streak, fee_bps) == Some(net as int),
            None => payout_spec(wager as int, streak, fee_bps) is None,
        },
{
    let multiplier = get_multiplier(streak) as i128;
    let product = match wager.checked_mul(multiplier) {
        Some(p) => p,
        None => return None,
    };
    let gross = match product.checked_div(BPS_DENOMINATOR) {
        Some(g) => g,
        None => return None,
    };
    let fee_product = match gross.checked_mul(fee_bps as i128) {
        Some(p) => p,
        None => return None,
    };
    let fee = match fee_product.checked_div(BPS_DENOMINATOR) {
        Some(f) => f,
        None => return None,
    };
    gross.checked_sub(fee)
}

} // verus!

verus! {

/// Largest wager whose payout cannot overflow at any tier:
/// `wager * 100_000` stays within `i128`.
pub open spec fn max_safe_wager() -> int {
    i128::MAX / 100_000
}

proof fn lemma_mul_bounds(a: int, b: int, amax: int, bmax: int)
    requires
        0 <= a <= amax,
        0 <= b <= bmax,
    ensures
        0 <= a * b <= amax * bmax,
{
    assert(0 <= a * b <= amax * bmax) by (nonlinear_arith)
        requires
            0 <= a <= amax,
            0 <= b <= bmax,
    ;
}

proof fn lemma_mul_distributes(a: int, b: int, c: int)
    ensures
        (a + b) * c == a * c + b * c,
{
    assert((a + b) * c == a * c + b * c) by (nonlinear_arith);
}

/// Streak multipliers strictly increase from tier 1 to tier 4.
pub proof fn lemma_multiplier_strictly_increasing(streak: u32)
    requires
        1 <= streak <= 3,
    ensures
        multiplier_bps(streak) < multiplier_bps((streak + 1) as u32),
{
}

/// Every streak of 4 or more gets the same multiplier, the 10x cap, and
/// streak 3 is strictly below it.
pub proof fn lemma_multiplier_cap(streak: u32)
    requires
        streak >= 4,
    ensures
        multiplier_bps(streak) == 100_000,
        multiplier_bps(streak) == multiplier_bps(4),
        multiplier_bps(3) < multiplier_bps(streak),
{
}

/// No multiplier exceeds the 10x cap and every multiplier is above 1x.
pub proof fn lemma_multiplier_bounds(streak: u32)
    ensures
        10_000 < multiplier_bps(streak) <= 100_000,
{
}

/// For a wager of at most `i128::MAX / 100_000` in absolute value and a fee
/// of at most 100%, the payout never overflows.
pub proof fn lemma_payout_defined(wager: i128, streak: u32, fee_bps: u32)
    requires
        -max_safe_wager() <= wager <= max_safe_wager(),
        fee_bps <= 10_000,
    ensures
        payout_spec(wager as int, streak, fee_bps) is Some,
{
    let w = wager as int;
    let m = multiplier_bps(streak);
    let product = w * m;
    assert(-i128::MAX <= product <= i128::MAX) by {
        if w >= 0 {
            lemma_mul_bounds(w, m, max_safe_wager(), 100_000);
        } else {
            lemma_mul_bounds(-w, m, max_safe_wager(), 100_000);
            assert((-w) * m == -(w * m)) by (nonlinear_arith);
        }
    }
    let gross = trunc_div(product, 10_000);
    let bound = i128::MAX / 10_000;
    assert(-bound <= gross <= bound);
    if gross >= 0 {
        lemma_mul_bounds(gross, fee_bps as int, bound, 10_000);
    } else {
        lemma_mul_bounds(-gross, fee_bps as int, bound, 10_000);
        assert((-gross) * fee_bps == -(gross * fee_bps)) by (nonlinear_arith);
    }
}

/// A positive wager (up to the overflow-safe bound) with a fee below 100%
/// always has a positive net payout.
pub proof fn lemma_payout_positive(wager: i128, streak: u32, fee_bps: u32)
    requires
        1 <= wager <= max_safe_wager(),
        fee_bps < 10_000,
    ensures
        payout_spec(wager as int, streak, fee_bps) matches Some(net) && net > 0,
{
    lemma_payout_defined(wager, streak, fee_bps);
    let gross = gross_payout(wager as int, streak);
    assert(gross >= 1);
    lemma_mul_bounds(gross, fee_bps as int, i128::MAX / 10_000, 9_999);
    let fee_product = gross * fee_bps;
    assert(fee_product <= gross * 9_999) by (nonlinear_arith)
        requires
            fee_product == gross * fee_bps,
            fee_bps <= 9_999,
            gross >= 0,
    ;
}

/// The fee is deducted: the net payout is strictly below the gross payout,
/// for a positive wager and a fee in 200..=500, whenever the fee is not
/// rounded down to zero (`gross * fee_bps >= 10_000`).
pub proof fn lemma_net_below_gross(wager: i128, streak: u32, fee_bps: u32)
    requires
        1 <= wager <= max_safe_wager(),
        200 <= fee_bps <= 500,
        gross_payout(wager as int, streak) * fee_bps >= 10_000,
    ensures
        payout_spec(wager as int, streak, fee_bps) matches Some(net) && net < gross_payout(
            wager as int,
            streak,
        ),
{
    lemma_payout_defined(wager, streak, fee_bps);
    let gross = gross_payout(wager as int, streak);
    assert(gross >= 1);
    lemma_mul_bounds(gross, fee_bps as int, i128::MAX / 10_000, 500);
}

/// The net of a gross amount, `gross - gross * fee_bps / 10_000`, grows
/// strictly when the gross grows by 2 or more and the fee is at most 500 bps.
proof fn lemma_net_grows(g1: int, g2: int, fee_bps: u32)
    requires
        0 <= g1,
        g1 + 2 <= g2,
        fee_bps <= 500,
    ensures
        g1 - (g1 * fee_bps) / 10_000 < g2 - (g2 * fee_bps) / 10_000,
{
    let f = fee_bps as int;
    let p1 = g1 * f;
    let p2 = g2 * f;
    let delta = g2 - g1;
    lemma_mul_distributes(g1, delta, f);
    assert(p2 == p1 + delta * f);
    lemma_mul_bounds(delta, f, delta, 500);
    assert(delta * f <= delta * 500);
    assert(0 <= p1) by {
        lemma_mul_bounds(g1, f, g1, 500);
    }
    let q1 = p1 / 10_000;
    let q2 = p2 / 10_000;
    assert(q1 * 10_000 <= p1 < q1 * 10_000 + 10_000);
    assert(q2 * 10_000 <= p2 < q2 * 10_000 + 10_000);
    assert((q2 - q1) * 10_000 < delta * 500 + 10_000);
    assert(q2 - q1 < delta);
}

/// A higher streak pays strictly more: for a positive wager and a fee of
/// at most 500 bps, the net payout at streak `s + 1` exceeds the one at
/// streak `s`, for `s` in 1..=3.
pub proof fn lemma_payout_increases_with_streak(wager: i128, streak: u32, fee_bps: u32)
    requires
        1 <= wager <= max_safe_wager(),
        1 <= streak <= 3,
        fee_bps <= 500,
    ensures
        payout_spec(wager as int, streak, fee_bps) matches Some(lower) && payout_spec(
            wager as int,
            (streak + 1) as u32,
            fee_bps,
        ) matches Some(higher) && lower < higher,
{
    let next = (streak + 1) as u32;
    lemma_payout_defined(wager, streak, fee_bps);
    lemma_payout_defined(wager, next, fee_bps);
    let w = wager as int;
    let g1 = gross_payout(w, streak);
    let g2 = gross_payout(w, next);
    assert(g1 >= 0);
    assert(g1 + 2 <= g2);
    lemma_net_grows(g1, g2, fee_bps);
}

/// Payout is linear in the wager up to rounding: doubling the wager gives
/// twice the payout, give or take one stroop, for a fee of at most 100%.
pub proof fn lemma_payout_linear_in_wager(wager: i128, streak: u32, fee_bps: u32)
    requires
        0 <= wager <= max_safe_wager() / 2,
        fee_bps <= 10_000,
    ensures
        payout_spec(wager as int, streak, fee_bps) matches Some(single) && payout_spec(
            2 * wager,
            streak,
            fee_bps,
        ) matches Some(double) && -1 <= double - 2 * single <= 1,
{
    let w = wager as int;
    lemma_payout_defined(wager, streak, fee_bps);
    lemma_payout_defined((2 * wager) as i128, streak, fee_bps);
    let m = multiplier_bps(streak);
    let g1 = gross_payout(w, streak);
    let g2 = gross_payout(2 * w, streak);
    assert((2 * w) * m == 2 * (w * m)) by (nonlinear_arith);
    assert(w * m >= 0) by {
        lemma_mul_bounds(w, m, w, 100_000);
    }
    assert(g2 == 2 * g1 || g2 == 2 * g1 + 1);
    let f = fee_bps as int;
    let p1 = g1 * f;
    let p2 = g2 * f;
    assert(0 <= p1) by {
        lemma_mul_bounds(g1, f, g1, 10_000);
    }
    lemma_mul_distributes(g1 * 2, g2 - g1 * 2, f);
    assert((g1 * 2) * f == 2 * (g1 * f)) by (nonlinear_arith);
    let d = g2 - 2 * g1;
    assert(p2 == 2 * p1 + d * f);
    assert(d * f == 0 || d * f == f) by {
        if d == 0 {
            assert(d * f == 0);
        } else {
            assert(d == 1);
            assert(d * f == f) by (nonlinear_arith)
                requires
                    d == 1,
            ;
        }
    }
    let q1 = p1 / 10_000;
    let q2 = p2 / 10_000;
    assert(q1 * 10_000 <= p1 < q1 * 10_000 + 10_000);
    assert(q2 * 10_000 <= p2 < q2 * 10_000 + 10_000);
    assert(0 <= q2 - 2 * q1 <= 2);
    assert(d == 0 ==> q2 - 2 * q1 <= 1);
}

/// At the 10x tier, a wager above `i128::MAX / 100_000` overflows, so no
/// payout is computed for it.
pub proof fn lemma_payout_overflows_above_safe_wager(wager: i128, streak: u32, fee_bps: u32)
    requires
        wager > max_safe_wager(),
        streak >= 4,
    ensures
        payout_spec(wager as int, streak, fee_bps) is None,
{
    assert(wager * 100_000 > i128::MAX);
}

} // verus!
