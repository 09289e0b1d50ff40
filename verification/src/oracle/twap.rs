//! Time-weighted averages of observed prices.

use vstd::prelude::*;

use crate::arithmetic;
use crate::oracle::error::OracleTrap;
use crate::oracle::ring::{PriceObservation, MAX_OBSERVATIONS};

verus! {

/// The scale of reported prices: a quoted price is a reported one divided by it.
pub const PRICE_SCALE: i128 = 10_000_000;

/// How long an observation stood: the ledgers until the next one, or until now for the newest, and
/// one at the least.
pub open spec fn weight(window: Seq<PriceObservation>, i: int, now: u32) -> int {
    let until = if i + 1 < window.len() {
        window[i + 1].ledger as int
    } else {
        now as int
    };
    if until > window[i].ledger {
        until - window[i].ledger
    } else {
        1
    }
}

/// The sum of the weights of the oldest `n` observations of a window.
pub open spec fn total_weight(window: Seq<PriceObservation>, now: u32, n: int) -> int
    decreases n,
{
    if n <= 0 {
        0
    } else {
        total_weight(window, now, n - 1) + weight(window, n - 1, now)
    }
}

/// The sum of the weighted prices of the oldest `n` observations of a window, as long as it fits.
pub open spec fn weighted_sum(window: Seq<PriceObservation>, now: u32, n: int) -> Result<
    int,
    OracleTrap,
>
    decreases n,
{
    if n <= 0 {
        Ok(0)
    } else {
        match weighted_sum(window, now, n - 1) {
            Err(t) => Err(t),
            Ok(sum) => {
                let weighted = window[n - 1].price * weight(window, n - 1, now);
                if !arithmetic::fits_i128(weighted) {
                    Err(OracleTrap::TwapMultiplicationOverflow)
                } else if !arithmetic::fits_i128(sum + weighted) {
                    Err(OracleTrap::TwapOverflow)
                } else {
                    Ok(sum + weighted)
                }
            },
        }
    }
}

/// A quotient rounded toward zero, for a positive divisor.
pub open spec fn quotient(a: int, b: int) -> int {
    if a >= 0 {
        a / b
    } else {
        -((-a) / b)
    }
}

proof fn lemma_weighted_sum_trap(window: Seq<PriceObservation>, now: u32, n: int, m: int)
    requires
        0 <= n <= m,
        weighted_sum(window, now, n) is Err,
    ensures
        weighted_sum(window, now, m) == weighted_sum(window, now, n),
    decreases m - n,
{
    if n < m {
        lemma_weighted_sum_trap(window, now, n, m - 1);
    }
}

/// Every observation weighs one at the least and as much as a ledger number at the most.
pub proof fn lemma_total_weight_bounds(window: Seq<PriceObservation>, now: u32, n: int)
    requires
        0 <= n <= window.len(),
    ensures
        n <= total_weight(window, now, n) <= n * u32::MAX,
    decreases n,
{
    if n > 0 {
        lemma_total_weight_bounds(window, now, n - 1);
    }
}

/// Adds up the weighted prices and the weights of a window.
pub fn weigh(window: &Vec<PriceObservation>, now: u32) -> (r: Result<(i128, i128), OracleTrap>)
    requires
        window@.len() <= MAX_OBSERVATIONS,
    ensures
        match weighted_sum(window@, now, window@.len() as int) {
            Ok(sum) => r matches Ok((s, w)) && s == sum && w == total_weight(
                window@,
                now,
                window@.len() as int,
            ),
            Err(t) => r == Err::<(i128, i128), OracleTrap>(t),
        },
{
    let mut sum: i128 = 0;
    let mut total: i128 = 0;
    let mut i: usize = 0;
    while i < window.len()
        invariant
            i <= window.len() <= MAX_OBSERVATIONS,
            weighted_sum(window@, now, i as int) == Ok::<int, OracleTrap>(sum as int),
            total == total_weight(window@, now, i as int),
        decreases window.len() - i,
    {
        let until: u32 = if i + 1 < window.len() {
            window[i + 1].ledger
        } else {
            now
        };
        let stood: i128 = until.saturating_sub(window[i].ledger) as i128;
        let w: i128 = if stood == 0 {
            1
        } else {
            stood
        };
        assert(w == weight(window@, i as int, now));
        match window[i].price.checked_mul(w) {
            Some(weighted) => match sum.checked_add(weighted) {
                Some(s) => {
                    sum = s;
                },
                None => {
                    proof {
                        lemma_weighted_sum_trap(window@, now, i + 1, window@.len() as int);
                    }
                    return Err(OracleTrap::TwapOverflow);
                },
            },
            None => {
                proof {
                    lemma_weighted_sum_trap(window@, now, i + 1, window@.len() as int);
                }
                return Err(OracleTrap::TwapMultiplicationOverflow);
            },
        }
        proof {
            lemma_total_weight_bounds(window@, now, i as int);
        }
        total = total + w;
        i = i + 1;
    }
    Ok((sum, total))
}

/// Divides, rounding toward zero.
pub fn divide(a: i128, b: i128) -> (r: i128)
    requires
        b > 0,
    ensures
        r == quotient(a as int, b as int),
{
    proof {
        lemma_quotient_fits(a as int, b as int);
    }
    match a.checked_div(b) {
        Some(q) => q,
        None => 0,
    }
}

proof fn lemma_quotient_fits(a: int, b: int)
    requires
        b > 0,
        arithmetic::fits_i128(a),
    ensures
        arithmetic::fits_i128(quotient(a, b)),
{
    let n = if a >= 0 {
        a
    } else {
        -a
    };
    assert(0 <= n / b <= n) by (nonlinear_arith)
        requires
            n >= 0,
            b > 0,
    ;
}

/// The prices of a window lie between two bounds.
pub open spec fn prices_within(window: Seq<PriceObservation>, low: int, high: int) -> bool {
    forall|i: int| 0 <= i < window.len() ==> low <= (#[trigger] window[i]).price <= high
}

proof fn lemma_weighted_sum_bounds(
    window: Seq<PriceObservation>,
    now: u32,
    n: int,
    low: int,
    high: int,
)
    requires
        0 <= n <= window.len(),
        prices_within(window, low, high),
        weighted_sum(window, now, n) is Ok,
    ensures
        low * total_weight(window, now, n) <= weighted_sum(window, now, n)->Ok_0,
        weighted_sum(window, now, n)->Ok_0 <= high * total_weight(window, now, n),
    decreases n,
{
    if n > 0 {
        lemma_weighted_sum_bounds(window, now, n - 1, low, high);
        let w = weight(window, n - 1, now);
        let p = window[n - 1].price as int;
        let before = total_weight(window, now, n - 1);
        assert(low * w <= p * w <= high * w) by (nonlinear_arith)
            requires
                low <= p <= high,
                w >= 1,
        ;
        assert(low * (before + w) == low * before + low * w) by (nonlinear_arith);
        assert(high * (before + w) == high * before + high * w) by (nonlinear_arith);
    } else {
        assert(low * 0 == 0 && high * 0 == 0);
    }
}

/// The time-weighted average of a window lies between the least and the greatest of its prices.
pub proof fn law_average_lies_between_prices(
    window: Seq<PriceObservation>,
    now: u32,
    low: int,
    high: int,
)
    requires
        window.len() > 0,
        0 <= low,
        prices_within(window, low, high),
        weighted_sum(window, now, window.len() as int) is Ok,
    ensures
        low <= quotient(
            weighted_sum(window, now, window.len() as int)->Ok_0,
            total_weight(window, now, window.len() as int),
        ) <= high,
{
    let n = window.len() as int;
    let sum = weighted_sum(window, now, n)->Ok_0;
    let total = total_weight(window, now, n);
    lemma_weighted_sum_bounds(window, now, n, low, high);
    lemma_total_weight_bounds(window, now, n);
    assert(low * total >= 0) by (nonlinear_arith)
        requires
            low >= 0,
            total >= 0,
    ;
    assert(low <= sum / total <= high) by (nonlinear_arith)
        requires
            low * total <= sum <= high * total,
            total > 0,
    ;
}

/// A price that never changed is its own average.
pub proof fn law_average_of_equal_prices(window: Seq<PriceObservation>, now: u32, price: int)
    requires
        window.len() > 0,
        0 <= price,
        prices_within(window, price, price),
        weighted_sum(window, now, window.len() as int) is Ok,
    ensures
        quotient(
            weighted_sum(window, now, window.len() as int)->Ok_0,
            total_weight(window, now, window.len() as int),
        ) == price,
{
    law_average_lies_between_prices(window, now, price, price);
}

/// A price reported in the current ledger weighs as little as can be: one.
pub proof fn law_fresh_price_weighs_one(window: Seq<PriceObservation>, now: u32)
    requires
        window.len() > 0,
        window.last().ledger == now,
    ensures
        weight(window, window.len() - 1, now) == 1,
        forall|i: int| 0 <= i < window.len() ==> #[trigger] weight(window, i, now) >= 1,
{
}

/// A price reported in the current ledger moves the sums by itself alone: what the older prices add
/// up to is divided by one ledger more, whatever the new price is.
pub proof fn law_fresh_price_is_diluted(
    older: Seq<PriceObservation>,
    fresh: PriceObservation,
    now: u32,
)
    requires
        fresh.ledger == now,
        weighted_sum(older.push(fresh), now, older.len() as int + 1) is Ok,
    ensures
        weighted_sum(older, now, older.len() as int) is Ok,
        weighted_sum(older.push(fresh), now, older.len() as int + 1)->Ok_0 == weighted_sum(
            older,
            now,
            older.len() as int,
        )->Ok_0 + fresh.price,
        total_weight(older.push(fresh), now, older.len() as int + 1) == total_weight(
            older,
            now,
            older.len() as int,
        ) + 1,
{
    lemma_older_sums(older, fresh, now, older.len() as int);
}

proof fn lemma_older_sums(
    older: Seq<PriceObservation>,
    fresh: PriceObservation,
    now: u32,
    n: int,
)
    requires
        fresh.ledger == now,
        0 <= n <= older.len(),
    ensures
        weighted_sum(older.push(fresh), now, n) == weighted_sum(older, now, n),
        total_weight(older.push(fresh), now, n) == total_weight(older, now, n),
    decreases n,
{
    if n > 0 {
        lemma_older_sums(older, fresh, now, n - 1);
        assert(older.push(fresh)[n - 1] == older[n - 1]);
        assert(weight(older.push(fresh), n - 1, now) == weight(older, n - 1, now));
    }
}

/// An observation weighs the ledgers from its own to that of the next one, or to now for the newest,
/// wherever it stands in the window. One that did not stand for a ledger weighs one.
pub proof fn law_what_an_observation_weighs(window: Seq<PriceObservation>, i: int, now: u32)
    requires
        0 <= i < window.len(),
    ensures
        i + 1 < window.len() && window[i + 1].ledger > window[i].ledger ==> weight(window, i, now)
            == window[i + 1].ledger - window[i].ledger,
        i + 1 < window.len() && window[i + 1].ledger <= window[i].ledger ==> weight(
            window,
            i,
            now,
        ) == 1,
        i + 1 == window.len() && now > window[i].ledger ==> weight(window, i, now) == now
            - window[i].ledger,
        i + 1 == window.len() && now <= window[i].ledger ==> weight(window, i, now) == 1,
{
}

/// Where every observation is later than the one before and all are before now, the weights of a
/// window add up to the ledgers from its oldest observation to now: no ledger is lost and none counts
/// twice.
pub proof fn law_weights_cover_the_window(window: Seq<PriceObservation>, now: u32)
    requires
        window.len() > 0,
        forall|i: int, j: int|
            0 <= i < j < window.len() ==> (#[trigger] window[i]).ledger < (
            #[trigger] window[j]).ledger,
        window[window.len() - 1].ledger < now,
    ensures
        total_weight(window, now, window.len() as int) == now - window[0].ledger,
{
    lemma_weights_cover(window, now, window.len() as int);
}

proof fn lemma_weights_cover(window: Seq<PriceObservation>, now: u32, n: int)
    requires
        0 < n <= window.len(),
        forall|i: int, j: int|
            0 <= i < j < window.len() ==> (#[trigger] window[i]).ledger < (
            #[trigger] window[j]).ledger,
        window[window.len() - 1].ledger < now,
    ensures
        total_weight(window, now, n) == (if n < window.len() {
            window[n].ledger as int
        } else {
            now as int
        }) - window[0].ledger,
    decreases n,
{
    if n > 1 {
        lemma_weights_cover(window, now, n - 1);
        assert(window[n - 2].ledger < window[n - 1].ledger);
    } else {
        assert(total_weight(window, now, 0) == 0);
    }
    if n < window.len() {
        assert(window[n - 1].ledger < window[n].ledger);
    }
}

/// Weights and weighted prices are added up observation by observation. Nothing is added to the sum of
/// the prices once a product or a sum does not fit.
pub proof fn law_sums_are_added_up(window: Seq<PriceObservation>, now: u32, n: int)
    requires
        0 <= n < window.len(),
    ensures
        ({
            let w = weight(window, n, now);
            let product = window[n].price * w;
            let before = weighted_sum(window, now, n);
            let after = weighted_sum(window, now, n + 1);
            &&& total_weight(window, now, 0) == 0
            &&& total_weight(window, now, n + 1) == total_weight(window, now, n) + w
            &&& weighted_sum(window, now, 0) == Ok::<int, OracleTrap>(0)
            &&& before is Err ==> after == before
            &&& before is Ok && !(i128::MIN <= product <= i128::MAX) ==> after == Err::<
                int,
                OracleTrap,
            >(OracleTrap::TwapMultiplicationOverflow)
            &&& before is Ok && i128::MIN <= product <= i128::MAX ==> if i128::MIN <= before->Ok_0
                + product <= i128::MAX {
                after == Ok::<int, OracleTrap>(before->Ok_0 + product)
            } else {
                after == Err::<int, OracleTrap>(OracleTrap::TwapOverflow)
            }
        }),
{
}

/// A quotient is rounded toward zero.
pub proof fn law_what_a_quotient_is(a: int, b: int)
    requires
        b > 0,
    ensures
        a >= 0 ==> quotient(a, b) * b <= a < quotient(a, b) * b + b,
        a <= 0 ==> quotient(a, b) * b - b < a <= quotient(a, b) * b,
{
    let n = if a >= 0 {
        a
    } else {
        -a
    };
    let q = n / b;
    assert(q * b <= n < q * b + b) by (nonlinear_arith)
        requires
            q == n / b,
            b > 0,
    ;
    assert((-q) * b == -(q * b)) by (nonlinear_arith);
}

} // verus!
