//! How far a new price is from the current one.

use vstd::prelude::*;

verus! {

/// The distance between two prices.
pub open spec fn distance(a: int, b: int) -> int {
    if a >= b {
        a - b
    } else {
        b - a
    }
}

/// The distance of a new price from the current one, in basis points of the current one and rounded
/// down. Where there is no positive current price, or the numbers grow too large, it is the greatest
/// there is.
pub open spec fn deviation_bps(new_price: int, current_price: int) -> int {
    if current_price <= 0 || distance(new_price, current_price) * 10_000 > i128::MAX {
        u32::MAX as int
    } else {
        let bps = distance(new_price, current_price) * 10_000 / current_price;
        if bps > u32::MAX {
            u32::MAX as int
        } else {
            bps
        }
    }
}

/// Computes the deviation of `new_price` from `current_price` in basis points. It never fails: what
/// cannot be compared deviates as much as can be.
pub fn calculate_deviation_bps(new_price: i128, current_price: i128) -> (r: u32)
    ensures
        r == deviation_bps(new_price as int, current_price as int),
{
    if current_price <= 0 {
        return u32::MAX;
    }
    let difference: i128 = match new_price.checked_sub(current_price) {
        Some(d) => d,
        None => {
            return u32::MAX;
        },
    };
    let diff: i128 = if difference >= 0 {
        difference
    } else if difference == i128::MIN {
        return u32::MAX;
    } else {
        -difference
    };
    match diff.checked_mul(10_000) {
        Some(scaled) => match scaled.checked_div(current_price) {
            Some(bps) => {
                assert(bps == scaled as int / current_price as int);
                assert(bps >= 0) by (nonlinear_arith)
                    requires
                        bps == scaled as int / current_price as int,
                        scaled >= 0,
                        current_price > 0,
                ;
                if bps > u32::MAX as i128 {
                    u32::MAX
                } else {
                    bps as u32
                }
            },
            None => u32::MAX,
        },
        None => u32::MAX,
    }
}

/// A price does not deviate from itself.
pub proof fn law_equal_prices_do_not_deviate(price: int)
    requires
        price > 0,
    ensures
        deviation_bps(price, price) == 0,
{
    assert(0int / price == 0) by (nonlinear_arith)
        requires
            price > 0,
    ;
}

/// Without a positive current price every new one deviates as much as can be.
pub proof fn law_no_baseline_saturates(new_price: int, current_price: int)
    requires
        current_price <= 0,
    ensures
        deviation_bps(new_price, current_price) == u32::MAX,
{
}

/// Two prices at the same distance from the current one deviate alike, above and below.
pub proof fn law_deviation_is_symmetric(current_price: int, by: int)
    ensures
        deviation_bps(current_price + by, current_price) == deviation_bps(
            current_price - by,
            current_price,
        ),
{
}

/// A price that is further from the current one does not deviate less.
pub proof fn law_deviation_grows_with_distance(near: int, far: int, current_price: int)
    requires
        distance(near, current_price) <= distance(far, current_price),
    ensures
        deviation_bps(near, current_price) <= deviation_bps(far, current_price),
{
    if current_price > 0 {
        let a = distance(near, current_price) * 10_000;
        let b = distance(far, current_price) * 10_000;
        assert(a / current_price <= b / current_price) by (nonlinear_arith)
            requires
                a <= b,
                current_price > 0,
        ;
    }
}

/// The deviation is never understated by a whole basis point nor overstated, short of its limits.
pub proof fn law_deviation_is_exact(new_price: int, current_price: int)
    requires
        current_price > 0,
        deviation_bps(new_price, current_price) < u32::MAX,
    ensures
        ({
            let bps = deviation_bps(new_price, current_price);
            bps * current_price <= distance(new_price, current_price) * 10_000 < (bps + 1)
                * current_price
        }),
{
    let scaled = distance(new_price, current_price) * 10_000;
    let bps = deviation_bps(new_price, current_price);
    assert(bps == scaled / current_price);
    assert(bps * current_price <= scaled < (bps + 1) * current_price) by (nonlinear_arith)
        requires
            bps == scaled / current_price,
            current_price > 0,
    ;
}

/// The deviation is at its limit if and only if there is no positive current price, or the distance
/// times ten thousand does not fit, or it is that many basis points or more. Short of that it is the
/// number of whole basis points.
pub proof fn law_when_the_deviation_is_at_its_limit(new_price: int, current_price: int)
    ensures
        ({
            let d = if new_price >= current_price {
                new_price - current_price
            } else {
                current_price - new_price
            };
            let bps = deviation_bps(new_price, current_price);
            let beyond = current_price <= 0 || d * 10_000 > i128::MAX || d * 10_000 >= current_price
                * u32::MAX;
            &&& 0 <= bps <= u32::MAX
            &&& beyond <==> bps == u32::MAX
            &&& !beyond ==> bps * current_price <= d * 10_000 < bps * current_price + current_price
        }),
{
    if current_price > 0 {
        let scaled = distance(new_price, current_price) * 10_000;
        let q = scaled / current_price;
        assert(q * current_price <= scaled < q * current_price + current_price && q >= 0)
            by (nonlinear_arith)
            requires
                q == scaled / current_price,
                scaled >= 0,
                current_price > 0,
        ;
        let top = u32::MAX as int;
        assert(scaled >= current_price * top <==> q >= top) by (nonlinear_arith)
            requires
                q * current_price <= scaled < q * current_price + current_price,
                current_price > 0,
        ;
    }
}

} // verus!
