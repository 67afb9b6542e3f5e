use vstd::prelude::*;
use crate::constants::{BPS_DENOMINATOR, GRACE_PERIOD_SECONDS};

verus! {

/// Integer division rounding toward zero, as Rust's `/` does on signed integers.
pub open spec fn trunc_div(a: int, b: int) -> int {
    if a >= 0 {
        a / b
    } else {
        -((-a) / b)
    }
}

/// The remainder that goes with `trunc_div`, as Rust's `%` computes it.
pub open spec fn trunc_rem(a: int, b: int) -> int {
    if a >= 0 {
        a % b
    } else {
        -((-a) % b)
    }
}

/// Index of the period of length `interval` that holds timestamp `t`.
pub open spec fn period_of(t: int, interval: int) -> int {
    trunc_div(t, interval)
}

/// Whether a stake made at `now` falls in the grace margin before the next period boundary.
pub open spec fn in_grace(now: int, interval: int) -> bool {
    interval - trunc_rem(now, interval) <= GRACE_PERIOD_SECONDS
}

/// Start of a new life begun at `now`: the start of the current period, or of the next one
/// when the stake lands in the grace margin.
pub open spec fn life_start_of(now: int, interval: int) -> int {
    if in_grace(now, interval) {
        (period_of(now, interval) + 1) * interval
    } else {
        period_of(now, interval) * interval
    }
}

/// A life has lapsed at `now` when its last check-in lies more than one period back and the
/// life did not begin in the current period.
pub open spec fn lapsed(last_checkin: int, start_day: int, now: int, interval: int) -> bool {
    &&& period_of(last_checkin, interval) < period_of(now, interval) - 1
    &&& period_of(start_day, interval) < period_of(now, interval)
}

/// Growth of `stake` at a rate of `bps` basis points, rounded down.
pub open spec fn growth_of(stake: int, bps: int) -> int {
    stake * bps / BPS_DENOMINATOR as int
}

/// `stake` grown by `bps` basis points, when every step fits in a `u64`.
pub open spec fn grown(stake: u64, bps: u64) -> Option<u64> {
    if stake * bps > u64::MAX || stake + growth_of(stake as int, bps as int) > u64::MAX {
        None
    } else {
        Some((stake + growth_of(stake as int, bps as int)) as u64)
    }
}

pub open spec fn fits_i64(x: int) -> bool {
    i64::MIN <= x <= i64::MAX
}

pub fn period_index(t: i64, interval: i64) -> (r: i64)
    requires
        interval > 0,
    ensures
        r == period_of(t as int, interval as int),
{
    t / interval
}

proof fn lemma_period_start_fits(t: int, interval: int)
    requires
        interval > 0,
        fits_i64(t),
    ensures
        fits_i64(period_of(t, interval) * interval),
        -interval < trunc_rem(t, interval) < interval,
{
    if t >= 0 {
        assert(0 <= (t / interval) * interval <= t) by (nonlinear_arith)
            requires
                t >= 0,
                interval > 0,
        ;
    } else {
        let u = -t;
        assert(0 <= (u / interval) * interval <= u) by (nonlinear_arith)
            requires
                u > 0,
                interval > 0,
        ;
        assert(-((u / interval)) * interval == -((u / interval) * interval)) by (nonlinear_arith);
    }
}

/// The start of a life begun at `now`, or `None` where it does not fit in an `i64`.
pub fn life_start(now: i64, interval: i64) -> (r: Option<i64>)
    requires
        interval > 0,
    ensures
        r matches Some(v) ==> v == life_start_of(now as int, interval as int),
        r is None <==> !fits_i64(life_start_of(now as int, interval as int)),
{
    proof {
        lemma_period_start_fits(now as int, interval as int);
    }
    let current_period = now / interval;
    let seconds_into_period = now % interval;
    let grace = match interval.checked_sub(seconds_into_period) {
        Some(until_next) => until_next <= GRACE_PERIOD_SECONDS,
        None => false,
    };
    let period_start = current_period * interval;
    if grace {
        proof {
            assert((period_of(now as int, interval as int) + 1) * interval
                == period_of(now as int, interval as int) * interval + interval) by (nonlinear_arith);
        }
        period_start.checked_add(interval)
    } else {
        Some(period_start)
    }
}

/// Whether a life with the given last check-in and start has lapsed at `now`.
pub fn has_lapsed(last_checkin: i64, start_day: i64, now: i64, interval: i64) -> (r: bool)
    requires
        interval > 0,
    ensures
        r == lapsed(last_checkin as int, start_day as int, now as int, interval as int),
{
    let current_period = now / interval;
    let last_checkin_period = last_checkin / interval;
    let start_period = start_day / interval;
    current_period > i64::MIN && last_checkin_period < current_period - 1 && start_period
        < current_period
}

/// `stake` grown by `bps` basis points, or `None` on overflow.
pub fn grow(stake: u64, bps: u64) -> (r: Option<u64>)
    ensures
        r == grown(stake, bps),
{
    match stake.checked_mul(bps) {
        None => None,
        Some(scaled) => {
            let growth = scaled / BPS_DENOMINATOR;
            stake.checked_add(growth)
        },
    }
}

} // verus!
