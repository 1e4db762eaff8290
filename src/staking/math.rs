//! Linear release of tokens held in a transit.
use vstd::prelude::*;

verus! {

use crate::UnixTimestamp;

/// Whether a difference of two timestamps fits in a timestamp.
pub open spec fn fits_timestamp(d: int) -> bool {
    i64::MIN <= d <= i64::MAX
}

/// Length of the window `[transit_from, transit_until)`, zero when it is empty.
pub open spec fn transit_interval(transit_from: int, transit_until: int) -> int {
    if transit_until - transit_from > 0 {
        transit_until - transit_from
    } else {
        0
    }
}

/// Time passed since `transit_from`, capped at the window's length.
pub open spec fn transit_elapsed(transit_from: int, now: int, transit_until: int) -> int {
    let passed = if now - transit_from > 0 {
        now - transit_from
    } else {
        0
    };
    let interval = transit_interval(transit_from, transit_until);
    if passed < interval {
        passed
    } else {
        interval
    }
}

/// The part of `total` that has matured after `elapsed` of `interval` (floored).
pub open spec fn vested(total: int, elapsed: int, interval: int) -> int {
    total * elapsed / interval
}

/// What a transit of `amount_claimed + remaining_amount` tokens releases at `now`,
/// given that `amount_claimed` of them were released before: nothing when the
/// window is empty, a time difference does not fit a timestamp, or nothing new
/// has matured.
pub open spec fn releasable(
    transit_from: int,
    now: int,
    transit_until: int,
    amount_claimed: int,
    remaining_amount: int,
) -> Option<int> {
    let interval = transit_interval(transit_from, transit_until);
    if !fits_timestamp(transit_until - transit_from) || !fits_timestamp(now - transit_from)
        || interval == 0 {
        None
    } else {
        let possible = vested(
            amount_claimed + remaining_amount,
            transit_elapsed(transit_from, now, transit_until),
            interval,
        );
        if possible <= amount_claimed {
            None
        } else {
            Some(possible - amount_claimed)
        }
    }
}

/// A matured part never exceeds the whole.
pub proof fn lemma_vested_at_most_total(total: int, elapsed: int, interval: int)
    requires
        0 <= total,
        0 <= elapsed <= interval,
        0 < interval,
    ensures
        0 <= vested(total, elapsed, interval) <= total,
{
    assert(0 <= total * elapsed <= total * interval) by (nonlinear_arith)
        requires
            0 <= total,
            0 <= elapsed <= interval,
    ;
    assert(total * elapsed / interval <= total * interval / interval) by (nonlinear_arith)
        requires
            0 <= total * elapsed <= total * interval,
            0 < interval,
    ;
    assert(total * interval / interval == total) by (nonlinear_arith)
        requires
            0 < interval,
    ;
    assert(0 <= total * elapsed / interval) by (nonlinear_arith)
        requires
            0 <= total * elapsed,
            0 < interval,
    ;
}

/// Calculates the amount of tokens a transit releases at `now`, in proportion to
/// the time passed since `transit_from`; `None` when nothing can be released.
pub fn finish(
    transit_from: UnixTimestamp,
    now: UnixTimestamp,
    transit_until: UnixTimestamp,
    amount_claimed: u64,
    remaining_amount: u64,
) -> (r: Option<u64>)
    ensures
        match r {
            Some(x) => releasable(
                transit_from as int,
                now as int,
                transit_until as int,
                amount_claimed as int,
                remaining_amount as int,
            ) == Some(x as int),
            None => releasable(
                transit_from as int,
                now as int,
                transit_until as int,
                amount_claimed as int,
                remaining_amount as int,
            ) is None,
        },
        r matches Some(x) ==> 0 < x <= remaining_amount,
{
    let window = match transit_until.checked_sub(transit_from) {
        Some(d) => d,
        None => return None,
    };
    let since = match now.checked_sub(transit_from) {
        Some(d) => d,
        None => return None,
    };
    let interval: u128 = if window > 0 {
        window as u128
    } else {
        0
    };
    let passed: u128 = if since > 0 {
        since as u128
    } else {
        0
    };
    let elapsed: u128 = if passed < interval {
        passed
    } else {
        interval
    };
    if interval == 0 {
        return None;
    }
    let claimed = amount_claimed as u128;
    let total: u128 = claimed + remaining_amount as u128;
    proof {
        assert(total * elapsed <= u128::MAX) by (nonlinear_arith)
            requires
                total <= 2 * (u64::MAX as int),
                elapsed <= i64::MAX,
        ;
        lemma_vested_at_most_total(total as int, elapsed as int, interval as int);
    }
    let possible: u128 = total * elapsed / interval;
    if possible <= claimed {
        None
    } else {
        Some((possible - claimed) as u64)
    }
}

/// The amount claimed from a transit of `total` tokens after one release call at
/// each of `nows`, every call handed the amount claimed so far and the rest.
pub open spec fn claimed_after(
    transit_from: int,
    transit_until: int,
    total: int,
    nows: Seq<UnixTimestamp>,
) -> int
    decreases nows.len(),
{
    if nows.len() == 0 {
        0
    } else {
        let before = claimed_after(transit_from, transit_until, total, nows.drop_last());
        match releasable(transit_from, nows.last() as int, transit_until, before, total - before) {
            Some(x) => before + x,
            None => before,
        }
    }
}

/// However the release calls are timed, the amount claimed from a transit never
/// exceeds what it holds.
pub proof fn lemma_claims_never_exceed_total(
    transit_from: UnixTimestamp,
    transit_until: UnixTimestamp,
    total: u64,
    nows: Seq<UnixTimestamp>,
)
    ensures
        0 <= claimed_after(transit_from as int, transit_until as int, total as int, nows)
            <= total,
    decreases nows.len(),
{
    if nows.len() > 0 {
        lemma_claims_never_exceed_total(transit_from, transit_until, total, nows.drop_last());
        let interval = transit_interval(transit_from as int, transit_until as int);
        if interval > 0 {
            lemma_vested_at_most_total(
                total as int,
                transit_elapsed(transit_from as int, nows.last() as int, transit_until as int),
                interval,
            );
        }
    }
}

/// Once a release call is made at or after the end of a non-empty window, the
/// amount claimed from the transit is exactly what it holds.
pub proof fn lemma_claims_reach_total(
    transit_from: UnixTimestamp,
    transit_until: UnixTimestamp,
    total: u64,
    nows: Seq<UnixTimestamp>,
)
    requires
        transit_from < transit_until,
        fits_timestamp(transit_until - transit_from),
        nows.len() > 0,
        nows.last() >= transit_until,
        fits_timestamp(nows.last() - transit_from),
    ensures
        claimed_after(transit_from as int, transit_until as int, total as int, nows) == total,
{
    lemma_claims_never_exceed_total(transit_from, transit_until, total, nows.drop_last());
    let interval = transit_interval(transit_from as int, transit_until as int);
    assert(transit_elapsed(transit_from as int, nows.last() as int, transit_until as int)
        == interval);
    assert(vested(total as int, interval, interval) == total) by (nonlinear_arith)
        requires
            interval > 0,
    ;
}

/// More elapsed time never matures less.
proof fn lemma_vested_monotonic(total: int, early: int, late: int, interval: int)
    requires
        0 <= total,
        0 <= early <= late,
        0 < interval,
    ensures
        vested(total, early, interval) <= vested(total, late, interval),
{
    assert(total * early <= total * late) by (nonlinear_arith)
        requires
            0 <= total,
            early <= late,
    ;
    assert(total * early / interval <= total * late / interval) by (nonlinear_arith)
        requires
            total * early <= total * late,
            0 < interval,
    ;
}

/// When the release calls come at non-decreasing times, the amount claimed after
/// them is exactly the part of the transit that has matured at the last call.
pub proof fn lemma_claims_follow_schedule(
    transit_from: UnixTimestamp,
    transit_until: UnixTimestamp,
    total: u64,
    nows: Seq<UnixTimestamp>,
)
    requires
        transit_from < transit_until,
        fits_timestamp(transit_until - transit_from),
        forall|i: int, j: int| 0 <= i <= j < nows.len() ==> nows[i] <= nows[j],
        forall|i: int| 0 <= i < nows.len() ==> fits_timestamp(nows[i] - transit_from),
    ensures
        claimed_after(transit_from as int, transit_until as int, total as int, nows) == if nows.len()
            == 0 {
            0
        } else {
            vested(
                total as int,
                transit_elapsed(transit_from as int, nows.last() as int, transit_until as int),
                transit_interval(transit_from as int, transit_until as int),
            )
        },
    decreases nows.len(),
{
    if nows.len() > 0 {
        let rest = nows.drop_last();
        lemma_claims_follow_schedule(transit_from, transit_until, total, rest);
        let interval = transit_interval(transit_from as int, transit_until as int);
        let late = transit_elapsed(transit_from as int, nows.last() as int, transit_until as int);
        lemma_vested_at_most_total(total as int, late, interval);
        if rest.len() > 0 {
            assert(rest.last() == nows[nows.len() - 2]);
            let early = transit_elapsed(transit_from as int, rest.last() as int, transit_until as int);
            lemma_vested_monotonic(total as int, early, late, interval);
        } else {
            assert(0 <= vested(total as int, late, interval)) by (nonlinear_arith)
                requires
                    0 <= total,
                    0 <= late,
                    0 < interval,
            ;
        }
    }
}

} // verus!
