//! Laws of the sale's arithmetic: the allocation bound, the conversion's
//! monotonicity and rounding drift, and the order of the stages.
use vstd::prelude::*;

verus! {

use crate::ido::state::{
    distributed_of, per_investor, shares_upto, stage_at, total_shares, UnixTimeSmallDuration,
    PRECISION,
};
use crate::{UnixTimestamp, STAGES_ACTIVE_COUNT, TIERS_COUNT};
use vstd::arithmetic::div_mod::{lemma_fundamental_div_mod, lemma_mod_bound};

/// `x / d` is the floor of the quotient.
proof fn lemma_floor_div(x: int, d: int)
    requires
        0 < d,
    ensures
        (x / d) * d <= x < (x / d + 1) * d,
{
    lemma_fundamental_div_mod(x, d);
    lemma_mod_bound(x, d);
    assert((x / d) * d == d * (x / d)) by (nonlinear_arith);
    assert((x / d + 1) * d == d * (x / d) + d) by (nonlinear_arith);
}

/// A larger investment never converts into fewer distributed tokens.
pub proof fn lemma_conversion_monotonic(a: u64, b: u64, price: u64)
    requires
        a <= b,
        price > 0,
    ensures
        distributed_of(a as int, price as int) <= distributed_of(b as int, price as int),
{
    let x = a * PRECISION;
    let y = b * PRECISION;
    assert(x <= y) by (nonlinear_arith)
        requires
            a <= b,
            x == a * PRECISION,
            y == b * PRECISION,
    ;
    lemma_floor_div(x, price as int);
    lemma_floor_div(y, price as int);
    assert(x / price as int <= y / price as int) by (nonlinear_arith)
        requires
            (x / price as int) * price <= x,
            x <= y,
            y < (y / price as int + 1) * price,
            price > 0,
    ;
}

/// Converting two investments one by one gives at most one unit less than
/// converting their sum at once, and never more.
pub proof fn lemma_conversion_split(a: u64, b: u64, price: u64)
    requires
        price > 0,
    ensures
        distributed_of(a as int, price as int) + distributed_of(b as int, price as int)
            <= distributed_of(a + b, price as int),
        distributed_of(a + b, price as int) <= distributed_of(a as int, price as int)
            + distributed_of(b as int, price as int) + 1,
{
    let p = price as int;
    let x = a * PRECISION;
    let y = b * PRECISION;
    let z = (a + b) * PRECISION;
    assert(z == x + y) by (nonlinear_arith)
        requires
            x == a * PRECISION,
            y == b * PRECISION,
            z == (a + b) * PRECISION,
    ;
    lemma_floor_div(x, p);
    lemma_floor_div(y, p);
    lemma_floor_div(z, p);
    let qx = x / p;
    let qy = y / p;
    let qz = z / p;
    assert(qx + qy <= qz) by (nonlinear_arith)
        requires
            qx * p <= x,
            qy * p <= y,
            z == x + y,
            z < (qz + 1) * p,
            p > 0,
    ;
    assert(qz <= qx + qy + 1) by (nonlinear_arith)
        requires
            x < (qx + 1) * p,
            y < (qy + 1) * p,
            z == x + y,
            qz * p <= z,
            p > 0,
    ;
}

/// Sum of a sequence of investments.
pub open spec fn sum_collected(amounts: Seq<u64>) -> int
    decreases amounts.len(),
{
    if amounts.len() == 0 {
        0
    } else {
        sum_collected(amounts.drop_last()) + amounts.last()
    }
}

/// Sum of the conversions of a sequence of investments, each converted on its own.
pub open spec fn sum_distributed(amounts: Seq<u64>, price: int) -> int
    decreases amounts.len(),
{
    if amounts.len() == 0 {
        0
    } else {
        sum_distributed(amounts.drop_last(), price) + distributed_of(amounts.last() as int, price)
    }
}

/// Converting `n` investments one by one gives at most `n` units less than
/// converting their sum at once, and never more.
pub proof fn lemma_conversion_drift(amounts: Seq<u64>, price: u64)
    requires
        price > 0,
    ensures
        sum_distributed(amounts, price as int) <= distributed_of(sum_collected(amounts), price as int),
        distributed_of(sum_collected(amounts), price as int) <= sum_distributed(amounts, price as int)
            + amounts.len(),
    decreases amounts.len(),
{
    let p = price as int;
    if amounts.len() == 0 {
        assert(distributed_of(0, p) == 0) by (nonlinear_arith)
            requires
                p > 0,
        ;
    } else {
        let rest = amounts.drop_last();
        lemma_conversion_drift(rest, price);
        lemma_sum_collected_nonneg(rest);
        let s = sum_collected(rest);
        let l = amounts.last() as int;
        let x = s * PRECISION;
        let y = l * PRECISION;
        let z = (s + l) * PRECISION;
        assert(z == x + y && x >= 0 && y >= 0) by (nonlinear_arith)
            requires
                x == s * PRECISION,
                y == l * PRECISION,
                z == (s + l) * PRECISION,
                s >= 0,
                l >= 0,
        ;
        lemma_floor_div(x, p);
        lemma_floor_div(y, p);
        lemma_floor_div(z, p);
        let qx = x / p;
        let qy = y / p;
        let qz = z / p;
        assert(qx + qy <= qz && qz <= qx + qy + 1) by (nonlinear_arith)
            requires
                qx * p <= x < (qx + 1) * p,
                qy * p <= y < (qy + 1) * p,
                qz * p <= z < (qz + 1) * p,
                z == x + y,
                p > 0,
        ;
    }
}

proof fn lemma_sum_collected_nonneg(amounts: Seq<u64>)
    ensures
        sum_collected(amounts) >= 0,
    decreases amounts.len(),
{
    if amounts.len() > 0 {
        lemma_sum_collected_nonneg(amounts.drop_last());
    }
}

/// Later instants of a sale are never in an earlier stage.
pub proof fn lemma_stages_in_order(
    time_start: UnixTimestamp,
    time_table: [UnixTimeSmallDuration; STAGES_ACTIVE_COUNT],
    early: UnixTimestamp,
    late: UnixTimestamp,
)
    requires
        time_start <= early <= late,
    ensures
        stage_at(early - time_start, time_table@).index() <= stage_at(
            late - time_start,
            time_table@,
        ).index(),
{
}

/// Sum of the tier remainders that `set_tier_allocations` sets for the first `n`
/// tiers.
pub open spec fn allocated_upto(
    tier_users: Seq<u32>,
    tier_balance: Seq<u64>,
    goal_max: u64,
    price: u64,
    n: int,
) -> int
    decreases n,
{
    if n <= 0 {
        0
    } else {
        allocated_upto(tier_users, tier_balance, goal_max, price, n - 1) + per_investor(
            tier_balance[n - 1],
            goal_max,
            price,
            total_shares(tier_users, tier_balance),
        ) * tier_users[n - 1]
    }
}

/// Number of users in the first `n` tiers.
pub open spec fn users_upto(tier_users: Seq<u32>, n: int) -> int
    decreases n,
{
    if n <= 0 {
        0
    } else {
        users_upto(tier_users, n - 1) + tier_users[n - 1]
    }
}

/// The maximum raise in distributed tokens.
pub open spec fn total_raise(goal_max: u64, price: u64) -> int {
    goal_max * PRECISION / price as int
}

proof fn lemma_per_investor_bounds(b: int, a: int, p: int, s: int)
    requires
        0 <= b,
        0 <= a,
        0 < p,
        0 < s,
    ensures
        (b * a / p / s) * s * p <= b * a,
        b * a < (b * a / p / s + 1) * s * p,
{
    let x = b * a;
    let q1 = x / p;
    let q = q1 / s;
    lemma_floor_div(x, p);
    lemma_floor_div(q1, s);
    assert(q * s * p <= x) by (nonlinear_arith)
        requires
            q * s <= q1,
            q1 * p <= x,
            p > 0,
    ;
    assert(x < (q + 1) * s * p) by (nonlinear_arith)
        requires
            q1 < (q + 1) * s,
            x < (q1 + 1) * p,
            p > 0,
    ;
}

proof fn lemma_allocated_upto_bounds(
    tier_users: Seq<u32>,
    tier_balance: Seq<u64>,
    goal_max: u64,
    price: u64,
    n: int,
)
    requires
        price > 0,
        total_shares(tier_users, tier_balance) > 0,
        0 <= n <= tier_users.len(),
        n <= tier_balance.len(),
    ensures
        ({
            let s = total_shares(tier_users, tier_balance);
            let a = goal_max * PRECISION;
            let alloc = allocated_upto(tier_users, tier_balance, goal_max, price, n);
            &&& alloc * s * price <= shares_upto(tier_users, tier_balance, n) * a
            &&& shares_upto(tier_users, tier_balance, n) * a <= (alloc + users_upto(tier_users, n))
                * s * price
        }),
    decreases n,
{
    if n > 0 {
        lemma_allocated_upto_bounds(tier_users, tier_balance, goal_max, price, n - 1);
        let s = total_shares(tier_users, tier_balance);
        let a = goal_max * PRECISION;
        let b = tier_balance[n - 1] as int;
        let u = tier_users[n - 1] as int;
        let p = price as int;
        assert(b * goal_max * PRECISION == b * a) by (nonlinear_arith)
            requires
                a == goal_max * PRECISION,
        ;
        assert(a >= 0) by (nonlinear_arith)
            requires
                a == goal_max * PRECISION,
        ;
        lemma_per_investor_bounds(b, a, p, s);
        let per = b * a / p / s;
        assert(per == per_investor(tier_balance[n - 1], goal_max, price, s));
        let alloc0 = allocated_upto(tier_users, tier_balance, goal_max, price, n - 1);
        let sh0 = shares_upto(tier_users, tier_balance, n - 1);
        let us0 = users_upto(tier_users, n - 1);
        let lo = per * s * p;
        let hi = (per + 1) * s * p;
        let ba = b * a;
        assert(lo * u <= ba * u) by (nonlinear_arith)
            requires
                lo <= ba,
                u >= 0,
        ;
        assert(ba * u <= hi * u) by (nonlinear_arith)
            requires
                ba < hi,
                u >= 0,
        ;
        assert(lo * u == (per * u) * s * p) by (nonlinear_arith)
            requires
                lo == per * s * p,
        ;
        assert(hi * u == (per * u) * s * p + u * s * p) by (nonlinear_arith)
            requires
                hi == (per + 1) * s * p,
        ;
        assert(ba * u == (b * u) * a) by (nonlinear_arith)
            requires
                ba == b * a,
        ;
        assert(allocated_upto(tier_users, tier_balance, goal_max, price, n) == alloc0 + per * u);
        assert(shares_upto(tier_users, tier_balance, n) == sh0 + b * u);
        assert((alloc0 + per * u) * s * p == alloc0 * s * p + (per * u) * s * p)
            by (nonlinear_arith);
        assert((sh0 + b * u) * a == sh0 * a + (b * u) * a) by (nonlinear_arith);
        assert((alloc0 + per * u + us0 + u) * s * p == (alloc0 + us0) * s * p + (per * u) * s * p
            + u * s * p) by (nonlinear_arith);
    } else {
        let s = total_shares(tier_users, tier_balance);
        let a = goal_max * PRECISION;
        assert(0 * s * price == 0 && 0 * a == 0) by (nonlinear_arith);
    }
}

/// The tier remainders that `set_tier_allocations` sets never add up to more than
/// the maximum raise, and fall short of it by at most one unit per user, the
/// rounding of each investor's allocation.
pub proof fn lemma_allocations_within_raise(
    tier_users: [u32; TIERS_COUNT],
    tier_balance: [u64; TIERS_COUNT],
    goal_max: u64,
    price: u64,
)
    requires
        price > 0,
        total_shares(tier_users@, tier_balance@) > 0,
    ensures
        allocated_upto(tier_users@, tier_balance@, goal_max, price, TIERS_COUNT as int)
            <= total_raise(goal_max, price),
        total_raise(goal_max, price) - allocated_upto(
            tier_users@,
            tier_balance@,
            goal_max,
            price,
            TIERS_COUNT as int,
        ) <= users_upto(tier_users@, TIERS_COUNT as int),
{
    lemma_allocated_upto_bounds(tier_users@, tier_balance@, goal_max, price, TIERS_COUNT as int);
    let s = total_shares(tier_users@, tier_balance@);
    let a = goal_max * PRECISION;
    let p = price as int;
    let alloc = allocated_upto(tier_users@, tier_balance@, goal_max, price, TIERS_COUNT as int);
    let users = users_upto(tier_users@, TIERS_COUNT as int);
    assert(s == shares_upto(tier_users@, tier_balance@, TIERS_COUNT as int));
    lemma_floor_div(a, p);
    let t = a / p;
    assert(alloc <= t) by (nonlinear_arith)
        requires
            alloc * s * p <= s * a,
            s > 0,
            p > 0,
            a < (t + 1) * p,
    ;
    assert(t <= alloc + users) by (nonlinear_arith)
        requires
            s * a <= (alloc + users) * s * p,
            s > 0,
            p > 0,
            t * p <= a,
    ;
}

} // verus!
