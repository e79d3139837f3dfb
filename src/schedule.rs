use vstd::prelude::*;

use crate::state::VestingType;

verus! {

/// The amount vested at `now` out of `total`, for a window `[start, end)`.
/// Before the window nothing has vested, from its end on everything has.
pub open spec fn vested(now: int, start: int, end: int, total: int, kind: VestingType) -> int {
    if now < start {
        0
    } else if now >= end {
        total
    } else {
        match kind {
            VestingType::Linear => total * (now - start) / (end - start),
            VestingType::Cliff(cliff) => if now >= cliff {
                total
            } else {
                0
            },
        }
    }
}

proof fn lemma_linear_share_bounded(total: nat, elapsed: nat, duration: nat)
    requires
        elapsed < duration,
    ensures
        total * elapsed / duration <= total,
        total * elapsed <= total * duration,
{
    assert(total * elapsed <= total * duration) by (nonlinear_arith)
        requires
            elapsed < duration,
    ;
    vstd::arithmetic::div_mod::lemma_div_is_ordered(
        (total * elapsed) as int,
        (total * duration) as int,
        duration as int,
    );
    vstd::arithmetic::div_mod::lemma_div_by_multiple(total as int, duration as int);
}

/// The vested amount of a schedule at `current_time`: zero before `start`,
/// `total` from `end` on, and in between the linear share (rounded down) or
/// the cliff's all-or-nothing step. The linear share is computed exactly in
/// 128-bit arithmetic.
pub fn calculate_vested_amount(
    current_time: i64,
    start: i64,
    end: i64,
    total: u64,
    vesting_type: &VestingType,
) -> (r: u64)
    ensures
        r == vested(current_time as int, start as int, end as int, total as int, *vesting_type),
        r <= total,
{
    if current_time < start {
        return 0;
    }
    if current_time >= end {
        return total;
    }
    match vesting_type {
        VestingType::Linear => {
            let duration: u128 = (end as i128 - start as i128) as u128;
            let elapsed: u128 = (current_time as i128 - start as i128) as u128;
            proof {
                lemma_linear_share_bounded(total as nat, elapsed as nat, duration as nat);
                assert(total * elapsed <= total * duration);
                assert(total * duration <= u64::MAX * u64::MAX) by (nonlinear_arith)
                    requires
                        total <= u64::MAX,
                        duration <= u64::MAX,
                ;
            }
            let share: u128 = (total as u128) * elapsed / duration;
            share as u64
        },
        VestingType::Cliff(cliff_time) => {
            if current_time >= *cliff_time {
                total
            } else {
                0
            }
        },
    }
}

/// Over a window with `start < end`, the vested amount never decreases as
/// time advances, is zero before the window and the whole total from its end on.
pub proof fn lemma_vested_monotone(
    now1: int,
    now2: int,
    start: int,
    end: int,
    total: nat,
    kind: VestingType,
)
    requires
        start < end,
        now1 <= now2,
    ensures
        vested(now1, start, end, total as int, kind) <= vested(now2, start, end, total as int, kind),
        0 <= vested(now1, start, end, total as int, kind) <= total,
        now1 < start ==> vested(now1, start, end, total as int, kind) == 0,
        now1 >= end ==> vested(now1, start, end, total as int, kind) == total,
{
    if start <= now1 < end {
        if kind is Linear {
            let d = (end - start) as nat;
            let e1 = (now1 - start) as nat;
            lemma_linear_share_bounded(total, e1, d);
            assert(0 <= total * e1) by (nonlinear_arith);
            vstd::arithmetic::div_mod::lemma_div_pos_is_pos((total * e1) as int, d as int);
            if now2 < end {
                let e2 = (now2 - start) as nat;
                assert(total * e1 <= total * e2) by (nonlinear_arith)
                    requires
                        e1 <= e2,
                ;
                vstd::arithmetic::div_mod::lemma_div_is_ordered(
                    (total * e1) as int,
                    (total * e2) as int,
                    d as int,
                );
            }
        }
    }
}

/// A linear schedule vests nothing at its start, everything at its end, and,
/// over a window of even length, exactly half the total (rounded down) at its
/// midpoint.
pub proof fn lemma_linear_milestones(start: int, end: int, total: nat)
    requires
        start < end,
    ensures
        vested(start, start, end, total as int, VestingType::Linear) == 0,
        vested(end, start, end, total as int, VestingType::Linear) == total,
        (end - start) % 2 == 0 ==> vested(
            start + (end - start) / 2,
            start,
            end,
            total as int,
            VestingType::Linear,
        ) == total / 2,
{
    let d = end - start;
    assert(total * 0 == 0);
    if d % 2 == 0 {
        let k = d / 2;
        assert(d == 2 * k);
        assert(total * k / (2 * k) == total / 2) by {
            vstd::arithmetic::div_mod::lemma_div_denominator(total * k, k, 2);
            assert(total * k / k == total) by {
                vstd::arithmetic::div_mod::lemma_div_by_multiple(total as int, k);
            }
            vstd::arithmetic::mul::lemma_mul_is_commutative(k, 2);
        }
    }
}

/// A cliff inside the window releases nothing one second before the cliff
/// and the whole total at the cliff.
pub proof fn lemma_cliff_boundary(start: int, end: int, total: nat, cliff: i64)
    requires
        start < end,
        start <= cliff <= end,
    ensures
        vested(cliff - 1, start, end, total as int, VestingType::Cliff(cliff)) == 0,
        vested(cliff as int, start, end, total as int, VestingType::Cliff(cliff)) == total,
{
}

} // verus!
