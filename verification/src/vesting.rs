//! Vesting: how much of an entitlement has been released at a given block.

use vstd::prelude::*;

verus! {

use crate::types::{Amount, BlockNumber, VestingConfig, spec_cliff_end, spec_vesting_end};
use vstd::arithmetic::div_mod::{
    lemma_div_is_ordered, lemma_div_multiples_vanish, lemma_div_pos_is_pos,
    lemma_fundamental_div_mod, lemma_hoist_over_denominator,
};

/// The cumulative amount of `total` vested at block `now` under schedule `v`:
/// nothing before the cliff ends, everything from the end of the vesting
/// duration on (a zero duration counts as fully vested), and otherwise the
/// elapsed share `total * (now - start) / duration`, rounded down.
pub open spec fn vested_amount(total: Amount, v: VestingConfig, now: BlockNumber) -> int {
    if now < spec_cliff_end(v) {
        0
    } else if now >= spec_vesting_end(v) || v.vesting_duration == 0 {
        total as int
    } else {
        total * (now - v.start_block) / (v.vesting_duration as int)
    }
}

/// The vested amount always lies between zero and the whole entitlement.
pub proof fn lemma_vested_bounds(total: Amount, v: VestingConfig, now: BlockNumber)
    ensures
        0 <= vested_amount(total, v, now) <= total,
{
    if now < spec_cliff_end(v) {
    } else if now >= spec_vesting_end(v) || v.vesting_duration == 0 {
    } else {
        let e = now - v.start_block;
        let d = v.vesting_duration as int;
        assert(0 <= e < d);
        assert(total * e >= 0) by (nonlinear_arith)
            requires
                total >= 0,
                e >= 0,
        ;
        lemma_div_pos_is_pos(total * e, d);
        assert(total * e <= total * d) by (nonlinear_arith)
            requires
                total >= 0,
                e <= d,
        ;
        lemma_div_is_ordered(total * e, total * d, d);
        lemma_div_multiples_vanish(total as int, d);
        assert(d * total == total * d) by (nonlinear_arith);
    }
}

/// Vesting never goes backward: at a later block at least as much is vested.
pub proof fn lemma_vested_monotonic(total: Amount, v: VestingConfig, now1: BlockNumber, now2: BlockNumber)
    requires
        now1 <= now2,
    ensures
        vested_amount(total, v, now1) <= vested_amount(total, v, now2),
{
    lemma_vested_bounds(total, v, now1);
    lemma_vested_bounds(total, v, now2);
    if now1 < spec_cliff_end(v) {
        // nothing vested yet, and the later amount is nonnegative
    } else if now1 >= spec_vesting_end(v) || v.vesting_duration == 0 {
        // both blocks are past the end of vesting (or the schedule has no
        // duration), so both amounts equal the whole entitlement
        assert(now2 >= spec_vesting_end(v) || v.vesting_duration == 0);
    } else if now2 >= spec_vesting_end(v) {
        // the later amount is the whole entitlement, an upper bound
    } else {
        let e1 = now1 - v.start_block;
        let e2 = now2 - v.start_block;
        let d = v.vesting_duration as int;
        assert(total * e1 <= total * e2) by (nonlinear_arith)
            requires
                total >= 0,
                e1 <= e2,
        ;
        lemma_div_is_ordered(total * e1, total * e2, d);
    }
}

/// Before the cliff ends nothing is vested.
pub proof fn lemma_vested_zero_before_cliff(total: Amount, v: VestingConfig, now: BlockNumber)
    requires
        now < spec_cliff_end(v),
    ensures
        vested_amount(total, v, now) == 0,
{
}

/// From the end of the vesting duration on, the whole entitlement is vested.
/// A schedule whose cliff outlasts its vesting duration keeps the amount at
/// zero until the cliff ends, so the cliff is required not to reach past the
/// end of vesting.
pub proof fn lemma_vested_full_after_end(total: Amount, v: VestingConfig, now: BlockNumber)
    requires
        now >= spec_vesting_end(v),
        spec_cliff_end(v) <= spec_vesting_end(v),
    ensures
        vested_amount(total, v, now) == total,
{
}

/// Computes `vested_amount` without overflow.  The quotient-and-remainder
/// split of `total_tokens` by the duration keeps every intermediate product
/// within `u128` while returning the exact rounded-down share.
pub fn calculate_vested_tokens(total_tokens: Amount, vesting: &VestingConfig, current_block: BlockNumber) -> (r: Amount)
    ensures
        r == vested_amount(total_tokens, *vesting, current_block),
{
    let cliff_end = vesting.cliff_end();
    if current_block < cliff_end {
        return 0;
    }
    let vesting_end = vesting.vesting_end();
    if current_block >= vesting_end {
        return total_tokens;
    }
    let duration = vesting.vesting_duration;
    if duration == 0 {
        return total_tokens;
    }
    let elapsed = (current_block - vesting.start_block) as u128;
    let d = duration as u128;
    let q = total_tokens / d;
    let rem = total_tokens % d;
    proof {
        let t = total_tokens as int;
        let e = elapsed as int;
        let di = d as int;
        lemma_fundamental_div_mod(t, di);
        assert(0 <= e < di);
        assert((q as int) * e <= (q as int) * di) by (nonlinear_arith)
            requires
                q >= 0,
                e <= di,
        ;
        assert((q as int) * di <= t) by (nonlinear_arith)
            requires
                t == di * (q as int) + (rem as int),
                rem >= 0,
        ;
        assert((rem as int) * e <= u128::MAX) by (nonlinear_arith)
            requires
                0 <= rem < di,
                0 <= e < di,
                di <= u32::MAX,
        ;
        lemma_hoist_over_denominator((rem as int) * e, (q as int) * e, d as nat);
        assert((rem as int) * e + (q as int) * e * di == t * e) by (nonlinear_arith)
            requires
                t == di * (q as int) + (rem as int),
        ;
        assert(t * e <= t * di) by (nonlinear_arith)
            requires
                t >= 0,
                e <= di,
        ;
        lemma_div_is_ordered(t * e, t * di, di);
        lemma_div_multiples_vanish(t, di);
        assert(di * t == t * di) by (nonlinear_arith);
        assert(t * e / di <= t);
        assert((rem as int) * e / di + (q as int) * e == t * e / di);
    }
    let part1 = q * elapsed;
    let part2 = (rem * elapsed) / d;
    part1 + part2
}

} // verus!
