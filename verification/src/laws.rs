//! Global properties of the engine, stated and proved over the same spec
//! functions the operation contracts use.

use vstd::prelude::*;
use vstd::arithmetic::div_mod::lemma_div_is_ordered;
use crate::errors::ReputationError;
use crate::state::{daily_votes_after_reset, ReputationConfig, UserReputation, VotingRecord};
use crate::utils::{
    day_of, decay_factor_spec, isqrt_spec, lemma_isqrt_monotone, lemma_isqrt_unique, score_of,
    weights_sum,
};
use crate::vote::vote_precheck_error;

verus! {

/// The total score is never negative: every weighted term is a product
/// of non-negative factors.
pub proof fn lemma_score_nonnegative(points: [u64; 4], weights: [u16; 4])
    requires
        weights_sum(weights) == 10000,
    ensures
        score_of(points, weights) >= 0,
{
    let t0 = isqrt_spec(points[0] as nat) * 100 * (weights[0] as int);
    let t1 = isqrt_spec(points[1] as nat) * 100 * (weights[1] as int);
    let t2 = isqrt_spec(points[2] as nat) * 100 * (weights[2] as int);
    let t3 = isqrt_spec(points[3] as nat) * 100 * (weights[3] as int);
    assert(t0 >= 0 && t1 >= 0 && t2 >= 0 && t3 >= 0) by (nonlinear_arith)
        requires
            isqrt_spec(points[0] as nat) >= 0,
            isqrt_spec(points[1] as nat) >= 0,
            isqrt_spec(points[2] as nat) >= 0,
            isqrt_spec(points[3] as nat) >= 0,
            weights[0] >= 0,
            weights[1] >= 0,
            weights[2] >= 0,
            weights[3] >= 0,
            t0 == isqrt_spec(points[0] as nat) * 100 * (weights[0] as int),
            t1 == isqrt_spec(points[1] as nat) * 100 * (weights[1] as int),
            t2 == isqrt_spec(points[2] as nat) * 100 * (weights[2] as int),
            t3 == isqrt_spec(points[3] as nat) * 100 * (weights[3] as int),
    ;
    lemma_div_is_ordered(0, t0 + t1 + t2 + t3, 10000);
}

/// Raising one category's points while holding the others fixed never
/// lowers the total score.
pub proof fn lemma_score_monotone(p1: [u64; 4], p2: [u64; 4], weights: [u16; 4], i: int)
    requires
        weights_sum(weights) == 10000,
        0 <= i < 4,
        p1[i] <= p2[i],
        forall|j: int| 0 <= j < 4 && j != i ==> p1[j] == p2[j],
    ensures
        score_of(p1, weights) <= score_of(p2, weights),
{
    lemma_isqrt_monotone(p1[0] as nat, p2[0] as nat);
    lemma_isqrt_monotone(p1[1] as nat, p2[1] as nat);
    lemma_isqrt_monotone(p1[2] as nat, p2[2] as nat);
    lemma_isqrt_monotone(p1[3] as nat, p2[3] as nat);
    let s0 = isqrt_spec(p1[0] as nat) * 100 * (weights[0] as int) + isqrt_spec(p1[1] as nat) * 100
        * (weights[1] as int) + isqrt_spec(p1[2] as nat) * 100 * (weights[2] as int) + isqrt_spec(
        p1[3] as nat,
    ) * 100 * (weights[3] as int);
    let s1 = isqrt_spec(p2[0] as nat) * 100 * (weights[0] as int) + isqrt_spec(p2[1] as nat) * 100
        * (weights[1] as int) + isqrt_spec(p2[2] as nat) * 100 * (weights[2] as int) + isqrt_spec(
        p2[3] as nat,
    ) * 100 * (weights[3] as int);
    assert(s0 <= s1) by (nonlinear_arith)
        requires
            isqrt_spec(p1[0] as nat) <= isqrt_spec(p2[0] as nat),
            isqrt_spec(p1[1] as nat) <= isqrt_spec(p2[1] as nat),
            isqrt_spec(p1[2] as nat) <= isqrt_spec(p2[2] as nat),
            isqrt_spec(p1[3] as nat) <= isqrt_spec(p2[3] as nat),
            isqrt_spec(p1[0] as nat) >= 0,
            isqrt_spec(p1[1] as nat) >= 0,
            isqrt_spec(p1[2] as nat) >= 0,
            isqrt_spec(p1[3] as nat) >= 0,
            weights[0] >= 0,
            weights[1] >= 0,
            weights[2] >= 0,
            weights[3] >= 0,
            s0 == isqrt_spec(p1[0] as nat) * 100 * (weights[0] as int) + isqrt_spec(p1[1] as nat)
                * 100 * (weights[1] as int) + isqrt_spec(p1[2] as nat) * 100 * (weights[2] as int)
                + isqrt_spec(p1[3] as nat) * 100 * (weights[3] as int),
            s1 == isqrt_spec(p2[0] as nat) * 100 * (weights[0] as int) + isqrt_spec(p2[1] as nat)
                * 100 * (weights[1] as int) + isqrt_spec(p2[2] as nat) * 100 * (weights[2] as int)
                + isqrt_spec(p2[3] as nat) * 100 * (weights[3] as int),
    ;
    lemma_div_is_ordered(s0, s1, 10000);
}

/// The integer square root of a perfect square is exact.
pub proof fn lemma_isqrt_perfect_square(k: nat)
    ensures
        isqrt_spec(k * k) == k,
{
    assert(k * k < (k + 1) * (k + 1)) by (nonlinear_arith);
    lemma_isqrt_unique(k * k, k);
}

/// Zero elapsed days means no decay, whatever the rate.
pub proof fn lemma_decay_zero_days(rate: u16)
    ensures
        decay_factor_spec(0, rate) == 10000,
{
}

/// The decay factor never grows as days pass.
pub proof fn lemma_decay_nonincreasing(d1: nat, d2: nat, rate: u16)
    requires
        rate <= 10000,
        d1 <= d2,
    ensures
        decay_factor_spec(d2, rate) <= decay_factor_spec(d1, rate),
    decreases d2,
{
    if d1 < d2 {
        lemma_decay_nonincreasing(d1, (d2 - 1) as nat, rate);
        crate::utils::lemma_decay_factor_bounds((d2 - 1) as nat, rate);
        let f = decay_factor_spec((d2 - 1) as nat, rate);
        assert(f * (10000 - rate) / 10000 <= f) by (nonlinear_arith)
            requires
                0 <= f,
                rate <= 10000,
        ;
    }
}

/// With a positive rate the decay factor strictly shrinks with every
/// further day of inactivity, as long as it has not already bottomed out
/// at zero. (Once the factor reaches zero it stays zero, so strictness
/// cannot extend past that point.)
pub proof fn lemma_decay_strictly_decreasing(d1: nat, d2: nat, rate: u16)
    requires
        0 < rate <= 10000,
        d1 < d2,
        decay_factor_spec(d2, rate) > 0,
    ensures
        decay_factor_spec(d2, rate) < decay_factor_spec(d1, rate),
    decreases d2,
{
    let fprev = decay_factor_spec((d2 - 1) as nat, rate);
    crate::utils::lemma_decay_factor_bounds((d2 - 1) as nat, rate);
    if fprev == 0 {
        assert(decay_factor_spec(d2, rate) == 0);
    }
    assert(fprev * (10000 - rate) / 10000 < fprev) by (nonlinear_arith)
        requires
            0 < fprev,
            0 < rate,
            rate <= 10000,
    ;
    if d1 < d2 - 1 {
        lemma_decay_nonincreasing(d1, (d2 - 1) as nat, rate);
    }
}

/// A second vote of the same pair within the cooldown window is refused
/// with `CooldownActive`: after a vote at `now1`, the pair's record holds
/// `last_vote == now1`, and any vote before `now1 + cooldown` fails
/// whatever the daily count or scores say.
pub proof fn lemma_cooldown_blocks_rapid_revote(
    config: ReputationConfig,
    voter: UserReputation,
    target: UserReputation,
    rec: VotingRecord,
    vote_weight: u8,
    now1: i64,
    now2: i64,
)
    requires
        rec.last_vote == now1,
        now2 - now1 < config.voting_cooldown,
        voter.user != target.user,
        1 <= vote_weight <= 10,
        now2 - voter.created_at >= config.min_account_age,
    ensures
        vote_precheck_error(config, voter, target, rec, vote_weight, now2) == Some(
            ReputationError::CooldownActive,
        ),
{
}

/// Once the cooldown has elapsed, the rate limiter no longer stands in
/// the way: with every other validation satisfied, the vote passes all
/// prechecks.
pub proof fn lemma_cooldown_elapsed_allows_revote(
    config: ReputationConfig,
    voter: UserReputation,
    target: UserReputation,
    rec: VotingRecord,
    vote_weight: u8,
    now1: i64,
    now2: i64,
)
    requires
        rec.last_vote == now1,
        now2 - now1 >= config.voting_cooldown,
        voter.user != target.user,
        1 <= vote_weight <= 10,
        now2 - voter.created_at >= config.min_account_age,
        daily_votes_after_reset(rec, now2) < config.daily_vote_limit,
        voter.total_score >= config.min_reputation_to_vote,
    ensures
        vote_precheck_error(config, voter, target, rec, vote_weight, now2) is None,
{
}

/// The first vote after a UTC day boundary is never blocked by the daily
/// cap, whatever yesterday's count was — even if it equalled the cap:
/// the day-bucket reset zeroes the count before the cap is checked.
pub proof fn lemma_new_day_resets_daily_cap(
    config: ReputationConfig,
    voter: UserReputation,
    target: UserReputation,
    rec: VotingRecord,
    vote_weight: u8,
    now: i64,
)
    requires
        day_of(now) > day_of(rec.last_daily_reset),
        config.daily_vote_limit >= 1,
        voter.user != target.user,
        1 <= vote_weight <= 10,
        now - voter.created_at >= config.min_account_age,
        now - rec.last_vote >= config.voting_cooldown,
        voter.total_score >= config.min_reputation_to_vote,
    ensures
        vote_precheck_error(config, voter, target, rec, vote_weight, now) is None,
{
    assert(daily_votes_after_reset(rec, now) == 0);
}

} // verus!
