//! Time decay of reputation: applying the compound daily erosion factor
//! to an inactive user's accumulators, and the pure preview of a pending
//! decay.

use vstd::prelude::*;
use crate::errors::ReputationError;
use crate::state::{ReputationConfig, UserReputation};
use crate::utils::{
    days_between, decay_factor_spec, lemma_decay_factor_bounds, role_level_spec, score_of,
    ReputationUtils,
};

verus! {

/// Whether decay applies to this record at `now`: decay must be enabled,
/// the record must have recorded activity, and at least one full day of
/// inactivity must have elapsed. Decay never touches the current day's
/// partial elapsed time.
pub open spec fn decay_applicable(config: ReputationConfig, user: UserReputation, now: i64) -> bool {
    &&& config.decay_enabled
    &&& user.last_activity > 0
    &&& days_between(user.last_activity, now) > 0
}

/// One accumulator scaled by a basis-point factor, truncating: the exact
/// value of `points * factor / 10000`, computed in widened arithmetic so
/// that the multiplication cannot overflow.
fn scale_by_factor(points: u64, factor: u64) -> (r: u64)
    requires
        factor <= 10000,
    ensures
        r == points * factor / 10000,
        r <= points,
{
    proof {
        assert(points * factor <= points * 10000) by (nonlinear_arith)
            requires
                factor <= 10000,
        ;
        assert(points * factor / 10000 <= points * 10000 / 10000) by (nonlinear_arith)
            requires
                points * factor <= points * 10000,
        ;
        assert(points * 10000 / 10000 == points) by (nonlinear_arith);
        assert((points as u128) * (factor as u128) <= u128::MAX) by (nonlinear_arith)
            requires
                points <= u64::MAX,
                factor <= 10000,
        ;
    }
    (((points as u128) * (factor as u128)) / 10000) as u64
}

/// Applies compound decay to every category accumulator of an inactive
/// user: each point total and each raw-vote total becomes
/// `value * factor / 10000` with the factor of `decay_factor_spec`, the
/// total score and role level are recomputed, and `last_updated` is
/// stamped. Fails with `DecayNotApplicable`, leaving the record
/// unchanged, when decay is disabled, the record has no activity, or
/// less than one full day has elapsed.
pub fn apply_reputation_decay(
    config: &ReputationConfig,
    user: &mut UserReputation,
    now: i64,
) -> (r: Result<(), ReputationError>)
    requires
        old(user).wf(),
        config.decay_rate <= 10000,
    ensures
        r is Ok <==> decay_applicable(*config, *old(user), now),
        r is Err ==> r->Err_0 == ReputationError::DecayNotApplicable && *final(user) == *old(user),
        r is Ok ==> ({
            let factor = decay_factor_spec(
                days_between(old(user).last_activity, now),
                config.decay_rate,
            );
            &&& forall|i: int|
                0 <= i < 4 ==> final(user).category_points[i] == old(user).category_points[i]
                    * factor / 10000
            &&& forall|i: int|
                0 <= i < 4 ==> final(user).raw_votes[i] == old(user).raw_votes[i] * factor / 10000
            &&& final(user).total_score == score_of(
                final(user).category_points,
                config.category_weights,
            )
            &&& final(user).role_level == role_level_spec(
                final(user).total_score,
                config.role_thresholds,
            )
            &&& final(user).last_updated == now
            &&& final(user).last_activity == old(user).last_activity
        }),
        (UserReputation {
            category_points: [0u64, 0u64, 0u64, 0u64],
            raw_votes: [0u64, 0u64, 0u64, 0u64],
            total_score: 0,
            role_level: 0,
            last_updated: 0,
            ..*final(user)
        }) == (UserReputation {
            category_points: [0u64, 0u64, 0u64, 0u64],
            raw_votes: [0u64, 0u64, 0u64, 0u64],
            total_score: 0,
            role_level: 0,
            last_updated: 0,
            ..*old(user)
        }),
        final(user).wf(),
{
    if !config.decay_enabled {
        return Err(ReputationError::DecayNotApplicable);
    }
    if user.last_activity <= 0 {
        return Err(ReputationError::DecayNotApplicable);
    }
    let days_inactive: u64 = if now <= user.last_activity {
        0
    } else {
        ((now - user.last_activity) as u64) / 86400
    };
    if days_inactive == 0 {
        return Err(ReputationError::DecayNotApplicable);
    }
    let factor = ReputationUtils::calculate_decay_factor(
        user.last_activity,
        now,
        config.decay_rate,
    );
    proof {
        lemma_decay_factor_bounds(days_between(user.last_activity, now), config.decay_rate);
    }
    user.category_points[0] = scale_by_factor(user.category_points[0], factor);
    user.category_points[1] = scale_by_factor(user.category_points[1], factor);
    user.category_points[2] = scale_by_factor(user.category_points[2], factor);
    user.category_points[3] = scale_by_factor(user.category_points[3], factor);
    user.raw_votes[0] = scale_by_factor(user.raw_votes[0], factor);
    user.raw_votes[1] = scale_by_factor(user.raw_votes[1], factor);
    user.raw_votes[2] = scale_by_factor(user.raw_votes[2], factor);
    user.raw_votes[3] = scale_by_factor(user.raw_votes[3], factor);
    let total = user.calculate_total_score(&config.category_weights);
    user.role_level = ReputationUtils::calculate_role_level(total, &config.role_thresholds);
    user.last_updated = now;
    Ok(())
}

/// What a decay pass would report without mutating anything: the current
/// points, the projected points, and whether a decay is pending. The
/// preview flags a pending decay only after a week of inactivity and
/// projects it at a flat 500 basis points.
#[derive(Clone, Copy, Debug, PartialEq, Eq)]
pub struct DecayPreview {
    /// Category points as stored today.
    pub current_points: [u64; 4],
    /// Category points the projected decay would leave.
    pub points_after_decay: [u64; 4],
    /// Per-category difference between the two.
    pub decay_amount: [u64; 4],
    /// Full days since the record's last activity.
    pub days_since_activity: u64,
    /// Whether the preview projects a decay at all.
    pub will_decay: bool,
}

/// Computes the decay preview for a record at `now`.
pub fn calculate_decay_preview(
    config: &ReputationConfig,
    user: &UserReputation,
    now: i64,
) -> (preview: DecayPreview)
    requires
        user.wf(),
        now >= user.last_activity,
    ensures
        preview.current_points == user.category_points,
        preview.days_since_activity == (if user.last_activity > 0 {
            days_between(user.last_activity, now)
        } else {
            0
        }),
        preview.will_decay == (config.decay_enabled && preview.days_since_activity >= 7),
        preview.will_decay ==> forall|i: int|
            0 <= i < 4 ==> preview.decay_amount[i] == user.category_points[i] * 500 / 10000
                && preview.points_after_decay[i] == user.category_points[i]
                - preview.decay_amount[i],
        !preview.will_decay ==> preview.points_after_decay == user.category_points
            && preview.decay_amount == [0u64, 0u64, 0u64, 0u64],
{
    let days_inactive: u64 = if user.last_activity > 0 && now > user.last_activity {
        ((now - user.last_activity) as u64) / 86400
    } else {
        0
    };
    let will_decay = config.decay_enabled && days_inactive >= 7;
    let mut decay_amounts: [u64; 4] = [0, 0, 0, 0];
    let mut new_category_points: [u64; 4] = user.category_points;
    if will_decay {
        let a0 = scale_by_factor(user.category_points[0], 500);
        let a1 = scale_by_factor(user.category_points[1], 500);
        let a2 = scale_by_factor(user.category_points[2], 500);
        let a3 = scale_by_factor(user.category_points[3], 500);
        decay_amounts[0] = a0;
        decay_amounts[1] = a1;
        decay_amounts[2] = a2;
        decay_amounts[3] = a3;
        new_category_points[0] = user.category_points[0] - a0;
        new_category_points[1] = user.category_points[1] - a1;
        new_category_points[2] = user.category_points[2] - a2;
        new_category_points[3] = user.category_points[3] - a3;
    }
    proof {
        if user.last_activity > 0 && now > user.last_activity {
            assert(days_inactive == days_between(user.last_activity, now));
        }
        if !will_decay {
            assert(new_category_points =~= user.category_points);
            assert(decay_amounts =~= [0u64, 0u64, 0u64, 0u64]);
        }
    }
    DecayPreview {
        current_points: user.category_points,
        points_after_decay: new_category_points,
        decay_amount: decay_amounts,
        days_since_activity: days_inactive,
        will_decay,
    }
}

/// Restarts the decay clock: stamps the record's activity at `now` so no
/// inactivity span is pending. The authorization gate is the caller's
/// concern.
pub fn reset_decay_timer(user: &mut UserReputation, now: i64)
    requires
        old(user).wf(),
        now >= 0,
    ensures
        *final(user) == (UserReputation { last_activity: now, last_updated: now, ..*old(user) }),
        final(user).wf(),
{
    user.last_activity = now;
    user.last_updated = now;
}

} // verus!
