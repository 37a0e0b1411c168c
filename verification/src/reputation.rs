//! Lifecycle of a user record: creation with all-zero accumulators, and
//! the administrative point correction.

use vstd::prelude::*;
use crate::errors::ReputationError;
use crate::state::{ReputationCategory, ReputationConfig, UserReputation};
use crate::utils::{role_level_spec, score_of, ReputationUtils};

verus! {

/// Magnitude of a negative correction as an unsigned value.
pub open spec fn negative_magnitude(points_change: i64) -> int {
    -(points_change as int)
}

/// Whether an administrative correction of `points_change` can be applied
/// to the record without overflow or a negative accumulator.
pub open spec fn correction_fits(u: UserReputation, ci: int, points_change: i64) -> bool {
    if points_change >= 0 {
        u.category_points[ci] + points_change <= u64::MAX && u.raw_votes[ci] + points_change
            <= u64::MAX
    } else {
        negative_magnitude(points_change) <= u.category_points[ci]
    }
}

/// Administrative point correction: a non-negative change is added to
/// both the category-point and raw-vote accumulators of the category, a
/// negative change is subtracted from the category points only and never
/// below zero. The total score and role level are recomputed and both
/// activity timestamps stamped. The `reason` note is bounded at 200
/// characters. The authorization gate is the caller's concern; on any
/// failure the record is unchanged.
pub fn update_user_reputation(
    config: &ReputationConfig,
    user: &mut UserReputation,
    category: ReputationCategory,
    points_change: i64,
    reason: &str,
    now: i64,
) -> (r: Result<(), ReputationError>)
    requires
        old(user).wf(),
        now >= 0,
    ensures
        r is Ok <==> reason@.len() <= 200 && correction_fits(
            *old(user),
            category.index_spec(),
            points_change,
        ),
        reason@.len() > 200 ==> r == Err::<(), ReputationError>(ReputationError::StringTooLong),
        reason@.len() <= 200 && points_change >= 0 && !correction_fits(
            *old(user),
            category.index_spec(),
            points_change,
        ) ==> r == Err::<(), ReputationError>(ReputationError::NumericalOverflow),
        reason@.len() <= 200 && points_change < 0 && !correction_fits(
            *old(user),
            category.index_spec(),
            points_change,
        ) ==> r == Err::<(), ReputationError>(ReputationError::NegativeReputationNotAllowed),
        r is Err ==> *final(user) == *old(user),
        r is Ok ==> ({
            let ci = category.index_spec();
            &&& final(user).category_points@ == old(user).category_points@.update(
                ci,
                if points_change >= 0 {
                    (old(user).category_points[ci] + points_change) as u64
                } else {
                    (old(user).category_points[ci] - negative_magnitude(points_change)) as u64
                },
            )
            &&& final(user).raw_votes@ == (if points_change >= 0 {
                old(user).raw_votes@.update(ci, (old(user).raw_votes[ci] + points_change) as u64)
            } else {
                old(user).raw_votes@
            })
            &&& final(user).total_score == score_of(
                final(user).category_points,
                config.category_weights,
            )
            &&& final(user).role_level == role_level_spec(
                final(user).total_score,
                config.role_thresholds,
            )
            &&& final(user).last_updated == now
            &&& final(user).last_activity == now
        }),
        (UserReputation {
            category_points: [0u64, 0u64, 0u64, 0u64],
            raw_votes: [0u64, 0u64, 0u64, 0u64],
            total_score: 0,
            role_level: 0,
            last_updated: 0,
            last_activity: 0,
            ..*final(user)
        }) == (UserReputation {
            category_points: [0u64, 0u64, 0u64, 0u64],
            raw_votes: [0u64, 0u64, 0u64, 0u64],
            total_score: 0,
            role_level: 0,
            last_updated: 0,
            last_activity: 0,
            ..*old(user)
        }),
        final(user).wf(),
{
    if let Err(e) = ReputationUtils::validate_string_length(reason, 200) {
        return Err(e);
    }
    let category_index = category.to_index();
    if points_change >= 0 {
        let addition = points_change as u64;
        let new_points = match user.category_points[category_index].checked_add(addition) {
            Some(v) => v,
            None => {
                return Err(ReputationError::NumericalOverflow);
            },
        };
        let new_raw = match user.raw_votes[category_index].checked_add(addition) {
            Some(v) => v,
            None => {
                return Err(ReputationError::NumericalOverflow);
            },
        };
        user.category_points[category_index] = new_points;
        user.raw_votes[category_index] = new_raw;
    } else {
        let magnitude: u64 = if points_change == i64::MIN {
            9223372036854775808u64
        } else {
            (-points_change) as u64
        };
        if magnitude > user.category_points[category_index] {
            return Err(ReputationError::NegativeReputationNotAllowed);
        }
        user.category_points[category_index] = user.category_points[category_index] - magnitude;
    }
    let total = user.calculate_total_score(&config.category_weights);
    user.role_level = ReputationUtils::calculate_role_level(total, &config.role_thresholds);
    user.last_updated = now;
    user.last_activity = now;
    Ok(())
}

/// A fresh user record: all accumulators zero, no badges, no streak, and
/// every timestamp set to `now`.
pub fn initialize_user_reputation(user: u64, now: i64) -> (record: UserReputation)
    requires
        now >= 0,
    ensures
        record == (UserReputation {
            user,
            category_points: [0u64, 0u64, 0u64, 0u64],
            raw_votes: [0u64, 0u64, 0u64, 0u64],
            seasonal_points: [0u64, 0u64, 0u64, 0u64],
            total_score: 0,
            role_level: 0,
            achievements: 0,
            created_at: now,
            last_activity: now,
            last_updated: now,
            current_streak: 0,
            longest_streak: 0,
            best_season_rank: 0,
            votes_cast: 0,
        }),
        record.wf(),
{
    UserReputation {
        user,
        category_points: [0, 0, 0, 0],
        raw_votes: [0, 0, 0, 0],
        seasonal_points: [0, 0, 0, 0],
        total_score: 0,
        role_level: 0,
        achievements: 0,
        created_at: now,
        last_activity: now,
        last_updated: now,
        current_streak: 0,
        longest_streak: 0,
        best_season_rank: 0,
        votes_cast: 0,
    }
}

} // verus!
