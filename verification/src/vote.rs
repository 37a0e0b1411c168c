//! The vote engine: the single state transition that validates a vote,
//! applies its points to the target, advances the voter's streak and
//! badges, and commits the rate-limiting record. Either every effect is
//! committed or, on the first failing check, none is.

use vstd::prelude::*;
use crate::errors::ReputationError;
use crate::state::{
    daily_votes_after_reset, AchievementType, ReputationCategory, ReputationConfig, UserReputation,
    VoteHistoryEntry, VotingRecord,
};
use crate::streak::{
    consecutive_day, day_gap, same_day, streak_badge_bits, streak_overflow, update_user_streak,
};
use crate::utils::{day_of, role_level_spec, score_of, streak_bonus_spec, ReputationUtils};

verus! {

/// Points a vote carries: ten per weight unit, plus a damped tenth of the
/// voter's current streak bonus, so established voters' opinions weigh
/// slightly more.
pub open spec fn total_points_spec(vote_weight: u8, streak: u32) -> int {
    vote_weight * 10 + streak_bonus_spec(streak) / 10
}

/// First failing validation of a vote, in the fixed order the engine
/// checks them: self-vote, weight range, account age, cooldown, daily cap
/// (after the day-bucket reset), and minimum reputation.
pub open spec fn vote_precheck_error(
    config: ReputationConfig,
    voter: UserReputation,
    target: UserReputation,
    rec: VotingRecord,
    vote_weight: u8,
    now: i64,
) -> Option<ReputationError> {
    if voter.user == target.user {
        Some(ReputationError::CannotVoteOnSelf)
    } else if !(1 <= vote_weight <= 10) {
        Some(ReputationError::InvalidVoteWeight)
    } else if now - voter.created_at < config.min_account_age {
        Some(ReputationError::AccountTooNew)
    } else if now - rec.last_vote < config.voting_cooldown {
        Some(ReputationError::CooldownActive)
    } else if daily_votes_after_reset(rec, now) >= config.daily_vote_limit {
        Some(ReputationError::DailyLimitExceeded)
    } else if voter.total_score < config.min_reputation_to_vote {
        Some(ReputationError::InsufficientReputationToVote)
    } else {
        None
    }
}

/// First arithmetic-safety failure of a vote that passed every
/// validation, in effect order: the target's raw-vote, category-point and
/// seasonal accumulators, the voter's streak transition, the voter's vote
/// counter, and the pair's vote counter.
pub open spec fn vote_arith_error(
    voter: UserReputation,
    target: UserReputation,
    rec: VotingRecord,
    is_upvote: bool,
    ci: int,
    vote_weight: u8,
    now: i64,
) -> Option<ReputationError> {
    let tp = total_points_spec(vote_weight, voter.current_streak);
    if is_upvote && target.raw_votes[ci] + tp > u64::MAX {
        Some(ReputationError::NumericalOverflow)
    } else if is_upvote && target.category_points[ci] + tp > u64::MAX {
        Some(ReputationError::NumericalOverflow)
    } else if !is_upvote && tp / 2 > target.category_points[ci] {
        Some(ReputationError::NegativeReputationNotAllowed)
    } else if is_upvote && target.seasonal_points[ci] + tp > u64::MAX {
        Some(ReputationError::NumericalOverflow)
    } else if streak_overflow(voter, now) {
        Some(ReputationError::NumericalOverflow)
    } else if voter.votes_cast + 1 > u64::MAX {
        Some(ReputationError::NumericalOverflow)
    } else if rec.total_votes_on_target + 1 > u32::MAX {
        Some(ReputationError::NumericalOverflow)
    } else {
        None
    }
}

/// The badge bits a vote adds on the voter once the vote counter has
/// advanced to `votes_cast_after`: the first vote ever, and the hundredth
/// onward.
pub open spec fn vote_badge_bits(votes_cast_after: int) -> u32 {
    (if votes_cast_after == 1 {
        1u32 << 0u32
    } else {
        0u32
    }) | (if votes_cast_after >= 100 {
        1u32 << 4u32
    } else {
        0u32
    })
}

/// Casts a vote of `voter` on `target` in `category` with a weight of 1
/// through 10. The checks run in a fixed order and the first failure
/// aborts the whole operation with no mutation of any record. On
/// success:
/// - an upvote adds `weight * 10` plus a tenth of the voter's streak
///   bonus to the target's raw-vote, category-point and seasonal
///   accumulators of the category; a downvote subtracts half that amount
///   from the category points only, never below zero;
/// - the target's total score and role level are recomputed;
/// - the voter's streak transition runs, the vote counter advances, and
///   the first-vote and consistent-voter badges are granted when their
///   thresholds are newly met;
/// - the rate-limiting record commits the day-bucket reset, the new
///   counters and the history entry.
pub fn cast_vote(
    config: &ReputationConfig,
    voter: &mut UserReputation,
    target: &mut UserReputation,
    record: &mut VotingRecord,
    is_upvote: bool,
    category: ReputationCategory,
    vote_weight: u8,
    now: i64,
) -> (r: Result<(), ReputationError>)
    requires
        old(voter).wf(),
        old(target).wf(),
        old(record).wf(),
        now >= old(voter).created_at,
        now >= old(voter).last_activity,
        now >= old(record).last_vote,
    ensures
        r is Err <==> vote_precheck_error(
            *config,
            *old(voter),
            *old(target),
            *old(record),
            vote_weight,
            now,
        ) is Some || vote_arith_error(
            *old(voter),
            *old(target),
            *old(record),
            is_upvote,
            category.index_spec(),
            vote_weight,
            now,
        ) is Some,
        vote_precheck_error(
            *config,
            *old(voter),
            *old(target),
            *old(record),
            vote_weight,
            now,
        ) is Some ==> r == Err::<(), ReputationError>(
            vote_precheck_error(
                *config,
                *old(voter),
                *old(target),
                *old(record),
                vote_weight,
                now,
            )->0,
        ),
        vote_precheck_error(
            *config,
            *old(voter),
            *old(target),
            *old(record),
            vote_weight,
            now,
        ) is None && vote_arith_error(
            *old(voter),
            *old(target),
            *old(record),
            is_upvote,
            category.index_spec(),
            vote_weight,
            now,
        ) is Some ==> r == Err::<(), ReputationError>(
            vote_arith_error(
                *old(voter),
                *old(target),
                *old(record),
                is_upvote,
                category.index_spec(),
                vote_weight,
                now,
            )->0,
        ),
        r is Err ==> *final(voter) == *old(voter) && *final(target) == *old(target)
            && *final(record) == *old(record),
        !is_upvote ==> final(target).raw_votes == old(target).raw_votes,
        r is Ok ==> ({
            let ci = category.index_spec();
            let tp = total_points_spec(vote_weight, old(voter).current_streak);
            &&& is_upvote ==> final(target).raw_votes@ == old(target).raw_votes@.update(
                ci,
                (old(target).raw_votes[ci] + tp) as u64,
            ) && final(target).category_points@ == old(target).category_points@.update(
                ci,
                (old(target).category_points[ci] + tp) as u64,
            ) && final(target).seasonal_points@ == old(target).seasonal_points@.update(
                ci,
                (old(target).seasonal_points[ci] + tp) as u64,
            )
            &&& !is_upvote ==> final(target).category_points@
                == old(target).category_points@.update(
                ci,
                (old(target).category_points[ci] - tp / 2) as u64,
            ) && final(target).seasonal_points == old(target).seasonal_points
            &&& final(target).total_score == score_of(
                final(target).category_points,
                config.category_weights,
            )
            &&& final(target).role_level == role_level_spec(
                final(target).total_score,
                config.role_thresholds,
            )
            &&& final(target).last_activity == now
            &&& final(target).last_updated == now
        }),
        r is Ok && is_upvote && old(voter).current_streak == 0 ==> ({
            let ci = category.index_spec();
            &&& final(target).raw_votes[ci] == old(target).raw_votes[ci] + vote_weight * 10
            &&& final(target).category_points[ci] == old(target).category_points[ci] + vote_weight
                * 10
        }),
        r is Ok ==> (UserReputation {
            category_points: [0u64, 0u64, 0u64, 0u64],
            raw_votes: [0u64, 0u64, 0u64, 0u64],
            seasonal_points: [0u64, 0u64, 0u64, 0u64],
            total_score: 0,
            role_level: 0,
            last_activity: 0,
            last_updated: 0,
            ..*final(target)
        }) == (UserReputation {
            category_points: [0u64, 0u64, 0u64, 0u64],
            raw_votes: [0u64, 0u64, 0u64, 0u64],
            seasonal_points: [0u64, 0u64, 0u64, 0u64],
            total_score: 0,
            role_level: 0,
            last_activity: 0,
            last_updated: 0,
            ..*old(target)
        }),
        r is Ok ==> ({
            let ns = if consecutive_day(old(voter).last_activity, now) {
                (old(voter).current_streak + 1) as u32
            } else if day_gap(old(voter).last_activity, now) {
                1u32
            } else {
                old(voter).current_streak
            };
            let bonus = if consecutive_day(old(voter).last_activity, now) {
                streak_bonus_spec(ns)
            } else {
                0
            };
            let sbits = if consecutive_day(old(voter).last_activity, now) {
                streak_badge_bits(ns)
            } else {
                0
            };
            &&& final(voter).current_streak == ns
            &&& final(voter).longest_streak == (if ns > old(voter).longest_streak {
                ns
            } else {
                old(voter).longest_streak
            })
            &&& final(voter).category_points@ == old(voter).category_points@.update(
                0,
                (old(voter).category_points[0] + bonus) as u64,
            )
            &&& final(voter).raw_votes@ == old(voter).raw_votes@.update(
                0,
                (old(voter).raw_votes[0] + bonus) as u64,
            )
            &&& final(voter).achievements == old(voter).achievements | sbits | vote_badge_bits(
                old(voter).votes_cast + 1,
            )
            &&& final(voter).votes_cast == old(voter).votes_cast + 1
            &&& final(voter).last_activity == now
            &&& final(voter).last_updated == (if same_day(old(voter).last_activity, now) {
                old(voter).last_updated
            } else {
                now
            })
        }),
        r is Ok && !consecutive_day(old(voter).last_activity, now) ==> ({
            &&& final(voter).category_points == old(voter).category_points
            &&& final(voter).raw_votes == old(voter).raw_votes
        }),
        r is Ok ==> (UserReputation {
            current_streak: 0,
            longest_streak: 0,
            category_points: [0u64, 0u64, 0u64, 0u64],
            raw_votes: [0u64, 0u64, 0u64, 0u64],
            achievements: 0,
            votes_cast: 0,
            last_activity: 0,
            last_updated: 0,
            ..*final(voter)
        }) == (UserReputation {
            current_streak: 0,
            longest_streak: 0,
            category_points: [0u64, 0u64, 0u64, 0u64],
            raw_votes: [0u64, 0u64, 0u64, 0u64],
            achievements: 0,
            votes_cast: 0,
            last_activity: 0,
            last_updated: 0,
            ..*old(voter)
        }),
        r is Ok ==> *final(record) == (VotingRecord {
            last_vote: now,
            daily_votes: (daily_votes_after_reset(*old(record), now) + 1) as u8,
            last_daily_reset: if day_of(now) > day_of(old(record).last_daily_reset) {
                now
            } else {
                old(record).last_daily_reset
            },
            total_votes_on_target: (old(record).total_votes_on_target + 1) as u32,
            vote_history: [VoteHistoryEntry { category, is_upvote, timestamp: now }],
            history_index: 0,
            ..*old(record)
        }),
        final(voter).wf(),
        final(target).wf(),
        final(record).wf(),
{
    if voter.user == target.user {
        return Err(ReputationError::CannotVoteOnSelf);
    }
    if let Err(e) = ReputationUtils::validate_vote_weight(vote_weight) {
        return Err(e);
    }
    if let Err(e) = ReputationUtils::check_account_age(
        voter.created_at,
        config.min_account_age,
        now,
    ) {
        return Err(e);
    }
    if let Err(e) = ReputationUtils::check_voting_cooldown(
        record.last_vote,
        config.voting_cooldown,
        now,
    ) {
        return Err(e);
    }
    let mut new_record = *record;
    if new_record.is_daily_limit_reached(config.daily_vote_limit, now) {
        return Err(ReputationError::DailyLimitExceeded);
    }
    if let Err(e) = ReputationUtils::check_minimum_reputation(
        voter.total_score,
        config.min_reputation_to_vote,
    ) {
        return Err(e);
    }

    let base_points: u64 = (vote_weight as u64) * 10;
    let streak_bonus = ReputationUtils::calculate_streak_bonus(voter.current_streak);
    let total_points = base_points + streak_bonus / 10;
    let category_index = category.to_index();

    let mut new_target = *target;
    if is_upvote {
        new_target.raw_votes[category_index] = match ReputationUtils::safe_add_points(
            new_target.raw_votes[category_index],
            total_points,
        ) {
            Ok(v) => v,
            Err(e) => {
                return Err(e);
            },
        };
        new_target.category_points[category_index] = match ReputationUtils::safe_add_points(
            new_target.category_points[category_index],
            total_points,
        ) {
            Ok(v) => v,
            Err(e) => {
                return Err(e);
            },
        };
    } else {
        let downvote_points = total_points / 2;
        new_target.category_points[category_index] = match ReputationUtils::safe_subtract_points(
            new_target.category_points[category_index],
            downvote_points,
        ) {
            Ok(v) => v,
            Err(e) => {
                return Err(e);
            },
        };
    }
    new_target.seasonal_points[category_index] = match ReputationUtils::safe_add_points(
        new_target.seasonal_points[category_index],
        if is_upvote {
            total_points
        } else {
            0
        },
    ) {
        Ok(v) => v,
        Err(e) => {
            return Err(e);
        },
    };
    proof {
        if !is_upvote {
            assert(new_target.seasonal_points =~= old(target).seasonal_points);
        }
    }
    let total = new_target.calculate_total_score(&config.category_weights);
    new_target.role_level = ReputationUtils::calculate_role_level(total, &config.role_thresholds);
    new_target.last_activity = now;
    new_target.last_updated = now;

    let mut new_voter = *voter;
    if let Err(e) = update_user_streak(&mut new_voter, now) {
        return Err(e);
    }
    new_voter.votes_cast = match new_voter.votes_cast.checked_add(1) {
        Some(v) => v,
        None => {
            return Err(ReputationError::NumericalOverflow);
        },
    };
    new_voter.last_activity = now;
    let first_vote = ReputationUtils::should_award_achievement(
        &new_voter,
        AchievementType::FirstVote,
    );
    let consistent = ReputationUtils::should_award_achievement(
        &new_voter,
        AchievementType::ConsistentVoter,
    );
    let vote_badges: u32 = (if first_vote {
        1u32 << 0u32
    } else {
        0u32
    }) | (if consistent {
        1u32 << 4u32
    } else {
        0u32
    });
    proof {
        let a = new_voter.achievements;
        assert(a | 0u32 == a) by (bit_vector);
        if !consecutive_day(old(voter).last_activity, now) {
            assert(new_voter.category_points@ =~= old(voter).category_points@.update(
                0,
                old(voter).category_points[0],
            ));
            assert(new_voter.raw_votes@ =~= old(voter).raw_votes@.update(
                0,
                old(voter).raw_votes[0],
            ));
        }
    }
    new_voter.achievements = new_voter.achievements | vote_badges;

    new_record.last_vote = now;
    new_record.daily_votes = new_record.daily_votes + 1;
    new_record.total_votes_on_target = match new_record.total_votes_on_target.checked_add(1) {
        Some(v) => v,
        None => {
            return Err(ReputationError::NumericalOverflow);
        },
    };
    new_record.add_vote_to_history(category, is_upvote, now);

    *target = new_target;
    *voter = new_voter;
    *record = new_record;
    Ok(())
}

} // verus!
