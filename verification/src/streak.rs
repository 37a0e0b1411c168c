//! Consecutive-day participation tracking: the streak transition keyed on
//! day buckets, its bonus payout into the governance category, and the
//! streak milestone badges.

use vstd::prelude::*;
use crate::errors::ReputationError;
use crate::state::{AchievementType, UserReputation};
use crate::utils::{day_of, streak_bonus_spec, ReputationUtils};

verus! {

/// Both timestamps fall into the same UTC day bucket.
pub open spec fn same_day(last_activity: i64, now: i64) -> bool {
    day_of(now) == day_of(last_activity)
}

/// `now` falls into exactly the next UTC day bucket.
pub open spec fn consecutive_day(last_activity: i64, now: i64) -> bool {
    day_of(now) == day_of(last_activity) + 1
}

/// More than one full day bucket lies between the two timestamps.
pub open spec fn day_gap(last_activity: i64, now: i64) -> bool {
    day_of(now) > day_of(last_activity) + 1
}

/// The badge bits a streak transition to `new_streak` adds: the weekly
/// badge at exactly 7 days, the monthly badge at exactly 30. The triggers
/// use exact equality, not "at least": a streak that jumps past the exact
/// value never earns the badge from this transition.
pub open spec fn streak_badge_bits(new_streak: u32) -> u32 {
    if new_streak == 7 {
        1u32 << AchievementType::WeeklyStreak.bit_spec()
    } else if new_streak == 30 {
        1u32 << AchievementType::MonthlyStreak.bit_spec()
    } else {
        0
    }
}

/// A consecutive-day transition on `u` at `now` would overflow one of the
/// streak counter or the two governance accumulators the bonus feeds.
pub open spec fn streak_overflow(u: UserReputation, now: i64) -> bool {
    consecutive_day(u.last_activity, now) && (u.current_streak + 1 > u32::MAX || u.category_points[0]
        + streak_bonus_spec(((u.current_streak + 1) as u32)) > u64::MAX || u.raw_votes[0]
        + streak_bonus_spec(((u.current_streak + 1) as u32)) > u64::MAX)
}

/// Advances the user's streak for an action at `now`, keyed on the day
/// bucket of the last recorded activity:
/// - same bucket: a no-op, idempotent within a day;
/// - exactly one bucket later: the streak grows by one, the longest
///   streak is raised if exceeded, the step-table bonus is paid into the
///   governance category and its raw-vote accumulator, and the weekly and
///   monthly badges are awarded at exactly 7 and 30 days;
/// - a gap of more than one bucket: the streak restarts at 1, no bonus.
/// Fails only with `NumericalOverflow`, leaving the record unchanged.
pub fn update_user_streak(user: &mut UserReputation, now: i64) -> (r: Result<(), ReputationError>)
    requires
        old(user).wf(),
        now >= old(user).last_activity,
    ensures
        r is Err <==> streak_overflow(*old(user), now),
        r is Err ==> r->Err_0 == ReputationError::NumericalOverflow && *final(user) == *old(user),
        same_day(old(user).last_activity, now) ==> *final(user) == *old(user),
        r is Ok && consecutive_day(old(user).last_activity, now) ==> ({
            let new_streak = (old(user).current_streak + 1) as u32;
            let bonus = streak_bonus_spec(new_streak);
            &&& final(user).current_streak == new_streak
            &&& final(user).longest_streak == (if new_streak > old(user).longest_streak {
                new_streak
            } else {
                old(user).longest_streak
            })
            &&& final(user).category_points@ == old(user).category_points@.update(
                0,
                (old(user).category_points[0] + bonus) as u64,
            )
            &&& final(user).raw_votes@ == old(user).raw_votes@.update(
                0,
                (old(user).raw_votes[0] + bonus) as u64,
            )
            &&& final(user).achievements == old(user).achievements | streak_badge_bits(new_streak)
            &&& final(user).last_activity == now
            &&& final(user).last_updated == now
        }),
        day_gap(old(user).last_activity, now) ==> *final(user) == (UserReputation {
            current_streak: 1,
            longest_streak: if old(user).longest_streak < 1 {
                1
            } else {
                old(user).longest_streak
            },
            last_activity: now,
            last_updated: now,
            ..*old(user)
        }),
        *final(user) == *old(user) || (UserReputation {
            current_streak: 0,
            longest_streak: 0,
            achievements: 0,
            last_activity: 0,
            last_updated: 0,
            category_points: [0u64, 0u64, 0u64, 0u64],
            raw_votes: [0u64, 0u64, 0u64, 0u64],
            ..*final(user)
        }) == (UserReputation {
            current_streak: 0,
            longest_streak: 0,
            achievements: 0,
            last_activity: 0,
            last_updated: 0,
            category_points: [0u64, 0u64, 0u64, 0u64],
            raw_votes: [0u64, 0u64, 0u64, 0u64],
            ..*old(user)
        }),
        final(user).wf(),
{
    let current_day = ReputationUtils::day_number(now);
    let last_activity_day = ReputationUtils::day_number(user.last_activity);
    if last_activity_day == current_day {
        return Ok(());
    }
    if last_activity_day + 1 == current_day {
        let new_streak = match user.current_streak.checked_add(1) {
            Some(s) => s,
            None => {
                return Err(ReputationError::NumericalOverflow);
            },
        };
        let bonus = ReputationUtils::calculate_streak_bonus(new_streak);
        let new_governance_points = match user.category_points[0].checked_add(bonus) {
            Some(v) => v,
            None => {
                return Err(ReputationError::NumericalOverflow);
            },
        };
        let new_governance_raw = match user.raw_votes[0].checked_add(bonus) {
            Some(v) => v,
            None => {
                return Err(ReputationError::NumericalOverflow);
            },
        };
        user.current_streak = new_streak;
        if new_streak > user.longest_streak {
            user.longest_streak = new_streak;
        }
        if new_streak == 7 {
            user.award_achievement(AchievementType::WeeklyStreak);
        } else if new_streak == 30 {
            user.award_achievement(AchievementType::MonthlyStreak);
        } else {
            proof {
                let a = user.achievements;
                assert(a | 0u32 == a) by (bit_vector);
            }
        }
        user.category_points[0] = new_governance_points;
        user.raw_votes[0] = new_governance_raw;
        user.last_activity = now;
        user.last_updated = now;
        Ok(())
    } else {
        user.current_streak = 1;
        if user.longest_streak < 1 {
            user.longest_streak = 1;
        }
        user.last_activity = now;
        user.last_updated = now;
        Ok(())
    }
}

/// Snapshot of a user's streak standing at `now`, for display: no record
/// is mutated.
#[derive(Clone, Copy, Debug, PartialEq, Eq, Structural)]
pub struct StreakInfo {
    pub user: u64,
    pub current_streak: u32,
    pub longest_streak: u32,
    pub days_since_last_activity: u32,
    pub streak_at_risk: bool,
    pub streak_broken: bool,
    pub current_streak_bonus: u64,
    pub next_day_bonus: u64,
    pub last_activity: i64,
}

/// The bonus one more consecutive day would pay on top of `streak`.
pub open spec fn next_streak_bonus(streak: u32) -> u64 {
    streak_bonus_spec(
        if streak >= 180 {
            streak
        } else {
            (streak + 1) as u32
        },
    )
}

/// Reports the user's streak standing at `now`: a streak is at risk after
/// one missed bucket and broken after more than one, and the next-day
/// bonus projects the step table one day ahead (or restarts at 1 when the
/// streak is already broken).
pub fn get_user_streak_info(user: &UserReputation, now: i64) -> (info: StreakInfo)
    requires
        user.wf(),
        now >= user.last_activity,
        day_of(now) - day_of(user.last_activity) <= u32::MAX,
    ensures
        info.user == user.user,
        info.current_streak == user.current_streak,
        info.longest_streak == user.longest_streak,
        info.days_since_last_activity == day_of(now) - day_of(user.last_activity),
        info.streak_at_risk == (day_of(now) > day_of(user.last_activity)),
        info.streak_broken == day_gap(user.last_activity, now),
        info.current_streak_bonus == streak_bonus_spec(user.current_streak),
        info.next_day_bonus == (if day_gap(user.last_activity, now) {
            streak_bonus_spec(1)
        } else {
            next_streak_bonus(user.current_streak)
        }),
        info.last_activity == user.last_activity,
{
    let current_day = ReputationUtils::day_number(now);
    let last_activity_day = ReputationUtils::day_number(user.last_activity);
    let days_since_activity = current_day - last_activity_day;
    let streak_at_risk = days_since_activity >= 1;
    let streak_broken = days_since_activity > 1;
    let next_day_bonus = if !streak_broken {
        let next = if user.current_streak >= 180 {
            user.current_streak
        } else {
            user.current_streak + 1
        };
        ReputationUtils::calculate_streak_bonus(next)
    } else {
        ReputationUtils::calculate_streak_bonus(1)
    };
    StreakInfo {
        user: user.user,
        current_streak: user.current_streak,
        longest_streak: user.longest_streak,
        days_since_last_activity: days_since_activity as u32,
        streak_at_risk,
        streak_broken,
        current_streak_bonus: ReputationUtils::calculate_streak_bonus(user.current_streak),
        next_day_bonus,
        last_activity: user.last_activity,
    }
}

/// Overwrites the user's streak with an administrative value of at most
/// 365, raising the longest streak if exceeded. The authorization gate is
/// the caller's concern.
pub fn reset_user_streak(user: &mut UserReputation, new_streak: u32, now: i64) -> (r: Result<
    (),
    ReputationError,
>)
    requires
        old(user).wf(),
        now >= 0,
    ensures
        r is Ok <==> new_streak <= 365,
        r is Err ==> r->Err_0 == ReputationError::InvalidConfigurationValues && *final(user)
            == *old(user),
        r is Ok ==> *final(user) == (UserReputation {
            current_streak: new_streak,
            longest_streak: if new_streak > old(user).longest_streak {
                new_streak
            } else {
                old(user).longest_streak
            },
            last_updated: now,
            ..*old(user)
        }),
        final(user).wf(),
{
    if new_streak > 365 {
        return Err(ReputationError::InvalidConfigurationValues);
    }
    user.current_streak = new_streak;
    if new_streak > user.longest_streak {
        user.longest_streak = new_streak;
    }
    user.last_updated = now;
    Ok(())
}

} // verus!
