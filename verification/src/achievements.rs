//! Badge bookkeeping: administrative award with its bonus payout,
//! revocation, the reactive auto-award over the stat-gated badges, and
//! the progress report.

use vstd::prelude::*;
use crate::errors::ReputationError;
use crate::state::{has_badge, AchievementType, ReputationConfig, UserReputation};
use crate::utils::{role_level_spec, score_of, should_award_spec, ReputationUtils};

verus! {

/// The governance bonus an administrative award of each badge pays.
pub open spec fn achievement_bonus_spec(achievement: AchievementType) -> u64 {
    match achievement {
        AchievementType::FirstVote => 50,
        AchievementType::WeeklyStreak => 100,
        AchievementType::MonthlyStreak => 500,
        AchievementType::TopContributor => 1000,
        AchievementType::ConsistentVoter => 200,
        AchievementType::CategoryExpert => 300,
        AchievementType::CommunityBuilder => 750,
        AchievementType::SeasonWinner => 2000,
    }
}

/// Administrative badge award: sets the badge's bit, pays the badge's
/// bonus into the governance category, and recomputes the total score and
/// role level. Fails with `AchievementAlreadyAwarded` when the badge is
/// held, and with `NumericalOverflow` when the bonus cannot be added; on
/// failure the record is unchanged. The authorization gate is the
/// caller's concern.
pub fn award_achievement(
    config: &ReputationConfig,
    user: &mut UserReputation,
    achievement: AchievementType,
    now: i64,
) -> (r: Result<(), ReputationError>)
    requires
        old(user).wf(),
        now >= 0,
    ensures
        r is Ok <==> !has_badge(old(user).achievements, achievement) && old(user).category_points[0]
            + achievement_bonus_spec(achievement) <= u64::MAX,
        has_badge(old(user).achievements, achievement) ==> r == Err::<(), ReputationError>(
            ReputationError::AchievementAlreadyAwarded,
        ),
        r is Err && !has_badge(old(user).achievements, achievement) ==> r->Err_0
            == ReputationError::NumericalOverflow,
        r is Err ==> *final(user) == *old(user),
        r is Ok ==> ({
            &&& final(user).achievements == old(user).achievements | (1u32
                << achievement.bit_spec())
            &&& final(user).category_points@ == old(user).category_points@.update(
                0,
                (old(user).category_points[0] + achievement_bonus_spec(achievement)) as u64,
            )
            &&& final(user).total_score == score_of(
                final(user).category_points,
                config.category_weights,
            )
            &&& final(user).role_level == role_level_spec(
                final(user).total_score,
                config.role_thresholds,
            )
            &&& final(user).last_updated == now
        }),
        r is Ok ==> has_badge(final(user).achievements, achievement),
        (UserReputation {
            achievements: 0,
            category_points: [0u64, 0u64, 0u64, 0u64],
            total_score: 0,
            role_level: 0,
            last_updated: 0,
            ..*final(user)
        }) == (UserReputation {
            achievements: 0,
            category_points: [0u64, 0u64, 0u64, 0u64],
            total_score: 0,
            role_level: 0,
            last_updated: 0,
            ..*old(user)
        }),
        final(user).wf(),
{
    if user.has_achievement(achievement) {
        return Err(ReputationError::AchievementAlreadyAwarded);
    }
    let bonus_points = match achievement {
        AchievementType::FirstVote => 50u64,
        AchievementType::WeeklyStreak => 100u64,
        AchievementType::MonthlyStreak => 500u64,
        AchievementType::TopContributor => 1000u64,
        AchievementType::ConsistentVoter => 200u64,
        AchievementType::CategoryExpert => 300u64,
        AchievementType::CommunityBuilder => 750u64,
        AchievementType::SeasonWinner => 2000u64,
    };
    let new_governance_points = match user.category_points[0].checked_add(bonus_points) {
        Some(v) => v,
        None => {
            return Err(ReputationError::NumericalOverflow);
        },
    };
    user.award_achievement(achievement);
    user.category_points[0] = new_governance_points;
    let total = user.calculate_total_score(&config.category_weights);
    user.role_level = ReputationUtils::calculate_role_level(total, &config.role_thresholds);
    user.last_updated = now;
    Ok(())
}

/// Administrative badge revocation: clears the badge's bit. Fails with
/// `AchievementNotHeld`, leaving the record unchanged, when the badge is
/// not set. The authorization gate is the caller's concern.
pub fn revoke_achievement(user: &mut UserReputation, achievement: AchievementType, now: i64) -> (r:
    Result<(), ReputationError>)
    requires
        old(user).wf(),
        now >= 0,
    ensures
        r is Ok <==> has_badge(old(user).achievements, achievement),
        r is Err ==> r->Err_0 == ReputationError::AchievementNotHeld && *final(user) == *old(user),
        r is Ok ==> *final(user) == (UserReputation {
            achievements: old(user).achievements & !(1u32 << achievement.bit_spec()),
            last_updated: now,
            ..*old(user)
        }),
        r is Ok ==> !has_badge(final(user).achievements, achievement),
        final(user).wf(),
{
    if !user.has_achievement(achievement) {
        return Err(ReputationError::AchievementNotHeld);
    }
    let bit = achievement.bit_position();
    proof {
        let a = user.achievements;
        let b = achievement.bit_spec();
        assert(((a & !(1u32 << b)) >> b) & 1 != 1) by (bit_vector)
            requires
                b < 8,
        ;
    }
    user.achievements = user.achievements & !(1u32 << bit);
    user.last_updated = now;
    Ok(())
}

/// The held badges, in declaration order of `AchievementType`.
pub open spec fn earned_achievements_spec(achievements: u32) -> Seq<AchievementType> {
    let s0 = Seq::<AchievementType>::empty();
    let s1 = if has_badge(achievements, AchievementType::FirstVote) {
        s0.push(AchievementType::FirstVote)
    } else {
        s0
    };
    let s2 = if has_badge(achievements, AchievementType::WeeklyStreak) {
        s1.push(AchievementType::WeeklyStreak)
    } else {
        s1
    };
    let s3 = if has_badge(achievements, AchievementType::MonthlyStreak) {
        s2.push(AchievementType::MonthlyStreak)
    } else {
        s2
    };
    let s4 = if has_badge(achievements, AchievementType::TopContributor) {
        s3.push(AchievementType::TopContributor)
    } else {
        s3
    };
    let s5 = if has_badge(achievements, AchievementType::ConsistentVoter) {
        s4.push(AchievementType::ConsistentVoter)
    } else {
        s4
    };
    let s6 = if has_badge(achievements, AchievementType::CategoryExpert) {
        s5.push(AchievementType::CategoryExpert)
    } else {
        s5
    };
    let s7 = if has_badge(achievements, AchievementType::SeasonWinner) {
        s6.push(AchievementType::SeasonWinner)
    } else {
        s6
    };
    if has_badge(achievements, AchievementType::CommunityBuilder) {
        s7.push(AchievementType::CommunityBuilder)
    } else {
        s7
    }
}

/// Lists every badge the record holds.
pub fn check_user_achievements(user: &UserReputation) -> (earned: Vec<AchievementType>)
    ensures
        earned@ == earned_achievements_spec(user.achievements),
{
    let mut earned_achievements: Vec<AchievementType> = Vec::new();
    if user.has_achievement(AchievementType::FirstVote) {
        earned_achievements.push(AchievementType::FirstVote);
    }
    if user.has_achievement(AchievementType::WeeklyStreak) {
        earned_achievements.push(AchievementType::WeeklyStreak);
    }
    if user.has_achievement(AchievementType::MonthlyStreak) {
        earned_achievements.push(AchievementType::MonthlyStreak);
    }
    if user.has_achievement(AchievementType::TopContributor) {
        earned_achievements.push(AchievementType::TopContributor);
    }
    if user.has_achievement(AchievementType::ConsistentVoter) {
        earned_achievements.push(AchievementType::ConsistentVoter);
    }
    if user.has_achievement(AchievementType::CategoryExpert) {
        earned_achievements.push(AchievementType::CategoryExpert);
    }
    if user.has_achievement(AchievementType::SeasonWinner) {
        earned_achievements.push(AchievementType::SeasonWinner);
    }
    if user.has_achievement(AchievementType::CommunityBuilder) {
        earned_achievements.push(AchievementType::CommunityBuilder);
    }
    proof {
        assert(earned_achievements@ =~= earned_achievements_spec(user.achievements));
    }
    earned_achievements
}

/// Whether the stat-gated auto-award would newly set this badge.
pub open spec fn newly_earned(u: UserReputation, achievement: AchievementType) -> bool {
    !has_badge(u.achievements, achievement) && should_award_spec(u, achievement)
}

/// The badge bits the auto-award pass adds, judged on the record as it
/// stands before the pass.
pub open spec fn auto_award_bits(u: UserReputation) -> u32 {
    (if newly_earned(u, AchievementType::FirstVote) {
        1u32 << AchievementType::FirstVote.bit_spec()
    } else {
        0u32
    }) | (if newly_earned(u, AchievementType::WeeklyStreak) {
        1u32 << AchievementType::WeeklyStreak.bit_spec()
    } else {
        0u32
    }) | (if newly_earned(u, AchievementType::MonthlyStreak) {
        1u32 << AchievementType::MonthlyStreak.bit_spec()
    } else {
        0u32
    }) | (if newly_earned(u, AchievementType::TopContributor) {
        1u32 << AchievementType::TopContributor.bit_spec()
    } else {
        0u32
    }) | (if newly_earned(u, AchievementType::ConsistentVoter) {
        1u32 << AchievementType::ConsistentVoter.bit_spec()
    } else {
        0u32
    }) | (if newly_earned(u, AchievementType::CategoryExpert) {
        1u32 << AchievementType::CategoryExpert.bit_spec()
    } else {
        0u32
    }) | (if newly_earned(u, AchievementType::CommunityBuilder) {
        1u32 << AchievementType::CommunityBuilder.bit_spec()
    } else {
        0u32
    })
}

/// Whether the auto-award pass would set any badge at all.
pub open spec fn any_auto_award(u: UserReputation) -> bool {
    ||| newly_earned(u, AchievementType::FirstVote)
    ||| newly_earned(u, AchievementType::WeeklyStreak)
    ||| newly_earned(u, AchievementType::MonthlyStreak)
    ||| newly_earned(u, AchievementType::TopContributor)
    ||| newly_earned(u, AchievementType::ConsistentVoter)
    ||| newly_earned(u, AchievementType::CategoryExpert)
    ||| newly_earned(u, AchievementType::CommunityBuilder)
}

/// The badges the auto-award pass newly sets, in declaration order.
pub open spec fn auto_award_list(u: UserReputation) -> Seq<AchievementType> {
    let s0 = Seq::<AchievementType>::empty();
    let s1 = if newly_earned(u, AchievementType::FirstVote) {
        s0.push(AchievementType::FirstVote)
    } else {
        s0
    };
    let s2 = if newly_earned(u, AchievementType::WeeklyStreak) {
        s1.push(AchievementType::WeeklyStreak)
    } else {
        s1
    };
    let s3 = if newly_earned(u, AchievementType::MonthlyStreak) {
        s2.push(AchievementType::MonthlyStreak)
    } else {
        s2
    };
    let s4 = if newly_earned(u, AchievementType::TopContributor) {
        s3.push(AchievementType::TopContributor)
    } else {
        s3
    };
    let s5 = if newly_earned(u, AchievementType::ConsistentVoter) {
        s4.push(AchievementType::ConsistentVoter)
    } else {
        s4
    };
    let s6 = if newly_earned(u, AchievementType::CategoryExpert) {
        s5.push(AchievementType::CategoryExpert)
    } else {
        s5
    };
    if newly_earned(u, AchievementType::CommunityBuilder) {
        s6.push(AchievementType::CommunityBuilder)
    } else {
        s6
    }
}

/// Reactive auto-award: evaluates the stat-gated eligibility predicates
/// on the record and sets every qualifying badge that is not yet held,
/// all judged on the record as it stood at entry. `SeasonWinner` is never
/// auto-awarded. Returns the newly set badges; `last_updated` is stamped
/// only when at least one was set.
pub fn auto_award_achievements(user: &mut UserReputation, now: i64) -> (newly_awarded: Vec<
    AchievementType,
>)
    requires
        old(user).wf(),
        now >= 0,
    ensures
        newly_awarded@ == auto_award_list(*old(user)),
        final(user).achievements == old(user).achievements | auto_award_bits(*old(user)),
        final(user).last_updated == (if any_auto_award(*old(user)) {
            now
        } else {
            old(user).last_updated
        }),
        (UserReputation { achievements: 0, last_updated: 0, ..*final(user) }) == (UserReputation {
            achievements: 0,
            last_updated: 0,
            ..*old(user)
        }),
        final(user).wf(),
{
    let mut newly_awarded: Vec<AchievementType> = Vec::new();
    let c0 = !user.has_achievement(AchievementType::FirstVote)
        && ReputationUtils::should_award_achievement(user, AchievementType::FirstVote);
    let c1 = !user.has_achievement(AchievementType::WeeklyStreak)
        && ReputationUtils::should_award_achievement(user, AchievementType::WeeklyStreak);
    let c2 = !user.has_achievement(AchievementType::MonthlyStreak)
        && ReputationUtils::should_award_achievement(user, AchievementType::MonthlyStreak);
    let c3 = !user.has_achievement(AchievementType::TopContributor)
        && ReputationUtils::should_award_achievement(user, AchievementType::TopContributor);
    let c4 = !user.has_achievement(AchievementType::ConsistentVoter)
        && ReputationUtils::should_award_achievement(user, AchievementType::ConsistentVoter);
    let c5 = !user.has_achievement(AchievementType::CategoryExpert)
        && ReputationUtils::should_award_achievement(user, AchievementType::CategoryExpert);
    let c6 = !user.has_achievement(AchievementType::CommunityBuilder)
        && ReputationUtils::should_award_achievement(user, AchievementType::CommunityBuilder);
    let bits: u32 = (if c0 {
        1u32 << 0u32
    } else {
        0u32
    }) | (if c1 {
        1u32 << 1u32
    } else {
        0u32
    }) | (if c2 {
        1u32 << 2u32
    } else {
        0u32
    }) | (if c3 {
        1u32 << 3u32
    } else {
        0u32
    }) | (if c4 {
        1u32 << 4u32
    } else {
        0u32
    }) | (if c5 {
        1u32 << 5u32
    } else {
        0u32
    }) | (if c6 {
        1u32 << 6u32
    } else {
        0u32
    });
    if c0 {
        newly_awarded.push(AchievementType::FirstVote);
    }
    if c1 {
        newly_awarded.push(AchievementType::WeeklyStreak);
    }
    if c2 {
        newly_awarded.push(AchievementType::MonthlyStreak);
    }
    if c3 {
        newly_awarded.push(AchievementType::TopContributor);
    }
    if c4 {
        newly_awarded.push(AchievementType::ConsistentVoter);
    }
    if c5 {
        newly_awarded.push(AchievementType::CategoryExpert);
    }
    if c6 {
        newly_awarded.push(AchievementType::CommunityBuilder);
    }
    let any = c0 || c1 || c2 || c3 || c4 || c5 || c6;
    proof {
        assert(newly_awarded@ =~= auto_award_list(*old(user)));
        assert(bits == auto_award_bits(*old(user)));
        let a = user.achievements;
        assert(a | 0u32 == a) by (bit_vector);
        assert(0u32 | 0u32 == 0u32) by (bit_vector);
    }
    if any {
        user.achievements = user.achievements | bits;
        user.last_updated = now;
    }
    newly_awarded
}

/// Progress of one badge: how far the record's relevant statistic has
/// come toward the badge's requirement.
#[derive(Clone, Copy, Debug, PartialEq, Eq, Structural)]
pub struct AchievementProgress {
    pub achievement_type: AchievementType,
    pub is_earned: bool,
    pub progress_value: u64,
    pub required_value: u64,
    pub progress_percentage: u8,
}

/// `value` capped at the badge's requirement.
pub open spec fn capped(value: u64, required: u64) -> u64 {
    if value < required {
        value
    } else {
        required
    }
}

/// Largest of the four category point totals.
pub open spec fn max_category_points(points: [u64; 4]) -> u64 {
    let m01 = if points[0] >= points[1] {
        points[0]
    } else {
        points[1]
    };
    let m23 = if points[2] >= points[3] {
        points[2]
    } else {
        points[3]
    };
    if m01 >= m23 {
        m01
    } else {
        m23
    }
}

/// One progress row: the statistic capped at the requirement, and the
/// completed percentage rounded down.
fn progress_entry(
    achievement_type: AchievementType,
    is_earned: bool,
    value: u64,
    required: u64,
) -> (e: AchievementProgress)
    requires
        1 <= required <= 10000,
    ensures
        e == (AchievementProgress {
            achievement_type,
            is_earned,
            progress_value: capped(value, required),
            required_value: required,
            progress_percentage: (capped(value, required) * 100 / (required as int)) as u8,
        }),
{
    let progress_value = if value < required {
        value
    } else {
        required
    };
    let percentage = (progress_value * 100 / required) as u8;
    AchievementProgress {
        achievement_type,
        is_earned,
        progress_value,
        required_value: required,
        progress_percentage: percentage,
    }
}

/// Reports, for each stat-gated or streak badge, whether it is held and
/// how far the record has come toward earning it.
pub fn get_achievement_progress(user: &UserReputation) -> (progress: Vec<AchievementProgress>)
    ensures
        progress@.len() == 7,
        progress@[0] == (AchievementProgress {
            achievement_type: AchievementType::FirstVote,
            is_earned: has_badge(user.achievements, AchievementType::FirstVote),
            progress_value: capped(user.votes_cast, 1),
            required_value: 1,
            progress_percentage: (capped(user.votes_cast, 1) * 100 / 1) as u8,
        }),
        progress@[1] == (AchievementProgress {
            achievement_type: AchievementType::WeeklyStreak,
            is_earned: has_badge(user.achievements, AchievementType::WeeklyStreak),
            progress_value: capped(user.current_streak as u64, 7),
            required_value: 7,
            progress_percentage: (capped(user.current_streak as u64, 7) * 100 / 7) as u8,
        }),
        progress@[2] == (AchievementProgress {
            achievement_type: AchievementType::MonthlyStreak,
            is_earned: has_badge(user.achievements, AchievementType::MonthlyStreak),
            progress_value: capped(user.current_streak as u64, 30),
            required_value: 30,
            progress_percentage: (capped(user.current_streak as u64, 30) * 100 / 30) as u8,
        }),
        progress@[3] == (AchievementProgress {
            achievement_type: AchievementType::TopContributor,
            is_earned: has_badge(user.achievements, AchievementType::TopContributor),
            progress_value: capped(user.total_score, 10000),
            required_value: 10000,
            progress_percentage: (capped(user.total_score, 10000) * 100 / 10000) as u8,
        }),
        progress@[4] == (AchievementProgress {
            achievement_type: AchievementType::ConsistentVoter,
            is_earned: has_badge(user.achievements, AchievementType::ConsistentVoter),
            progress_value: capped(user.votes_cast, 100),
            required_value: 100,
            progress_percentage: (capped(user.votes_cast, 100) * 100 / 100) as u8,
        }),
        progress@[5] == (AchievementProgress {
            achievement_type: AchievementType::CategoryExpert,
            is_earned: has_badge(user.achievements, AchievementType::CategoryExpert),
            progress_value: capped(max_category_points(user.category_points), 5000),
            required_value: 5000,
            progress_percentage: (capped(max_category_points(user.category_points), 5000) * 100
                / 5000) as u8,
        }),
        progress@[6] == (AchievementProgress {
            achievement_type: AchievementType::CommunityBuilder,
            is_earned: has_badge(user.achievements, AchievementType::CommunityBuilder),
            progress_value: capped(user.category_points[2], 3000),
            required_value: 3000,
            progress_percentage: (capped(user.category_points[2], 3000) * 100 / 3000) as u8,
        }),
{
    let mut progress_list: Vec<AchievementProgress> = Vec::new();
    progress_list.push(
        progress_entry(
            AchievementType::FirstVote,
            user.has_achievement(AchievementType::FirstVote),
            user.votes_cast,
            1,
        ),
    );
    progress_list.push(
        progress_entry(
            AchievementType::WeeklyStreak,
            user.has_achievement(AchievementType::WeeklyStreak),
            user.current_streak as u64,
            7,
        ),
    );
    progress_list.push(
        progress_entry(
            AchievementType::MonthlyStreak,
            user.has_achievement(AchievementType::MonthlyStreak),
            user.current_streak as u64,
            30,
        ),
    );
    progress_list.push(
        progress_entry(
            AchievementType::TopContributor,
            user.has_achievement(AchievementType::TopContributor),
            user.total_score,
            10000,
        ),
    );
    progress_list.push(
        progress_entry(
            AchievementType::ConsistentVoter,
            user.has_achievement(AchievementType::ConsistentVoter),
            user.votes_cast,
            100,
        ),
    );
    let m01 = if user.category_points[0] >= user.category_points[1] {
        user.category_points[0]
    } else {
        user.category_points[1]
    };
    let m23 = if user.category_points[2] >= user.category_points[3] {
        user.category_points[2]
    } else {
        user.category_points[3]
    };
    let max_points = if m01 >= m23 {
        m01
    } else {
        m23
    };
    progress_list.push(
        progress_entry(
            AchievementType::CategoryExpert,
            user.has_achievement(AchievementType::CategoryExpert),
            max_points,
            5000,
        ),
    );
    progress_list.push(
        progress_entry(
            AchievementType::CommunityBuilder,
            user.has_achievement(AchievementType::CommunityBuilder),
            user.category_points[2],
            3000,
        ),
    );
    progress_list
}

} // verus!
