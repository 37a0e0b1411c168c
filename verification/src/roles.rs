//! Role unlocks: mapping a total score to a discrete level against the
//! ascending threshold table, and the user-invoked claim that ratchets the
//! stored level upward.

use vstd::prelude::*;
use crate::errors::ReputationError;
use crate::state::{has_badge, AchievementType, ReputationConfig, UserReputation};

verus! {

/// Whether a claim of `role_level` must succeed on this record: the level
/// is one of the five tiers, the score meets its threshold, and the stored
/// level still lies below it.
pub open spec fn claim_allowed(user: UserReputation, config: ReputationConfig, role_level: u8) -> bool {
    &&& 1 <= role_level <= 5
    &&& user.total_score >= config.role_thresholds[role_level - 1]
    &&& user.role_level < role_level
}

/// The badge bits a successful claim of `role_level` adds: claiming the
/// third and fifth tiers awards the corresponding milestone badges.
pub open spec fn claim_badge_bits(role_level: u8) -> u32 {
    if role_level == 3 {
        1u32 << AchievementType::TopContributor.bit_spec()
    } else if role_level == 5 {
        1u32 << AchievementType::CommunityBuilder.bit_spec()
    } else {
        0
    }
}

/// Advances the stored role level to `role_level`, an idempotent one-way
/// ratchet the user must invoke: it succeeds exactly when the level is in
/// range, the total score meets its threshold, and the stored level is
/// still lower. Claiming level 3 awards TopContributor, level 5 awards
/// CommunityBuilder. On failure the record is unchanged.
pub fn claim_role_unlock(
    config: &ReputationConfig,
    user: &mut UserReputation,
    role_level: u8,
    now: i64,
) -> (r: Result<(), ReputationError>)
    requires
        old(user).wf(),
        now >= 0,
    ensures
        r is Ok <==> claim_allowed(*old(user), *config, role_level),
        !(1 <= role_level <= 5) ==> r == Err::<(), ReputationError>(
            ReputationError::InvalidRoleLevel,
        ),
        1 <= role_level <= 5 && !claim_allowed(*old(user), *config, role_level) ==> r == Err::<
            (),
            ReputationError,
        >(ReputationError::RoleRequirementsNotMet),
        r is Err ==> *final(user) == *old(user),
        r is Ok ==> *final(user) == (UserReputation {
            role_level,
            last_updated: now,
            achievements: old(user).achievements | claim_badge_bits(role_level),
            ..*old(user)
        }),
        r is Ok && role_level == 3 ==> has_badge(
            final(user).achievements,
            AchievementType::TopContributor,
        ),
        r is Ok && role_level == 5 ==> has_badge(
            final(user).achievements,
            AchievementType::CommunityBuilder,
        ),
        final(user).wf(),
{
    if role_level == 0 || role_level > 5 {
        return Err(ReputationError::InvalidRoleLevel);
    }
    let threshold_index = (role_level - 1) as usize;
    let required_score = config.role_thresholds[threshold_index];
    if user.total_score < required_score {
        return Err(ReputationError::RoleRequirementsNotMet);
    }
    if user.role_level >= role_level {
        return Err(ReputationError::RoleRequirementsNotMet);
    }
    user.role_level = role_level;
    user.last_updated = now;
    if role_level == 3 {
        user.award_achievement(AchievementType::TopContributor);
    } else if role_level == 5 {
        user.award_achievement(AchievementType::CommunityBuilder);
    } else {
        proof {
            assert(user.achievements | 0u32 == user.achievements) by (bit_vector);
        }
    }
    Ok(())
}

/// Reports whether a claim of `role_level` would succeed, without
/// mutating anything. Levels outside the table are rejected.
pub fn check_role_requirements(
    config: &ReputationConfig,
    user: &UserReputation,
    role_level: u8,
) -> (r: Result<bool, ReputationError>)
    ensures
        r is Err <==> !(1 <= role_level <= 5),
        r is Err ==> r->Err_0 == ReputationError::InvalidRoleLevel,
        r is Ok ==> r->Ok_0 == claim_allowed(*user, *config, role_level),
{
    if role_level == 0 || role_level > 5 {
        return Err(ReputationError::InvalidRoleLevel);
    }
    let threshold_index = (role_level - 1) as usize;
    let required_score = config.role_thresholds[threshold_index];
    Ok(user.total_score >= required_score && user.role_level < role_level)
}

/// The levels a claim would currently succeed on, in ascending order.
pub open spec fn available_roles_spec(user: UserReputation, config: ReputationConfig) -> Seq<u8> {
    let s1 = if claim_allowed(user, config, 1) {
        Seq::<u8>::empty().push(1)
    } else {
        Seq::<u8>::empty()
    };
    let s2 = if claim_allowed(user, config, 2) {
        s1.push(2)
    } else {
        s1
    };
    let s3 = if claim_allowed(user, config, 3) {
        s2.push(3)
    } else {
        s2
    };
    let s4 = if claim_allowed(user, config, 4) {
        s3.push(4)
    } else {
        s3
    };
    if claim_allowed(user, config, 5) {
        s4.push(5)
    } else {
        s4
    }
}

/// Lists every role level the user could claim right now, ascending.
pub fn get_available_role_unlocks(config: &ReputationConfig, user: &UserReputation) -> (roles: Vec<
    u8,
>)
    ensures
        roles@ == available_roles_spec(*user, *config),
{
    let mut available_roles: Vec<u8> = Vec::new();
    if user.total_score >= config.role_thresholds[0] && user.role_level < 1 {
        available_roles.push(1);
    }
    if user.total_score >= config.role_thresholds[1] && user.role_level < 2 {
        available_roles.push(2);
    }
    if user.total_score >= config.role_thresholds[2] && user.role_level < 3 {
        available_roles.push(3);
    }
    if user.total_score >= config.role_thresholds[3] && user.role_level < 4 {
        available_roles.push(4);
    }
    if user.total_score >= config.role_thresholds[4] && user.role_level < 5 {
        available_roles.push(5);
    }
    proof {
        assert(available_roles@ =~= available_roles_spec(*user, *config));
    }
    available_roles
}

} // verus!
