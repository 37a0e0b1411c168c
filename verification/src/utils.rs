//! Pure arithmetic helpers: integer square root with quadratic dampening,
//! compound decay factors, streak bonus steps and the small validation
//! checks shared by the state transitions.

use vstd::prelude::*;
use crate::errors::ReputationError;
use crate::state::{AchievementType, UserReputation};

verus! {

/// Length of a UTC day bucket in seconds.
pub const SECONDS_PER_DAY: u64 = 86400;

/// UTC day bucket a non-negative epoch timestamp falls into.
pub open spec fn day_of(t: i64) -> int
    recommends
        t >= 0,
{
    (t as int) / 86400
}

/// Whole days elapsed from `last` to `now`, never negative.
pub open spec fn days_between(last: i64, now: i64) -> nat
    recommends
        last >= 0,
{
    if now <= last {
        0
    } else {
        (((now - last) as int) / 86400) as nat
    }
}

/// Sum of the four category weights, in basis points.
pub open spec fn weights_sum(weights: [u16; 4]) -> int {
    weights[0] + weights[1] + weights[2] + weights[3]
}

/// Whether the five role thresholds are strictly ascending.
pub open spec fn thresholds_ascending(t: [u64; 5]) -> bool {
    t[0] < t[1] && t[1] < t[2] && t[2] < t[3] && t[3] < t[4]
}

/// Total score of a point array under a weight vector: per category the
/// quadratic dampening `isqrt(points) * 100`, multiplied by the category's
/// weight in basis points, summed, and divided by 10000.
pub open spec fn score_of(points: [u64; 4], weights: [u16; 4]) -> int {
    (isqrt_spec(points[0] as nat) * 100 * (weights[0] as int) + isqrt_spec(points[1] as nat) * 100
        * (weights[1] as int) + isqrt_spec(points[2] as nat) * 100 * (weights[2] as int)
        + isqrt_spec(points[3] as nat) * 100 * (weights[3] as int)) / 10000
}

/// Participation bonus for a streak of consecutive days: a fixed step
/// table that rewards week-, month- and quarter-long engagement.
pub open spec fn streak_bonus_spec(streak: u32) -> u64 {
    if streak <= 6 {
        0
    } else if streak <= 13 {
        100
    } else if streak <= 29 {
        300
    } else if streak <= 89 {
        500
    } else if streak <= 179 {
        800
    } else {
        1000
    }
}

/// Compound decay factor in basis points after `days` full days of
/// inactivity: starting at 10000, each day multiplies by
/// `(10000 - rate) / 10000` with truncating integer division. The per-day
/// truncation is part of the definition.
pub open spec fn decay_factor_spec(days: nat, rate: u16) -> int
    recommends
        rate <= 10000,
    decreases days,
{
    if days == 0 {
        10000
    } else {
        decay_factor_spec((days - 1) as nat, rate) * (10000 - rate) / 10000
    }
}

/// The decay factor always stays inside the basis-point range.
pub proof fn lemma_decay_factor_bounds(days: nat, rate: u16)
    requires
        rate <= 10000,
    ensures
        0 <= decay_factor_spec(days, rate) <= 10000,
    decreases days,
{
    if days > 0 {
        lemma_decay_factor_bounds((days - 1) as nat, rate);
        let f = decay_factor_spec((days - 1) as nat, rate);
        assert(0 <= f * (10000 - rate) / 10000 <= 10000) by (nonlinear_arith)
            requires
                0 <= f <= 10000,
                rate <= 10000,
        ;
    }
}

/// Highest role level whose threshold `total_score` meets, 0 when none.
pub open spec fn role_level_spec(total_score: u64, thresholds: [u64; 5]) -> u8 {
    if total_score >= thresholds[4] {
        5
    } else if total_score >= thresholds[3] {
        4
    } else if total_score >= thresholds[2] {
        3
    } else if total_score >= thresholds[1] {
        2
    } else if total_score >= thresholds[0] {
        1
    } else {
        0
    }
}

/// Whether the record's statistics qualify it for the badge. Only four of
/// the badge kinds are stat-gated; the streak badges are granted by the
/// streak transition itself and `SeasonWinner` by the (out of core)
/// seasonal bookkeeping.
pub open spec fn should_award_spec(user: UserReputation, achievement: AchievementType) -> bool {
    match achievement {
        AchievementType::FirstVote => user.votes_cast == 1,
        AchievementType::WeeklyStreak => user.current_streak >= 7,
        AchievementType::MonthlyStreak => user.current_streak >= 30,
        AchievementType::TopContributor => user.total_score >= 10000,
        AchievementType::ConsistentVoter => user.votes_cast >= 100,
        AchievementType::CategoryExpert => user.category_points[0] >= 5000
            || user.category_points[1] >= 5000 || user.category_points[2] >= 5000
            || user.category_points[3] >= 5000,
        AchievementType::CommunityBuilder => user.category_points[2] >= 3000,
        AchievementType::SeasonWinner => false,
    }
}

/// Mathematical integer square root: the largest `r` with `r * r <= n`.
pub open spec fn isqrt_spec(n: nat) -> nat
    decreases n,
{
    if n == 0 {
        0
    } else {
        let r = isqrt_spec((n - 1) as nat);
        if (r + 1) * (r + 1) <= n {
            r + 1
        } else {
            r
        }
    }
}

/// `isqrt_spec(n)` is exactly the floor of the square root of `n`.
pub proof fn lemma_isqrt_spec_bounds(n: nat)
    ensures
        isqrt_spec(n) * isqrt_spec(n) <= n,
        n < (isqrt_spec(n) + 1) * (isqrt_spec(n) + 1),
    decreases n,
{
    let s = isqrt_spec(n);
    if n == 0 {
        assert(n < (s + 1) * (s + 1)) by (nonlinear_arith)
            requires
                n == 0,
                s == 0,
        ;
    } else {
        lemma_isqrt_spec_bounds((n - 1) as nat);
        let r = isqrt_spec((n - 1) as nat);
        if (r + 1) * (r + 1) <= n {
            assert(s == r + 1);
            assert(n < (s + 1) * (s + 1)) by (nonlinear_arith)
                requires
                    n >= 1,
                    s == r + 1,
                    ((n - 1) as nat) < (r + 1) * (r + 1),
            ;
            assert(s * s <= n) by (nonlinear_arith)
                requires
                    s == r + 1,
                    (r + 1) * (r + 1) <= n,
            ;
        } else {
            assert(s == r);
            assert(s * s <= n) by (nonlinear_arith)
                requires
                    s == r,
                    n >= 1,
                    r * r <= ((n - 1) as nat),
            ;
        }
    }
}

/// Any `r` in the floor-square-root window of `n` is `isqrt_spec(n)`.
pub proof fn lemma_isqrt_unique(n: nat, r: nat)
    requires
        r * r <= n,
        n < (r + 1) * (r + 1),
    ensures
        r == isqrt_spec(n),
{
    lemma_isqrt_spec_bounds(n);
    let s = isqrt_spec(n);
    if r < s {
        assert((r + 1) * (r + 1) <= s * s) by (nonlinear_arith)
            requires
                r + 1 <= s,
        ;
    } else if s < r {
        assert((s + 1) * (s + 1) <= r * r) by (nonlinear_arith)
            requires
                s + 1 <= r,
        ;
    }
}

/// The integer square root never decreases as its argument grows.
pub proof fn lemma_isqrt_monotone(a: nat, b: nat)
    requires
        a <= b,
    ensures
        isqrt_spec(a) <= isqrt_spec(b),
    decreases b,
{
    if a < b {
        lemma_isqrt_monotone(a, (b - 1) as nat);
    }
}

/// Values that fit in 64 bits have square roots that fit in 32 bits.
pub proof fn lemma_isqrt_fits_u32(n: nat)
    requires
        n <= u64::MAX,
    ensures
        isqrt_spec(n) <= 0xFFFF_FFFF,
{
    lemma_isqrt_spec_bounds(n);
    let r = isqrt_spec(n);
    if r > 0xFFFF_FFFF {
        assert(r * r > u64::MAX) by (nonlinear_arith)
            requires
                r > 0xFFFF_FFFF,
        ;
    }
}

/// Collection of the pure helper operations of the reputation engine.
pub struct ReputationUtils;

impl ReputationUtils {
    /// Floor integer square root of `n`, by binary search.
    pub fn isqrt(n: u64) -> (r: u64)
        ensures
            r == isqrt_spec(n as nat),
            r * r <= n,
            n < (r + 1) * (r + 1),
    {
        let mut lo: u64 = 0;
        let mut hi: u64 = if n < 0xFFFF_FFFF {
            n
        } else {
            0xFFFF_FFFF
        };
        proof {
            assert((n + 1) * (n + 1) > n) by (nonlinear_arith);
        }
        while lo < hi
            invariant
                lo <= hi,
                hi <= 0xFFFF_FFFF,
                lo * lo <= n,
                n < (hi + 1) * (hi + 1),
            decreases hi - lo,
        {
            let mid: u64 = lo + (hi - lo + 1) / 2;
            proof {
                assert(mid * mid <= 0xFFFF_FFFF * 0xFFFF_FFFF) by (nonlinear_arith)
                    requires
                        mid <= 0xFFFF_FFFF,
                ;
            }
            if mid * mid <= n {
                lo = mid;
            } else {
                hi = mid - 1;
            }
        }
        proof {
            lemma_isqrt_unique(n as nat, lo as nat);
        }
        lo
    }

    /// Quadratic dampening of a raw point total: `isqrt(raw) * 100`.
    /// Doubling `raw` less than doubles the result, which limits the
    /// marginal value of concentrated accumulation.
    pub fn calculate_quadratic_weight(raw_points: u64) -> (r: u64)
        ensures
            r == isqrt_spec(raw_points as nat) * 100,
    {
        let root = Self::isqrt(raw_points);
        proof {
            lemma_isqrt_fits_u32(raw_points as nat);
        }
        root * 100
    }

    /// UTC day bucket of a non-negative epoch timestamp.
    pub fn day_number(t: i64) -> (d: u64)
        requires
            t >= 0,
        ensures
            d == day_of(t),
    {
        (t as u64) / SECONDS_PER_DAY
    }

    /// Checks that the four category weights sum to 10000 basis points.
    pub fn validate_category_weights(weights: &[u16; 4]) -> (r: Result<(), ReputationError>)
        ensures
            r is Ok <==> weights_sum(*weights) == 10000,
            r is Err ==> r->Err_0 == ReputationError::InvalidCategoryWeights,
    {
        let sum: u32 = weights[0] as u32 + weights[1] as u32 + weights[2] as u32
            + weights[3] as u32;
        if sum != 10000 {
            return Err(ReputationError::InvalidCategoryWeights);
        }
        Ok(())
    }

    /// Checks that the role thresholds are strictly ascending.
    pub fn validate_role_thresholds(thresholds: &[u64; 5]) -> (r: Result<(), ReputationError>)
        ensures
            r is Ok <==> thresholds_ascending(*thresholds),
            r is Err ==> r->Err_0 == ReputationError::InvalidRoleThresholds,
    {
        if thresholds[0] >= thresholds[1] || thresholds[1] >= thresholds[2] || thresholds[2]
            >= thresholds[3] || thresholds[3] >= thresholds[4] {
            return Err(ReputationError::InvalidRoleThresholds);
        }
        Ok(())
    }

    /// Highest role level whose threshold `total_score` meets, scanning
    /// from the top of the table; 0 when no threshold is met.
    pub fn calculate_role_level(total_score: u64, thresholds: &[u64; 5]) -> (level: u8)
        ensures
            level == role_level_spec(total_score, *thresholds),
            level <= 5,
    {
        if total_score >= thresholds[4] {
            5
        } else if total_score >= thresholds[3] {
            4
        } else if total_score >= thresholds[2] {
            3
        } else if total_score >= thresholds[1] {
            2
        } else if total_score >= thresholds[0] {
            1
        } else {
            0
        }
    }

    /// Rejects voters whose account is younger than `min_age` seconds.
    pub fn check_account_age(account_created: i64, min_age: u64, current_time: i64) -> (r: Result<
        (),
        ReputationError,
    >)
        requires
            0 <= account_created <= current_time,
        ensures
            r is Ok <==> current_time - account_created >= min_age,
            r is Err ==> r->Err_0 == ReputationError::AccountTooNew,
    {
        let account_age: u64 = (current_time - account_created) as u64;
        if account_age < min_age {
            return Err(ReputationError::AccountTooNew);
        }
        Ok(())
    }

    /// Rejects a vote arriving less than `cooldown` seconds after the
    /// pair's previous vote.
    pub fn check_voting_cooldown(last_vote: i64, cooldown: u64, current_time: i64) -> (r: Result<
        (),
        ReputationError,
    >)
        requires
            0 <= last_vote <= current_time,
        ensures
            r is Ok <==> current_time - last_vote >= cooldown,
            r is Err ==> r->Err_0 == ReputationError::CooldownActive,
    {
        let elapsed: u64 = (current_time - last_vote) as u64;
        if elapsed < cooldown {
            return Err(ReputationError::CooldownActive);
        }
        Ok(())
    }

    /// Rejects voters below the configured minimum total score.
    pub fn check_minimum_reputation(user_score: u64, minimum: u64) -> (r: Result<
        (),
        ReputationError,
    >)
        ensures
            r is Ok <==> user_score >= minimum,
            r is Err ==> r->Err_0 == ReputationError::InsufficientReputationToVote,
    {
        if user_score < minimum {
            return Err(ReputationError::InsufficientReputationToVote);
        }
        Ok(())
    }

    /// Rejects vote weights outside 1 through 10.
    pub fn validate_vote_weight(weight: u8) -> (r: Result<(), ReputationError>)
        ensures
            r is Ok <==> 1 <= weight <= 10,
            r is Err ==> r->Err_0 == ReputationError::InvalidVoteWeight,
    {
        if weight == 0 || weight > 10 {
            return Err(ReputationError::InvalidVoteWeight);
        }
        Ok(())
    }

    /// Rejects free-text inputs longer than `max_length` characters.
    pub fn validate_string_length(s: &str, max_length: usize) -> (r: Result<(), ReputationError>)
        ensures
            r is Ok <==> s@.len() <= max_length,
            r is Err ==> r->Err_0 == ReputationError::StringTooLong,
    {
        if s.unicode_len() > max_length {
            return Err(ReputationError::StringTooLong);
        }
        Ok(())
    }

    /// Checked addition of points; refuses to wrap around.
    pub fn safe_add_points(current: u64, addition: u64) -> (r: Result<u64, ReputationError>)
        ensures
            r is Ok <==> current + addition <= u64::MAX,
            r is Ok ==> r->Ok_0 == current + addition,
            r is Err ==> r->Err_0 == ReputationError::NumericalOverflow,
    {
        match current.checked_add(addition) {
            Some(v) => Ok(v),
            None => Err(ReputationError::NumericalOverflow),
        }
    }

    /// Checked subtraction of points; refuses to go below zero.
    pub fn safe_subtract_points(current: u64, subtraction: u64) -> (r: Result<u64, ReputationError>)
        ensures
            r is Ok <==> subtraction <= current,
            r is Ok ==> r->Ok_0 == current - subtraction,
            r is Err ==> r->Err_0 == ReputationError::NegativeReputationNotAllowed,
    {
        if subtraction > current {
            return Err(ReputationError::NegativeReputationNotAllowed);
        }
        Ok(current - subtraction)
    }

    /// Streak bonus from the fixed step table keyed on streak length.
    pub fn calculate_streak_bonus(streak: u32) -> (bonus: u64)
        ensures
            bonus == streak_bonus_spec(streak),
            bonus <= 1000,
    {
        if streak <= 6 {
            0
        } else if streak <= 13 {
            100
        } else if streak <= 29 {
            300
        } else if streak <= 89 {
            500
        } else if streak <= 179 {
            800
        } else {
            1000
        }
    }

    /// Compound decay factor in basis points for the inactivity span from
    /// `last_activity` to `current_time`, truncating after every day
    /// exactly as `decay_factor_spec` defines.
    pub fn calculate_decay_factor(last_activity: i64, current_time: i64, decay_rate: u16) -> (factor:
        u64)
        requires
            last_activity >= 0,
            decay_rate <= 10000,
        ensures
            factor == decay_factor_spec(days_between(last_activity, current_time), decay_rate),
            factor <= 10000,
    {
        let days: u64 = if current_time <= last_activity {
            0
        } else {
            ((current_time - last_activity) as u64) / SECONDS_PER_DAY
        };
        let decay_per_day: u64 = 10000 - (decay_rate as u64);
        let mut factor: u64 = 10000;
        let mut i: u64 = 0;
        while i < days
            invariant
                i <= days,
                decay_rate <= 10000,
                decay_per_day == 10000 - decay_rate,
                factor == decay_factor_spec(i as nat, decay_rate),
                factor <= 10000,
            decreases days - i,
        {
            proof {
                assert(factor * decay_per_day <= 10000 * 10000) by (nonlinear_arith)
                    requires
                        factor <= 10000,
                        decay_per_day <= 10000,
                ;
                assert(factor * decay_per_day / 10000 <= 10000) by (nonlinear_arith)
                    requires
                        factor * decay_per_day <= 10000 * 10000,
                ;
            }
            factor = (factor * decay_per_day) / 10000;
            i = i + 1;
        }
        factor
    }

    /// Whether the record's statistics qualify it for the badge.
    pub fn should_award_achievement(user: &UserReputation, achievement: AchievementType) -> (r:
        bool)
        ensures
            r == should_award_spec(*user, achievement),
    {
        match achievement {
            AchievementType::FirstVote => user.votes_cast == 1,
            AchievementType::WeeklyStreak => user.current_streak >= 7,
            AchievementType::MonthlyStreak => user.current_streak >= 30,
            AchievementType::TopContributor => user.total_score >= 10000,
            AchievementType::ConsistentVoter => user.votes_cast >= 100,
            AchievementType::CategoryExpert => user.category_points[0] >= 5000
                || user.category_points[1] >= 5000 || user.category_points[2] >= 5000
                || user.category_points[3] >= 5000,
            AchievementType::CommunityBuilder => user.category_points[2] >= 3000,
            AchievementType::SeasonWinner => false,
        }
    }
}

} // verus!
