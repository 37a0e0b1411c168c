//! Data model of the reputation ledger: the per-user reputation record,
//! the per-(voter, target) rate-limiting record, and the configuration
//! snapshot every operation receives read-only.

use vstd::prelude::*;
use crate::errors::ReputationError;
use crate::utils::{score_of, day_of, ReputationUtils, lemma_isqrt_fits_u32};

verus! {

/// The daily vote count the cap is checked against at `now`: zero when
/// `now` lies in a later UTC day bucket than the record's last reset,
/// otherwise the stored count.
pub open spec fn daily_votes_after_reset(rec: VotingRecord, now: i64) -> int {
    if day_of(now) > day_of(rec.last_daily_reset) {
        0
    } else {
        rec.daily_votes as int
    }
}

/// The four fixed reputation dimensions, in the order the weight vector
/// assigns them meaning.
#[derive(Clone, Copy, Debug, PartialEq, Eq, Structural)]
pub enum ReputationCategory {
    Governance,
    Development,
    Community,
    Treasury,
}

impl ReputationCategory {
    /// Position of this category in every four-element accumulator array.
    pub open spec fn index_spec(self) -> int {
        match self {
            ReputationCategory::Governance => 0,
            ReputationCategory::Development => 1,
            ReputationCategory::Community => 2,
            ReputationCategory::Treasury => 3,
        }
    }

    /// Maps the category to its array position.
    pub fn to_index(&self) -> (i: usize)
        ensures
            i == self.index_spec(),
            i < 4,
    {
        match self {
            ReputationCategory::Governance => 0,
            ReputationCategory::Development => 1,
            ReputationCategory::Community => 2,
            ReputationCategory::Treasury => 3,
        }
    }
}

/// The closed set of badge kinds. Each kind owns a stable bit position in
/// the `achievements` bit-set of a user record; the mapping is part of the
/// persisted format and must not be reordered.
#[derive(Clone, Copy, Debug, PartialEq, Eq, Structural)]
pub enum AchievementType {
    FirstVote,
    WeeklyStreak,
    MonthlyStreak,
    TopContributor,
    ConsistentVoter,
    CategoryExpert,
    CommunityBuilder,
    SeasonWinner,
}

impl AchievementType {
    /// Stable bit position of this badge in the achievements bit-set.
    pub open spec fn bit_spec(self) -> u32 {
        match self {
            AchievementType::FirstVote => 0,
            AchievementType::WeeklyStreak => 1,
            AchievementType::MonthlyStreak => 2,
            AchievementType::TopContributor => 3,
            AchievementType::ConsistentVoter => 4,
            AchievementType::CategoryExpert => 5,
            AchievementType::CommunityBuilder => 6,
            AchievementType::SeasonWinner => 7,
        }
    }

    /// Returns the stable bit position of this badge.
    pub fn bit_position(&self) -> (b: u32)
        ensures
            b == self.bit_spec(),
            b < 8,
    {
        match self {
            AchievementType::FirstVote => 0,
            AchievementType::WeeklyStreak => 1,
            AchievementType::MonthlyStreak => 2,
            AchievementType::TopContributor => 3,
            AchievementType::ConsistentVoter => 4,
            AchievementType::CategoryExpert => 5,
            AchievementType::CommunityBuilder => 6,
            AchievementType::SeasonWinner => 7,
        }
    }
}

/// Whether badge `a` is set in the bit-set `achievements`.
pub open spec fn has_badge(achievements: u32, a: AchievementType) -> bool {
    achievements >> a.bit_spec() & 1 == 1
}

/// Setting a badge's bit sets that badge and no other: afterwards a
/// badge is held exactly when it was held before or is the one awarded.
/// Awarding a held badge is therefore a no-op.
pub proof fn lemma_award_badge_effect(a: u32, awarded: AchievementType, other: AchievementType)
    ensures
        has_badge(a | (1u32 << awarded.bit_spec()), other) == (other == awarded || has_badge(
            a,
            other,
        )),
{
    let bi = awarded.bit_spec();
    let bj = other.bit_spec();
    if bi == bj {
        assert(other == awarded);
        assert(((a | (1u32 << bi)) >> bj) & 1 == 1) by (bit_vector)
            requires
                bi == bj,
                bj < 8,
        ;
    } else {
        assert(((a | (1u32 << bi)) >> bj) & 1 == (a >> bj) & 1) by (bit_vector)
            requires
                bi != bj,
                bi < 8,
                bj < 8,
        ;
    }
}

/// Clearing a badge's bit clears that badge and no other: afterwards a
/// badge is held exactly when it is a different one that was held
/// before.
pub proof fn lemma_revoke_badge_effect(a: u32, revoked: AchievementType, other: AchievementType)
    ensures
        has_badge(a & !(1u32 << revoked.bit_spec()), other) == (other != revoked && has_badge(
            a,
            other,
        )),
{
    let bi = revoked.bit_spec();
    let bj = other.bit_spec();
    if bi == bj {
        assert(other == revoked);
        assert(((a & !(1u32 << bi)) >> bj) & 1 != 1) by (bit_vector)
            requires
                bi == bj,
                bj < 8,
        ;
    } else {
        assert(((a & !(1u32 << bi)) >> bj) & 1 == (a >> bj) & 1) by (bit_vector)
            requires
                bi != bj,
                bi < 8,
                bj < 8,
        ;
    }
}

/// Immutable configuration snapshot consumed by every core operation.
/// Storage and admin-authenticated mutation of the configuration are the
/// host's concern; the core only reads an already-resolved copy.
#[derive(Clone, Copy, Debug, PartialEq, Eq)]
pub struct ReputationConfig {
    /// Minimum seconds between two votes of the same (voter, target) pair.
    pub voting_cooldown: u64,
    /// Minimum voter account age in seconds.
    pub min_account_age: u64,
    /// Maximum votes per (voter, target) pair per UTC day.
    pub daily_vote_limit: u8,
    /// Minimum total score a voter needs to vote on others.
    pub min_reputation_to_vote: u64,
    /// Weight of each category in basis points; the four sum to 10000.
    pub category_weights: [u16; 4],
    /// Strictly ascending score thresholds for role levels 1 through 5.
    pub role_thresholds: [u64; 5],
    /// Daily score erosion rate in basis points per day of inactivity.
    pub decay_rate: u16,
    /// Whether decay may be applied at all.
    pub decay_enabled: bool,
}

impl ReputationConfig {
    /// The configuration invariant every operation may rely on: weights
    /// that sum to 10000 basis points, a strictly ascending threshold
    /// table, a decay rate that is a genuine basis-point fraction, and a
    /// positive daily cap.
    pub open spec fn valid(self) -> bool {
        &&& self.category_weights[0] + self.category_weights[1] + self.category_weights[2]
            + self.category_weights[3] == 10000
        &&& self.role_thresholds[0] < self.role_thresholds[1]
        &&& self.role_thresholds[1] < self.role_thresholds[2]
        &&& self.role_thresholds[2] < self.role_thresholds[3]
        &&& self.role_thresholds[3] < self.role_thresholds[4]
        &&& self.decay_rate <= 10000
        &&& self.daily_vote_limit >= 1
    }
}

/// One participant's reputation record.
#[derive(Clone, Copy, Debug, PartialEq, Eq)]
pub struct UserReputation {
    /// Opaque identifier of the participant; immutable after creation.
    pub user: u64,
    /// Weighted point accumulator per category; never negative.
    pub category_points: [u64; 4],
    /// Raw received-vote accumulator per category; downvotes never touch it.
    pub raw_votes: [u64; 4],
    /// Per-category points earned in the current season.
    pub seasonal_points: [u64; 4],
    /// Derived total score; recomputed on every mutation, never stale.
    pub total_score: u64,
    /// Role level, 0 through 5.
    pub role_level: u8,
    /// Bit-set of earned badges, one bit per `AchievementType`.
    pub achievements: u32,
    /// Creation timestamp, seconds since epoch.
    pub created_at: i64,
    /// Timestamp of the last activity that counts for streaks and decay.
    pub last_activity: i64,
    /// Timestamp of the last mutation of this record.
    pub last_updated: i64,
    /// Consecutive day-buckets with at least one participation.
    pub current_streak: u32,
    /// Highest value `current_streak` ever reached.
    pub longest_streak: u32,
    /// Best rank achieved in any season.
    pub best_season_rank: u32,
    /// Monotonic count of votes this user has cast.
    pub votes_cast: u64,
}

impl UserReputation {
    /// Record invariant: timestamps are non-negative epoch seconds and the
    /// longest streak never trails the current one.
    pub open spec fn wf(self) -> bool {
        &&& self.created_at >= 0
        &&& self.last_activity >= 0
        &&& self.last_updated >= 0
        &&& self.longest_streak >= self.current_streak
    }

    /// Recomputes and stores the total score: per category, the quadratic
    /// dampening `isqrt(points) * 100` weighted in basis points, summed and
    /// divided by 10000. Total for every input; cannot overflow.
    pub fn calculate_total_score(&mut self, category_weights: &[u16; 4]) -> (total: u64)
        ensures
            total == score_of(old(self).category_points, *category_weights),
            *final(self) == (UserReputation { total_score: total, ..*old(self) }),
    {
        let s0 = ReputationUtils::calculate_quadratic_weight(self.category_points[0]);
        let s1 = ReputationUtils::calculate_quadratic_weight(self.category_points[1]);
        let s2 = ReputationUtils::calculate_quadratic_weight(self.category_points[2]);
        let s3 = ReputationUtils::calculate_quadratic_weight(self.category_points[3]);
        proof {
            lemma_isqrt_fits_u32(self.category_points[0] as nat);
            lemma_isqrt_fits_u32(self.category_points[1] as nat);
            lemma_isqrt_fits_u32(self.category_points[2] as nat);
            lemma_isqrt_fits_u32(self.category_points[3] as nat);
            assert(s0 * category_weights[0] <= 429496729500u64 * 65535) by (nonlinear_arith)
                requires
                    s0 <= 429496729500u64,
                    category_weights[0] <= 65535,
            ;
            assert(s1 * category_weights[1] <= 429496729500u64 * 65535) by (nonlinear_arith)
                requires
                    s1 <= 429496729500u64,
                    category_weights[1] <= 65535,
            ;
            assert(s2 * category_weights[2] <= 429496729500u64 * 65535) by (nonlinear_arith)
                requires
                    s2 <= 429496729500u64,
                    category_weights[2] <= 65535,
            ;
            assert(s3 * category_weights[3] <= 429496729500u64 * 65535) by (nonlinear_arith)
                requires
                    s3 <= 429496729500u64,
                    category_weights[3] <= 65535,
            ;
        }
        let t0 = s0 * (category_weights[0] as u64);
        let t1 = s1 * (category_weights[1] as u64);
        let t2 = s2 * (category_weights[2] as u64);
        let t3 = s3 * (category_weights[3] as u64);
        let total = (t0 + t1 + t2 + t3) / 10000;
        self.total_score = total;
        total
    }

    /// Whether the record holds the given badge.
    pub fn has_achievement(&self, achievement: AchievementType) -> (r: bool)
        ensures
            r == has_badge(self.achievements, achievement),
    {
        let bit = achievement.bit_position();
        (self.achievements >> bit) & 1 == 1
    }

    /// Sets the badge's bit. Idempotent: awarding a held badge changes
    /// nothing.
    pub fn award_achievement(&mut self, achievement: AchievementType)
        ensures
            *final(self) == (UserReputation {
                achievements: old(self).achievements | (1u32 << achievement.bit_spec()),
                ..*old(self)
            }),
            has_badge(final(self).achievements, achievement),
    {
        let bit = achievement.bit_position();
        proof {
            let a = self.achievements;
            let b = achievement.bit_spec();
            assert(((a | (1u32 << b)) >> b) & 1 == 1) by (bit_vector)
                requires
                    b < 8,
            ;
        }
        self.achievements = self.achievements | (1u32 << bit);
    }
}

/// One recorded vote event in a rate-limiting record's history.
#[derive(Clone, Copy, Debug, PartialEq, Eq, Structural)]
pub struct VoteHistoryEntry {
    pub category: ReputationCategory,
    pub is_upvote: bool,
    pub timestamp: i64,
}

impl VoteHistoryEntry {
    /// Builds a history entry from its three fields.
    pub fn new(category: ReputationCategory, is_upvote: bool, timestamp: i64) -> (e:
        VoteHistoryEntry)
        ensures
            e == (VoteHistoryEntry { category, is_upvote, timestamp }),
    {
        VoteHistoryEntry { category, is_upvote, timestamp }
    }
}

/// Rate-limiting record of one ordered (voter, target) pair, created
/// lazily by the host on the pair's first vote.
#[derive(Clone, Copy, Debug, PartialEq, Eq)]
pub struct VotingRecord {
    /// Identifier of the voting participant.
    pub voter: u64,
    /// Identifier of the participant voted on.
    pub target: u64,
    /// Timestamp of the most recent vote of this pair; 0 before any vote.
    pub last_vote: i64,
    /// Votes of this pair inside the current UTC day bucket.
    pub daily_votes: u8,
    /// Timestamp at which `daily_votes` was last reset.
    pub last_daily_reset: i64,
    /// Monotonic count of votes this voter has cast on this target.
    pub total_votes_on_target: u32,
    /// Fixed-capacity circular buffer of the most recent vote events.
    pub vote_history: [VoteHistoryEntry; 1],
    /// Next write position in `vote_history`, modulo its capacity.
    pub history_index: u8,
}

impl VotingRecord {
    /// Record invariant: timestamps are non-negative epoch seconds.
    pub open spec fn wf(self) -> bool {
        &&& self.last_vote >= 0
        &&& self.last_daily_reset >= 0
    }

    /// Fresh record of a pair's first vote: all-zero counters and
    /// `last_vote = 0`, which trivially satisfies the first cooldown check.
    pub fn new(voter: u64, target: u64, now: i64) -> (rec: VotingRecord)
        requires
            now >= 0,
        ensures
            rec == (VotingRecord {
                voter,
                target,
                last_vote: 0,
                daily_votes: 0,
                last_daily_reset: now,
                total_votes_on_target: 0,
                vote_history: [
                    VoteHistoryEntry {
                        category: ReputationCategory::Governance,
                        is_upvote: false,
                        timestamp: 0,
                    },
                ],
                history_index: 0,
            }),
            rec.wf(),
    {
        VotingRecord {
            voter,
            target,
            last_vote: 0,
            daily_votes: 0,
            last_daily_reset: now,
            total_votes_on_target: 0,
            vote_history: [
                VoteHistoryEntry {
                    category: ReputationCategory::Governance,
                    is_upvote: false,
                    timestamp: 0,
                },
            ],
            history_index: 0,
        }
    }

    /// Zeroes `daily_votes` at the first call inside a new UTC day bucket
    /// and stamps the reset time; within the same bucket nothing changes.
    /// The reset is never retroactive.
    pub fn update_daily_reset(&mut self, current_time: i64)
        requires
            old(self).wf(),
            current_time >= 0,
        ensures
            day_of(current_time) > day_of(old(self).last_daily_reset) ==> *final(self) == (
            VotingRecord { daily_votes: 0, last_daily_reset: current_time, ..*old(self) }),
            day_of(current_time) <= day_of(old(self).last_daily_reset) ==> *final(self) == *old(
                self,
            ),
            final(self).daily_votes == daily_votes_after_reset(*old(self), current_time),
            final(self).wf(),
    {
        let current_day = ReputationUtils::day_number(current_time);
        let last_reset_day = ReputationUtils::day_number(self.last_daily_reset);
        if current_day > last_reset_day {
            self.daily_votes = 0;
            self.last_daily_reset = current_time;
        }
    }

    /// Applies the day-bucket reset, then reports whether the daily cap is
    /// already spent. Checking after the reset means the first vote of a
    /// new day is never blocked by yesterday's count.
    pub fn is_daily_limit_reached(&mut self, limit: u8, current_time: i64) -> (reached: bool)
        requires
            old(self).wf(),
            current_time >= 0,
        ensures
            reached == (daily_votes_after_reset(*old(self), current_time) >= limit),
            day_of(current_time) > day_of(old(self).last_daily_reset) ==> *final(self) == (
            VotingRecord { daily_votes: 0, last_daily_reset: current_time, ..*old(self) }),
            day_of(current_time) <= day_of(old(self).last_daily_reset) ==> *final(self) == *old(
                self,
            ),
            final(self).wf(),
    {
        self.update_daily_reset(current_time);
        self.daily_votes >= limit
    }

    /// The rate limiter's whole step in one operation: applies the
    /// day-bucket reset, checks the cooldown and then the daily cap, and
    /// on success commits the new counters, the vote timestamp and the
    /// history entry. The first failing check aborts with the record
    /// unchanged. Checking the cap after the reset means the first vote
    /// of a new day always passes, even if yesterday's count was at the
    /// cap.
    pub fn check_and_record(
        &mut self,
        now: i64,
        cooldown: u64,
        daily_cap: u8,
        category: ReputationCategory,
        is_upvote: bool,
    ) -> (r: Result<(), ReputationError>)
        requires
            old(self).wf(),
            0 <= old(self).last_vote <= now,
        ensures
            r is Ok <==> now - old(self).last_vote >= cooldown && daily_votes_after_reset(
                *old(self),
                now,
            ) < daily_cap && old(self).total_votes_on_target < u32::MAX,
            now - old(self).last_vote < cooldown ==> r == Err::<(), ReputationError>(
                ReputationError::CooldownActive,
            ),
            now - old(self).last_vote >= cooldown && daily_votes_after_reset(*old(self), now)
                >= daily_cap ==> r == Err::<(), ReputationError>(
                ReputationError::DailyLimitExceeded,
            ),
            now - old(self).last_vote >= cooldown && daily_votes_after_reset(*old(self), now)
                < daily_cap && old(self).total_votes_on_target == u32::MAX ==> r == Err::<
                (),
                ReputationError,
            >(ReputationError::NumericalOverflow),
            r is Err ==> *final(self) == *old(self),
            r is Ok ==> *final(self) == (VotingRecord {
                last_vote: now,
                daily_votes: (daily_votes_after_reset(*old(self), now) + 1) as u8,
                last_daily_reset: if day_of(now) > day_of(old(self).last_daily_reset) {
                    now
                } else {
                    old(self).last_daily_reset
                },
                total_votes_on_target: (old(self).total_votes_on_target + 1) as u32,
                vote_history: [VoteHistoryEntry { category, is_upvote, timestamp: now }],
                history_index: 0,
                ..*old(self)
            }),
            final(self).wf(),
    {
        let current_day = ReputationUtils::day_number(now);
        let last_reset_day = ReputationUtils::day_number(self.last_daily_reset);
        let (votes_today, reset_time) = if current_day > last_reset_day {
            (0u8, now)
        } else {
            (self.daily_votes, self.last_daily_reset)
        };
        if let Err(e) = ReputationUtils::check_voting_cooldown(self.last_vote, cooldown, now) {
            return Err(e);
        }
        if votes_today >= daily_cap {
            return Err(ReputationError::DailyLimitExceeded);
        }
        let new_total = match self.total_votes_on_target.checked_add(1) {
            Some(v) => v,
            None => {
                return Err(ReputationError::NumericalOverflow);
            },
        };
        self.daily_votes = votes_today + 1;
        self.last_daily_reset = reset_time;
        self.last_vote = now;
        self.total_votes_on_target = new_total;
        self.add_vote_to_history(category, is_upvote, now);
        Ok(())
    }

    /// Writes a vote event into the circular history, overwriting the
    /// oldest slot and advancing the cursor modulo the capacity.
    pub fn add_vote_to_history(
        &mut self,
        category: ReputationCategory,
        is_upvote: bool,
        timestamp: i64,
    )
        ensures
            *final(self) == (VotingRecord {
                vote_history: [VoteHistoryEntry { category, is_upvote, timestamp }],
                history_index: 0,
                ..*old(self)
            }),
    {
        let entry = VoteHistoryEntry::new(category, is_upvote, timestamp);
        self.vote_history[0] = entry;
        self.history_index = 0;
        proof {
            assert(self.vote_history =~= [VoteHistoryEntry { category, is_upvote, timestamp }]);
        }
    }
}

} // verus!
