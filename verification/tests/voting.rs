//! The vote engine end to end: the scoring scenario, the rate limiter,
//! the vote asymmetry, and every refusal the engine can give.

use dao_reputation_scoreboard::errors::ReputationError;
use dao_reputation_scoreboard::initialize::initialize_reputation_system;
use dao_reputation_scoreboard::reputation::initialize_user_reputation;
use dao_reputation_scoreboard::state::{AchievementType, ReputationCategory, ReputationConfig, VotingRecord};
use dao_reputation_scoreboard::vote::cast_vote;

const DAY: i64 = 86_400;

fn test_config() -> ReputationConfig {
    initialize_reputation_system(
        300,
        86_400,
        5,
        0,
        [3_000, 3_000, 2_000, 2_000],
        [100, 500, 1_000, 5_000, 10_000],
    )
    .expect("the fixture configuration is valid")
}

#[test]
fn upvote_scenario_scores_the_quadratic_formula() {
    // A weight-5 governance upvote from a streak-0 voter carries exactly
    // 50 points; the score follows the quadratic formula:
    // isqrt(50) * 100 * 3000 / 10000 = 700 * 3000 / 10000 = 210.
    let config = test_config();
    let created = 100 * DAY;
    let now = 101 * DAY + 1_000;
    let mut voter = initialize_user_reputation(1, created);
    let mut target = initialize_user_reputation(2, created);
    let mut record = VotingRecord::new(1, 2, created);

    let r = cast_vote(
        &config,
        &mut voter,
        &mut target,
        &mut record,
        true,
        ReputationCategory::Governance,
        5,
        now,
    );
    assert_eq!(r, Ok(()));
    assert_eq!(target.category_points, [50, 0, 0, 0]);
    assert_eq!(target.raw_votes, [50, 0, 0, 0]);
    assert_eq!(target.seasonal_points, [50, 0, 0, 0]);
    assert_eq!(target.total_score, 210);
    assert_eq!(target.role_level, 1);
    assert_eq!(target.last_activity, now);
    assert_eq!(voter.votes_cast, 1);
    assert_eq!(voter.last_activity, now);
    assert_eq!(record.last_vote, now);
    assert_eq!(record.daily_votes, 1);
    assert_eq!(record.total_votes_on_target, 1);
    assert_eq!(record.vote_history[0].timestamp, now);
    assert!(record.vote_history[0].is_upvote);
}

#[test]
fn upvote_adds_exactly_weight_times_ten_at_streak_zero() {
    let config = test_config();
    let created = 100 * DAY;
    // Same day bucket as creation, so the voter's streak stays 0.
    let now = 101 * DAY;
    for weight in 1u8..=10 {
        let mut voter = initialize_user_reputation(1, created);
        voter.last_activity = now;
        let mut target = initialize_user_reputation(2, created);
        let mut record = VotingRecord::new(1, 2, created);
        let r = cast_vote(
            &config,
            &mut voter,
            &mut target,
            &mut record,
            true,
            ReputationCategory::Development,
            weight,
            now,
        );
        assert_eq!(r, Ok(()));
        assert_eq!(target.category_points[1], weight as u64 * 10);
        assert_eq!(target.raw_votes[1], weight as u64 * 10);
    }
}

#[test]
fn downvote_never_touches_raw_votes_and_halves_the_points() {
    let config = test_config();
    let created = 100 * DAY;
    let now = 101 * DAY;
    let mut voter = initialize_user_reputation(1, created);
    let mut target = initialize_user_reputation(2, created);
    target.category_points = [100, 0, 0, 0];
    target.raw_votes = [100, 0, 0, 0];
    let mut record = VotingRecord::new(1, 2, created);
    let r = cast_vote(
        &config,
        &mut voter,
        &mut target,
        &mut record,
        false,
        ReputationCategory::Governance,
        4,
        now,
    );
    assert_eq!(r, Ok(()));
    // 4 * 10 / 2 = 20 subtracted from the category points only.
    assert_eq!(target.category_points, [80, 0, 0, 0]);
    assert_eq!(target.raw_votes, [100, 0, 0, 0]);
    assert_eq!(target.seasonal_points, [0, 0, 0, 0]);
}

#[test]
fn downvote_below_zero_is_refused_whole() {
    let config = test_config();
    let created = 100 * DAY;
    let now = 101 * DAY;
    let mut voter = initialize_user_reputation(1, created);
    let mut target = initialize_user_reputation(2, created);
    target.category_points = [3, 0, 0, 0];
    let before = target;
    let mut record = VotingRecord::new(1, 2, created);
    let r = cast_vote(
        &config,
        &mut voter,
        &mut target,
        &mut record,
        false,
        ReputationCategory::Governance,
        1,
        now,
    );
    assert_eq!(r, Err(ReputationError::NegativeReputationNotAllowed));
    assert_eq!(target, before);
    assert_eq!(record.daily_votes, 0);
}

#[test]
fn second_vote_within_cooldown_fails_then_succeeds_after() {
    let config = test_config();
    let created = 100 * DAY;
    let now1 = 101 * DAY + 1_000;
    let mut voter = initialize_user_reputation(1, created);
    let mut target = initialize_user_reputation(2, created);
    let mut record = VotingRecord::new(1, 2, created);

    let first = cast_vote(
        &config,
        &mut voter,
        &mut target,
        &mut record,
        true,
        ReputationCategory::Governance,
        1,
        now1,
    );
    assert_eq!(first, Ok(()));

    // 299 seconds later: still inside the 300-second cooldown.
    let voter_before = voter;
    let target_before = target;
    let record_before = record;
    let blocked = cast_vote(
        &config,
        &mut voter,
        &mut target,
        &mut record,
        true,
        ReputationCategory::Governance,
        1,
        now1 + 299,
    );
    assert_eq!(blocked, Err(ReputationError::CooldownActive));
    assert_eq!(voter, voter_before);
    assert_eq!(target, target_before);
    assert_eq!(record, record_before);

    // Exactly the cooldown later: allowed again.
    let allowed = cast_vote(
        &config,
        &mut voter,
        &mut target,
        &mut record,
        true,
        ReputationCategory::Governance,
        1,
        now1 + 300,
    );
    assert_eq!(allowed, Ok(()));
    assert_eq!(record.daily_votes, 2);
}

#[test]
fn daily_cap_blocks_and_a_new_day_resets_it() {
    let config = test_config();
    let created = 100 * DAY;
    let mut voter = initialize_user_reputation(1, created);
    let mut target = initialize_user_reputation(2, created);
    let mut record = VotingRecord::new(1, 2, created);

    // Five votes, each a cooldown apart, spend the whole daily cap.
    for k in 0i64..5 {
        let r = cast_vote(
            &config,
            &mut voter,
            &mut target,
            &mut record,
            true,
            ReputationCategory::Community,
            1,
            101 * DAY + 1_000 + 300 * k,
        );
        assert_eq!(r, Ok(()));
    }
    assert_eq!(record.daily_votes, 5);

    // A sixth vote the same day is over the cap.
    let blocked = cast_vote(
        &config,
        &mut voter,
        &mut target,
        &mut record,
        true,
        ReputationCategory::Community,
        1,
        101 * DAY + 10_000,
    );
    assert_eq!(blocked, Err(ReputationError::DailyLimitExceeded));
    assert_eq!(record.daily_votes, 5);

    // The first vote after the day boundary resets the count and goes
    // through, even though yesterday's count equalled the cap.
    let new_day = 102 * DAY + 50;
    let allowed = cast_vote(
        &config,
        &mut voter,
        &mut target,
        &mut record,
        true,
        ReputationCategory::Community,
        1,
        new_day,
    );
    assert_eq!(allowed, Ok(()));
    assert_eq!(record.daily_votes, 1);
    assert_eq!(record.last_daily_reset, new_day);
}

#[test]
fn check_and_record_commits_only_on_success() {
    let created = 100 * DAY;
    let mut record = VotingRecord::new(1, 2, created);
    let now = 101 * DAY + 1_000;
    let r = record.check_and_record(now, 300, 2, ReputationCategory::Treasury, true);
    assert_eq!(r, Ok(()));
    assert_eq!(record.daily_votes, 1);
    assert_eq!(record.total_votes_on_target, 1);
    assert_eq!(record.last_vote, now);
    assert_eq!(record.last_daily_reset, now);
    assert_eq!(record.vote_history[0].category, ReputationCategory::Treasury);

    // Inside the cooldown: refused with the record untouched.
    let before = record;
    let blocked = record.check_and_record(now + 299, 300, 2, ReputationCategory::Treasury, true);
    assert_eq!(blocked, Err(ReputationError::CooldownActive));
    assert_eq!(record, before);

    // Second allowed vote spends the cap of 2; the third is refused.
    assert_eq!(
        record.check_and_record(now + 300, 300, 2, ReputationCategory::Treasury, false),
        Ok(())
    );
    assert_eq!(record.daily_votes, 2);
    let capped = record.check_and_record(now + 600, 300, 2, ReputationCategory::Treasury, true);
    assert_eq!(capped, Err(ReputationError::DailyLimitExceeded));

    // The first call of the next day passes and restarts the count.
    let next_day = 102 * DAY + 10;
    assert_eq!(
        record.check_and_record(next_day, 300, 2, ReputationCategory::Treasury, true),
        Ok(())
    );
    assert_eq!(record.daily_votes, 1);
    assert_eq!(record.last_daily_reset, next_day);
    assert_eq!(record.total_votes_on_target, 3);
}

#[test]
fn self_vote_is_refused() {
    let config = test_config();
    let created = 100 * DAY;
    let mut voter = initialize_user_reputation(1, created);
    let mut same = initialize_user_reputation(1, created);
    let mut record = VotingRecord::new(1, 1, created);
    let r = cast_vote(
        &config,
        &mut voter,
        &mut same,
        &mut record,
        true,
        ReputationCategory::Governance,
        1,
        101 * DAY,
    );
    assert_eq!(r, Err(ReputationError::CannotVoteOnSelf));
}

#[test]
fn out_of_range_weights_are_refused() {
    let config = test_config();
    let created = 100 * DAY;
    for weight in [0u8, 11, 200] {
        let mut voter = initialize_user_reputation(1, created);
        let mut target = initialize_user_reputation(2, created);
        let mut record = VotingRecord::new(1, 2, created);
        let r = cast_vote(
            &config,
            &mut voter,
            &mut target,
            &mut record,
            true,
            ReputationCategory::Governance,
            weight,
            101 * DAY,
        );
        assert_eq!(r, Err(ReputationError::InvalidVoteWeight));
    }
}

#[test]
fn young_accounts_may_not_vote() {
    let config = test_config();
    let created = 100 * DAY;
    // Only 100 seconds old: far under the one-day minimum age.
    let now = 100 * DAY + 100;
    let mut voter = initialize_user_reputation(1, created);
    let mut target = initialize_user_reputation(2, created);
    let mut record = VotingRecord::new(1, 2, created);
    let r = cast_vote(
        &config,
        &mut voter,
        &mut target,
        &mut record,
        true,
        ReputationCategory::Governance,
        1,
        now,
    );
    assert_eq!(r, Err(ReputationError::AccountTooNew));
}

#[test]
fn low_reputation_voters_are_refused_when_a_minimum_is_set() {
    let config = initialize_reputation_system(
        300,
        86_400,
        5,
        50,
        [3_000, 3_000, 2_000, 2_000],
        [100, 500, 1_000, 5_000, 10_000],
    )
    .expect("the fixture configuration is valid");
    let created = 100 * DAY;
    let mut voter = initialize_user_reputation(1, created);
    let mut target = initialize_user_reputation(2, created);
    let mut record = VotingRecord::new(1, 2, created);
    let r = cast_vote(
        &config,
        &mut voter,
        &mut target,
        &mut record,
        true,
        ReputationCategory::Governance,
        1,
        101 * DAY,
    );
    assert_eq!(r, Err(ReputationError::InsufficientReputationToVote));
}

#[test]
fn accumulator_overflow_aborts_with_no_partial_effects() {
    let config = test_config();
    let created = 100 * DAY;
    let now = 101 * DAY;
    let mut voter = initialize_user_reputation(1, created);
    let mut target = initialize_user_reputation(2, created);
    target.raw_votes = [u64::MAX, 0, 0, 0];
    let voter_before = voter;
    let target_before = target;
    let mut record = VotingRecord::new(1, 2, created);
    let record_before = record;
    let r = cast_vote(
        &config,
        &mut voter,
        &mut target,
        &mut record,
        true,
        ReputationCategory::Governance,
        1,
        now,
    );
    assert_eq!(r, Err(ReputationError::NumericalOverflow));
    assert_eq!(voter, voter_before);
    assert_eq!(target, target_before);
    assert_eq!(record, record_before);
}

#[test]
fn voter_streak_bonus_flows_into_the_vote() {
    // A voter on a 7-day streak carries a 100-point bonus; a tenth of it
    // rides on each vote: 10 + 100/10 = 20 points at weight 1.
    let config = test_config();
    let created = 100 * DAY;
    let now = 150 * DAY;
    let mut voter = initialize_user_reputation(1, created);
    voter.current_streak = 7;
    voter.longest_streak = 7;
    voter.last_activity = now;
    let mut target = initialize_user_reputation(2, created);
    let mut record = VotingRecord::new(1, 2, created);
    let r = cast_vote(
        &config,
        &mut voter,
        &mut target,
        &mut record,
        true,
        ReputationCategory::Treasury,
        1,
        now,
    );
    assert_eq!(r, Ok(()));
    assert_eq!(target.category_points[3], 20);
    assert_eq!(target.raw_votes[3], 20);
    // The voter's own streak is unchanged within the same day bucket.
    assert_eq!(voter.current_streak, 7);
}

#[test]
fn a_vote_on_a_consecutive_day_advances_the_streak_and_pays_its_bonus() {
    // The vote engine runs the streak transition on the voter: a vote on
    // the seventh consecutive day raises the streak to 7, grants the
    // weekly badge, and pays the 100-point weekly bonus into the
    // voter's own governance accumulators.
    let config = test_config();
    let created = 50 * DAY;
    let mut voter = initialize_user_reputation(1, created);
    voter.current_streak = 6;
    voter.longest_streak = 6;
    voter.last_activity = 100 * DAY + 500;
    let mut target = initialize_user_reputation(2, created);
    let mut record = VotingRecord::new(1, 2, created);
    let now = 101 * DAY + 700;
    let r = cast_vote(
        &config,
        &mut voter,
        &mut target,
        &mut record,
        true,
        ReputationCategory::Development,
        2,
        now,
    );
    assert_eq!(r, Ok(()));
    assert_eq!(voter.current_streak, 7);
    assert_eq!(voter.longest_streak, 7);
    assert!(voter.has_achievement(AchievementType::WeeklyStreak));
    assert_eq!(voter.category_points[0], 100);
    assert_eq!(voter.raw_votes[0], 100);
    // The voter's own total score is not rescored by voting.
    assert_eq!(voter.total_score, 0);
    // The vote itself still carried the pre-transition streak's bonus:
    // streak 6 pays none, so the target got exactly 2 * 10.
    assert_eq!(target.category_points[1], 20);
    // The history slot holds the latest event.
    assert_eq!(record.vote_history[0].timestamp, now);
    assert_eq!(record.vote_history[0].category, ReputationCategory::Development);
}

#[test]
fn first_vote_badge_is_granted_on_the_first_vote() {
    let config = test_config();
    let created = 100 * DAY;
    let mut voter = initialize_user_reputation(1, created);
    let mut target = initialize_user_reputation(2, created);
    let mut record = VotingRecord::new(1, 2, created);
    assert!(!voter.has_achievement(AchievementType::FirstVote));
    let r = cast_vote(
        &config,
        &mut voter,
        &mut target,
        &mut record,
        true,
        ReputationCategory::Governance,
        1,
        101 * DAY,
    );
    assert_eq!(r, Ok(()));
    assert!(voter.has_achievement(AchievementType::FirstVote));
    assert!(!voter.has_achievement(AchievementType::ConsistentVoter));
}

#[test]
fn hundredth_vote_grants_the_consistent_voter_badge() {
    let config = test_config();
    let created = 100 * DAY;
    let now = 101 * DAY;
    let mut voter = initialize_user_reputation(1, created);
    voter.votes_cast = 99;
    voter.last_activity = now;
    let mut target = initialize_user_reputation(2, created);
    let mut record = VotingRecord::new(1, 2, created);
    let r = cast_vote(
        &config,
        &mut voter,
        &mut target,
        &mut record,
        true,
        ReputationCategory::Governance,
        1,
        now,
    );
    assert_eq!(r, Ok(()));
    assert_eq!(voter.votes_cast, 100);
    assert!(voter.has_achievement(AchievementType::ConsistentVoter));
}
