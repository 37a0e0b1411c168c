//! The arithmetic leaves: integer square root, quadratic dampening,
//! decay factors and the streak bonus table.

use dao_reputation_scoreboard::errors::ReputationError;
use dao_reputation_scoreboard::utils::ReputationUtils;

#[test]
fn isqrt_exact_on_perfect_squares_up_to_a_million() {
    for k in 0u64..=1_000_000u64 {
        assert_eq!(ReputationUtils::isqrt(k * k), k);
    }
}

#[test]
fn isqrt_brackets_non_squares() {
    for n in 0u64..=100_000u64 {
        let r = ReputationUtils::isqrt(n);
        assert!(r * r <= n);
        assert!(n < (r + 1) * (r + 1));
    }
    let r = ReputationUtils::isqrt(u64::MAX);
    assert_eq!(r, 4_294_967_295);
    assert!(r * r <= u64::MAX);
}

#[test]
fn isqrt_small_values() {
    assert_eq!(ReputationUtils::isqrt(0), 0);
    assert_eq!(ReputationUtils::isqrt(1), 1);
    assert_eq!(ReputationUtils::isqrt(2), 1);
    assert_eq!(ReputationUtils::isqrt(3), 1);
    assert_eq!(ReputationUtils::isqrt(4), 2);
    assert_eq!(ReputationUtils::isqrt(50), 7);
    assert_eq!(ReputationUtils::isqrt(99), 9);
    assert_eq!(ReputationUtils::isqrt(100), 10);
    assert_eq!(ReputationUtils::isqrt(1000), 31);
}

#[test]
fn quadratic_weight_scales_the_root_by_a_hundred() {
    assert_eq!(ReputationUtils::calculate_quadratic_weight(0), 0);
    assert_eq!(ReputationUtils::calculate_quadratic_weight(50), 700);
    assert_eq!(ReputationUtils::calculate_quadratic_weight(100), 1000);
    assert_eq!(ReputationUtils::calculate_quadratic_weight(10_000), 10_000);
}

#[test]
fn decay_factor_is_full_at_zero_elapsed_time() {
    // Zero elapsed time means no decay, for any rate.
    for rate in [0u16, 1, 10, 100, 5000, 10000] {
        let t = 1_700_000_000i64;
        assert_eq!(ReputationUtils::calculate_decay_factor(t, t, rate), 10_000);
    }
}

#[test]
fn decay_factor_compounds_with_daily_truncation() {
    let day = 86_400i64;
    let start = 100 * day;
    // 1% per day, compounded with truncation: 10000 -> 9900 -> 9801.
    assert_eq!(ReputationUtils::calculate_decay_factor(start, start + day, 100), 9_900);
    assert_eq!(ReputationUtils::calculate_decay_factor(start, start + 2 * day, 100), 9_801);
    // A partial extra day changes nothing.
    assert_eq!(
        ReputationUtils::calculate_decay_factor(start, start + 2 * day + 86_399, 100),
        9_801
    );
    // Truncation accumulates day by day: three days of 33 bps.
    // 10000 -> 9967 -> 9934 (9967*9967/10000 truncates) -> 9901.
    assert_eq!(ReputationUtils::calculate_decay_factor(start, start + day, 33), 9_967);
    assert_eq!(ReputationUtils::calculate_decay_factor(start, start + 2 * day, 33), 9_934);
    assert_eq!(ReputationUtils::calculate_decay_factor(start, start + 3 * day, 33), 9_901);
}

#[test]
fn decay_factor_strictly_decreases_until_zero() {
    let day = 86_400i64;
    let start = 0i64;
    let mut previous = 10_000u64;
    for d in 1i64..=400 {
        let f = ReputationUtils::calculate_decay_factor(start, start + d * day, 200);
        if f > 0 {
            assert!(f < previous);
        } else {
            assert!(previous == 0 || f < previous);
        }
        previous = f;
    }
}

#[test]
fn streak_bonus_follows_the_step_table() {
    assert_eq!(ReputationUtils::calculate_streak_bonus(0), 0);
    assert_eq!(ReputationUtils::calculate_streak_bonus(6), 0);
    assert_eq!(ReputationUtils::calculate_streak_bonus(7), 100);
    assert_eq!(ReputationUtils::calculate_streak_bonus(13), 100);
    assert_eq!(ReputationUtils::calculate_streak_bonus(14), 300);
    assert_eq!(ReputationUtils::calculate_streak_bonus(29), 300);
    assert_eq!(ReputationUtils::calculate_streak_bonus(30), 500);
    assert_eq!(ReputationUtils::calculate_streak_bonus(89), 500);
    assert_eq!(ReputationUtils::calculate_streak_bonus(90), 800);
    assert_eq!(ReputationUtils::calculate_streak_bonus(179), 800);
    assert_eq!(ReputationUtils::calculate_streak_bonus(180), 1_000);
    assert_eq!(ReputationUtils::calculate_streak_bonus(u32::MAX), 1_000);
}

#[test]
fn role_level_picks_the_highest_met_threshold() {
    let thresholds = [100u64, 500, 1_000, 5_000, 10_000];
    assert_eq!(ReputationUtils::calculate_role_level(0, &thresholds), 0);
    assert_eq!(ReputationUtils::calculate_role_level(99, &thresholds), 0);
    assert_eq!(ReputationUtils::calculate_role_level(100, &thresholds), 1);
    assert_eq!(ReputationUtils::calculate_role_level(999, &thresholds), 2);
    assert_eq!(ReputationUtils::calculate_role_level(1_000, &thresholds), 3);
    assert_eq!(ReputationUtils::calculate_role_level(9_999, &thresholds), 4);
    assert_eq!(ReputationUtils::calculate_role_level(10_000, &thresholds), 5);
    assert_eq!(ReputationUtils::calculate_role_level(u64::MAX, &thresholds), 5);
}

#[test]
fn safe_arithmetic_guards_the_edges() {
    assert_eq!(ReputationUtils::safe_add_points(1, 2), Ok(3));
    assert_eq!(ReputationUtils::safe_add_points(u64::MAX, 0), Ok(u64::MAX));
    assert_eq!(
        ReputationUtils::safe_add_points(u64::MAX, 1),
        Err(ReputationError::NumericalOverflow)
    );
    assert_eq!(ReputationUtils::safe_subtract_points(5, 5), Ok(0));
    assert_eq!(
        ReputationUtils::safe_subtract_points(4, 5),
        Err(ReputationError::NegativeReputationNotAllowed)
    );
}
