//! Validated construction of the configuration snapshot.

use vstd::prelude::*;
use crate::errors::ReputationError;
use crate::state::ReputationConfig;
use crate::utils::{thresholds_ascending, weights_sum, ReputationUtils};

verus! {

/// Whether every scalar parameter of the configuration lies in its
/// documented range: a cooldown between five minutes and a day, a minimum
/// account age between one and thirty days, a daily cap between 1 and
/// 100, and a voting minimum of at most 10000.
pub open spec fn config_ranges_ok(
    voting_cooldown: u64,
    min_account_age: u64,
    daily_vote_limit: u8,
    min_reputation_to_vote: u64,
) -> bool {
    &&& 300 <= voting_cooldown <= 86400
    &&& 86400 <= min_account_age <= 2592000
    &&& 1 <= daily_vote_limit <= 100
    &&& min_reputation_to_vote <= 10000
}

/// Builds the configuration snapshot after validating every parameter:
/// weights must sum to 10000 basis points, thresholds must be strictly
/// ascending, and each scalar must lie in its range. Decay starts enabled
/// at 10 basis points per day.
pub fn initialize_reputation_system(
    voting_cooldown: u64,
    min_account_age: u64,
    daily_vote_limit: u8,
    min_reputation_to_vote: u64,
    category_weights: [u16; 4],
    role_thresholds: [u64; 5],
) -> (r: Result<ReputationConfig, ReputationError>)
    ensures
        r is Ok <==> weights_sum(category_weights) == 10000 && thresholds_ascending(role_thresholds)
            && config_ranges_ok(
            voting_cooldown,
            min_account_age,
            daily_vote_limit,
            min_reputation_to_vote,
        ),
        weights_sum(category_weights) != 10000 ==> r == Err::<ReputationConfig, ReputationError>(
            ReputationError::InvalidCategoryWeights,
        ),
        weights_sum(category_weights) == 10000 && !thresholds_ascending(role_thresholds) ==> r
            == Err::<ReputationConfig, ReputationError>(ReputationError::InvalidRoleThresholds),
        weights_sum(category_weights) == 10000 && thresholds_ascending(role_thresholds)
            && !config_ranges_ok(
            voting_cooldown,
            min_account_age,
            daily_vote_limit,
            min_reputation_to_vote,
        ) ==> r == Err::<ReputationConfig, ReputationError>(
            ReputationError::InvalidConfigurationValues,
        ),
        r is Ok ==> r->Ok_0 == (ReputationConfig {
            voting_cooldown,
            min_account_age,
            daily_vote_limit,
            min_reputation_to_vote,
            category_weights,
            role_thresholds,
            decay_rate: 10,
            decay_enabled: true,
        }),
        r is Ok ==> r->Ok_0.valid(),
{
    if let Err(e) = ReputationUtils::validate_category_weights(&category_weights) {
        return Err(e);
    }
    if let Err(e) = ReputationUtils::validate_role_thresholds(&role_thresholds) {
        return Err(e);
    }
    if voting_cooldown < 300 || voting_cooldown > 86400 {
        return Err(ReputationError::InvalidConfigurationValues);
    }
    if min_account_age < 86400 || min_account_age > 2592000 {
        return Err(ReputationError::InvalidConfigurationValues);
    }
    if daily_vote_limit == 0 || daily_vote_limit > 100 {
        return Err(ReputationError::InvalidConfigurationValues);
    }
    if min_reputation_to_vote > 10000 {
        return Err(ReputationError::InvalidConfigurationValues);
    }
    Ok(
        ReputationConfig {
            voting_cooldown,
            min_account_age,
            daily_vote_limit,
            min_reputation_to_vote,
            category_weights,
            role_thresholds,
            decay_rate: 10,
            decay_enabled: true,
        },
    )
}

} // verus!
