//! Typed failures of the reputation core. Every failure is a validation or
//! arithmetic-safety rejection decided by the inputs alone; none is
//! transient, and a failed operation leaves every record unchanged.

use vstd::prelude::*;

verus! {

/// The closed set of reasons a core operation can refuse to run.
#[derive(Clone, Copy, Debug, PartialEq, Eq, Structural)]
pub enum ReputationError {
    /// The voter account is younger than the configured minimum age.
    AccountTooNew,
    /// A vote on the same target arrived before the cooldown elapsed.
    CooldownActive,
    /// The voter already spent the daily vote cap on this target today.
    DailyLimitExceeded,
    /// The voter's total score is below the configured voting minimum.
    InsufficientReputationToVote,
    /// A voter may not vote on their own record.
    CannotVoteOnSelf,
    /// Vote weight lies outside 1 through 10.
    InvalidVoteWeight,
    /// A role level outside the threshold table was requested.
    InvalidRoleLevel,
    /// Score or stored level do not allow claiming the requested role.
    RoleRequirementsNotMet,
    /// A subtraction would push a point accumulator below zero.
    NegativeReputationNotAllowed,
    /// The badge is already set on the record.
    AchievementAlreadyAwarded,
    /// The badge to revoke is not set on the record.
    AchievementNotHeld,
    /// A checked addition overflowed its 64-bit or 32-bit accumulator.
    NumericalOverflow,
    /// Decay is disabled, the record has no activity, or less than one
    /// full day of inactivity has elapsed.
    DecayNotApplicable,
    /// Category weights do not sum to 10000 basis points.
    InvalidCategoryWeights,
    /// Role thresholds are not strictly ascending.
    InvalidRoleThresholds,
    /// A configuration value lies outside its documented range.
    InvalidConfigurationValues,
    /// A free-text input exceeds its maximum length.
    StringTooLong,
}

} // verus!
