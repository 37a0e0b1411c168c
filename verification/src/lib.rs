//! Multi-category reputation ledger and voting engine for a governance
//! community.
//!
//! Reputation accrues along four categories through peer endorsement votes.
//! Scores are computed with quadratic dampening (an integer square root of
//! the raw point totals) and a weighted aggregation in basis points, erode
//! under compound daily decay, and unlock discrete role levels against an
//! ascending threshold table. Voting is rate limited per (voter, target)
//! pair by a cooldown and a daily cap, and consecutive-day participation is
//! rewarded through streak bonuses and achievement badges.
//!
//! The crate holds the data model and every state transition as verified
//! functions over plain values; durable storage, authentication and the
//! current-time source are the host's concern and enter only as arguments.

pub mod achievements;
pub mod decay;
pub mod errors;
pub mod initialize;
pub mod laws;
pub mod reputation;
pub mod roles;
pub mod state;
pub mod streak;
pub mod utils;
pub mod vote;
