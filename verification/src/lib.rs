//! Scheduling, admission and streaming rules of an iterated Prisoner's Dilemma
//! tournament service.
//!
//! Submissions play rounds against each other inside a sandbox. This crate
//! holds the rules that decide which matchups are scheduled, which of them
//! run, how a matchup advances round by round, what is handed to the sandbox
//! and which results reach a live subscriber. Storage, transport and the
//! sandbox itself are the caller's business: the functions here decide on
//! values that the caller has read, and the caller carries the decisions
//! out.
use vstd::prelude::*;

pub mod admission;
pub mod api;
pub mod db_types;
pub mod handlers;
pub mod matchup;
pub mod registry;
pub mod request;
pub mod response;
pub mod run_code;
pub mod sandbox;
pub mod stream;

verus! {

/// Name under which the service reports itself.
pub const SERVICE_NAME: &'static str = "pdarena-service";

/// Wall-clock bound of one sandbox call, in milliseconds.
pub const MAX_TIME_MS: u64 = 1000;

/// How many announcements of new rows a subscriber may fall behind before it
/// loses some. A subscriber that loses announcements misses nothing that it
/// would not get again: it has replayed the store before it listens.
pub const BROADCAST_BACKLOG: usize = 1000;

/// The scheduling unit: one matchup instance between two submissions, to be
/// played up to `n_rounds` rounds.
///
/// Two tasks are equal when all four fields are equal.
#[derive(Clone, Copy, Debug, PartialEq, Eq, Structural)]
pub struct MatchupTask {
    pub matchup_num: i64,
    pub n_rounds: i64,
    pub submission_id: i64,
    pub opponent_submission_id: i64,
}

} // verus!
