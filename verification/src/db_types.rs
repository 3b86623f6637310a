//! The rows of the store. The store is append-only: a change of state is a
//! new row, and the newest row of an entity is the one that counts.
use crate::request::TournamentSubmissionKind;
use vstd::prelude::*;

verus! {

/// An uploaded program. Immutable once created.
#[derive(Clone, Debug, PartialEq, Eq)]
pub struct Submission {
    pub submission_id: i64,
    pub creation_time: i64,
    pub creator_user_id: i64,
    pub code: String,
}

/// What a submission holds, as mathematical values.
pub struct SubmissionView {
    pub submission_id: i64,
    pub creation_time: i64,
    pub creator_user_id: i64,
    pub code: Seq<char>,
}

impl View for Submission {
    type V = SubmissionView;

    open spec fn view(&self) -> SubmissionView {
        SubmissionView {
            submission_id: self.submission_id,
            creation_time: self.creation_time,
            creator_user_id: self.creator_user_id,
            code: self.code@,
        }
    }
}

/// A tournament. Immutable once created; what can change is kept in
/// `TournamentData`.
#[derive(Clone, Copy, Debug, PartialEq, Eq, Structural)]
pub struct Tournament {
    pub tournament_id: i64,
    pub creation_time: i64,
    pub creator_user_id: i64,
}

/// One configuration of a tournament. The newest row of a tournament is the
/// one in force.
#[derive(Clone, Debug, PartialEq, Eq)]
pub struct TournamentData {
    pub tournament_data_id: i64,
    pub creation_time: i64,
    pub creator_user_id: i64,
    pub tournament_id: i64,
    pub title: String,
    pub description: String,
    pub n_rounds: i64,
    pub n_matchups: i64,
    pub active: bool,
}

/// What a tournament configuration holds, as mathematical values.
pub struct TournamentDataView {
    pub tournament_data_id: i64,
    pub creation_time: i64,
    pub creator_user_id: i64,
    pub tournament_id: i64,
    pub title: Seq<char>,
    pub description: Seq<char>,
    pub n_rounds: i64,
    pub n_matchups: i64,
    pub active: bool,
}

impl View for TournamentData {
    type V = TournamentDataView;

    open spec fn view(&self) -> TournamentDataView {
        TournamentDataView {
            tournament_data_id: self.tournament_data_id,
            creation_time: self.creation_time,
            creator_user_id: self.creator_user_id,
            tournament_id: self.tournament_id,
            title: self.title@,
            description: self.description@,
            n_rounds: self.n_rounds,
            n_matchups: self.n_matchups,
            active: self.active,
        }
    }
}

/// One state of the entry of a submission in a tournament. The newest row of
/// a pair of tournament and submission is the one in force.
#[derive(Clone, Debug, PartialEq, Eq)]
pub struct TournamentSubmission {
    pub tournament_submission_id: i64,
    pub creation_time: i64,
    pub creator_user_id: i64,
    pub tournament_id: i64,
    pub submission_id: i64,
    pub name: String,
    pub kind: TournamentSubmissionKind,
}

/// What a tournament entry holds, as mathematical values.
pub struct TournamentSubmissionView {
    pub tournament_submission_id: i64,
    pub creation_time: i64,
    pub creator_user_id: i64,
    pub tournament_id: i64,
    pub submission_id: i64,
    pub name: Seq<char>,
    pub kind: TournamentSubmissionKind,
}

impl View for TournamentSubmission {
    type V = TournamentSubmissionView;

    open spec fn view(&self) -> TournamentSubmissionView {
        TournamentSubmissionView {
            tournament_submission_id: self.tournament_submission_id,
            creation_time: self.creation_time,
            creator_user_id: self.creator_user_id,
            tournament_id: self.tournament_id,
            submission_id: self.submission_id,
            name: self.name@,
            kind: self.kind,
        }
    }
}

/// The outcome of one attempt of one submission at one round of one matchup
/// instance. `defected` is `None` where the attempt failed; a later row for
/// the same round may supersede it.
#[derive(Clone, Debug, PartialEq, Eq)]
pub struct MatchResolution {
    pub match_resolution_id: i64,
    pub submission_id: i64,
    pub opponent_submission_id: i64,
    pub round: i64,
    pub matchup: i64,
    pub creation_time: i64,
    pub defected: Option<bool>,
    pub stdout: String,
    pub stderr: String,
}

/// What a match resolution holds, as mathematical values.
pub struct MatchResolutionView {
    pub match_resolution_id: i64,
    pub submission_id: i64,
    pub opponent_submission_id: i64,
    pub round: i64,
    pub matchup: i64,
    pub creation_time: i64,
    pub defected: Option<bool>,
    pub stdout: Seq<char>,
    pub stderr: Seq<char>,
}

impl View for MatchResolution {
    type V = MatchResolutionView;

    open spec fn view(&self) -> MatchResolutionView {
        MatchResolutionView {
            match_resolution_id: self.match_resolution_id,
            submission_id: self.submission_id,
            opponent_submission_id: self.opponent_submission_id,
            round: self.round,
            matchup: self.matchup,
            creation_time: self.creation_time,
            defected: self.defected,
            stdout: self.stdout@,
            stderr: self.stderr@,
        }
    }
}

} // verus!
