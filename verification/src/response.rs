//! What clients receive: the error codes and the views of the stored rows.
use crate::db_types::MatchResolutionView;
use crate::db_types::SubmissionView;
use crate::request::TournamentSubmissionKind;
use vstd::prelude::*;

verus! {

/// The errors that the service reports. Each is known to clients by its
/// name.
#[derive(Clone, Copy, Debug, PartialEq, Eq, Structural)]
pub enum AppError {
    NoCapability,
    SubmissionNonexistent,
    TournamentNonexistent,
    TournamentDataNRoundsInvalid,
    TournamentDataNMatchupsInvalid,
    TournamentDataTooManyMatches,
    SubmissionTooLong,
    TournamentSubmissionNotValidated,
    TournamentSubmissionTestcaseIncomplete,
    TournamentSubmissionTestcaseFails,
    TournamentArchived,
    StreamEndBeforeRequest,
    DecodeError,
    MethodNotAllowed,
    InternalServerError,
    Unauthorized,
    BadRequest,
    NotFound,
    Network,
    Unknown,
}

impl AppError {
    /// The name of the error.
    pub open spec fn name(self) -> Seq<char> {
        match self {
            AppError::NoCapability => "NoCapability"@,
            AppError::SubmissionNonexistent => "SubmissionNonexistent"@,
            AppError::TournamentNonexistent => "TournamentNonexistent"@,
            AppError::TournamentDataNRoundsInvalid => "TournamentDataNRoundsInvalid"@,
            AppError::TournamentDataNMatchupsInvalid => "TournamentDataNMatchupsInvalid"@,
            AppError::TournamentDataTooManyMatches => "TournamentDataTooManyMatches"@,
            AppError::SubmissionTooLong => "SubmissionTooLong"@,
            AppError::TournamentSubmissionNotValidated => "TournamentSubmissionNotValidated"@,
            AppError::TournamentSubmissionTestcaseIncomplete => "TournamentSubmissionTestcaseIncomplete"@,
            AppError::TournamentSubmissionTestcaseFails => "TournamentSubmissionTestcaseFails"@,
            AppError::TournamentArchived => "TournamentArchived"@,
            AppError::StreamEndBeforeRequest => "StreamEndBeforeRequest"@,
            AppError::DecodeError => "DecodeError"@,
            AppError::MethodNotAllowed => "MethodNotAllowed"@,
            AppError::InternalServerError => "InternalServerError"@,
            AppError::Unauthorized => "Unauthorized"@,
            AppError::BadRequest => "BadRequest"@,
            AppError::NotFound => "NotFound"@,
            AppError::Network => "Network"@,
            AppError::Unknown => "Unknown"@,
        }
    }

    /// The name of the error, as a string slice.
    pub fn as_ref(&self) -> (s: &'static str)
        ensures
            s@ == self.name(),
    {
        match self {
            AppError::NoCapability => "NoCapability",
            AppError::SubmissionNonexistent => "SubmissionNonexistent",
            AppError::TournamentNonexistent => "TournamentNonexistent",
            AppError::TournamentDataNRoundsInvalid => "TournamentDataNRoundsInvalid",
            AppError::TournamentDataNMatchupsInvalid => "TournamentDataNMatchupsInvalid",
            AppError::TournamentDataTooManyMatches => "TournamentDataTooManyMatches",
            AppError::SubmissionTooLong => "SubmissionTooLong",
            AppError::TournamentSubmissionNotValidated => "TournamentSubmissionNotValidated",
            AppError::TournamentSubmissionTestcaseIncomplete => "TournamentSubmissionTestcaseIncomplete",
            AppError::TournamentSubmissionTestcaseFails => "TournamentSubmissionTestcaseFails",
            AppError::TournamentArchived => "TournamentArchived",
            AppError::StreamEndBeforeRequest => "StreamEndBeforeRequest",
            AppError::DecodeError => "DecodeError",
            AppError::MethodNotAllowed => "MethodNotAllowed",
            AppError::InternalServerError => "InternalServerError",
            AppError::Unauthorized => "Unauthorized",
            AppError::BadRequest => "BadRequest",
            AppError::NotFound => "NotFound",
            AppError::Network => "Network",
            AppError::Unknown => "Unknown",
        }
    }

    /// The name of the error, as it is shown to a reader.
    pub fn to_string(&self) -> (s: String)
        ensures
            s@ == self.name(),
    {
        String::from_str(self.as_ref())
    }
}

/// A submission, as shown to its author.
#[derive(Clone, Debug, PartialEq, Eq)]
pub struct Submission {
    pub submission_id: i64,
    pub creation_time: i64,
    pub creator_user_id: i64,
    pub code: String,
}

impl View for Submission {
    type V = SubmissionView;

    open spec fn view(&self) -> SubmissionView {
        SubmissionView {
            submission_id: self.submission_id,
            creation_time: self.creation_time,
            creator_user_id: self.creator_user_id,
            code: self.code@,
        }
    }
}

/// A tournament, as shown to clients.
#[derive(Clone, Copy, Debug, PartialEq, Eq, Structural)]
pub struct Tournament {
    pub tournament_id: i64,
    pub creation_time: i64,
    pub creator_user_id: i64,
}

/// A tournament configuration together with its tournament, as shown to
/// clients.
#[derive(Clone, Debug, PartialEq, Eq)]
pub struct TournamentData {
    pub tournament_data_id: i64,
    pub creation_time: i64,
    pub creator_user_id: i64,
    pub tournament: Tournament,
    pub title: String,
    pub description: String,
    pub n_rounds: i64,
    pub n_matchups: i64,
    pub active: bool,
}

/// What the view of a tournament configuration holds, as mathematical
/// values.
pub struct TournamentDataView {
    pub tournament_data_id: i64,
    pub creation_time: i64,
    pub creator_user_id: i64,
    pub tournament: Tournament,
    pub title: Seq<char>,
    pub description: Seq<char>,
    pub n_rounds: i64,
    pub n_matchups: i64,
    pub active: bool,
}

impl View for TournamentData {
    type V = TournamentDataView;

    open spec fn view(&self) -> TournamentDataView {
        TournamentDataView {
            tournament_data_id: self.tournament_data_id,
            creation_time: self.creation_time,
            creator_user_id: self.creator_user_id,
            tournament: self.tournament,
            title: self.title@,
            description: self.description@,
            n_rounds: self.n_rounds,
            n_matchups: self.n_matchups,
            active: self.active,
        }
    }
}

/// A tournament entry together with its tournament, as shown to clients.
#[derive(Clone, Debug, PartialEq, Eq)]
pub struct TournamentSubmission {
    pub tournament_submission_id: i64,
    pub creation_time: i64,
    pub creator_user_id: i64,
    pub tournament: Tournament,
    pub submission_id: i64,
    pub name: String,
    pub kind: TournamentSubmissionKind,
}

/// What the view of a tournament entry holds, as mathematical values.
pub struct TournamentSubmissionView {
    pub tournament_submission_id: i64,
    pub creation_time: i64,
    pub creator_user_id: i64,
    pub tournament: Tournament,
    pub submission_id: i64,
    pub name: Seq<char>,
    pub kind: TournamentSubmissionKind,
}

impl View for TournamentSubmission {
    type V = TournamentSubmissionView;

    open spec fn view(&self) -> TournamentSubmissionView {
        TournamentSubmissionView {
            tournament_submission_id: self.tournament_submission_id,
            creation_time: self.creation_time,
            creator_user_id: self.creator_user_id,
            tournament: self.tournament,
            submission_id: self.submission_id,
            name: self.name@,
            kind: self.kind,
        }
    }
}

/// A match resolution without the captured output, small enough to be sent
/// to every subscriber.
#[derive(Clone, Copy, Debug, PartialEq, Eq, Structural)]
pub struct MatchResolutionLite {
    pub match_resolution_id: i64,
    pub creation_time: i64,
    pub submission_id: i64,
    pub opponent_submission_id: i64,
    pub round: i64,
    pub matchup: i64,
    pub defected: Option<bool>,
}

/// A match resolution with the captured output, as shown to clients.
#[derive(Clone, Debug, PartialEq, Eq)]
pub struct MatchResolution {
    pub match_resolution_id: i64,
    pub creation_time: i64,
    pub submission_id: i64,
    pub opponent_submission_id: i64,
    pub round: i64,
    pub matchup: i64,
    pub defected: Option<bool>,
    pub stdout: String,
    pub stderr: String,
}

impl View for MatchResolution {
    type V = MatchResolutionView;

    open spec fn view(&self) -> MatchResolutionView {
        MatchResolutionView {
            match_resolution_id: self.match_resolution_id,
            submission_id: self.submission_id,
            opponent_submission_id: self.opponent_submission_id,
            round: self.round,
            matchup: self.matchup,
            creation_time: self.creation_time,
            defected: self.defected,
            stdout: self.stdout@,
            stderr: self.stderr@,
        }
    }
}

/// What the service says of itself.
#[derive(Clone, Debug, PartialEq, Eq)]
pub struct Info {
    pub service: String,
    pub version_major: i64,
    pub version_minor: i64,
    pub version_rev: i64,
}

} // verus!
