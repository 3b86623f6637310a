//! What clients send: the bodies of the admission and view requests.
use vstd::prelude::*;

verus! {

/// The kind of a tournament entry. It governs whether a submission is
/// eligible to play and which matchups its admission schedules.
#[derive(Clone, Copy, Debug, PartialEq, Eq, Structural)]
pub enum TournamentSubmissionKind {
    Compete,
    Validate,
    Testcase,
    Cancel,
}

impl TournamentSubmissionKind {
    /// The number under which the store keeps this kind.
    pub open spec fn spec_code(self) -> u8 {
        match self {
            TournamentSubmissionKind::Compete => 0,
            TournamentSubmissionKind::Validate => 1,
            TournamentSubmissionKind::Testcase => 2,
            TournamentSubmissionKind::Cancel => 3,
        }
    }

    /// The number under which the store keeps this kind.
    #[verifier::when_used_as_spec(spec_code)]
    pub fn code(self) -> (c: u8)
        ensures
            c == self.spec_code(),
    {
        match self {
            TournamentSubmissionKind::Compete => 0,
            TournamentSubmissionKind::Validate => 1,
            TournamentSubmissionKind::Testcase => 2,
            TournamentSubmissionKind::Cancel => 3,
        }
    }
}

/// The kind that the store keeps under `val`, or `val` itself where it stands
/// for no kind.
pub open spec fn kind_of_code(val: u8) -> Result<TournamentSubmissionKind, u8> {
    if val == 0 {
        Ok(TournamentSubmissionKind::Compete)
    } else if val == 1 {
        Ok(TournamentSubmissionKind::Validate)
    } else if val == 2 {
        Ok(TournamentSubmissionKind::Testcase)
    } else if val == 3 {
        Ok(TournamentSubmissionKind::Cancel)
    } else {
        Err(val)
    }
}

impl TryFrom<u8> for TournamentSubmissionKind {
    type Error = u8;

    /// The kind that the store keeps under `val`, or `val` itself where it
    /// stands for no kind.
    fn try_from(val: u8) -> (r: Result<TournamentSubmissionKind, u8>) {
        match val {
            0 => Ok(TournamentSubmissionKind::Compete),
            1 => Ok(TournamentSubmissionKind::Validate),
            2 => Ok(TournamentSubmissionKind::Testcase),
            3 => Ok(TournamentSubmissionKind::Cancel),
            x => Err(x),
        }
    }
}

impl vstd::std_specs::convert::TryFromSpecImpl<u8> for TournamentSubmissionKind {
    open spec fn obeys_try_from_spec() -> bool {
        true
    }

    open spec fn try_from_spec(val: u8) -> Result<TournamentSubmissionKind, u8> {
        kind_of_code(val)
    }
}

/// A number names a kind exactly when it is the code of that kind.
pub proof fn lemma_kind_code_roundtrip(kind: TournamentSubmissionKind, val: u8)
    ensures
        kind_of_code(kind.spec_code()) == Ok::<TournamentSubmissionKind, u8>(kind),
        kind_of_code(val) matches Ok(k) ==> k.spec_code() == val,
        kind_of_code(val) is Err <==> val > 3,
{
}

/// Body of a request that uploads a submission.
#[derive(Clone, Debug, PartialEq, Eq)]
pub struct SubmissionNewProps {
    pub code: String,
    pub api_key: String,
}

/// Body of a request that opens a tournament.
#[derive(Clone, Debug, PartialEq, Eq)]
pub struct TournamentNewProps {
    pub api_key: String,
    pub title: String,
    pub description: String,
    pub n_rounds: i64,
    pub n_matchups: i64,
}

/// Body of a request that changes the configuration of a tournament.
#[derive(Clone, Debug, PartialEq, Eq)]
pub struct TournamentDataNewProps {
    pub tournament_id: i64,
    pub title: String,
    pub description: String,
    pub n_rounds: i64,
    pub n_matchups: i64,
    pub active: bool,
    pub api_key: String,
}

/// Body of a request that enters a submission into a tournament, or changes
/// the kind of its entry.
#[derive(Clone, Debug, PartialEq, Eq)]
pub struct TournamentSubmissionNewProps {
    pub tournament_id: i64,
    pub submission_id: i64,
    pub name: String,
    pub kind: TournamentSubmissionKind,
    pub api_key: String,
}

/// Filter of a query for submissions. An absent field filters nothing.
#[derive(Clone, Debug, PartialEq, Eq)]
pub struct SubmissionViewProps {
    pub submission_id: Option<Vec<i64>>,
    pub min_creation_time: Option<i64>,
    pub max_creation_time: Option<i64>,
    pub creator_user_id: Option<Vec<i64>>,
    pub api_key: String,
}

/// Filter of a query for tournament configurations. An absent field filters
/// nothing.
#[derive(Clone, Debug, PartialEq, Eq)]
pub struct TournamentDataViewProps {
    pub tournament_data_id: Option<Vec<i64>>,
    pub min_creation_time: Option<i64>,
    pub max_creation_time: Option<i64>,
    pub creator_user_id: Option<Vec<i64>>,
    pub tournament_id: Option<Vec<i64>>,
    pub title: Option<Vec<String>>,
    pub active: Option<bool>,
    pub only_recent: bool,
    pub api_key: String,
}

/// Filter of a query for tournament entries, and of a stream of them. An
/// absent field filters nothing.
#[derive(Clone, Debug, PartialEq, Eq)]
pub struct TournamentSubmissionViewProps {
    pub min_id: Option<i64>,
    pub max_id: Option<i64>,
    pub tournament_submission_id: Option<Vec<i64>>,
    pub min_creation_time: Option<i64>,
    pub max_creation_time: Option<i64>,
    pub creator_user_id: Option<Vec<i64>>,
    pub tournament_id: Option<Vec<i64>>,
    pub submission_id: Option<Vec<i64>>,
    pub kind: Option<TournamentSubmissionKind>,
    pub only_recent: bool,
    pub api_key: String,
}

/// Filter of a query for match resolutions, and of a stream of them. An
/// absent field filters nothing.
#[derive(Clone, Debug, PartialEq, Eq)]
pub struct MatchResolutionViewProps {
    pub min_creation_time: Option<i64>,
    pub max_creation_time: Option<i64>,
    pub min_id: Option<i64>,
    pub max_id: Option<i64>,
    pub match_resolution_id: Option<Vec<i64>>,
    pub submission_id: Option<Vec<i64>>,
    pub opponent_submission_id: Option<Vec<i64>>,
    pub round: Option<Vec<i64>>,
    pub matchup: Option<Vec<i64>>,
    pub api_key: String,
}

} // verus!
