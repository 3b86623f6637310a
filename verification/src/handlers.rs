//! What the request handlers decide between their calls to the store and to
//! the other services: how a failure is reported, and how a stored row is
//! shown.
use crate::db_types;
use crate::response;
use crate::response::AppError;
use vstd::prelude::*;

verus! {

/// `std::io::Error`, which the library only passes on.
#[verifier::external_type_specification]
#[verifier::external_body]
pub struct ExIoError(std::io::Error);

/// `base64::DecodeError`, which the library only passes on.
#[verifier::external_type_specification]
#[verifier::external_body]
pub struct ExDecodeError(base64::DecodeError);

/// `tokio_postgres::Error`, which the library only passes on.
#[verifier::external_type_specification]
#[verifier::external_body]
pub struct ExPostgresError(tokio_postgres::Error);

/// A failure of the store is an internal error to the client.
pub fn report_postgres_err(e: tokio_postgres::Error) -> (r: AppError)
    ensures
        r == AppError::InternalServerError,
{
    AppError::InternalServerError
}

/// A failure of reading or writing is an internal error to the client.
pub fn report_io_err(e: std::io::Error) -> (r: AppError)
    ensures
        r == AppError::InternalServerError,
{
    AppError::InternalServerError
}

/// Output of the sandbox that is not base64 is an internal error to the
/// client.
pub fn report_base64_err(e: base64::DecodeError) -> (r: AppError)
    ensures
        r == AppError::InternalServerError,
{
    AppError::InternalServerError
}

/// Why the authentication service turned a request down.
#[derive(Clone, Copy, Debug, PartialEq, Eq, Structural)]
pub enum AuthFailure {
    /// The API key is not known.
    ApiKeyNonexistent,
    /// The API key does not entitle to the request.
    ApiKeyUnauthorized,
    /// The service failed.
    InternalServerError,
    /// The service refused the method of the call.
    MethodNotAllowed,
    /// The service refused the call as malformed.
    BadRequest,
    /// The service could not be reached.
    Network,
    /// Any other answer.
    Other,
}

/// How a failure of the authentication service is reported to the client.
pub open spec fn auth_error(e: AuthFailure) -> AppError {
    match e {
        AuthFailure::ApiKeyNonexistent | AuthFailure::ApiKeyUnauthorized => AppError::Unauthorized,
        AuthFailure::InternalServerError
        | AuthFailure::MethodNotAllowed
        | AuthFailure::BadRequest
        | AuthFailure::Network => AppError::InternalServerError,
        AuthFailure::Other => AppError::Unknown,
    }
}

/// A key that the authentication service does not accept makes the request
/// unauthorized. A failure of the service itself, or of the call to it, is
/// an internal error, and an answer that is not understood is unknown.
pub fn report_auth_err(e: AuthFailure) -> (r: AppError)
    ensures
        r == auth_error(e),
{
    match e {
        AuthFailure::ApiKeyNonexistent => AppError::Unauthorized,
        AuthFailure::ApiKeyUnauthorized => AppError::Unauthorized,
        AuthFailure::InternalServerError => AppError::InternalServerError,
        AuthFailure::MethodNotAllowed => AppError::InternalServerError,
        AuthFailure::BadRequest => AppError::InternalServerError,
        AuthFailure::Network => AppError::InternalServerError,
        AuthFailure::Other => AppError::Unknown,
    }
}

/// Shows a stored submission.
pub fn fill_submission(submission: db_types::Submission) -> (r: response::Submission)
    ensures
        r@ == submission@,
{
    response::Submission {
        submission_id: submission.submission_id,
        creation_time: submission.creation_time,
        creator_user_id: submission.creator_user_id,
        code: submission.code,
    }
}

/// How a stored tournament is shown.
pub open spec fn shown_tournament(tournament: db_types::Tournament) -> response::Tournament {
    response::Tournament {
        tournament_id: tournament.tournament_id,
        creation_time: tournament.creation_time,
        creator_user_id: tournament.creator_user_id,
    }
}

/// Shows a stored tournament.
pub fn fill_tournament(tournament: db_types::Tournament) -> (r: response::Tournament)
    ensures
        r == shown_tournament(tournament),
{
    response::Tournament {
        tournament_id: tournament.tournament_id,
        creation_time: tournament.creation_time,
        creator_user_id: tournament.creator_user_id,
    }
}

/// How a stored configuration is shown together with its tournament.
pub open spec fn shown_tournament_data(
    data: db_types::TournamentDataView,
    tournament: db_types::Tournament,
) -> response::TournamentDataView {
    response::TournamentDataView {
        tournament_data_id: data.tournament_data_id,
        creation_time: data.creation_time,
        creator_user_id: data.creator_user_id,
        tournament: shown_tournament(tournament),
        title: data.title,
        description: data.description,
        n_rounds: data.n_rounds,
        n_matchups: data.n_matchups,
        active: data.active,
    }
}

/// Shows a stored configuration together with its tournament, as the store
/// returned it. Where the store holds no such tournament, the tournament is
/// reported as nonexistent.
pub fn fill_tournament_data(
    tournament_data: db_types::TournamentData,
    tournament: Option<db_types::Tournament>,
) -> (r: Result<response::TournamentData, AppError>)
    ensures
        match tournament {
            Some(t) => r matches Ok(shown) && shown@ == shown_tournament_data(tournament_data@, t),
            None => r == Err::<response::TournamentData, AppError>(
                AppError::TournamentNonexistent,
            ),
        },
{
    match tournament {
        None => Err(AppError::TournamentNonexistent),
        Some(t) => Ok(
            response::TournamentData {
                tournament_data_id: tournament_data.tournament_data_id,
                creation_time: tournament_data.creation_time,
                creator_user_id: tournament_data.creator_user_id,
                tournament: fill_tournament(t),
                title: tournament_data.title,
                description: tournament_data.description,
                n_rounds: tournament_data.n_rounds,
                n_matchups: tournament_data.n_matchups,
                active: tournament_data.active,
            },
        ),
    }
}

/// How a stored tournament entry is shown together with its tournament.
pub open spec fn shown_tournament_submission(
    entry: db_types::TournamentSubmissionView,
    tournament: db_types::Tournament,
) -> response::TournamentSubmissionView {
    response::TournamentSubmissionView {
        tournament_submission_id: entry.tournament_submission_id,
        creation_time: entry.creation_time,
        creator_user_id: entry.creator_user_id,
        tournament: shown_tournament(tournament),
        submission_id: entry.submission_id,
        name: entry.name,
        kind: entry.kind,
    }
}

/// Shows a stored tournament entry together with its tournament, as the
/// store returned it. Where the store holds no such tournament, the
/// tournament is reported as nonexistent.
pub fn fill_tournament_submission(
    tournament_submission: db_types::TournamentSubmission,
    tournament: Option<db_types::Tournament>,
) -> (r: Result<response::TournamentSubmission, AppError>)
    ensures
        match tournament {
            Some(t) => r matches Ok(shown) && shown@ == shown_tournament_submission(
                tournament_submission@,
                t,
            ),
            None => r == Err::<response::TournamentSubmission, AppError>(
                AppError::TournamentNonexistent,
            ),
        },
{
    match tournament {
        None => Err(AppError::TournamentNonexistent),
        Some(t) => Ok(
            response::TournamentSubmission {
                tournament_submission_id: tournament_submission.tournament_submission_id,
                creation_time: tournament_submission.creation_time,
                creator_user_id: tournament_submission.creator_user_id,
                tournament: fill_tournament(t),
                submission_id: tournament_submission.submission_id,
                name: tournament_submission.name,
                kind: tournament_submission.kind,
            },
        ),
    }
}

/// Shows a stored match resolution with the output that was captured.
pub fn fill_match_resolution(match_resolution: db_types::MatchResolution) -> (r:
    response::MatchResolution)
    ensures
        r@ == match_resolution@,
{
    response::MatchResolution {
        match_resolution_id: match_resolution.match_resolution_id,
        creation_time: match_resolution.creation_time,
        submission_id: match_resolution.submission_id,
        opponent_submission_id: match_resolution.opponent_submission_id,
        round: match_resolution.round,
        matchup: match_resolution.matchup,
        defected: match_resolution.defected,
        stdout: match_resolution.stdout,
        stderr: match_resolution.stderr,
    }
}

/// What subscribers are sent of a stored match resolution: all but the
/// captured output.
pub open spec fn lite(match_resolution: db_types::MatchResolutionView) -> response::MatchResolutionLite {
    response::MatchResolutionLite {
        match_resolution_id: match_resolution.match_resolution_id,
        creation_time: match_resolution.creation_time,
        submission_id: match_resolution.submission_id,
        opponent_submission_id: match_resolution.opponent_submission_id,
        round: match_resolution.round,
        matchup: match_resolution.matchup,
        defected: match_resolution.defected,
    }
}

/// Shows a stored match resolution without the output that was captured.
pub fn fill_match_resolution_lite(match_resolution: &db_types::MatchResolution) -> (r:
    response::MatchResolutionLite)
    ensures
        r == lite(match_resolution@),
{
    response::MatchResolutionLite {
        match_resolution_id: match_resolution.match_resolution_id,
        creation_time: match_resolution.creation_time,
        submission_id: match_resolution.submission_id,
        opponent_submission_id: match_resolution.opponent_submission_id,
        round: match_resolution.round,
        matchup: match_resolution.matchup,
        defected: match_resolution.defected,
    }
}

/// The test that the submissions of `user_id` pass.
pub open spec fn written_by(user_id: i64) -> spec_fn(db_types::SubmissionView) -> bool {
    |s: db_types::SubmissionView| s.creator_user_id == user_id
}

/// Shows to a user those of the stored submissions that they wrote, in the
/// order of the store. Nobody is shown the code of another.
pub fn own_submissions(submissions: &Vec<db_types::Submission>, user_id: i64) -> (r: Vec<
    response::Submission,
>)
    ensures
        r@.map_values(|s: response::Submission| s@) == submissions@.map_values(
            |s: db_types::Submission| s@,
        ).filter(written_by(user_id)),
{
    let ghost all = submissions@.map_values(|s: db_types::Submission| s@);
    let mut shown: Vec<response::Submission> = Vec::new();
    let mut i: usize = 0;
    while i < submissions.len()
        invariant
            i <= submissions.len(),
            all == submissions@.map_values(|s: db_types::Submission| s@),
            shown@.map_values(|s: response::Submission| s@) == all.take(i as int).filter(
                written_by(user_id),
            ),
        decreases submissions.len() - i,
    {
        let s = &submissions[i];
        proof {
            assert(all.take(i + 1) == all.take(i as int).push(s@));
            all.take(i as int).lemma_filter_push(s@, written_by(user_id));
        }
        if s.creator_user_id == user_id {
            let ghost before = shown@;
            let out = response::Submission {
                submission_id: s.submission_id,
                creation_time: s.creation_time,
                creator_user_id: s.creator_user_id,
                code: s.code.clone(),
            };
            shown.push(out);
            assert(shown@.map_values(|s: response::Submission| s@) == before.map_values(
                |s: response::Submission| s@,
            ).push(out@));
        }
        i += 1;
    }
    proof {
        assert(all.take(i as int) == all);
    }
    shown
}

} // verus!
