use pdarena::api::api_info;
use pdarena::api::handle_rejection;
use pdarena::api::AppErrorRejection;
use pdarena::api::ErrorReply;
use pdarena::api::Rejection;
use pdarena::db_types;
use pdarena::handlers::fill_match_resolution;
use pdarena::handlers::fill_match_resolution_lite;
use pdarena::handlers::fill_submission;
use pdarena::handlers::fill_tournament;
use pdarena::handlers::fill_tournament_data;
use pdarena::handlers::fill_tournament_submission;
use pdarena::handlers::own_submissions;
use pdarena::handlers::report_auth_err;
use pdarena::handlers::report_base64_err;
use pdarena::handlers::report_io_err;
use pdarena::handlers::AuthFailure;
use pdarena::request::TournamentSubmissionKind;
use pdarena::response;
use pdarena::response::AppError;
use pdarena::SERVICE_NAME;

fn submission(id: i64, author: i64, code: &str) -> db_types::Submission {
    db_types::Submission {
        submission_id: id,
        creation_time: 1000 + id,
        creator_user_id: author,
        code: String::from(code),
    }
}

fn tournament() -> db_types::Tournament {
    db_types::Tournament { tournament_id: 3, creation_time: 900, creator_user_id: 8 }
}

#[test]
fn io_error_is_reported_as_internal() {
    let e = std::io::Error::new(std::io::ErrorKind::NotFound, "gone");
    assert_eq!(report_io_err(e), AppError::InternalServerError);
}

#[test]
fn base64_error_is_reported_as_internal() {
    let e = base64::decode("!").unwrap_err();
    assert_eq!(report_base64_err(e), AppError::InternalServerError);
}

#[test]
fn auth_failures() {
    assert_eq!(report_auth_err(AuthFailure::ApiKeyNonexistent), AppError::Unauthorized);
    assert_eq!(report_auth_err(AuthFailure::ApiKeyUnauthorized), AppError::Unauthorized);
    assert_eq!(report_auth_err(AuthFailure::InternalServerError), AppError::InternalServerError);
    assert_eq!(report_auth_err(AuthFailure::MethodNotAllowed), AppError::InternalServerError);
    assert_eq!(report_auth_err(AuthFailure::BadRequest), AppError::InternalServerError);
    assert_eq!(report_auth_err(AuthFailure::Network), AppError::InternalServerError);
    assert_eq!(report_auth_err(AuthFailure::Other), AppError::Unknown);
}

#[test]
fn submission_is_shown_whole() {
    assert_eq!(
        fill_submission(submission(4, 7, "pass")),
        response::Submission {
            submission_id: 4,
            creation_time: 1004,
            creator_user_id: 7,
            code: String::from("pass"),
        }
    );
}

#[test]
fn tournament_is_shown_whole() {
    assert_eq!(
        fill_tournament(tournament()),
        response::Tournament { tournament_id: 3, creation_time: 900, creator_user_id: 8 }
    );
}

#[test]
fn tournament_data_is_shown_with_its_tournament() {
    let data = db_types::TournamentData {
        tournament_data_id: 12,
        creation_time: 950,
        creator_user_id: 8,
        tournament_id: 3,
        title: String::from("cup"),
        description: String::from("the cup"),
        n_rounds: 10,
        n_matchups: 4,
        active: true,
    };
    assert_eq!(
        fill_tournament_data(data.clone(), Some(tournament())),
        Ok(response::TournamentData {
            tournament_data_id: 12,
            creation_time: 950,
            creator_user_id: 8,
            tournament: response::Tournament {
                tournament_id: 3,
                creation_time: 900,
                creator_user_id: 8,
            },
            title: String::from("cup"),
            description: String::from("the cup"),
            n_rounds: 10,
            n_matchups: 4,
            active: true,
        })
    );
    assert_eq!(fill_tournament_data(data, None), Err(AppError::TournamentNonexistent));
}

#[test]
fn tournament_submission_is_shown_with_its_tournament() {
    let entry = db_types::TournamentSubmission {
        tournament_submission_id: 21,
        creation_time: 990,
        creator_user_id: 7,
        tournament_id: 3,
        submission_id: 4,
        name: String::from("tit for tat"),
        kind: TournamentSubmissionKind::Compete,
    };
    assert_eq!(
        fill_tournament_submission(entry.clone(), Some(tournament())),
        Ok(response::TournamentSubmission {
            tournament_submission_id: 21,
            creation_time: 990,
            creator_user_id: 7,
            tournament: response::Tournament {
                tournament_id: 3,
                creation_time: 900,
                creator_user_id: 8,
            },
            submission_id: 4,
            name: String::from("tit for tat"),
            kind: TournamentSubmissionKind::Compete,
        })
    );
    assert_eq!(fill_tournament_submission(entry, None), Err(AppError::TournamentNonexistent));
}

fn stored_resolution() -> db_types::MatchResolution {
    db_types::MatchResolution {
        match_resolution_id: 31,
        submission_id: 4,
        opponent_submission_id: 5,
        round: 2,
        matchup: 1,
        creation_time: 2000,
        defected: Some(false),
        stdout: String::from("o"),
        stderr: String::from("e"),
    }
}

#[test]
fn match_resolution_is_shown_whole() {
    assert_eq!(
        fill_match_resolution(stored_resolution()),
        response::MatchResolution {
            match_resolution_id: 31,
            creation_time: 2000,
            submission_id: 4,
            opponent_submission_id: 5,
            round: 2,
            matchup: 1,
            defected: Some(false),
            stdout: String::from("o"),
            stderr: String::from("e"),
        }
    );
}

#[test]
fn lite_resolution_leaves_the_output_out() {
    assert_eq!(
        fill_match_resolution_lite(&stored_resolution()),
        response::MatchResolutionLite {
            match_resolution_id: 31,
            creation_time: 2000,
            submission_id: 4,
            opponent_submission_id: 5,
            round: 2,
            matchup: 1,
            defected: Some(false),
        }
    );
}

#[test]
fn users_see_their_own_submissions() {
    let rows = vec![
        submission(1, 7, "a"),
        submission(2, 8, "b"),
        submission(3, 7, "c"),
        submission(4, 9, "d"),
    ];
    let shown = own_submissions(&rows, 7);
    assert_eq!(
        shown,
        vec![
            response::Submission {
                submission_id: 1,
                creation_time: 1001,
                creator_user_id: 7,
                code: String::from("a"),
            },
            response::Submission {
                submission_id: 3,
                creation_time: 1003,
                creator_user_id: 7,
                code: String::from("c"),
            },
        ]
    );
    assert_eq!(own_submissions(&rows, 10), vec![]);
    assert_eq!(own_submissions(&vec![], 7), vec![]);
}

fn rejection() -> Rejection {
    Rejection { not_found: false, malformed_body: false, method_not_allowed: false, app_error: None }
}

#[test]
fn rejections_and_their_status() {
    let mut r = rejection();
    r.not_found = true;
    assert_eq!(handle_rejection(r), ErrorReply { status: 404, message: AppError::NotFound });
    let mut r = rejection();
    r.malformed_body = true;
    assert_eq!(handle_rejection(r), ErrorReply { status: 400, message: AppError::DecodeError });
    let mut r = rejection();
    r.method_not_allowed = true;
    assert_eq!(handle_rejection(r), ErrorReply { status: 405, message: AppError::MethodNotAllowed });
    let mut r = rejection();
    r.app_error = Some(AppErrorRejection(AppError::TournamentArchived));
    assert_eq!(handle_rejection(r), ErrorReply { status: 400, message: AppError::TournamentArchived });
    assert_eq!(handle_rejection(rejection()), ErrorReply { status: 500, message: AppError::Unknown });
}

#[test]
fn oversize_submission_is_a_bad_request() {
    let verdict = pdarena::admission::validate_submission(&"x".repeat(10001));
    let mut r = rejection();
    r.app_error = Some(AppErrorRejection(verdict.unwrap_err()));
    assert_eq!(handle_rejection(r), ErrorReply { status: 400, message: AppError::SubmissionTooLong });
}

#[test]
fn first_reason_of_a_rejection_decides() {
    let all = Rejection {
        not_found: true,
        malformed_body: true,
        method_not_allowed: true,
        app_error: Some(AppErrorRejection(AppError::Unauthorized)),
    };
    assert_eq!(handle_rejection(all).status, 404);
    let mut r = all;
    r.not_found = false;
    assert_eq!(handle_rejection(r).message, AppError::DecodeError);
    r.malformed_body = false;
    assert_eq!(handle_rejection(r).message, AppError::MethodNotAllowed);
    r.method_not_allowed = false;
    assert_eq!(handle_rejection(r), ErrorReply { status: 400, message: AppError::Unauthorized });
}

#[test]
fn service_describes_itself() {
    assert_eq!(SERVICE_NAME, "pdarena-service");
    assert_eq!(
        api_info(),
        response::Info {
            service: String::from("pdarena-service"),
            version_major: 1,
            version_minor: 0,
            version_rev: 0,
        }
    );
}

#[test]
fn store_error_is_reported_as_internal() {
    let e = "no such option=".parse::<tokio_postgres::Config>().unwrap_err();
    assert_eq!(pdarena::handlers::report_postgres_err(e), AppError::InternalServerError);
}

#[test]
fn announcements_backlog() {
    assert_eq!(pdarena::BROADCAST_BACKLOG, 1000);
    assert_eq!(pdarena::MAX_TIME_MS, 1000);
}
