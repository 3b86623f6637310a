use pdarena::db_types::Submission;
use pdarena::matchup::both_exist;
use pdarena::matchup::Half;
use pdarena::response::AppError;
use pdarena::matchup::MatchupRun;
use pdarena::matchup::resolve;
use pdarena::run_code::SubmissionSummary;
use pdarena::sandbox::interpret_exit_code;
use pdarena::MatchupTask;

const S1: i64 = 1;
const S2: i64 = 2;

fn task(n_rounds: i64) -> MatchupTask {
    MatchupTask { matchup_num: 4, n_rounds, submission_id: S1, opponent_submission_id: S2 }
}

fn summary(exit_code: Option<i64>) -> SubmissionSummary {
    SubmissionSummary { stdout: String::from("out"), stderr: String::from("err"), exit_code }
}

#[test]
fn fresh_matchup_starts_at_round_zero() {
    let run = MatchupRun::resume(task(3), vec![], vec![]);
    assert_eq!(run.task(), task(3));
    assert_eq!(run.next_round(), Some(0));
    assert!(!run.is_done());
    assert!(run.history_shown_to_submission().is_empty());
    assert!(run.history_shown_to_opponent().is_empty());
}

#[test]
fn resume_after_partial_failure() {
    // Round 0 is stored on both sides, round 1 only for the submission.
    let stored_submission = vec![Some(true), Some(false)];
    let stored_opponent = vec![Some(false)];
    let mut run = MatchupRun::resume(task(3), stored_submission, stored_opponent);
    assert_eq!(run.next_round(), Some(1));
    // Both sides see round 0 only.
    assert_eq!(run.history_shown_to_submission(), &vec![Some(false)]);
    assert_eq!(run.history_shown_to_opponent(), &vec![Some(true)]);
    run.record_round(Some(false), Some(true));
    assert_eq!(run.next_round(), Some(2));
    run.record_round(Some(true), Some(true));
    assert_eq!(run.next_round(), None);
    assert!(run.is_done());
    assert_eq!(run.history_shown_to_opponent(), &vec![Some(true), Some(false), Some(true)]);
    assert_eq!(run.history_shown_to_submission(), &vec![Some(false), Some(true), Some(true)]);
}

#[test]
fn failed_round_is_played_again() {
    // Round 1 failed for the opponent: the matchup resumes there, though
    // round 2 is stored on both sides.
    let stored_submission = vec![Some(true), Some(true), Some(false)];
    let stored_opponent = vec![Some(false), None, Some(false)];
    let run = MatchupRun::resume(task(4), stored_submission, stored_opponent);
    assert_eq!(run.next_round(), Some(1));
    assert_eq!(run.history_shown_to_submission(), &vec![Some(false)]);
    assert_eq!(run.history_shown_to_opponent(), &vec![Some(true)]);
}

#[test]
fn failed_first_round_restarts_the_matchup() {
    let run = MatchupRun::resume(task(2), vec![None, Some(true)], vec![Some(true), Some(true)]);
    assert_eq!(run.next_round(), Some(0));
    assert!(run.history_shown_to_submission().is_empty());
    assert!(run.history_shown_to_opponent().is_empty());
}

#[test]
fn completed_matchup_plays_nothing() {
    let stored = vec![Some(true), Some(false)];
    let mut run = MatchupRun::resume(task(2), stored.clone(), stored.clone());
    assert_eq!(run.next_round(), None);
    assert_eq!(run.halves(), None);
    assert!(run.is_done());
    run.record_round(Some(true), Some(true));
    assert_eq!(run.history_shown_to_submission(), &stored);
    assert_eq!(run.history_shown_to_opponent(), &stored);
}

#[test]
fn task_of_no_rounds_is_done() {
    let run = MatchupRun::resume(task(0), vec![], vec![]);
    assert!(run.is_done());
    assert_eq!(run.next_round(), None);
    let run = MatchupRun::resume(task(-5), vec![], vec![]);
    assert!(run.is_done());
}

#[test]
fn shorter_task_than_stored_history_is_done() {
    let stored = vec![Some(true), Some(false), Some(true)];
    let run = MatchupRun::resume(task(1), stored.clone(), stored.clone());
    assert!(run.is_done());
    assert_eq!(run.history_shown_to_submission().len(), 3);
}

#[test]
fn history_at_round_r_has_r_elements() {
    let mut run = MatchupRun::resume(task(5), vec![], vec![]);
    let mut r = 0;
    while let Some(round) = run.next_round() {
        assert_eq!(round, r);
        assert_eq!(run.history_shown_to_submission().len() as i64, r);
        assert_eq!(run.history_shown_to_opponent().len() as i64, r);
        run.record_round(Some(r % 2 == 0), None);
        r += 1;
    }
    assert_eq!(r, 5);
    assert_eq!(
        run.history_shown_to_opponent(),
        &vec![Some(true), Some(false), Some(true), Some(false), Some(true)]
    );
    assert_eq!(run.history_shown_to_submission(), &vec![None; 5]);
}

#[test]
fn halves_are_symmetric() {
    let run = MatchupRun::resume(task(3), vec![Some(true)], vec![Some(false)]);
    let (first, second) = run.halves().unwrap();
    assert_eq!(
        first,
        Half { submission_id: S1, opponent_submission_id: S2, round: 1, matchup: 4 }
    );
    assert_eq!(
        second,
        Half { submission_id: S2, opponent_submission_id: S1, round: 1, matchup: 4 }
    );
}

#[test]
fn resolution_records_the_half_and_the_outcome() {
    let half = Half { submission_id: S1, opponent_submission_id: S2, round: 1, matchup: 4 };
    let row = resolve(half, summary(Some(100)), 77, 123456);
    assert_eq!(row.match_resolution_id, 77);
    assert_eq!(row.creation_time, 123456);
    assert_eq!(row.submission_id, S1);
    assert_eq!(row.opponent_submission_id, S2);
    assert_eq!(row.round, 1);
    assert_eq!(row.matchup, 4);
    assert_eq!(row.defected, Some(true));
    assert_eq!(row.stdout, "out");
    assert_eq!(row.stderr, "err");
    assert_eq!(resolve(half, summary(Some(101)), 78, 1).defected, Some(false));
    assert_eq!(resolve(half, summary(Some(0)), 79, 1).defected, None);
    assert_eq!(resolve(half, summary(None), 80, 1).defected, None);
}

#[test]
fn validation_matchup_gives_four_resolutions() {
    // The submission never defects, the testcase always does; 2 rounds.
    let mut run = MatchupRun::resume(task(2), vec![], vec![]);
    let mut rows = vec![];
    let mut next_id = 1;
    while let Some((first, second)) = run.halves() {
        let a = resolve(first, summary(Some(101)), next_id, 1000 + next_id);
        let b = resolve(second, summary(Some(100)), next_id + 1, 1001 + next_id);
        next_id += 2;
        run.record_round(a.defected, b.defected);
        rows.push(a);
        rows.push(b);
    }
    assert_eq!(rows.len(), 4);
    let seen: Vec<(i64, i64, i64, Option<bool>)> = rows
        .iter()
        .map(|r| (r.submission_id, r.opponent_submission_id, r.round, r.defected))
        .collect();
    assert_eq!(
        seen,
        vec![
            (S1, S2, 0, Some(false)),
            (S2, S1, 0, Some(true)),
            (S1, S2, 1, Some(false)),
            (S2, S1, 1, Some(true)),
        ]
    );
    // every round is resolved on both sides: twice the number of rounds
    let resolved = rows.iter().filter(|r| r.defected.is_some()).count();
    assert_eq!(resolved, 2 * 2);
}

#[test]
fn exit_codes() {
    assert_eq!(interpret_exit_code(Some(100)), Some(true));
    assert_eq!(interpret_exit_code(Some(101)), Some(false));
    assert_eq!(interpret_exit_code(Some(0)), None);
    assert_eq!(interpret_exit_code(Some(1)), None);
    assert_eq!(interpret_exit_code(Some(99)), None);
    assert_eq!(interpret_exit_code(Some(102)), None);
    assert_eq!(interpret_exit_code(Some(-100)), None);
    assert_eq!(interpret_exit_code(None), None);
}

fn program(id: i64) -> Submission {
    Submission { submission_id: id, creation_time: 10, creator_user_id: 20, code: String::from("c") }
}

#[test]
fn matchup_needs_both_programs() {
    assert_eq!(both_exist(Some(program(1)), Some(program(2))), Ok((program(1), program(2))));
    assert_eq!(both_exist(None, Some(program(2))), Err(AppError::SubmissionNonexistent));
    assert_eq!(both_exist(Some(program(1)), None), Err(AppError::SubmissionNonexistent));
    assert_eq!(both_exist(None, None), Err(AppError::SubmissionNonexistent));
}
