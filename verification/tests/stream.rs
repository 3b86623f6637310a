use pdarena::request::MatchResolutionViewProps;
use pdarena::request::TournamentSubmissionKind;
use pdarena::request::TournamentSubmissionViewProps;
use pdarena::response::AppError;
use pdarena::response::MatchResolutionLite;
use pdarena::response::Tournament;
use pdarena::response::TournamentSubmission;
use pdarena::stream::request_text;
use pdarena::stream::FirstFrame;
use pdarena::stream::ReplayCursor;

fn any_resolution() -> MatchResolutionViewProps {
    MatchResolutionViewProps {
        min_creation_time: None,
        max_creation_time: None,
        min_id: None,
        max_id: None,
        match_resolution_id: None,
        submission_id: None,
        opponent_submission_id: None,
        round: None,
        matchup: None,
        api_key: String::from("key"),
    }
}

fn resolution(id: i64) -> MatchResolutionLite {
    MatchResolutionLite {
        match_resolution_id: id,
        creation_time: 5000,
        submission_id: 1,
        opponent_submission_id: 2,
        round: 3,
        matchup: 4,
        defected: Some(true),
    }
}

fn any_entry() -> TournamentSubmissionViewProps {
    TournamentSubmissionViewProps {
        min_id: None,
        max_id: None,
        tournament_submission_id: None,
        min_creation_time: None,
        max_creation_time: None,
        creator_user_id: None,
        tournament_id: None,
        submission_id: None,
        kind: None,
        only_recent: false,
        api_key: String::from("key"),
    }
}

fn entry(id: i64) -> TournamentSubmission {
    TournamentSubmission {
        tournament_submission_id: id,
        creation_time: 5000,
        creator_user_id: 10,
        tournament: Tournament { tournament_id: 20, creation_time: 100, creator_user_id: 11 },
        submission_id: 30,
        name: String::from("entry"),
        kind: TournamentSubmissionKind::Validate,
    }
}

#[test]
fn empty_filter_accepts_every_resolution() {
    assert!(any_resolution().matches(&resolution(1)));
    assert!(any_resolution().matches(&resolution(-1)));
    assert!(any_resolution().matches(&resolution(i64::MAX)));
}

#[test]
fn resolution_filter_bounds_are_inclusive() {
    let row = resolution(50);
    let mut f = any_resolution();
    f.min_creation_time = Some(5000);
    f.max_creation_time = Some(5000);
    f.min_id = Some(50);
    f.max_id = Some(50);
    assert!(f.matches(&row));
    let mut g = f.clone();
    g.min_creation_time = Some(5001);
    assert!(!g.matches(&row));
    let mut g = f.clone();
    g.max_creation_time = Some(4999);
    assert!(!g.matches(&row));
    let mut g = f.clone();
    g.min_id = Some(51);
    assert!(!g.matches(&row));
    let mut g = f.clone();
    g.max_id = Some(49);
    assert!(!g.matches(&row));
}

#[test]
fn resolution_filter_lists() {
    let row = resolution(50);
    let mut f = any_resolution();
    f.match_resolution_id = Some(vec![49, 50]);
    f.submission_id = Some(vec![1]);
    f.opponent_submission_id = Some(vec![7, 2, 9]);
    f.round = Some(vec![0, 1, 2, 3]);
    f.matchup = Some(vec![4]);
    assert!(f.matches(&row));
    let mut g = f.clone();
    g.match_resolution_id = Some(vec![49, 51]);
    assert!(!g.matches(&row));
    let mut g = f.clone();
    g.submission_id = Some(vec![2]);
    assert!(!g.matches(&row));
    let mut g = f.clone();
    g.opponent_submission_id = Some(vec![1]);
    assert!(!g.matches(&row));
    let mut g = f.clone();
    g.round = Some(vec![4]);
    assert!(!g.matches(&row));
    let mut g = f.clone();
    g.matchup = Some(vec![3]);
    assert!(!g.matches(&row));
    // an empty list admits nothing
    let mut g = f.clone();
    g.matchup = Some(vec![]);
    assert!(!g.matches(&row));
}

#[test]
fn entry_filter() {
    let row = entry(50);
    assert!(any_entry().matches(&row));
    let mut f = any_entry();
    f.min_id = Some(50);
    f.max_id = Some(50);
    f.min_creation_time = Some(5000);
    f.max_creation_time = Some(5000);
    f.tournament_submission_id = Some(vec![50]);
    f.creator_user_id = Some(vec![10]);
    f.tournament_id = Some(vec![20]);
    f.submission_id = Some(vec![30]);
    f.kind = Some(TournamentSubmissionKind::Validate);
    assert!(f.matches(&row));
    let mut g = f.clone();
    g.min_id = Some(51);
    assert!(!g.matches(&row));
    let mut g = f.clone();
    g.max_id = Some(49);
    assert!(!g.matches(&row));
    let mut g = f.clone();
    g.min_creation_time = Some(5001);
    assert!(!g.matches(&row));
    let mut g = f.clone();
    g.max_creation_time = Some(4999);
    assert!(!g.matches(&row));
    let mut g = f.clone();
    g.tournament_submission_id = Some(vec![51]);
    assert!(!g.matches(&row));
    let mut g = f.clone();
    // the creator of the tournament is not the creator of the entry
    g.creator_user_id = Some(vec![11]);
    assert!(!g.matches(&row));
    let mut g = f.clone();
    g.tournament_id = Some(vec![21]);
    assert!(!g.matches(&row));
    let mut g = f.clone();
    g.submission_id = Some(vec![31]);
    assert!(!g.matches(&row));
    let mut g = f.clone();
    g.kind = Some(TournamentSubmissionKind::Compete);
    assert!(!g.matches(&row));
}

#[test]
fn entry_filter_ignores_only_recent_and_key() {
    let row = entry(50);
    let mut f = any_entry();
    f.only_recent = true;
    f.api_key = String::from("another");
    assert!(f.matches(&row));
}

#[test]
fn cursor_starts_at_the_asked_bound() {
    assert_eq!(ReplayCursor::new(None).next_new_id, 0);
    assert_eq!(ReplayCursor::new(Some(17)).next_new_id, 17);
    assert_eq!(ReplayCursor::new(Some(-4)).next_new_id, -4);
}

#[test]
fn cursor_follows_the_highest_replayed_id() {
    let mut cursor = ReplayCursor::new(Some(10));
    cursor.advance(10);
    assert_eq!(cursor.next_new_id, 11);
    cursor.advance(12);
    assert_eq!(cursor.next_new_id, 13);
    cursor.advance(11);
    assert_eq!(cursor.next_new_id, 13);
    cursor.advance(40);
    assert_eq!(cursor.next_new_id, 41);
}

#[test]
fn cursor_at_the_last_id() {
    let mut cursor = ReplayCursor::new(None);
    cursor.advance(i64::MAX);
    assert_eq!(cursor.next_new_id, i64::MAX);
    cursor.advance(i64::MAX - 1);
    assert_eq!(cursor.next_new_id, i64::MAX);
}

#[test]
fn tail_replaces_the_lower_bound_on_the_id() {
    let mut f = any_resolution();
    f.min_id = Some(3);
    f.max_id = Some(100);
    f.submission_id = Some(vec![1]);
    let tail = f.clone().tail(42);
    let mut expected = f.clone();
    expected.min_id = Some(42);
    assert_eq!(tail, expected);
    let mut e = any_entry();
    e.kind = Some(TournamentSubmissionKind::Testcase);
    let tail = e.clone().tail(7);
    let mut expected = e.clone();
    expected.min_id = Some(7);
    assert_eq!(tail, expected);
}

#[test]
fn replayed_rows_do_not_pass_the_tail() {
    let f = any_resolution();
    let mut cursor = ReplayCursor::new(f.min_id);
    for id in [3, 4, 9] {
        assert!(f.matches(&resolution(id)));
        cursor.advance(id);
    }
    let tail = f.tail(cursor.next_new_id);
    for id in [3, 4, 9] {
        assert!(!tail.matches(&resolution(id)));
    }
    assert!(tail.matches(&resolution(10)));
    assert!(tail.matches(&resolution(11)));
}

#[test]
fn broadcast_fan_out() {
    // Two subscribers with overlapping filters are connected; nothing is
    // stored yet, so neither replays anything.
    let mut first = any_resolution();
    first.submission_id = Some(vec![1, 5]);
    let mut second = any_resolution();
    second.round = Some(vec![3]);
    let first_tail = first.clone().tail(ReplayCursor::new(first.min_id).next_new_id);
    let second_tail = second.clone().tail(ReplayCursor::new(second.min_id).next_new_id);
    // A resolution is stored and announced.
    let row = resolution(1);
    assert!(first_tail.matches(&row));
    assert!(second_tail.matches(&row));
    // A third subscriber connects later with the lower bound 0. It is sent
    // the row from the store, and not again from the channel.
    let mut third = any_resolution();
    third.min_id = Some(0);
    let mut cursor = ReplayCursor::new(third.min_id);
    assert!(third.matches(&row));
    cursor.advance(row.match_resolution_id);
    let third_tail = third.tail(cursor.next_new_id);
    assert!(!third_tail.matches(&row));
    assert!(third_tail.matches(&resolution(2)));
}

#[test]
fn first_frame_must_be_text() {
    assert_eq!(
        request_text(FirstFrame::Text(String::from("{\"apiKey\":\"k\"}"))),
        Ok(String::from("{\"apiKey\":\"k\"}"))
    );
    assert_eq!(request_text(FirstFrame::Closed), Err(AppError::StreamEndBeforeRequest));
    assert_eq!(request_text(FirstFrame::Failed), Err(AppError::StreamEndBeforeRequest));
    assert_eq!(request_text(FirstFrame::NotText), Err(AppError::StreamEndBeforeRequest));
}
