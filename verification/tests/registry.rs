use pdarena::registry::OngoingTasks;
use pdarena::MatchupTask;

fn task(matchup_num: i64, n_rounds: i64, submission_id: i64, opponent_submission_id: i64) -> MatchupTask {
    MatchupTask { matchup_num, n_rounds, submission_id, opponent_submission_id }
}

#[test]
fn new_registry_is_empty() {
    let registry = OngoingTasks::new();
    assert_eq!(registry.len(), 0);
    assert!(!registry.contains(&task(0, 3, 1, 2)));
    assert!(!registry.is_covered(&task(0, 3, 1, 2)));
}

#[test]
fn same_task_registers_once() {
    let mut registry = OngoingTasks::new();
    let t = task(0, 3, 1, 2);
    assert!(registry.try_register(t));
    assert!(!registry.try_register(t));
    assert_eq!(registry.len(), 1);
    assert!(registry.contains(&t));
}

#[test]
fn duplicate_suppression() {
    // The same task is taken from the queue by two workers.
    let mut registry = OngoingTasks::new();
    let t = task(2, 5, 10, 11);
    let first_worker_runs = registry.try_register(t);
    let second_worker_runs = registry.try_register(t);
    assert!(first_worker_runs);
    assert!(!second_worker_runs);
    assert_eq!(registry.len(), 1);
    // Once the first worker is done the task may run again.
    registry.deregister(&t);
    assert_eq!(registry.len(), 0);
    assert!(registry.try_register(t));
}

#[test]
fn shorter_task_is_covered_by_longer() {
    let mut registry = OngoingTasks::new();
    assert!(registry.try_register(task(0, 5, 1, 2)));
    assert!(registry.is_covered(&task(0, 3, 1, 2)));
    assert!(registry.is_covered(&task(0, 5, 1, 2)));
    assert!(!registry.try_register(task(0, 3, 1, 2)));
    assert_eq!(registry.len(), 1);
}

#[test]
fn longer_task_is_not_covered_by_shorter() {
    let mut registry = OngoingTasks::new();
    assert!(registry.try_register(task(0, 3, 1, 2)));
    assert!(!registry.is_covered(&task(0, 4, 1, 2)));
    assert!(registry.try_register(task(0, 4, 1, 2)));
    assert_eq!(registry.len(), 2);
    assert!(registry.contains(&task(0, 3, 1, 2)));
    assert!(registry.contains(&task(0, 4, 1, 2)));
}

#[test]
fn other_matchup_direction_and_pair_are_independent() {
    let mut registry = OngoingTasks::new();
    assert!(registry.try_register(task(0, 3, 1, 2)));
    // another matchup instance
    assert!(registry.try_register(task(1, 3, 1, 2)));
    // the other direction
    assert!(registry.try_register(task(0, 3, 2, 1)));
    // another opponent
    assert!(registry.try_register(task(0, 3, 1, 3)));
    // another submission
    assert!(registry.try_register(task(0, 3, 4, 2)));
    assert_eq!(registry.len(), 5);
}

#[test]
fn deregister_removes_exactly_that_task() {
    let mut registry = OngoingTasks::new();
    let short = task(0, 3, 1, 2);
    let long = task(0, 4, 1, 2);
    let other = task(1, 3, 1, 2);
    assert!(registry.try_register(short));
    assert!(registry.try_register(long));
    assert!(registry.try_register(other));
    registry.deregister(&short);
    assert_eq!(registry.len(), 2);
    assert!(!registry.contains(&short));
    assert!(registry.contains(&long));
    assert!(registry.contains(&other));
    // the longer task still covers the shorter one
    assert!(!registry.try_register(short));
}

#[test]
fn deregister_of_absent_task_changes_nothing() {
    let mut registry = OngoingTasks::new();
    assert!(registry.try_register(task(0, 3, 1, 2)));
    registry.deregister(&task(0, 2, 1, 2));
    assert_eq!(registry.len(), 1);
    assert!(registry.contains(&task(0, 3, 1, 2)));
}

#[test]
fn task_equality_is_structural() {
    assert_eq!(task(0, 3, 1, 2), task(0, 3, 1, 2));
    assert_ne!(task(0, 3, 1, 2), task(1, 3, 1, 2));
    assert_ne!(task(0, 3, 1, 2), task(0, 4, 1, 2));
    assert_ne!(task(0, 3, 1, 2), task(0, 3, 5, 2));
    assert_ne!(task(0, 3, 1, 2), task(0, 3, 1, 5));
}
