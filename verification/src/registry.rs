//! The registry of matchup tasks that workers are executing right now.
//!
//! Several producers may enqueue tasks that ask for the same work. A worker
//! registers a task before it runs it and is turned away when a running task
//! already covers it, so the same work is never executed twice at once.
use crate::MatchupTask;
use vstd::prelude::*;

verus! {

/// Whether two tasks play the same matchup instance between the same
/// submissions, in the same direction.
pub open spec fn same_matchup(a: MatchupTask, b: MatchupTask) -> bool {
    &&& a.matchup_num == b.matchup_num
    &&& a.submission_id == b.submission_id
    &&& a.opponent_submission_id == b.opponent_submission_id
}

/// Whether a running task makes `task` redundant: it plays the same matchup
/// for at least as many rounds.
pub open spec fn covers(running: MatchupTask, task: MatchupTask) -> bool {
    same_matchup(running, task) && running.n_rounds >= task.n_rounds
}

/// Whether some task in `running` covers `task`.
pub open spec fn covered_by(running: Seq<MatchupTask>, task: MatchupTask) -> bool {
    exists|i: int| 0 <= i < running.len() && covers(#[trigger] running[i], task)
}

/// What holds of the running tasks at any time: of two tasks that play the
/// same matchup, the one registered later runs strictly more rounds.
pub open spec fn admissible(running: Seq<MatchupTask>) -> bool {
    forall|i: int, j: int|
        0 <= i < j < running.len() && same_matchup(#[trigger] running[i], #[trigger] running[j])
            ==> running[i].n_rounds < running[j].n_rounds
}

/// The test that every task but `task` passes.
pub open spec fn other_than(task: MatchupTask) -> spec_fn(MatchupTask) -> bool {
    |t: MatchupTask| t != task
}

/// The running tasks once every copy of `task` has left.
pub open spec fn without(running: Seq<MatchupTask>, task: MatchupTask) -> Seq<MatchupTask> {
    running.filter(other_than(task))
}

/// The tasks in execution, in the order in which they were registered.
pub struct OngoingTasks {
    tasks: Vec<MatchupTask>,
}

impl View for OngoingTasks {
    type V = Seq<MatchupTask>;

    closed spec fn view(&self) -> Seq<MatchupTask> {
        self.tasks@
    }
}

impl OngoingTasks {
    /// The invariant of the registry.
    pub open spec fn wf(&self) -> bool {
        admissible(self@)
    }

    /// A registry with no task in execution.
    pub fn new() -> (r: Self)
        ensures
            r.wf(),
            r@ == Seq::<MatchupTask>::empty(),
    {
        OngoingTasks { tasks: Vec::new() }
    }

    /// The number of tasks in execution.
    pub fn len(&self) -> (n: usize)
        ensures
            n == self@.len(),
    {
        self.tasks.len()
    }

    /// Whether `task` itself is in execution.
    pub fn contains(&self, task: &MatchupTask) -> (found: bool)
        ensures
            found == self@.contains(*task),
    {
        let mut i: usize = 0;
        while i < self.tasks.len()
            invariant
                i <= self.tasks.len(),
                forall|k: int| 0 <= k < i ==> self.tasks@[k] != *task,
            decreases self.tasks.len() - i,
        {
            if self.tasks[i] == *task {
                return true;
            }
            i += 1;
        }
        false
    }

    /// Whether a task in execution covers `task`.
    pub fn is_covered(&self, task: &MatchupTask) -> (found: bool)
        ensures
            found == covered_by(self@, *task),
    {
        let mut i: usize = 0;
        while i < self.tasks.len()
            invariant
                i <= self.tasks.len(),
                forall|k: int| 0 <= k < i ==> !covers(#[trigger] self.tasks@[k], *task),
            decreases self.tasks.len() - i,
        {
            let running = &self.tasks[i];
            if running.matchup_num == task.matchup_num
                && running.submission_id == task.submission_id
                && running.opponent_submission_id == task.opponent_submission_id
                && running.n_rounds >= task.n_rounds
            {
                return true;
            }
            i += 1;
        }
        false
    }

    /// Registers `task` unless a task in execution covers it.
    ///
    /// Returns whether the task was registered. The caller runs the task only
    /// then, and deregisters it when the run has ended, however it ended.
    pub fn try_register(&mut self, task: MatchupTask) -> (registered: bool)
        requires
            old(self).wf(),
        ensures
            final(self).wf(),
            registered == !covered_by(old(self)@, task),
            registered ==> final(self)@ == old(self)@.push(task),
            !registered ==> final(self)@ == old(self)@,
    {
        if self.is_covered(&task) {
            return false;
        }
        proof {
            lemma_register_keeps_admissible(self@, task);
        }
        self.tasks.push(task);
        true
    }

    /// Removes every copy of `task` from the registry.
    pub fn deregister(&mut self, task: &MatchupTask)
        requires
            old(self).wf(),
        ensures
            final(self).wf(),
            final(self)@ == without(old(self)@, *task),
    {
        let ghost pred = other_than(*task);
        let mut kept: Vec<MatchupTask> = Vec::new();
        let mut i: usize = 0;
        while i < self.tasks.len()
            invariant
                i <= self.tasks.len(),
                pred == other_than(*task),
                kept@ == self.tasks@.take(i as int).filter(pred),
            decreases self.tasks.len() - i,
        {
            let t = self.tasks[i];
            proof {
                let prefix = self.tasks@.take(i as int);
                assert(self.tasks@.take(i + 1) == prefix.push(t));
                prefix.lemma_filter_push(t, pred);
            }
            if t != *task {
                kept.push(t);
            }
            i += 1;
        }
        proof {
            assert(self.tasks@.take(i as int) == self.tasks@);
            lemma_deregister_keeps_admissible(self@, *task);
        }
        self.tasks = kept;
    }
}

/// Registering a task that no running task covers keeps the registry
/// admissible.
pub proof fn lemma_register_keeps_admissible(running: Seq<MatchupTask>, task: MatchupTask)
    requires
        admissible(running),
        !covered_by(running, task),
    ensures
        admissible(running.push(task)),
{
    let next = running.push(task);
    assert forall|i: int, j: int|
        0 <= i < j < next.len() && same_matchup(#[trigger] next[i], #[trigger] next[j]) implies next[i].n_rounds
        < next[j].n_rounds by {
        if j == running.len() {
            assert(!covers(running[i], task));
        }
    }
}

/// Deregistering a task keeps the registry admissible.
pub proof fn lemma_deregister_keeps_admissible(running: Seq<MatchupTask>, task: MatchupTask)
    requires
        admissible(running),
    ensures
        admissible(without(running, task)),
{
    let pred = other_than(task);
    let rest = running.filter(pred);
    assert forall|i: int, j: int|
        0 <= i < j < rest.len() && same_matchup(#[trigger] rest[i], #[trigger] rest[j]) implies rest[i].n_rounds
        < rest[j].n_rounds by {
        lemma_filter_keeps_order(running, pred, i, j);
        let (a, b) = choose|a: int, b: int|
            0 <= a < b < running.len() && running[a] == rest[i] && running[b] == rest[j];
        assert(same_matchup(running[a], running[b]));
    }
}

/// Two elements that a filter keeps stood in the same order before it.
proof fn lemma_filter_keeps_order<A>(s: Seq<A>, pred: spec_fn(A) -> bool, i: int, j: int)
    requires
        0 <= i < j < s.filter(pred).len(),
    ensures
        exists|a: int, b: int|
            0 <= a < b < s.len() && s[a] == s.filter(pred)[i] && s[b] == s.filter(pred)[j],
    decreases s.len(),
{
    reveal(Seq::filter);
    if s.len() > 0 {
        let front = s.drop_last();
        let kept = front.filter(pred);
        if pred(s.last()) && j == kept.len() {
            front.lemma_filter_contains_rev(pred, kept[i]);
            let a = choose|a: int| 0 <= a < front.len() && front[a] == kept[i];
            assert(s[a] == s.filter(pred)[i] && s[s.len() - 1] == s.filter(pred)[j]);
        } else {
            lemma_filter_keeps_order(front, pred, i, j);
            let (a, b) = choose|a: int, b: int|
                0 <= a < b < front.len() && front[a] == kept[i] && front[b] == kept[j];
            assert(s[a] == s.filter(pred)[i] && s[b] == s.filter(pred)[j]);
        }
    }
}

/// No task is in execution twice: a task occurs in an admissible registry at
/// most once.
pub proof fn lemma_no_task_runs_twice(running: Seq<MatchupTask>, i: int, j: int)
    requires
        admissible(running),
        0 <= i < running.len(),
        0 <= j < running.len(),
        running[i] == running[j],
    ensures
        i == j,
{
    if i < j {
        assert(same_matchup(running[i], running[j]));
    } else if j < i {
        assert(same_matchup(running[j], running[i]));
    }
}

} // verus!
