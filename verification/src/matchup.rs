//! The course of one matchup: which round is played next, and what each
//! side is shown of the other's past.
//!
//! A matchup is played round by round. In each round both programs run, each
//! seeing only what the other did in the rounds before, and the round is
//! over when both outcomes are stored. A matchup that was interrupted is
//! taken up again at the first round that is not resolved on both sides.
use crate::db_types::MatchResolution;
use crate::db_types::MatchResolutionView;
use crate::db_types::Submission;
use crate::response::AppError;
use crate::run_code::SubmissionSummary;
use crate::sandbox::defected_of;
use crate::sandbox::interpret_exit_code;
use crate::MatchupTask;
use vstd::prelude::*;

verus! {

/// The number of rounds at the start of a history that are resolved: the
/// length of its longest prefix without a failed round.
pub open spec fn completed_rounds(history: Seq<Option<bool>>) -> nat
    decreases history.len(),
{
    if history.len() == 0 || history.first() is None {
        0
    } else {
        1 + completed_rounds(history.drop_first())
    }
}

/// The round at which a matchup is taken up again: the first round that is
/// not resolved in both stored histories.
pub open spec fn resume_round(
    submission_history: Seq<Option<bool>>,
    opponent_history: Seq<Option<bool>>,
) -> nat {
    if completed_rounds(submission_history) <= completed_rounds(opponent_history) {
        completed_rounds(submission_history)
    } else {
        completed_rounds(opponent_history)
    }
}

/// The number of resolved rounds in a history.
pub open spec fn resolved_rounds(history: Seq<Option<bool>>) -> nat
    decreases history.len(),
{
    if history.len() == 0 {
        0
    } else {
        resolved_rounds(history.drop_last()) + if history.last() is Some {
            1nat
        } else {
            0nat
        }
    }
}

/// The outcomes of one round: what the submission did and what its opponent
/// did. `None` stands for a program that failed.
pub struct RoundOutcome {
    pub submission_defected: Option<bool>,
    pub opponent_defected: Option<bool>,
}

/// One half of a round: the program of `submission_id` decides against the
/// program of `opponent_submission_id`.
#[derive(Clone, Copy, Debug, PartialEq, Eq, Structural)]
pub struct Half {
    pub submission_id: i64,
    pub opponent_submission_id: i64,
    pub round: i64,
    pub matchup: i64,
}

/// The state of a matchup, as mathematical values.
pub struct MatchupRunView {
    /// The task that is being run.
    pub task: MatchupTask,
    /// The round to play next. Rounds are counted from 0.
    pub round: nat,
    /// What the submission did in each round so far.
    pub submission_history: Seq<Option<bool>>,
    /// What the opponent did in each round so far.
    pub opponent_history: Seq<Option<bool>>,
}

impl MatchupRunView {
    /// Both histories hold one outcome for each round before the one to
    /// play next, and none for a later round.
    pub open spec fn wf(self) -> bool {
        &&& self.submission_history.len() == self.round
        &&& self.opponent_history.len() == self.round
    }

    /// Whether every round that the task asks for has been played.
    pub open spec fn is_done(self) -> bool {
        self.round >= self.task.n_rounds
    }

    /// The half of the round at hand in which the submission decides.
    pub open spec fn first_half(self) -> Half {
        Half {
            submission_id: self.task.submission_id,
            opponent_submission_id: self.task.opponent_submission_id,
            round: self.round as i64,
            matchup: self.task.matchup_num,
        }
    }

    /// The half of the round at hand in which the opponent decides.
    pub open spec fn second_half(self) -> Half {
        Half {
            submission_id: self.task.opponent_submission_id,
            opponent_submission_id: self.task.submission_id,
            round: self.round as i64,
            matchup: self.task.matchup_num,
        }
    }

    /// The state after the round at hand has been played with `outcome`. A
    /// matchup that is done plays no further round.
    pub open spec fn record(self, outcome: RoundOutcome) -> MatchupRunView {
        if self.is_done() {
            self
        } else {
            MatchupRunView {
                task: self.task,
                round: self.round + 1,
                submission_history: self.submission_history.push(outcome.submission_defected),
                opponent_history: self.opponent_history.push(outcome.opponent_defected),
            }
        }
    }

    /// The state after the rounds at hand have been played with `outcomes`,
    /// in their order.
    pub open spec fn play(self, outcomes: Seq<RoundOutcome>) -> MatchupRunView
        decreases outcomes.len(),
    {
        if outcomes.len() == 0 {
            self
        } else {
            self.play(outcomes.drop_last()).record(outcomes.last())
        }
    }
}

/// The state in which a matchup is taken up, given the histories that the
/// store holds for it: both are cut back to the round of resumption.
pub open spec fn resumed(
    task: MatchupTask,
    submission_history: Seq<Option<bool>>,
    opponent_history: Seq<Option<bool>>,
) -> MatchupRunView {
    let round = resume_round(submission_history, opponent_history);
    MatchupRunView {
        task,
        round,
        submission_history: submission_history.take(round as int),
        opponent_history: opponent_history.take(round as int),
    }
}

/// A matchup in execution.
pub struct MatchupRun {
    task: MatchupTask,
    round: usize,
    submission_history: Vec<Option<bool>>,
    opponent_history: Vec<Option<bool>>,
}

impl View for MatchupRun {
    type V = MatchupRunView;

    closed spec fn view(&self) -> MatchupRunView {
        MatchupRunView {
            task: self.task,
            round: self.round as nat,
            submission_history: self.submission_history@,
            opponent_history: self.opponent_history@,
        }
    }
}

/// Counts the resolved rounds at the start of a history.
fn count_completed(history: &Vec<Option<bool>>) -> (n: usize)
    ensures
        n == completed_rounds(history@),
        n <= history@.len(),
{
    let mut n: usize = 0;
    assert(history@.skip(0) == history@);
    while n < history.len() && history[n].is_some()
        invariant
            n <= history.len(),
            completed_rounds(history@) == n + completed_rounds(history@.skip(n as int)),
        decreases history.len() - n,
    {
        proof {
            let rest = history@.skip(n as int);
            assert(rest.first() == history@[n as int]);
            assert(rest.drop_first() == history@.skip(n + 1));
        }
        n += 1;
    }
    proof {
        let rest = history@.skip(n as int);
        if n < history.len() {
            assert(rest.first() == history@[n as int]);
        }
    }
    n
}

impl MatchupRun {
    /// The invariant of a matchup in execution.
    pub open spec fn wf(&self) -> bool {
        self@.wf()
    }

    /// Takes up the matchup of `task`, given the outcomes that the store
    /// holds for it, ordered by round: those of the submission against the
    /// opponent, and those of the opponent against the submission.
    ///
    /// A failed round does not count as played: the matchup resumes at the
    /// first round that is missing or failed on either side, and what the
    /// histories hold from that round on is dropped.
    pub fn resume(
        task: MatchupTask,
        submission_history: Vec<Option<bool>>,
        opponent_history: Vec<Option<bool>>,
    ) -> (run: Self)
        ensures
            run.wf(),
            run@ == resumed(task, submission_history@, opponent_history@),
    {
        let a = count_completed(&submission_history);
        let b = count_completed(&opponent_history);
        let round = if a <= b {
            a
        } else {
            b
        };
        let mut submission_history = submission_history;
        let mut opponent_history = opponent_history;
        submission_history.truncate(round);
        opponent_history.truncate(round);
        MatchupRun { task, round, submission_history, opponent_history }
    }

    /// The task that is being run.
    pub fn task(&self) -> (t: MatchupTask)
        ensures
            t == self@.task,
    {
        self.task
    }

    /// The round to play next, or `None` where every round that the task
    /// asks for has been played.
    pub fn next_round(&self) -> (r: Option<i64>)
        ensures
            self@.is_done() ==> r is None,
            !self@.is_done() ==> r == Some(self@.round as i64) && self@.round <= i64::MAX,
    {
        if (self.round as i128) < (self.task.n_rounds as i128) {
            Some(self.round as i64)
        } else {
            None
        }
    }

    /// The two halves of the round to play next, or `None` where every
    /// round that the task asks for has been played. In the first half the
    /// submission decides, in the second the opponent. The two may run at
    /// the same time.
    pub fn halves(&self) -> (r: Option<(Half, Half)>)
        ensures
            self@.is_done() ==> r is None,
            !self@.is_done() ==> r == Some((self@.first_half(), self@.second_half())),
    {
        match self.next_round() {
            None => None,
            Some(round) => Some(
                (
                    Half {
                        submission_id: self.task.submission_id,
                        opponent_submission_id: self.task.opponent_submission_id,
                        round,
                        matchup: self.task.matchup_num,
                    },
                    Half {
                        submission_id: self.task.opponent_submission_id,
                        opponent_submission_id: self.task.submission_id,
                        round,
                        matchup: self.task.matchup_num,
                    },
                ),
            ),
        }
    }

    /// Whether every round that the task asks for has been played.
    pub fn is_done(&self) -> (b: bool)
        ensures
            b == self@.is_done(),
    {
        (self.round as i128) >= (self.task.n_rounds as i128)
    }

    /// What the submission's program is shown in the round at hand: what
    /// the opponent did in each round before it.
    pub fn history_shown_to_submission(&self) -> (h: &Vec<Option<bool>>)
        requires
            self.wf(),
        ensures
            h@ == self@.opponent_history,
            h@.len() == self@.round,
    {
        &self.opponent_history
    }

    /// What the opponent's program is shown in the round at hand: what the
    /// submission did in each round before it.
    pub fn history_shown_to_opponent(&self) -> (h: &Vec<Option<bool>>)
        requires
            self.wf(),
        ensures
            h@ == self@.submission_history,
            h@.len() == self@.round,
    {
        &self.submission_history
    }

    /// Takes note that the round at hand has been played: the submission's
    /// program came back with `submission_defected`, the opponent's with
    /// `opponent_defected`. Both are stored before this is called. The
    /// next round may start only after it.
    ///
    /// A matchup that is done takes no further round.
    pub fn record_round(&mut self, submission_defected: Option<bool>, opponent_defected: Option<bool>)
        requires
            old(self).wf(),
        ensures
            final(self).wf(),
            final(self)@ == old(self)@.record(
                RoundOutcome { submission_defected, opponent_defected },
            ),
    {
        if !self.is_done() {
            self.submission_history.push(submission_defected);
            self.opponent_history.push(opponent_defected);
            self.round = self.submission_history.len();
        }
    }
}

/// The two programs of a matchup, as the store returned them. A matchup
/// whose submission or opponent the store does not hold cannot be played:
/// the task fails, and the submission is reported as nonexistent.
pub fn both_exist(submission: Option<Submission>, opponent: Option<Submission>) -> (r: Result<
    (Submission, Submission),
    AppError,
>)
    ensures
        match (submission, opponent) {
            (Some(s), Some(o)) => r matches Ok(pair) && pair.0@ == s@ && pair.1@ == o@,
            _ => r == Err::<(Submission, Submission), AppError>(AppError::SubmissionNonexistent),
        },
{
    match (submission, opponent) {
        (Some(s), Some(o)) => Ok((s, o)),
        _ => Err(AppError::SubmissionNonexistent),
    }
}

/// The match resolution that records the run of one half: who played whom
/// in which round of which matchup, what the program wrote, and what its
/// exit code tells of its choice. The store adds the id and the time.
pub open spec fn resolution_of(
    half: Half,
    stdout: Seq<char>,
    stderr: Seq<char>,
    exit_code: Option<i64>,
    match_resolution_id: i64,
    creation_time: i64,
) -> MatchResolutionView {
    MatchResolutionView {
        match_resolution_id,
        submission_id: half.submission_id,
        opponent_submission_id: half.opponent_submission_id,
        round: half.round,
        matchup: half.matchup,
        creation_time,
        defected: defected_of(exit_code),
        stdout,
        stderr,
    }
}

/// Makes the match resolution that records the run of one half. A run that
/// ended with anything but the two exit codes of the script is recorded as
/// failed, not reported as an error. `match_resolution_id` and
/// `creation_time` are what the store assigns to the row.
pub fn resolve(half: Half, summary: SubmissionSummary, match_resolution_id: i64, creation_time: i64) -> (r:
    MatchResolution)
    ensures
        r@ == resolution_of(
            half,
            summary@.stdout,
            summary@.stderr,
            summary@.exit_code,
            match_resolution_id,
            creation_time,
        ),
{
    MatchResolution {
        match_resolution_id,
        submission_id: half.submission_id,
        opponent_submission_id: half.opponent_submission_id,
        round: half.round,
        matchup: half.matchup,
        creation_time,
        defected: interpret_exit_code(summary.exit_code),
        stdout: summary.stdout,
        stderr: summary.stderr,
    }
}

/// The rounds counted by `completed_rounds` are resolved, and the round
/// after them, if the history holds one, is not.
pub proof fn lemma_completed_rounds(history: Seq<Option<bool>>)
    ensures
        completed_rounds(history) <= history.len(),
        forall|i: int| 0 <= i < completed_rounds(history) ==> (#[trigger] history[i]) is Some,
        completed_rounds(history) < history.len() ==> history[completed_rounds(history) as int]
            is None,
    decreases history.len(),
{
    if history.len() > 0 && history.first() is Some {
        let rest = history.drop_first();
        lemma_completed_rounds(rest);
        assert forall|i: int| 0 <= i < completed_rounds(history) implies (#[trigger] history[i])
            is Some by {
            if i > 0 {
                assert(history[i] == rest[i - 1]);
            }
        }
        if completed_rounds(history) < history.len() {
            assert(history[completed_rounds(history) as int] == rest[completed_rounds(rest) as int]);
        }
    }
}

/// A history without a failed round is resolved in all its rounds.
pub proof fn lemma_all_resolved(history: Seq<Option<bool>>)
    requires
        forall|i: int| 0 <= i < history.len() ==> (#[trigger] history[i]) is Some,
    ensures
        resolved_rounds(history) == history.len(),
    decreases history.len(),
{
    if history.len() > 0 {
        let front = history.drop_last();
        assert(forall|i: int| 0 <= i < front.len() ==> front[i] == history[i]);
        lemma_all_resolved(front);
    }
}

/// The state of a matchup that was taken up at a round within the task and
/// has since played `outcomes`, as long as the task is not overrun: the
/// stored histories up to the round of resumption, then the outcomes.
pub proof fn lemma_play(
    task: MatchupTask,
    submission_history: Seq<Option<bool>>,
    opponent_history: Seq<Option<bool>>,
    outcomes: Seq<RoundOutcome>,
)
    requires
        resume_round(submission_history, opponent_history) + outcomes.len() <= task.n_rounds,
    ensures
        ({
            let start = resume_round(submission_history, opponent_history);
            let run = resumed(task, submission_history, opponent_history).play(outcomes);
            &&& run.wf()
            &&& run.task == task
            &&& run.round == start + outcomes.len()
            &&& run.submission_history == submission_history.take(start as int) + outcomes.map_values(
                |o: RoundOutcome| o.submission_defected,
            )
            &&& run.opponent_history == opponent_history.take(start as int) + outcomes.map_values(
                |o: RoundOutcome| o.opponent_defected,
            )
        }),
    decreases outcomes.len(),
{
    lemma_completed_rounds(submission_history);
    lemma_completed_rounds(opponent_history);
    let start = resume_round(submission_history, opponent_history);
    if outcomes.len() > 0 {
        let front = outcomes.drop_last();
        lemma_play(task, submission_history, opponent_history, front);
        let before = resumed(task, submission_history, opponent_history).play(front);
        assert(!before.is_done());
        assert(outcomes.map_values(|o: RoundOutcome| o.submission_defected) == front.map_values(
            |o: RoundOutcome| o.submission_defected,
        ).push(outcomes.last().submission_defected));
        assert(outcomes.map_values(|o: RoundOutcome| o.opponent_defected) == front.map_values(
            |o: RoundOutcome| o.opponent_defected,
        ).push(outcomes.last().opponent_defected));
    } else {
        assert(outcomes.map_values(|o: RoundOutcome| o.submission_defected) == Seq::<
            Option<bool>,
        >::empty());
        assert(outcomes.map_values(|o: RoundOutcome| o.opponent_defected) == Seq::<
            Option<bool>,
        >::empty());
    }
}

/// In every round each side is shown exactly the other's past: at round `r`
/// the history that a program sees has `r` elements, the outcomes of the
/// rounds `0` to `r - 1`, the first of them as the store held them and the
/// others as they were played.
pub proof fn lemma_shown_history_is_past(
    task: MatchupTask,
    submission_history: Seq<Option<bool>>,
    opponent_history: Seq<Option<bool>>,
    outcomes: Seq<RoundOutcome>,
    i: int,
)
    requires
        resume_round(submission_history, opponent_history) + outcomes.len() <= task.n_rounds,
        0 <= i < resume_round(submission_history, opponent_history) + outcomes.len(),
    ensures
        ({
            let start = resume_round(submission_history, opponent_history);
            let run = resumed(task, submission_history, opponent_history).play(outcomes);
            &&& run.opponent_history.len() == run.round
            &&& run.submission_history.len() == run.round
            &&& i < start ==> run.opponent_history[i] == opponent_history[i]
                && run.submission_history[i] == submission_history[i]
            &&& i >= start ==> run.opponent_history[i] == outcomes[i - start].opponent_defected
                && run.submission_history[i] == outcomes[i - start].submission_defected
        }),
{
    lemma_play(task, submission_history, opponent_history, outcomes);
    lemma_completed_rounds(submission_history);
    lemma_completed_rounds(opponent_history);
}

/// A matchup that was taken up at a round within the task and has played
/// every remaining round without a failure is done, and holds a resolved
/// outcome for every round of the task on both sides: twice the number of
/// rounds in all.
pub proof fn lemma_completed_matchup_is_resolved(
    task: MatchupTask,
    submission_history: Seq<Option<bool>>,
    opponent_history: Seq<Option<bool>>,
    outcomes: Seq<RoundOutcome>,
)
    requires
        resume_round(submission_history, opponent_history) + outcomes.len() == task.n_rounds,
        forall|k: int|
            0 <= k < outcomes.len() ==> (#[trigger] outcomes[k]).submission_defected is Some
                && outcomes[k].opponent_defected is Some,
    ensures
        ({
            let run = resumed(task, submission_history, opponent_history).play(outcomes);
            &&& run.is_done()
            &&& run.submission_history.len() == task.n_rounds
            &&& run.opponent_history.len() == task.n_rounds
            &&& resolved_rounds(run.submission_history) + resolved_rounds(run.opponent_history) == 2
                * task.n_rounds
        }),
{
    lemma_play(task, submission_history, opponent_history, outcomes);
    lemma_completed_rounds(submission_history);
    lemma_completed_rounds(opponent_history);
    let run = resumed(task, submission_history, opponent_history).play(outcomes);
    lemma_all_resolved(run.submission_history);
    lemma_all_resolved(run.opponent_history);
}

} // verus!
