//! The rules of admission: which uploads, tournaments and tournament entries
//! are accepted, and which matchups an accepted change schedules.
//!
//! Every function here decides on facts that the caller has read from the
//! store. None of them reads or writes anything itself.
use crate::db_types::Submission;
use crate::db_types::Tournament;
use crate::db_types::TournamentData;
use crate::request::TournamentSubmissionKind;
use crate::response::AppError;
use crate::MatchupTask;
use vstd::prelude::*;

verus! {

/// The longest code that a submission may hold, in characters.
pub const MAX_CODE_LENGTH: usize = 10000;

/// The most games that one pairing may play in a tournament: rounds times
/// matchups.
pub const MAX_MATCHES: i64 = 256;

/// The verdict on an upload of `code`.
pub open spec fn submission_verdict(code: Seq<char>) -> Result<(), AppError> {
    if code.len() <= MAX_CODE_LENGTH {
        Ok(())
    } else {
        Err(AppError::SubmissionTooLong)
    }
}

/// Accepts code of at most `MAX_CODE_LENGTH` characters.
pub fn validate_submission(code: &str) -> (r: Result<(), AppError>)
    ensures
        r == submission_verdict(code@),
{
    if code.unicode_len() <= MAX_CODE_LENGTH {
        Ok(())
    } else {
        Err(AppError::SubmissionTooLong)
    }
}

/// The verdict on the numbers of a configuration of a tournament, be it the
/// first of a tournament that is being opened or a later one.
pub open spec fn tournament_data_verdict(n_rounds: i64, n_matchups: i64) -> Result<(), AppError> {
    if n_rounds <= 0 {
        Err(AppError::TournamentDataNRoundsInvalid)
    } else if n_matchups <= 0 {
        Err(AppError::TournamentDataNMatchupsInvalid)
    } else if n_rounds * n_matchups > MAX_MATCHES {
        Err(AppError::TournamentDataTooManyMatches)
    } else {
        Ok(())
    }
}

/// Accepts a configuration whose numbers of rounds and of matchups are both
/// positive and whose product is at most `MAX_MATCHES`. The rounds are
/// looked at first, then the matchups, then the product.
pub fn validate_tournament_data(n_rounds: i64, n_matchups: i64) -> (r: Result<(), AppError>)
    ensures
        r == tournament_data_verdict(n_rounds, n_matchups),
{
    if n_rounds <= 0 {
        return Err(AppError::TournamentDataNRoundsInvalid);
    }
    if n_matchups <= 0 {
        return Err(AppError::TournamentDataNMatchupsInvalid);
    }
    if n_rounds > MAX_MATCHES || n_matchups > MAX_MATCHES {
        assert(n_rounds * n_matchups > MAX_MATCHES) by (nonlinear_arith)
            requires
                n_rounds >= 1,
                n_matchups >= 1,
                n_rounds > MAX_MATCHES || n_matchups > MAX_MATCHES,
        ;
        return Err(AppError::TournamentDataTooManyMatches);
    }
    assert(n_rounds * n_matchups <= MAX_MATCHES * MAX_MATCHES) by (nonlinear_arith)
        requires
            1 <= n_rounds <= MAX_MATCHES,
            1 <= n_matchups <= MAX_MATCHES,
    ;
    if n_rounds * n_matchups > MAX_MATCHES {
        return Err(AppError::TournamentDataTooManyMatches);
    }
    Ok(())
}

/// The task that plays matchup `matchup_num` of `submission_id` against
/// `opponent_submission_id` for `n_rounds` rounds.
pub open spec fn task_for(
    matchup_num: int,
    n_rounds: i64,
    submission_id: i64,
    opponent_submission_id: i64,
) -> MatchupTask {
    MatchupTask { matchup_num: matchup_num as i64, n_rounds, submission_id, opponent_submission_id }
}

/// One pairing in every matchup instance of a tournament: matchups `0` to
/// `n_matchups - 1`, in that order.
pub open spec fn every_matchup(
    n_matchups: i64,
    n_rounds: i64,
    submission_id: i64,
    opponent_submission_id: i64,
) -> Seq<MatchupTask> {
    Seq::new(
        if n_matchups > 0 {
            n_matchups as nat
        } else {
            0
        },
        |i: int| task_for(i, n_rounds, submission_id, opponent_submission_id),
    )
}

/// A submission against each of `opponents` in turn, each pairing in every
/// matchup instance.
pub open spec fn every_matchup_against_each(
    n_matchups: i64,
    n_rounds: i64,
    submission_id: i64,
    opponents: Seq<i64>,
) -> Seq<MatchupTask>
    decreases opponents.len(),
{
    if opponents.len() == 0 {
        Seq::empty()
    } else {
        every_matchup_against_each(n_matchups, n_rounds, submission_id, opponents.drop_last())
            + every_matchup(n_matchups, n_rounds, submission_id, opponents.last())
    }
}

/// Appends one pairing in every matchup instance to `tasks`.
fn push_every_matchup(
    tasks: &mut Vec<MatchupTask>,
    n_matchups: i64,
    n_rounds: i64,
    submission_id: i64,
    opponent_submission_id: i64,
)
    ensures
        final(tasks)@ == old(tasks)@ + every_matchup(
            n_matchups,
            n_rounds,
            submission_id,
            opponent_submission_id,
        ),
{
    let ghost all = every_matchup(n_matchups, n_rounds, submission_id, opponent_submission_id);
    let mut i: i64 = 0;
    while i < n_matchups
        invariant
            0 <= i,
            i <= n_matchups || n_matchups <= 0,
            all == every_matchup(n_matchups, n_rounds, submission_id, opponent_submission_id),
            tasks@ == old(tasks)@ + all.take(if n_matchups > 0 { i as int } else { 0 }),
        decreases n_matchups - i,
    {
        proof {
            assert(all.take(i + 1) == all.take(i as int).push(all[i as int]));
        }
        tasks.push(MatchupTask { matchup_num: i, n_rounds, submission_id, opponent_submission_id });
        i += 1;
    }
    proof {
        assert(all.take(all.len() as int) == all);
    }
}

/// Appends `submission_id` against each of `opponents`, each pairing in
/// every matchup instance, to `tasks`.
fn push_every_matchup_against_each(
    tasks: &mut Vec<MatchupTask>,
    n_matchups: i64,
    n_rounds: i64,
    submission_id: i64,
    opponents: &Vec<i64>,
)
    ensures
        final(tasks)@ == old(tasks)@ + every_matchup_against_each(
            n_matchups,
            n_rounds,
            submission_id,
            opponents@,
        ),
{
    let mut k: usize = 0;
    while k < opponents.len()
        invariant
            k <= opponents.len(),
            tasks@ == old(tasks)@ + every_matchup_against_each(
                n_matchups,
                n_rounds,
                submission_id,
                opponents@.take(k as int),
            ),
        decreases opponents.len() - k,
    {
        proof {
            let next = opponents@.take(k + 1);
            assert(next.drop_last() == opponents@.take(k as int));
            assert(next.last() == opponents@[k as int]);
        }
        push_every_matchup(tasks, n_matchups, n_rounds, submission_id, opponents[k]);
        k += 1;
    }
    proof {
        assert(opponents@.take(k as int) == opponents@);
    }
}

/// The verdict on who may enter a submission into a tournament: the author
/// of the submission and the creator of the tournament.
pub open spec fn entry_rights_verdict(
    user_id: i64,
    submission_owner: i64,
    tournament_owner: i64,
) -> Result<(), AppError> {
    if user_id != submission_owner && user_id != tournament_owner {
        Err(AppError::Unauthorized)
    } else {
        Ok(())
    }
}

/// Accepts the acting user if they own the submission or the tournament.
pub fn check_entry_rights(user_id: i64, submission_owner: i64, tournament_owner: i64) -> (r: Result<
    (),
    AppError,
>)
    ensures
        r == entry_rights_verdict(user_id, submission_owner, tournament_owner),
{
    if user_id != submission_owner && user_id != tournament_owner {
        Err(AppError::Unauthorized)
    } else {
        Ok(())
    }
}

/// The verdict on an entry that asks to compete, by the kind of the latest
/// entry of the same submission in the same tournament: it must be
/// `Validate`.
pub open spec fn validated_verdict(previous: Option<TournamentSubmissionKind>) -> Result<
    (),
    AppError,
> {
    if previous == Some(TournamentSubmissionKind::Validate) {
        Ok(())
    } else {
        Err(AppError::TournamentSubmissionNotValidated)
    }
}

/// Accepts a request to be validated only from a submission that has no
/// entry in the tournament yet.
pub fn check_first_entry(previous: Option<TournamentSubmissionKind>) -> (r: Result<(), AppError>)
    ensures
        r == first_entry_verdict(previous),
{
    match previous {
        None => Ok(()),
        Some(_) => Err(AppError::BadRequest),
    }
}

/// Accepts a request to compete only from a submission whose latest entry is
/// `Validate`.
pub fn check_validated(previous: Option<TournamentSubmissionKind>) -> (r: Result<(), AppError>)
    ensures
        r == validated_verdict(previous),
{
    match previous {
        Some(TournamentSubmissionKind::Validate) => Ok(()),
        _ => Err(AppError::TournamentSubmissionNotValidated),
    }
}

/// The number of resolutions that a submission and a testcase owe each
/// other: one for each round of each matchup, in both directions.
pub open spec fn required_results(n_rounds: i64, n_matchups: i64) -> int {
    n_rounds * n_matchups * 2
}

/// The verdict on the resolutions between a submission and one testcase,
/// both directions together.
pub open spec fn testcase_verdict(results: Seq<Option<bool>>, n_rounds: i64, n_matchups: i64) -> Result<
    (),
    AppError,
> {
    if results.len() < required_results(n_rounds, n_matchups) {
        Err(AppError::TournamentSubmissionTestcaseIncomplete)
    } else if exists|i: int| 0 <= i < results.len() && results[i] is None {
        Err(AppError::TournamentSubmissionTestcaseFails)
    } else {
        Ok(())
    }
}

/// Whether `len` results are fewer than a submission and a testcase owe each
/// other.
fn too_few_results(len: usize, n_rounds: i64, n_matchups: i64) -> (b: bool)
    ensures
        b == (len < required_results(n_rounds, n_matchups)),
{
    let rounds: i128 = n_rounds as i128;
    let matchups: i128 = n_matchups as i128;
    assert(-0x4000_0000_0000_0000_0000_0000_0000_0000 <= rounds * matchups
        <= 0x4000_0000_0000_0000_0000_0000_0000_0000) by (nonlinear_arith)
        requires
            -0x8000_0000_0000_0000 <= rounds <= 0x8000_0000_0000_0000,
            -0x8000_0000_0000_0000 <= matchups <= 0x8000_0000_0000_0000,
    ;
    let games: i128 = rounds * matchups;
    ((len / 2) as i128) < games
}

/// Checks the resolutions between a submission and one testcase: there must
/// be enough of them, and none may have failed.
pub fn check_testcase_results(results: &Vec<Option<bool>>, n_rounds: i64, n_matchups: i64) -> (r:
    Result<(), AppError>)
    ensures
        r == testcase_verdict(results@, n_rounds, n_matchups),
{
    if too_few_results(results.len(), n_rounds, n_matchups) {
        return Err(AppError::TournamentSubmissionTestcaseIncomplete);
    }
    let mut i: usize = 0;
    while i < results.len()
        invariant
            i <= results.len(),
            results@.len() >= required_results(n_rounds, n_matchups),
            forall|k: int| 0 <= k < i ==> results@[k] is Some,
        decreases results.len() - i,
    {
        if results[i].is_none() {
            assert(results@[i as int] is None);
            return Err(AppError::TournamentSubmissionTestcaseFails);
        }
        i += 1;
    }
    Ok(())
}

/// The resolutions of each testcase, as sequences.
pub open spec fn results_of(all: Seq<Vec<Option<bool>>>) -> Seq<Seq<Option<bool>>> {
    Seq::new(all.len(), |k: int| all[k]@)
}

/// The verdict on the resolutions between a submission and every testcase:
/// that of the first testcase that does not pass, and `Ok` where all pass.
pub open spec fn testcases_verdict(
    all: Seq<Seq<Option<bool>>>,
    n_rounds: i64,
    n_matchups: i64,
) -> Result<(), AppError>
    decreases all.len(),
{
    if all.len() == 0 {
        Ok(())
    } else {
        match testcase_verdict(all.first(), n_rounds, n_matchups) {
            Err(e) => Err(e),
            Ok(_) => testcases_verdict(all.drop_first(), n_rounds, n_matchups),
        }
    }
}

/// The verdict of `testcases_verdict`, told by the testcases themselves: it
/// is `Ok` exactly when every testcase passes, and otherwise the verdict of
/// the first testcase that does not.
pub proof fn lemma_testcases_verdict(all: Seq<Seq<Option<bool>>>, n_rounds: i64, n_matchups: i64)
    ensures
        testcases_verdict(all, n_rounds, n_matchups) is Ok <==> forall|k: int|
            0 <= k < all.len() ==> testcase_verdict(#[trigger] all[k], n_rounds, n_matchups) is Ok,
        testcases_verdict(all, n_rounds, n_matchups) is Err ==> exists|k: int|
            0 <= k < all.len() && testcase_verdict(#[trigger] all[k], n_rounds, n_matchups)
                == testcases_verdict(all, n_rounds, n_matchups) && forall|j: int|
                0 <= j < k ==> testcase_verdict(#[trigger] all[j], n_rounds, n_matchups) is Ok,
    decreases all.len(),
{
    if all.len() > 0 {
        let rest = all.drop_first();
        lemma_testcases_verdict(rest, n_rounds, n_matchups);
        assert(forall|k: int| 0 <= k < rest.len() ==> rest[k] == all[k + 1]);
        if testcase_verdict(all.first(), n_rounds, n_matchups) is Ok {
            if testcases_verdict(rest, n_rounds, n_matchups) is Err {
                let k = choose|k: int|
                    0 <= k < rest.len() && testcase_verdict(#[trigger] rest[k], n_rounds, n_matchups)
                        == testcases_verdict(rest, n_rounds, n_matchups) && forall|j: int|
                        0 <= j < k ==> testcase_verdict(#[trigger] rest[j], n_rounds, n_matchups) is Ok;
                assert(all[k + 1] == rest[k]);
                assert forall|j: int| 0 <= j < k + 1 implies testcase_verdict(
                    #[trigger] all[j],
                    n_rounds,
                    n_matchups,
                ) is Ok by {
                    if j > 0 {
                        assert(all[j] == rest[j - 1]);
                    }
                }
            } else {
                assert forall|k: int| 0 <= k < all.len() implies testcase_verdict(
                    #[trigger] all[k],
                    n_rounds,
                    n_matchups,
                ) is Ok by {
                    if k > 0 {
                        assert(all[k] == rest[k - 1]);
                    }
                }
            }
        } else {
            assert(all[0] == all.first());
        }
    }
}

/// Checks the resolutions between a submission and every testcase, one
/// sequence of resolutions for each testcase. The first testcase that does
/// not pass decides the error. With no testcase the check passes.
pub fn check_testcases(all: &Vec<Vec<Option<bool>>>, n_rounds: i64, n_matchups: i64) -> (r: Result<
    (),
    AppError,
>)
    ensures
        r == testcases_verdict(results_of(all@), n_rounds, n_matchups),
{
    let ghost whole = results_of(all@);
    let mut k: usize = 0;
    assert(whole.skip(0) == whole);
    while k < all.len()
        invariant
            k <= all.len(),
            whole == results_of(all@),
            testcases_verdict(whole, n_rounds, n_matchups) == testcases_verdict(
                whole.skip(k as int),
                n_rounds,
                n_matchups,
            ),
        decreases all.len() - k,
    {
        proof {
            let rest = whole.skip(k as int);
            assert(rest.first() == all@[k as int]@);
            assert(rest.drop_first() == whole.skip(k + 1));
        }
        match check_testcase_results(&all[k], n_rounds, n_matchups) {
            Err(e) => {
                return Err(e);
            },
            Ok(_) => {},
        }
        k += 1;
    }
    Ok(())
}

/// A group of the entries of a tournament, told by the kind that is in force
/// for each.
#[derive(Clone, Copy, Debug, PartialEq, Eq, Structural)]
pub enum Cohort {
    /// The entries that others are tested against.
    Testcases,
    /// The entries that are run against the testcases: the testcases
    /// themselves and the competitors.
    UnderTest,
    /// The entries that compete.
    Competitors,
    /// The entries that a new testcase is run against: those that ask to be
    /// validated and those that compete.
    Entrants,
}

impl Cohort {
    /// Whether an entry of kind `kind` belongs to the cohort.
    pub open spec fn includes(self, kind: TournamentSubmissionKind) -> bool {
        match self {
            Cohort::Testcases => kind == TournamentSubmissionKind::Testcase,
            Cohort::UnderTest => kind == TournamentSubmissionKind::Testcase || kind
                == TournamentSubmissionKind::Compete,
            Cohort::Competitors => kind == TournamentSubmissionKind::Compete,
            Cohort::Entrants => kind == TournamentSubmissionKind::Validate || kind
                == TournamentSubmissionKind::Compete,
        }
    }

    /// The kinds whose entries belong to the cohort, each once.
    pub fn kinds(self) -> (kinds: Vec<TournamentSubmissionKind>)
        ensures
            kinds@.no_duplicates(),
            forall|kind: TournamentSubmissionKind| kinds@.contains(kind) <==> self.includes(kind),
    {
        let mut kinds: Vec<TournamentSubmissionKind> = Vec::new();
        match self {
            Cohort::Testcases => {
                kinds.push(TournamentSubmissionKind::Testcase);
            },
            Cohort::UnderTest => {
                kinds.push(TournamentSubmissionKind::Testcase);
                kinds.push(TournamentSubmissionKind::Compete);
            },
            Cohort::Competitors => {
                kinds.push(TournamentSubmissionKind::Compete);
            },
            Cohort::Entrants => {
                kinds.push(TournamentSubmissionKind::Validate);
                kinds.push(TournamentSubmissionKind::Compete);
            },
        }
        proof {
            assert(kinds@.len() >= 1);
            assert(kinds@.contains(kinds@[0]));
            if kinds@.len() == 2 {
                assert(kinds@.contains(kinds@[1]));
            }
        }
        kinds
    }
}

/// What the store holds that bears on a request to enter a submission into a
/// tournament, or to change the kind of its entry.
///
/// The lists hold the newest entries of the tournament, oldest entry first.
/// A list that the requested kind does not consult may be left empty.
pub struct EntryFacts {
    /// The tournament, if it exists.
    pub tournament: Option<Tournament>,
    /// The submission, if it exists.
    pub submission: Option<Submission>,
    /// The configuration of the tournament that is in force, if there is one.
    pub tournament_data: Option<TournamentData>,
    /// The kind of the newest entry of this submission in this tournament, if
    /// it has one.
    pub previous: Option<TournamentSubmissionKind>,
    /// The submissions of the cohort `Testcases`. Consulted for `Validate`
    /// and for `Compete`.
    pub testcase_ids: Vec<i64>,
    /// For each testcase, in the order of `testcase_ids`, the outcomes of the
    /// newest resolutions between the submission and that testcase, both
    /// directions together. Consulted for `Compete`.
    pub testcase_results: Vec<Vec<Option<bool>>>,
    /// The submissions of the cohort `Competitors`. Consulted for `Compete`.
    pub competitor_ids: Vec<i64>,
    /// The submissions of the cohort `Entrants`. Consulted for `Testcase`.
    pub entrant_ids: Vec<i64>,
}

/// The matchups that an accepted entry of kind `kind` schedules.
pub open spec fn entry_tasks(
    kind: TournamentSubmissionKind,
    submission_id: i64,
    n_matchups: i64,
    n_rounds: i64,
    facts: EntryFacts,
) -> Seq<MatchupTask> {
    match kind {
        TournamentSubmissionKind::Validate => every_matchup_against_each(
            n_matchups,
            n_rounds,
            submission_id,
            facts.testcase_ids@,
        ),
        TournamentSubmissionKind::Compete => every_matchup_against_each(
            n_matchups,
            n_rounds,
            submission_id,
            facts.competitor_ids@,
        ) + every_matchup(n_matchups, n_rounds, submission_id, submission_id),
        TournamentSubmissionKind::Testcase => every_matchup_against_each(
            n_matchups,
            n_rounds,
            submission_id,
            facts.entrant_ids@,
        ),
        TournamentSubmissionKind::Cancel => Seq::empty(),
    }
}

/// The verdict on an entry that asks to be validated, by the kind of the
/// latest entry of the same submission in the same tournament: there must
/// be none.
pub open spec fn first_entry_verdict(previous: Option<TournamentSubmissionKind>) -> Result<
    (),
    AppError,
> {
    if previous is None {
        Ok(())
    } else {
        Err(AppError::BadRequest)
    }
}

/// The verdict that the requested kind adds to the general ones.
///
/// For `Compete` the resolutions must be given for each testcase, one list
/// for each; a testcase without its list counts as incomplete.
pub open spec fn kind_verdict(
    user_id: i64,
    kind: TournamentSubmissionKind,
    tournament_owner: i64,
    n_matchups: i64,
    n_rounds: i64,
    facts: EntryFacts,
) -> Result<(), AppError> {
    match kind {
        TournamentSubmissionKind::Validate => first_entry_verdict(facts.previous),
        TournamentSubmissionKind::Compete => match validated_verdict(facts.previous) {
            Err(e) => Err(e),
            Ok(_) => if facts.testcase_results@.len() != facts.testcase_ids@.len() {
                Err(AppError::TournamentSubmissionTestcaseIncomplete)
            } else {
                testcases_verdict(results_of(facts.testcase_results@), n_rounds, n_matchups)
            },
        },
        TournamentSubmissionKind::Testcase => if user_id != tournament_owner {
            Err(AppError::Unauthorized)
        } else {
            Ok(())
        },
        _ => Ok(()),
    }
}

/// What becomes of a request of `user_id` to give a submission an entry of
/// kind `kind`: the matchups to schedule once the entry is stored, or the
/// error to report, in which case nothing is stored and nothing scheduled.
///
/// The checks are made in this order, and the first that fails decides: the
/// tournament exists; the submission exists; the user owns the submission or
/// the tournament; the tournament has a configuration; the tournament is
/// active; and what the kind asks for. `Validate` asks that the submission
/// has no entry yet, `Compete` that its latest entry is `Validate` and that
/// it has passed every testcase, `Testcase` that the user created the
/// tournament.
pub open spec fn entry_outcome(
    user_id: i64,
    kind: TournamentSubmissionKind,
    facts: EntryFacts,
) -> Result<Seq<MatchupTask>, AppError> {
    if facts.tournament is None {
        Err(AppError::TournamentNonexistent)
    } else if facts.submission is None {
        Err(AppError::SubmissionNonexistent)
    } else {
        let tournament = facts.tournament->0;
        let submission = facts.submission->0;
        if entry_rights_verdict(user_id, submission.creator_user_id, tournament.creator_user_id)
            is Err {
            Err(AppError::Unauthorized)
        } else if facts.tournament_data is None {
            Err(AppError::TournamentNonexistent)
        } else {
            let data = facts.tournament_data->0;
            if !data.active {
                Err(AppError::TournamentArchived)
            } else {
                match kind_verdict(
                    user_id,
                    kind,
                    tournament.creator_user_id,
                    data.n_matchups,
                    data.n_rounds,
                    facts,
                ) {
                    Err(e) => Err(e),
                    Ok(_) => Ok(
                        entry_tasks(
                            kind,
                            submission.submission_id,
                            data.n_matchups,
                            data.n_rounds,
                            facts,
                        ),
                    ),
                }
            }
        }
    }
}

/// Decides a request of `user_id` to give a submission an entry of kind
/// `kind` in a tournament.
///
/// On `Ok` the caller stores the entry and then enqueues the returned tasks
/// in their order. On `Err` it stores and enqueues nothing.
pub fn admit_entry(user_id: i64, kind: TournamentSubmissionKind, facts: &EntryFacts) -> (r: Result<
    Vec<MatchupTask>,
    AppError,
>)
    ensures
        match entry_outcome(user_id, kind, *facts) {
            Ok(tasks) => r matches Ok(v) && v@ == tasks,
            Err(e) => r == Err::<Vec<MatchupTask>, AppError>(e),
        },
{
    let tournament = match &facts.tournament {
        Some(t) => t,
        None => {
            return Err(AppError::TournamentNonexistent);
        },
    };
    let submission = match &facts.submission {
        Some(s) => s,
        None => {
            return Err(AppError::SubmissionNonexistent);
        },
    };
    match check_entry_rights(user_id, submission.creator_user_id, tournament.creator_user_id) {
        Err(e) => {
            return Err(e);
        },
        Ok(_) => {},
    }
    let data = match &facts.tournament_data {
        Some(d) => d,
        None => {
            return Err(AppError::TournamentNonexistent);
        },
    };
    if !data.active {
        return Err(AppError::TournamentArchived);
    }
    let id = submission.submission_id;
    let mut tasks: Vec<MatchupTask> = Vec::new();
    match kind {
        TournamentSubmissionKind::Validate => {
            match check_first_entry(facts.previous) {
                Err(e) => {
                    return Err(e);
                },
                Ok(_) => {},
            }
            push_every_matchup_against_each(
                &mut tasks,
                data.n_matchups,
                data.n_rounds,
                id,
                &facts.testcase_ids,
            );
        },
        TournamentSubmissionKind::Compete => {
            match check_validated(facts.previous) {
                Err(e) => {
                    return Err(e);
                },
                Ok(_) => {},
            }
            if facts.testcase_results.len() != facts.testcase_ids.len() {
                return Err(AppError::TournamentSubmissionTestcaseIncomplete);
            }
            match check_testcases(&facts.testcase_results, data.n_rounds, data.n_matchups) {
                Err(e) => {
                    return Err(e);
                },
                Ok(_) => {},
            }
            push_every_matchup_against_each(
                &mut tasks,
                data.n_matchups,
                data.n_rounds,
                id,
                &facts.competitor_ids,
            );
            push_every_matchup(&mut tasks, data.n_matchups, data.n_rounds, id, id);
        },
        TournamentSubmissionKind::Testcase => {
            if user_id != tournament.creator_user_id {
                return Err(AppError::Unauthorized);
            }
            push_every_matchup_against_each(
                &mut tasks,
                data.n_matchups,
                data.n_rounds,
                id,
                &facts.entrant_ids,
            );
        },
        TournamentSubmissionKind::Cancel => {},
    }
    Ok(tasks)
}

/// Whether a new configuration asks more of matchup `matchup` than the old
/// one did: more rounds, or a matchup that the old one did not have.
pub open spec fn extends(old_n_rounds: i64, old_n_matchups: i64, n_rounds: i64, matchup: int) -> bool {
    n_rounds > old_n_rounds || matchup >= old_n_matchups
}

/// One submission against each of `opponents` in turn, in one matchup
/// instance.
pub open spec fn against_each(
    matchup: int,
    n_rounds: i64,
    submission_id: i64,
    opponents: Seq<i64>,
) -> Seq<MatchupTask> {
    Seq::new(opponents.len(), |k: int| task_for(matchup, n_rounds, submission_id, opponents[k]))
}

/// Each of `submissions` in turn against each of `opponents`, in one matchup
/// instance.
pub open spec fn each_against_each(
    matchup: int,
    n_rounds: i64,
    submissions: Seq<i64>,
    opponents: Seq<i64>,
) -> Seq<MatchupTask>
    decreases submissions.len(),
{
    if submissions.len() == 0 {
        Seq::empty()
    } else {
        each_against_each(matchup, n_rounds, submissions.drop_last(), opponents) + against_each(
            matchup,
            n_rounds,
            submissions.last(),
            opponents,
        )
    }
}

/// The first `upto` members of a cohort, each in turn against every member
/// up to and including itself, in one matchup instance.
pub open spec fn among_cohort(matchup: int, n_rounds: i64, cohort: Seq<i64>, upto: int) -> Seq<
    MatchupTask,
>
    decreases upto,
{
    if upto <= 0 || upto > cohort.len() {
        Seq::empty()
    } else {
        among_cohort(matchup, n_rounds, cohort, upto - 1) + against_each(
            matchup,
            n_rounds,
            cohort[upto - 1],
            cohort.take(upto),
        )
    }
}

/// The matchups that a new configuration schedules for matchup `matchup`:
/// where it extends the old one, every submission under test against every
/// testcase, then the competitors among themselves; else none.
pub open spec fn extension_at(
    matchup: int,
    old_n_rounds: i64,
    old_n_matchups: i64,
    n_rounds: i64,
    testcase_ids: Seq<i64>,
    totest_ids: Seq<i64>,
    compete_ids: Seq<i64>,
) -> Seq<MatchupTask> {
    if extends(old_n_rounds, old_n_matchups, n_rounds, matchup) {
        each_against_each(matchup, n_rounds, totest_ids, testcase_ids) + among_cohort(
            matchup,
            n_rounds,
            compete_ids,
            compete_ids.len() as int,
        )
    } else {
        Seq::empty()
    }
}

/// The matchups that a new configuration schedules for the matchups `0` to
/// `upto - 1`, in that order.
pub open spec fn extension_tasks(
    upto: int,
    old_n_rounds: i64,
    old_n_matchups: i64,
    n_rounds: i64,
    testcase_ids: Seq<i64>,
    totest_ids: Seq<i64>,
    compete_ids: Seq<i64>,
) -> Seq<MatchupTask>
    decreases upto,
{
    if upto <= 0 {
        Seq::empty()
    } else {
        extension_tasks(
            upto - 1,
            old_n_rounds,
            old_n_matchups,
            n_rounds,
            testcase_ids,
            totest_ids,
            compete_ids,
        ) + extension_at(
            upto - 1,
            old_n_rounds,
            old_n_matchups,
            n_rounds,
            testcase_ids,
            totest_ids,
            compete_ids,
        )
    }
}

/// Appends `submission_id` against the first `upto` of `opponents`, in one
/// matchup instance, to `tasks`.
fn push_against_each(
    tasks: &mut Vec<MatchupTask>,
    matchup: i64,
    n_rounds: i64,
    submission_id: i64,
    opponents: &Vec<i64>,
    upto: usize,
)
    requires
        upto <= opponents.len(),
    ensures
        final(tasks)@ == old(tasks)@ + against_each(
            matchup as int,
            n_rounds,
            submission_id,
            opponents@.take(upto as int),
        ),
{
    let ghost all = against_each(matchup as int, n_rounds, submission_id, opponents@.take(upto as int));
    let mut k: usize = 0;
    while k < upto
        invariant
            k <= upto <= opponents.len(),
            all == against_each(matchup as int, n_rounds, submission_id, opponents@.take(upto as int)),
            tasks@ == old(tasks)@ + all.take(k as int),
        decreases upto - k,
    {
        proof {
            assert(all.take(k + 1) == all.take(k as int).push(all[k as int]));
        }
        tasks.push(
            MatchupTask {
                matchup_num: matchup,
                n_rounds,
                submission_id,
                opponent_submission_id: opponents[k],
            },
        );
        k += 1;
    }
    proof {
        assert(all.take(all.len() as int) == all);
    }
}

/// Appends the matchups that a new configuration schedules for matchup
/// `matchup`, where it extends the old one there.
fn push_extension_at(
    tasks: &mut Vec<MatchupTask>,
    matchup: i64,
    n_rounds: i64,
    testcase_ids: &Vec<i64>,
    totest_ids: &Vec<i64>,
    compete_ids: &Vec<i64>,
)
    ensures
        final(tasks)@ == old(tasks)@ + each_against_each(
            matchup as int,
            n_rounds,
            totest_ids@,
            testcase_ids@,
        ) + among_cohort(matchup as int, n_rounds, compete_ids@, compete_ids@.len() as int),
{
    let mut a: usize = 0;
    while a < totest_ids.len()
        invariant
            a <= totest_ids.len(),
            tasks@ == old(tasks)@ + each_against_each(
                matchup as int,
                n_rounds,
                totest_ids@.take(a as int),
                testcase_ids@,
            ),
        decreases totest_ids.len() - a,
    {
        proof {
            let next = totest_ids@.take(a + 1);
            assert(next.drop_last() == totest_ids@.take(a as int));
            assert(next.last() == totest_ids@[a as int]);
            assert(testcase_ids@.take(testcase_ids@.len() as int) == testcase_ids@);
        }
        push_against_each(tasks, matchup, n_rounds, totest_ids[a], testcase_ids, testcase_ids.len());
        a += 1;
    }
    proof {
        assert(totest_ids@.take(a as int) == totest_ids@);
    }
    let ghost tested = tasks@;
    let mut b: usize = 0;
    while b < compete_ids.len()
        invariant
            b <= compete_ids.len(),
            tasks@ == tested + among_cohort(matchup as int, n_rounds, compete_ids@, b as int),
        decreases compete_ids.len() - b,
    {
        push_against_each(tasks, matchup, n_rounds, compete_ids[b], compete_ids, b + 1);
        b += 1;
    }
}

/// What becomes of a request of `user_id` to give a tournament the
/// configuration of `n_rounds` rounds and `n_matchups` matchups: the
/// matchups to schedule, or the error to report.
///
/// The numbers are checked first. Then the tournament must exist, belong to
/// the user and have a configuration in force; where it does not, the
/// tournament is reported as nonexistent.
pub open spec fn update_outcome(
    user_id: i64,
    n_rounds: i64,
    n_matchups: i64,
    tournament: Option<Tournament>,
    current: Option<TournamentData>,
    testcase_ids: Seq<i64>,
    totest_ids: Seq<i64>,
    compete_ids: Seq<i64>,
) -> Result<Seq<MatchupTask>, AppError> {
    match tournament_data_verdict(n_rounds, n_matchups) {
        Err(e) => Err(e),
        Ok(_) => if tournament is None || tournament->0.creator_user_id != user_id || current
            is None {
            Err(AppError::TournamentNonexistent)
        } else {
            Ok(
                extension_tasks(
                    n_matchups as int,
                    current->0.n_rounds,
                    current->0.n_matchups,
                    n_rounds,
                    testcase_ids,
                    totest_ids,
                    compete_ids,
                ),
            )
        },
    }
}

/// Decides a request of `user_id` to give a tournament a new configuration.
///
/// `current` is the configuration in force. `testcase_ids` holds the
/// submissions of the cohort `Testcases`, `totest_ids` those of the cohort
/// `UnderTest`, `compete_ids` those of the cohort `Competitors`; each oldest
/// entry first.
///
/// The same pairing may be scheduled more than once where the lists overlap;
/// the registry of running tasks and the resumption of a matchup from its
/// stored rounds make the repetition harmless.
pub fn plan_tournament_data_update(
    user_id: i64,
    n_rounds: i64,
    n_matchups: i64,
    tournament: &Option<Tournament>,
    current: &Option<TournamentData>,
    testcase_ids: &Vec<i64>,
    totest_ids: &Vec<i64>,
    compete_ids: &Vec<i64>,
) -> (r: Result<Vec<MatchupTask>, AppError>)
    ensures
        match update_outcome(
            user_id,
            n_rounds,
            n_matchups,
            *tournament,
            *current,
            testcase_ids@,
            totest_ids@,
            compete_ids@,
        ) {
            Ok(tasks) => r matches Ok(v) && v@ == tasks,
            Err(e) => r == Err::<Vec<MatchupTask>, AppError>(e),
        },
{
    match validate_tournament_data(n_rounds, n_matchups) {
        Err(e) => {
            return Err(e);
        },
        Ok(_) => {},
    }
    let owner = match tournament {
        Some(t) => t.creator_user_id,
        None => {
            return Err(AppError::TournamentNonexistent);
        },
    };
    if owner != user_id {
        return Err(AppError::TournamentNonexistent);
    }
    let (old_n_rounds, old_n_matchups) = match current {
        Some(d) => (d.n_rounds, d.n_matchups),
        None => {
            return Err(AppError::TournamentNonexistent);
        },
    };
    let mut tasks: Vec<MatchupTask> = Vec::new();
    let mut i: i64 = 0;
    while i < n_matchups
        invariant
            0 <= i <= n_matchups,
            tasks@ == extension_tasks(
                i as int,
                old_n_rounds,
                old_n_matchups,
                n_rounds,
                testcase_ids@,
                totest_ids@,
                compete_ids@,
            ),
        decreases n_matchups - i,
    {
        if n_rounds > old_n_rounds || i >= old_n_matchups {
            push_extension_at(&mut tasks, i, n_rounds, testcase_ids, totest_ids, compete_ids);
        }
        i += 1;
    }
    Ok(tasks)
}

} // verus!
