//! The rules of a live stream: a subscriber first receives the stored rows
//! that its filter accepts, then every new row that its filter accepts.
//!
//! New rows are announced on a channel that may drop messages, and a row may
//! be stored between the subscription and the replay. Ids grow with time, so
//! the stream remembers the id after the highest one that it has replayed
//! and lets only rows from that id on pass the tail. No row is then sent
//! twice.
use crate::request::MatchResolutionViewProps;
use crate::request::TournamentSubmissionKind;
use crate::request::TournamentSubmissionViewProps;
use crate::response::AppError;
use crate::response::MatchResolutionLite;
use crate::response::TournamentSubmission;
use vstd::prelude::*;

verus! {

/// Whether `x` respects a lower bound. An absent bound admits everything.
pub open spec fn at_least(bound: Option<i64>, x: i64) -> bool {
    bound matches Some(b) ==> x >= b
}

/// Whether `x` respects an upper bound. An absent bound admits everything.
pub open spec fn at_most(bound: Option<i64>, x: i64) -> bool {
    bound matches Some(b) ==> x <= b
}

/// Whether `x` is one of the allowed values. An absent list admits
/// everything.
pub open spec fn one_of(allowed: Option<Vec<i64>>, x: i64) -> bool {
    allowed matches Some(v) ==> v@.contains(x)
}

/// Whether `kind` is the wanted one. An absent wish admits everything.
pub open spec fn of_kind(wanted: Option<TournamentSubmissionKind>, kind: TournamentSubmissionKind) -> bool {
    wanted matches Some(k) ==> k == kind
}

fn check_at_least(bound: &Option<i64>, x: i64) -> (b: bool)
    ensures
        b == at_least(*bound, x),
{
    match bound {
        Some(m) => x >= *m,
        None => true,
    }
}

fn check_at_most(bound: &Option<i64>, x: i64) -> (b: bool)
    ensures
        b == at_most(*bound, x),
{
    match bound {
        Some(m) => x <= *m,
        None => true,
    }
}

fn holds(values: &Vec<i64>, x: i64) -> (b: bool)
    ensures
        b == values@.contains(x),
{
    let mut i: usize = 0;
    while i < values.len()
        invariant
            i <= values.len(),
            forall|k: int| 0 <= k < i ==> values@[k] != x,
        decreases values.len() - i,
    {
        if values[i] == x {
            return true;
        }
        i += 1;
    }
    false
}

fn check_one_of(allowed: &Option<Vec<i64>>, x: i64) -> (b: bool)
    ensures
        b == one_of(*allowed, x),
{
    match allowed {
        None => true,
        Some(values) => holds(values, x),
    }
}

fn check_of_kind(wanted: &Option<TournamentSubmissionKind>, kind: TournamentSubmissionKind) -> (b:
    bool)
    ensures
        b == of_kind(*wanted, kind),
{
    match wanted {
        Some(k) => *k == kind,
        None => true,
    }
}

impl MatchResolutionViewProps {
    /// Whether the filter accepts a match resolution: every bound and every
    /// list that is present must admit it.
    pub open spec fn accepts(&self, row: MatchResolutionLite) -> bool {
        &&& at_least(self.min_creation_time, row.creation_time)
        &&& at_most(self.max_creation_time, row.creation_time)
        &&& at_least(self.min_id, row.match_resolution_id)
        &&& at_most(self.max_id, row.match_resolution_id)
        &&& one_of(self.match_resolution_id, row.match_resolution_id)
        &&& one_of(self.submission_id, row.submission_id)
        &&& one_of(self.opponent_submission_id, row.opponent_submission_id)
        &&& one_of(self.round, row.round)
        &&& one_of(self.matchup, row.matchup)
    }

    /// Whether the filter accepts a match resolution.
    pub fn matches(&self, row: &MatchResolutionLite) -> (b: bool)
        ensures
            b == self.accepts(*row),
    {
        check_at_least(&self.min_creation_time, row.creation_time) && check_at_most(
            &self.max_creation_time,
            row.creation_time,
        ) && check_at_least(&self.min_id, row.match_resolution_id) && check_at_most(
            &self.max_id,
            row.match_resolution_id,
        ) && check_one_of(&self.match_resolution_id, row.match_resolution_id) && check_one_of(
            &self.submission_id,
            row.submission_id,
        ) && check_one_of(&self.opponent_submission_id, row.opponent_submission_id)
            && check_one_of(&self.round, row.round) && check_one_of(&self.matchup, row.matchup)
    }

    /// The filter of the tail: this filter, but for the lower bound on the
    /// id, which becomes `next_new_id`.
    pub open spec fn spec_tail(self, next_new_id: i64) -> MatchResolutionViewProps {
        MatchResolutionViewProps { min_id: Some(next_new_id), ..self }
    }

    /// The filter of the tail: this filter, but for the lower bound on the
    /// id, which becomes `next_new_id`.
    pub fn tail(self, next_new_id: i64) -> (t: MatchResolutionViewProps)
        ensures
            t == self.spec_tail(next_new_id),
    {
        let mut t = self;
        t.min_id = Some(next_new_id);
        t
    }
}

impl TournamentSubmissionViewProps {
    /// Whether the filter accepts a tournament entry: every bound, every
    /// list and the kind, where present, must admit it.
    pub open spec fn accepts(&self, row: TournamentSubmission) -> bool {
        &&& at_least(self.min_creation_time, row.creation_time)
        &&& at_most(self.max_creation_time, row.creation_time)
        &&& at_least(self.min_id, row.tournament_submission_id)
        &&& at_most(self.max_id, row.tournament_submission_id)
        &&& one_of(self.tournament_submission_id, row.tournament_submission_id)
        &&& one_of(self.creator_user_id, row.creator_user_id)
        &&& one_of(self.tournament_id, row.tournament.tournament_id)
        &&& one_of(self.submission_id, row.submission_id)
        &&& of_kind(self.kind, row.kind)
    }

    /// Whether the filter accepts a tournament entry.
    pub fn matches(&self, row: &TournamentSubmission) -> (b: bool)
        ensures
            b == self.accepts(*row),
    {
        check_at_least(&self.min_creation_time, row.creation_time) && check_at_most(
            &self.max_creation_time,
            row.creation_time,
        ) && check_at_least(&self.min_id, row.tournament_submission_id) && check_at_most(
            &self.max_id,
            row.tournament_submission_id,
        ) && check_one_of(&self.tournament_submission_id, row.tournament_submission_id)
            && check_one_of(&self.creator_user_id, row.creator_user_id) && check_one_of(
            &self.tournament_id,
            row.tournament.tournament_id,
        ) && check_one_of(&self.submission_id, row.submission_id) && check_of_kind(
            &self.kind,
            row.kind,
        )
    }

    /// The filter of the tail: this filter, but for the lower bound on the
    /// id, which becomes `next_new_id`.
    pub open spec fn spec_tail(self, next_new_id: i64) -> TournamentSubmissionViewProps {
        TournamentSubmissionViewProps { min_id: Some(next_new_id), ..self }
    }

    /// The filter of the tail: this filter, but for the lower bound on the
    /// id, which becomes `next_new_id`.
    pub fn tail(self, next_new_id: i64) -> (t: TournamentSubmissionViewProps)
        ensures
            t == self.spec_tail(next_new_id),
    {
        let mut t = self;
        t.min_id = Some(next_new_id);
        t
    }
}

/// The id from which a stream counts rows as new before it has replayed
/// any: the lower bound that the subscriber asked for, or 0.
pub open spec fn first_new_id(min_id: Option<i64>) -> i64 {
    match min_id {
        Some(m) => m,
        None => 0,
    }
}

/// The id from which rows count as new once the row `seen_id` has been
/// replayed: the id after it, unless rows already counted as new from a
/// higher id on.
pub open spec fn next_id_after(next_new_id: i64, seen_id: i64) -> i64 {
    if seen_id < next_new_id {
        next_new_id
    } else if seen_id < i64::MAX {
        (seen_id + 1) as i64
    } else {
        i64::MAX
    }
}

/// The id from which rows count as new once the rows `seen` have been
/// replayed in their order.
pub open spec fn next_id_after_all(next_new_id: i64, seen: Seq<i64>) -> i64
    decreases seen.len(),
{
    if seen.len() == 0 {
        next_new_id
    } else {
        next_id_after(next_id_after_all(next_new_id, seen.drop_last()), seen.last())
    }
}

/// The place of a stream in its replay: the id from which rows count as
/// new.
#[derive(Clone, Copy, Debug, PartialEq, Eq, Structural)]
pub struct ReplayCursor {
    pub next_new_id: i64,
}

impl ReplayCursor {
    /// The cursor of a stream that has replayed nothing yet.
    pub fn new(min_id: Option<i64>) -> (c: Self)
        ensures
            c.next_new_id == first_new_id(min_id),
    {
        ReplayCursor {
            next_new_id: match min_id {
                Some(m) => m,
                None => 0,
            },
        }
    }

    /// Takes note that the row `seen_id` has been replayed.
    pub fn advance(&mut self, seen_id: i64)
        ensures
            final(self).next_new_id == next_id_after(old(self).next_new_id, seen_id),
    {
        if seen_id >= self.next_new_id {
            self.next_new_id = if seen_id < i64::MAX {
                seen_id + 1
            } else {
                i64::MAX
            };
        }
    }
}

/// What a connection received as its first frame.
#[derive(Clone, Debug, PartialEq, Eq)]
pub enum FirstFrame {
    /// The connection ended before any frame.
    Closed,
    /// Receiving failed.
    Failed,
    /// A frame that is not text.
    NotText,
    /// A text frame.
    Text(String),
}

/// The text of the request that opens a stream. A connection that ends,
/// fails or sends anything but text first has ended before its request.
pub fn request_text(frame: FirstFrame) -> (r: Result<String, AppError>)
    ensures
        match frame {
            FirstFrame::Text(s) => r == Ok::<String, AppError>(s),
            _ => r == Err::<String, AppError>(AppError::StreamEndBeforeRequest),
        },
{
    match frame {
        FirstFrame::Text(s) => Ok(s),
        _ => Err(AppError::StreamEndBeforeRequest),
    }
}

/// The cursor never moves back.
pub proof fn lemma_cursor_never_moves_back(next_new_id: i64, seen: Seq<i64>)
    ensures
        next_new_id <= next_id_after_all(next_new_id, seen),
    decreases seen.len(),
{
    if seen.len() > 0 {
        lemma_cursor_never_moves_back(next_new_id, seen.drop_last());
    }
}

/// The cursor stands above every replayed id that has an id after it.
pub proof fn lemma_cursor_passes_replayed(next_new_id: i64, seen: Seq<i64>, i: int)
    requires
        0 <= i < seen.len(),
        seen[i] < i64::MAX,
    ensures
        seen[i] < next_id_after_all(next_new_id, seen),
    decreases seen.len(),
{
    let front = seen.drop_last();
    if i < front.len() {
        lemma_cursor_passes_replayed(next_new_id, front, i);
    }
}

/// Where every replayed row respects the lower bound that the cursor started
/// from, the cursor ends on the id after the highest replayed id.
pub proof fn lemma_cursor_follows_highest(next_new_id: i64, seen: Seq<i64>)
    requires
        seen.len() > 0,
        forall|i: int| 0 <= i < seen.len() ==> next_new_id <= #[trigger] seen[i] < i64::MAX,
    ensures
        exists|i: int|
            0 <= i < seen.len() && next_id_after_all(next_new_id, seen) == #[trigger] seen[i] + 1,
        forall|i: int| 0 <= i < seen.len() ==> #[trigger] seen[i] < next_id_after_all(next_new_id, seen),
    decreases seen.len(),
{
    let front = seen.drop_last();
    assert forall|i: int| 0 <= i < seen.len() implies #[trigger] seen[i] < next_id_after_all(
        next_new_id,
        seen,
    ) by {
        lemma_cursor_passes_replayed(next_new_id, seen, i);
    }
    if front.len() == 0 {
        assert(next_id_after_all(next_new_id, front) == next_new_id);
        assert(next_id_after_all(next_new_id, seen) == seen[seen.len() - 1] + 1);
    } else {
        assert(forall|i: int| 0 <= i < front.len() ==> front[i] == seen[i]);
        lemma_cursor_follows_highest(next_new_id, front);
        let k = choose|k: int|
            0 <= k < front.len() && next_id_after_all(next_new_id, front) == #[trigger] front[k] + 1;
        if seen.last() < next_id_after_all(next_new_id, front) {
            assert(next_id_after_all(next_new_id, seen) == seen[k] + 1);
        } else {
            assert(next_id_after_all(next_new_id, seen) == seen[seen.len() - 1] + 1);
        }
    }
}

/// Once the rows `seen` have been replayed, the tail of a stream of match
/// resolutions passes exactly the rows that the subscriber's filter accepts
/// and that are new.
pub proof fn lemma_match_resolution_tail(
    props: MatchResolutionViewProps,
    seen: Seq<i64>,
    row: MatchResolutionLite,
)
    ensures
        ({
            let next_new_id = next_id_after_all(first_new_id(props.min_id), seen);
            props.spec_tail(next_new_id).accepts(row) <==> props.accepts(row)
                && row.match_resolution_id >= next_new_id
        }),
{
    lemma_cursor_never_moves_back(first_new_id(props.min_id), seen);
}

/// Once the rows `seen` have been replayed, the tail of a stream of
/// tournament entries passes exactly the rows that the subscriber's filter
/// accepts and that are new.
pub proof fn lemma_tournament_submission_tail(
    props: TournamentSubmissionViewProps,
    seen: Seq<i64>,
    row: TournamentSubmission,
)
    ensures
        ({
            let next_new_id = next_id_after_all(first_new_id(props.min_id), seen);
            props.spec_tail(next_new_id).accepts(row) <==> props.accepts(row)
                && row.tournament_submission_id >= next_new_id
        }),
{
    lemma_cursor_never_moves_back(first_new_id(props.min_id), seen);
}

/// No match resolution is sent twice: a row that was replayed does not pass
/// the tail, whatever is announced later under its id.
pub proof fn lemma_match_resolution_sent_once(
    props: MatchResolutionViewProps,
    seen: Seq<i64>,
    i: int,
    row: MatchResolutionLite,
)
    requires
        0 <= i < seen.len(),
        seen[i] < i64::MAX,
        row.match_resolution_id == seen[i],
    ensures
        !props.spec_tail(next_id_after_all(first_new_id(props.min_id), seen)).accepts(row),
{
    lemma_cursor_passes_replayed(first_new_id(props.min_id), seen, i);
}

/// No tournament entry is sent twice: a row that was replayed does not pass
/// the tail, whatever is announced later under its id.
pub proof fn lemma_tournament_submission_sent_once(
    props: TournamentSubmissionViewProps,
    seen: Seq<i64>,
    i: int,
    row: TournamentSubmission,
)
    requires
        0 <= i < seen.len(),
        seen[i] < i64::MAX,
        row.tournament_submission_id == seen[i],
    ensures
        !props.spec_tail(next_id_after_all(first_new_id(props.min_id), seen)).accepts(row),
{
    lemma_cursor_passes_replayed(first_new_id(props.min_id), seen, i);
}

} // verus!
