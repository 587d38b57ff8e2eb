//! A list row bound to a persisted reminder.
//!
//! [`ReminderRow`] holds a cached copy of a [`Reminder`]; the persisted
//! store is always the source of truth. Activating the row opens an
//! exclusive modal editor on the reminder; when the editor closes, the
//! row re-fetches the record by id and reconciles: it re-renders on
//! success, removes itself (notifying once with the id captured
//! beforehand) when the record has vanished, and treats any other
//! store outcome as fatal.
//!
//! The store read itself is the container's and window plumbing's job;
//! the row's state machine takes the read's three-way outcome as an
//! argument and decides. [`outcome_of_read`] maps a raw store result
//! onto that outcome.

use vstd::prelude::*;
use vstd::string::*;
use crate::datetime::DateTime;
use crate::datetime::format_time;
use crate::datetime::time_text;

verus! {

/// A persisted reminder entity: a stable integer identity, the task it
/// belongs to, and its due instant.
#[derive(Clone, Copy, PartialEq, Eq, Structural, Debug)]
pub struct Reminder {
    pub id: i64,
    pub task: i64,
    pub datetime: DateTime,
}

/// The row's lifecycle. `Removed` is terminal: no operation is valid
/// on a removed row.
#[derive(Clone, Copy, PartialEq, Eq, Structural, Debug)]
pub enum RowState {
    Idle,
    EditorOpen,
    Removed,
}

/// The three-way outcome of reading a reminder back from the store:
/// the current record, an expected "no matching row" absence, or any
/// other store error.
#[derive(Clone, Copy, PartialEq, Eq, Structural, Debug)]
pub enum StoreReadOutcome {
    Found(Reminder),
    NotFound,
    Failure,
}

/// What the row asks of its surroundings after reconciling: notify
/// listeners of the fresh record, notify them of the removal and take
/// the row out of its container, or abort — the store is in a state
/// the interface cannot reason about.
#[derive(Clone, Copy, PartialEq, Eq, Structural, Debug)]
pub enum RowAction {
    Changed(Reminder),
    Removed(i64),
    Fatal,
}

/// What an activation hands to the modal editor: a snapshot of the
/// bound reminder and the "existing entry" flag.
#[derive(Clone, Copy, PartialEq, Eq, Structural, Debug)]
pub struct EditorRequest {
    pub reminder: Reminder,
    pub is_existing: bool,
}

/// The mathematical state of a [`ReminderRow`].
pub struct ReminderRowState {
    pub reminder: Reminder,
    pub title: Seq<char>,
    pub state: RowState,
}

/// The title a bound reminder earns: the task's date display text, a
/// space, and the reminder's time-of-day as "HH:MM".
pub open spec fn title_text(date_display: Seq<char>, t: DateTime) -> Seq<char> {
    date_display + " "@ + time_text(t)
}

/// State and action after the editor closes and the store read came
/// back with `outcome`: on a record, the cache is replaced whole, the
/// title recomputed and the fresh record announced; on an expected
/// absence, the row turns terminal and asks for its own removal under
/// the id it held before; on anything else, nothing moves and the
/// outcome is fatal.
pub open spec fn close_state(
    s: ReminderRowState,
    outcome: StoreReadOutcome,
    date_display: Seq<char>,
) -> (ReminderRowState, RowAction) {
    match outcome {
        StoreReadOutcome::Found(r) => (
            ReminderRowState {
                reminder: r,
                title: title_text(date_display, r.datetime),
                state: RowState::Idle,
            },
            RowAction::Changed(r),
        ),
        StoreReadOutcome::NotFound => (
            ReminderRowState { state: RowState::Removed, ..s },
            RowAction::Removed(s.reminder.id),
        ),
        StoreReadOutcome::Failure => (s, RowAction::Fatal),
    }
}

/// A list row holding a cached copy of a persisted reminder, its
/// display title, and its place in the lifecycle.
pub struct ReminderRow {
    reminder: Reminder,
    title: String,
    state: RowState,
}

impl View for ReminderRow {
    type V = ReminderRowState;

    closed spec fn view(&self) -> ReminderRowState {
        ReminderRowState { reminder: self.reminder, title: self.title@, state: self.state }
    }
}

impl ReminderRow {
    /// The cached reminder's instant is a real calendar instant.
    pub open spec fn wf(&self) -> bool {
        self@.reminder.datetime.wf()
    }

    /// Builds a row bound to the given persisted reminder, in the idle
    /// state, its title computed from the task's date display text and
    /// the reminder's "HH:MM" time.
    pub fn new(reminder: Reminder, date_display: &str) -> (r: ReminderRow)
        requires
            reminder.datetime.wf(),
        ensures
            r.wf(),
            r@.reminder == reminder,
            r@.state == RowState::Idle,
            r@.title == title_text(date_display@, reminder.datetime),
    {
        let mut row = ReminderRow { reminder, title: String::new(), state: RowState::Idle };
        row.set_labels(date_display);
        row
    }

    /// The cached reminder. The cache is replaced only at construction
    /// and on a successful reconciliation read, never partially
    /// mutated.
    pub fn reminder(&self) -> (r: Reminder)
        ensures
            r == self@.reminder,
    {
        self.reminder
    }

    /// The displayed title.
    pub fn title(&self) -> (r: &str)
        ensures
            r@ == self@.title,
    {
        self.title.as_str()
    }

    /// Where the row stands in its lifecycle.
    pub fn state(&self) -> (r: RowState)
        ensures
            r == self@.state,
    {
        self.state
    }

    /// Recomputes the title for the cached reminder from the task's
    /// date display text.
    pub fn set_labels(&mut self, date_display: &str)
        requires
            old(self).wf(),
        ensures
            final(self).wf(),
            final(self)@ == (ReminderRowState {
                title: title_text(date_display@, old(self)@.reminder.datetime),
                ..old(self)@
            }),
    {
        let datetime = self.reminder.datetime;
        let mut s = String::from_str(date_display);
        s.append(" ");
        let time = format_time(&datetime);
        s.append(time.as_str());
        assert(s@ =~= title_text(date_display@, datetime));
        self.title = s;
    }

    /// The user activated the row: an exclusive modal editor is to be
    /// opened on a snapshot of the bound reminder, flagged as an
    /// existing entry. Only an idle row can start an editing session;
    /// re-entry while one is open is prevented by the editor's
    /// modality.
    pub fn handle_activated(&mut self) -> (request: EditorRequest)
        requires
            old(self)@.state == RowState::Idle,
        ensures
            final(self).wf() == old(self).wf(),
            final(self)@ == (ReminderRowState { state: RowState::EditorOpen, ..old(self)@ }),
            request.reminder == old(self)@.reminder,
            request.is_existing,
    {
        self.state = RowState::EditorOpen;
        EditorRequest { reminder: self.reminder, is_existing: true }
    }

    /// The editor closed and the store was re-read under the row's id;
    /// `outcome` is what came back. Reconciles per [`close_state`]: the
    /// returned action is the single notification owed to listeners —
    /// a record announces `Changed` exactly once and never removes the
    /// row, an expected absence announces `Removed` exactly once under
    /// the id captured before removal and turns the row terminal, and
    /// any other store outcome is fatal and leaves the row untouched.
    pub fn handle_editor_closed(&mut self, outcome: StoreReadOutcome, date_display: &str) -> (action:
        RowAction)
        requires
            old(self).wf(),
            old(self)@.state == RowState::EditorOpen,
            outcome matches StoreReadOutcome::Found(r) ==> r.datetime.wf(),
        ensures
            final(self).wf(),
            final(self)@ == close_state(old(self)@, outcome, date_display@).0,
            action == close_state(old(self)@, outcome, date_display@).1,
            match outcome {
                StoreReadOutcome::Found(r) => action == RowAction::Changed(r) && final(self)@.state
                    == RowState::Idle && final(self)@.reminder == r,
                StoreReadOutcome::NotFound => action == RowAction::Removed(old(self)@.reminder.id)
                    && final(self)@.state == RowState::Removed && final(self)@.reminder == old(
                    self,
                )@.reminder,
                StoreReadOutcome::Failure => action == RowAction::Fatal && final(self)@ == old(
                    self,
                )@,
            },
    {
        match outcome {
            StoreReadOutcome::Found(reminder) => {
                self.reminder = reminder;
                self.set_labels(date_display);
                self.state = RowState::Idle;
                RowAction::Changed(reminder)
            },
            StoreReadOutcome::NotFound => {
                let id = self.reminder.id;
                self.state = RowState::Removed;
                RowAction::Removed(id)
            },
            StoreReadOutcome::Failure => RowAction::Fatal,
        }
    }
}

/// Relies on `rusqlite::Error`: declared so that a raw store result
/// can pass through the library's signatures; the library never looks
/// inside a value of it.
#[verifier::external_type_specification]
#[verifier::external_body]
pub struct ExRusqliteError(rusqlite::Error);

/// Relies on `rusqlite::Error::QueryReturnedNoRows` being the store's
/// "no matching row" outcome, the one a point lookup by primary key
/// reports when the record has vanished. The error value is opaque to
/// the verifier, so nothing is promised of the answer; callers state
/// what holds either way.
#[verifier::external_body]
fn is_no_rows(e: &rusqlite::Error) -> bool {
    matches!(e, rusqlite::Error::QueryReturnedNoRows)
}

/// Maps a raw store read result onto the three-way outcome the
/// reconciliation branches on: a record is passed through whole; an
/// error is an expected absence or a failure, which of the two being
/// the store's word, not the library's.
pub fn outcome_of_read(result: Result<Reminder, rusqlite::Error>) -> (outcome: StoreReadOutcome)
    ensures
        match result {
            Ok(r) => outcome == StoreReadOutcome::Found(r),
            Err(_) => outcome == StoreReadOutcome::NotFound || outcome
                == StoreReadOutcome::Failure,
        },
{
    match result {
        Ok(reminder) => StoreReadOutcome::Found(reminder),
        Err(e) => if is_no_rows(&e) {
            StoreReadOutcome::NotFound
        } else {
            StoreReadOutcome::Failure
        },
    }
}

/// When the store still holds the record, reconciliation announces
/// that record exactly once, never a removal, and the row returns to
/// idle with the fresh record cached whole and the title recomputed.
pub proof fn lemma_found_reconciles(s: ReminderRowState, r: Reminder, date_display: Seq<char>)
    requires
        s.state == RowState::EditorOpen,
    ensures
        close_state(s, StoreReadOutcome::Found(r), date_display).1 == RowAction::Changed(r),
        !(close_state(s, StoreReadOutcome::Found(r), date_display).1 is Removed),
        close_state(s, StoreReadOutcome::Found(r), date_display).0.state == RowState::Idle,
        close_state(s, StoreReadOutcome::Found(r), date_display).0.reminder == r,
        close_state(s, StoreReadOutcome::Found(r), date_display).0.title == title_text(
            date_display,
            r.datetime,
        ),
{
}

/// When the record has vanished, reconciliation asks for the row's
/// removal exactly once, under the id the row held before, never
/// announces a change, and the row turns terminal — no operation
/// accepts a removed row again.
pub proof fn lemma_not_found_removes(s: ReminderRowState, date_display: Seq<char>)
    requires
        s.state == RowState::EditorOpen,
    ensures
        close_state(s, StoreReadOutcome::NotFound, date_display).1 == RowAction::Removed(
            s.reminder.id,
        ),
        !(close_state(s, StoreReadOutcome::NotFound, date_display).1 is Changed),
        close_state(s, StoreReadOutcome::NotFound, date_display).0.state == RowState::Removed,
        close_state(s, StoreReadOutcome::NotFound, date_display).0.reminder == s.reminder,
{
}

/// After a successful reconciliation the title always matches the rule
/// for the reminder then cached: the date display text, a space, and
/// the record's "HH:MM" time. (After construction the same holds by
/// the contract of [`ReminderRow::new`].)
pub proof fn lemma_title_after_reconciliation(
    s: ReminderRowState,
    r: Reminder,
    date_display: Seq<char>,
)
    ensures
        close_state(s, StoreReadOutcome::Found(r), date_display).0.title == title_text(
            date_display,
            close_state(s, StoreReadOutcome::Found(r), date_display).0.reminder.datetime,
        ),
{
}

} // verus!
