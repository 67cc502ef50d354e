//! The top-level session state and the per-frame operations of the session
//! loop: routing one key event, dequeuing submitted queries, settling
//! gateway outcomes, and the pure parts of rendering (status caption,
//! header and cell extraction). Painting the frame itself stays outside the
//! library.

use vstd::prelude::*;

use crate::areas;
use crate::areas::Area;
use crate::db::{DBResult, DBResultKind, QueryError, Queryable, ResultRow, ResultSet};
use crate::editor::QueryEditorState;
use crate::events::{KeyCode, KeyEvent, KeyEventKind};
use crate::store::ResultStore;

verus! {

/// Everything the session owns: the active focus area, the query editor,
/// the result store, and the termination flag.
pub struct State {
    pub active_area: Area,
    pub query: QueryEditorState,
    pub results: ResultStore,
    pub should_quit: bool,
}

impl State {
    /// The session invariant: the editor's cursor sits on a character
    /// boundary and the store's selection is valid for its length.
    pub open spec fn wf(self) -> bool {
        self.query.wf() && self.results.wf()
    }

    /// The state a session starts in: unfocused, empty editor, empty
    /// store, not terminating.
    pub open spec fn is_init(self) -> bool {
        &&& self.active_area == Area::Unfocused
        &&& self.query.text@ == Seq::<char>::empty()
        &&& self.query.cursor_pos == 0
        &&& self.query.submission_queue@ == Seq::<String>::empty()
        &&& self.results.result_sets@ == Seq::<ResultSet>::empty()
        &&& self.results.selected_index == 0
        &&& !self.should_quit
    }

    /// The two states agree on everything but the editor.
    pub open spec fn agrees_outside_query(self, other: State) -> bool {
        &&& self.active_area == other.active_area
        &&& self.results == other.results
        &&& self.should_quit == other.should_quit
    }

    /// The two states agree on everything but the result store.
    pub open spec fn agrees_outside_results(self, other: State) -> bool {
        &&& self.active_area == other.active_area
        &&& self.query == other.query
        &&& self.should_quit == other.should_quit
    }

    /// Runtime check of the session invariant, for callers outside the
    /// verified world; inside it, every operation preserves [`State::wf`].
    pub fn is_well_formed(&self) -> (r: bool)
        ensures
            r == self.wf(),
    {
        let editor_ok = self.query.cursor_pos <= self.query.text.len();
        let store_ok = if self.results.result_sets.len() == 0 {
            self.results.selected_index == 0
        } else {
            self.results.selected_index < self.results.result_sets.len()
        };
        editor_ok && store_ok
    }

    /// Whether termination has been requested; once it is, the session
    /// loop stops draining queries and ends.
    pub fn should_quit(&self) -> (r: bool)
        ensures
            r == self.should_quit,
    {
        self.should_quit
    }

    /// Dequeues the oldest submitted query, or `None` when nothing is
    /// queued. Submissions execute first submitted, first executed.
    pub fn pop_query(&mut self) -> (r: Option<String>)
        requires
            old(self).wf(),
        ensures
            final(self).wf(),
            final(self).active_area == old(self).active_area,
            final(self).should_quit == old(self).should_quit,
            final(self).results == old(self).results,
            final(self).query.text == old(self).query.text,
            final(self).query.cursor_pos == old(self).query.cursor_pos,
            match r {
                Some(s) => old(self).query.submission_queue@.len() > 0 && s == old(self).query.submission_queue@[0] && final(self).query.submission_queue@ == old(self).query.submission_queue@.remove(0),
                None => old(self).query.submission_queue@.len() == 0 && final(self).query.submission_queue == old(self).query.submission_queue,
            },
    {
        if self.query.submission_queue.len() == 0 {
            None
        } else {
            Some(self.query.submission_queue.remove(0))
        }
    }

    /// Appends one completed result set to the store; the newest result is
    /// auto-selected. Everything else stays as it is.
    pub fn add_results(&mut self, result: ResultSet)
        requires
            old(self).wf(),
        ensures
            final(self).wf(),
            final(self).active_area == old(self).active_area,
            final(self).should_quit == old(self).should_quit,
            final(self).query == old(self).query,
            final(self).results.result_sets@ == old(self).results.result_sets@.push(result),
            final(self).results.selected_index == old(self).results.result_sets@.len(),
    {
        self.results.append(result);
    }

    /// Settles one gateway outcome. A successful result set is appended as
    /// it is; a failure is appended as a synthetic single-cell result set
    /// carrying the error message, so the failure stays visible while the
    /// session keeps running.
    pub fn add_outcome(&mut self, outcome: Result<ResultSet, QueryError>)
        requires
            old(self).wf(),
        ensures
            final(self).wf(),
            final(self).active_area == old(self).active_area,
            final(self).should_quit == old(self).should_quit,
            final(self).query == old(self).query,
            final(self).results.result_sets@.len() == old(self).results.result_sets@.len() + 1,
            forall|i: int|
                0 <= i < old(self).results.result_sets@.len() ==> final(self).results.result_sets@[i] == old(self).results.result_sets@[i],
            final(self).results.selected_index == old(self).results.result_sets@.len(),
            match outcome {
                Ok(rs) => final(self).results.result_sets@.last() == rs,
                Err(e) => is_error_marker(final(self).results.result_sets@.last(), e),
            },
    {
        match outcome {
            Ok(rs) => {
                self.results.append(rs);
            },
            Err(e) => {
                let msg = match e {
                    QueryError::ConnectionFailure(m) => m,
                    QueryError::QueryFailure(m) => m,
                };
                let cell = DBResult {
                    column_name: "error".to_owned(),
                    value: msg,
                    kind: DBResultKind::Text,
                };
                let mut row: ResultRow = Vec::new();
                row.push(cell);
                let mut set: ResultSet = Vec::new();
                set.push(row);
                self.results.append(set);
            },
        }
    }

    /// Routes one key event through the handler of the active area. Tab
    /// and BackTab walk the focus cycle; what any other key does is
    /// decided by the active area alone, and non-press events change
    /// nothing.
    pub fn handle_event(&mut self, key_event: &KeyEvent)
        requires
            old(self).wf(),
        ensures
            final(self).wf(),
            areas::step_for(old(self).active_area, *old(self), *final(self), *key_event),
            key_event.kind == KeyEventKind::Press && key_event.code == KeyCode::Tab ==> final(self).active_area == areas::tab_next(old(self).active_area),
            key_event.kind == KeyEventKind::Press && key_event.code == KeyCode::BackTab ==> final(self).active_area == areas::backtab_next(old(self).active_area),
            key_event.kind != KeyEventKind::Press ==> *final(self) == *old(self),
    {
        let active_area = self.active_area;
        active_area.handle_event(self, key_event);
    }

    /// Runs every queued query through the gateway, in submission order,
    /// and settles each outcome as exactly one appended result set. The
    /// editor text, the focus and the termination flag stay as they are; a
    /// failed query never ends the session.
    pub fn drain_queue<Q: Queryable>(&mut self, gateway: &mut Q)
        requires
            old(self).wf(),
        ensures
            final(self).wf(),
            final(self).active_area == old(self).active_area,
            final(self).should_quit == old(self).should_quit,
            final(self).query.text == old(self).query.text,
            final(self).query.cursor_pos == old(self).query.cursor_pos,
            final(self).query.submission_queue@.len() == 0,
            final(self).results.result_sets@.len() == old(self).results.result_sets@.len() + old(self).query.submission_queue@.len(),
            forall|i: int|
                0 <= i < old(self).results.result_sets@.len() ==> final(self).results.result_sets@[i] == old(self).results.result_sets@[i],
    {
        while self.query.submission_queue.len() > 0
            invariant
                self.wf(),
                self.active_area == old(self).active_area,
                self.should_quit == old(self).should_quit,
                self.query.text == old(self).query.text,
                self.query.cursor_pos == old(self).query.cursor_pos,
                self.query.submission_queue@.len() <= old(self).query.submission_queue@.len(),
                self.results.result_sets@.len() + self.query.submission_queue@.len() == old(self).results.result_sets@.len() + old(self).query.submission_queue@.len(),
                forall|i: int|
                    0 <= i < old(self).results.result_sets@.len()
                        ==> self.results.result_sets@[i] == old(self).results.result_sets@[i],
            decreases self.query.submission_queue@.len(),
        {
            let next = self.pop_query();
            if let Some(q) = next {
                let outcome = gateway.query(q, Vec::new());
                self.add_outcome(outcome);
            }
        }
    }

    /// The status-bar caption for the currently active area.
    pub fn status_text(&self) -> (r: &'static str)
        ensures
            r@ == status_text_spec(self.active_area),
    {
        match self.active_area {
            Area::Unfocused => "- (q to quit)",
            Area::Results => "Result",
            Area::Variables => "Variables",
            Area::Query => "Query (ENTER to run)",
        }
    }
}

impl Default for State {
    /// The state a session starts in: unfocused, empty editor, empty
    /// store, not terminating.
    fn default() -> (r: State)
        ensures
            r.wf(),
            r.is_init(),
    {
        State {
            active_area: Area::Unfocused,
            query: QueryEditorState::new(),
            results: ResultStore::new(),
            should_quit: false,
        }
    }
}

/// The synthetic result set that stands in for a failed query: one row with
/// one `Text` cell whose column is `error` and whose value is the failure's
/// message.
pub open spec fn is_error_marker(set: ResultSet, e: QueryError) -> bool {
    &&& set@.len() == 1
    &&& set@[0]@.len() == 1
    &&& set@[0]@[0].column_name@ == "error"@
    &&& set@[0]@[0].value@ == e.message_spec()
    &&& set@[0]@[0].kind == DBResultKind::Text
}

/// The status-bar caption keyed by active area.
pub open spec fn status_text_spec(area: Area) -> Seq<char> {
    match area {
        Area::Unfocused => "- (q to quit)"@,
        Area::Results => "Result"@,
        Area::Variables => "Variables"@,
        Area::Query => "Query (ENTER to run)"@,
    }
}

/// The header of a result set: the column names of its first row, in
/// order; empty for an empty set.
pub fn column_names(set: &ResultSet) -> (r: Vec<String>)
    ensures
        r@.len() == if set@.len() == 0 {
            0int
        } else {
            set@[0]@.len() as int
        },
        forall|i: int| 0 <= i < r@.len() ==> r@[i]@ == set@[0]@[i].column_name@,
{
    let mut r: Vec<String> = Vec::new();
    if set.len() == 0 {
        return r;
    }
    let first = &set[0];
    let mut i: usize = 0;
    while i < first.len()
        invariant
            set@.len() > 0,
            first@ == set@[0]@,
            i <= first@.len(),
            r@.len() == i,
            forall|j: int| 0 <= j < i ==> r@[j]@ == first@[j].column_name@,
        decreases first@.len() - i,
    {
        r.push(first[i].column_name.clone());
        i = i + 1;
    }
    r
}

/// The displayable cells of one result row: each cell's pre-stringified
/// value, in column order.
pub fn row_values(row: &ResultRow) -> (r: Vec<String>)
    ensures
        r@.len() == row@.len(),
        forall|i: int| 0 <= i < r@.len() ==> r@[i]@ == row@[i].value@,
{
    let mut r: Vec<String> = Vec::new();
    let mut i: usize = 0;
    while i < row.len()
        invariant
            i <= row@.len(),
            r@.len() == i,
            forall|j: int| 0 <= j < i ==> r@[j]@ == row@[j].value@,
        decreases row@.len() - i,
    {
        r.push(row[i].value.clone());
        i = i + 1;
    }
    r
}

} // verus!
