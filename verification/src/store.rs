//! The result store: an append-only sequence of completed result sets with
//! a selector for the one currently viewed.
//!
//! Navigation saturates at the bounds and is a guarded no-op while the store
//! is empty, since no valid selection exists at length zero.

use vstd::prelude::*;

use crate::db::ResultSet;

verus! {

/// The ordered result sets of the session and the index of the one on
/// display. Appending auto-selects the newest set.
pub struct ResultStore {
    /// Every completed result set, oldest first.
    pub result_sets: Vec<ResultSet>,
    /// Index of the set on display; meaningful only while the store is
    /// non-empty, and kept at zero while it is empty.
    pub selected_index: usize,
}

impl ResultStore {
    /// While the store is non-empty the selection is a valid index; while it
    /// is empty the selector rests at zero and selects nothing.
    pub open spec fn wf(self) -> bool {
        if self.result_sets@.len() == 0 {
            self.selected_index == 0
        } else {
            self.selected_index < self.result_sets@.len()
        }
    }

    /// A fresh, empty store with nothing selected.
    pub fn new() -> (r: ResultStore)
        ensures
            r.wf(),
            r.result_sets@ == Seq::<ResultSet>::empty(),
            r.selected_index == 0,
    {
        ResultStore { result_sets: Vec::new(), selected_index: 0 }
    }

    /// Pushes a result set to the end and selects it: the newest result is
    /// always the one on display.
    pub fn append(&mut self, result_set: ResultSet)
        requires
            old(self).wf(),
        ensures
            final(self).wf(),
            final(self).result_sets@ == old(self).result_sets@.push(result_set),
            final(self).selected_index == final(self).result_sets@.len() - 1,
    {
        self.result_sets.push(result_set);
        self.selected_index = self.result_sets.len() - 1;
    }

    /// Moves the selection one set forward (newer), saturating at the last
    /// set; on an empty store it changes nothing.
    pub fn select_next(&mut self)
        requires
            old(self).wf(),
        ensures
            final(self).wf(),
            final(self).result_sets == old(self).result_sets,
            old(self).result_sets@.len() == 0 ==> *final(self) == *old(self),
            old(self).result_sets@.len() > 0 ==> final(self).selected_index == (
            if old(self).selected_index + 1 < old(self).result_sets@.len() {
                old(self).selected_index + 1
            } else {
                old(self).result_sets@.len() - 1
            }),
    {
        let n = self.result_sets.len();
        if n > 0 && self.selected_index + 1 < n {
            self.selected_index = self.selected_index + 1;
        }
    }

    /// Moves the selection one set back (older), saturating at the first
    /// set; on an empty store it changes nothing.
    pub fn select_previous(&mut self)
        requires
            old(self).wf(),
        ensures
            final(self).wf(),
            final(self).result_sets == old(self).result_sets,
            old(self).result_sets@.len() == 0 ==> *final(self) == *old(self),
            old(self).result_sets@.len() > 0 ==> final(self).selected_index == (
            if old(self).selected_index > 0 {
                old(self).selected_index - 1
            } else {
                0int
            }),
    {
        let n = self.result_sets.len();
        if n > 0 && self.selected_index > 0 {
            self.selected_index = self.selected_index - 1;
        }
    }

    /// The result set currently on display, or `None` while nothing has
    /// been appended yet.
    pub fn current(&self) -> (r: Option<&ResultSet>)
        requires
            self.wf(),
        ensures
            match r {
                Some(s) => self.result_sets@.len() > 0 && *s
                    == self.result_sets@[self.selected_index as int],
                None => self.result_sets@.len() == 0,
            },
    {
        if self.result_sets.len() == 0 {
            None
        } else {
            Some(&self.result_sets[self.selected_index])
        }
    }

    /// How many result sets have been appended so far.
    pub fn len(&self) -> (r: usize)
        ensures
            r == self.result_sets@.len(),
    {
        self.result_sets.len()
    }
}

} // verus!
