//! Handler for the results panel: focus cycling plus navigation through the
//! stored result sets.

use vstd::prelude::*;

use crate::areas::Area;
use crate::events::{KeyCode, KeyEvent, KeyEventKind};
use crate::ui::State;

verus! {

/// What one key event does while the results panel holds focus: Tab moves
/// on to the variables panel, BackTab back to the unfocused state, PageUp
/// selects the next (newer) result set and PageDown the previous one, both
/// saturating and both harmless on an empty store; every other key (and
/// every non-press event) changes nothing.
pub open spec fn step(pre: State, post: State, ev: KeyEvent) -> bool {
    if ev.kind != KeyEventKind::Press {
        post == pre
    } else {
        match ev.code {
            KeyCode::Tab => post == (State { active_area: Area::Variables, ..pre }),
            KeyCode::BackTab => post == (State { active_area: Area::Unfocused, ..pre }),
            KeyCode::PageUp => {
                &&& post.agrees_outside_results(pre)
                &&& post.results.result_sets == pre.results.result_sets
                &&& if pre.results.result_sets@.len() == 0 {
                    post.results == pre.results
                } else {
                    post.results.selected_index == if pre.results.selected_index + 1
                        < pre.results.result_sets@.len() {
                        pre.results.selected_index + 1
                    } else {
                        pre.results.result_sets@.len() - 1
                    }
                }
            },
            KeyCode::PageDown => {
                &&& post.agrees_outside_results(pre)
                &&& post.results.result_sets == pre.results.result_sets
                &&& if pre.results.result_sets@.len() == 0 {
                    post.results == pre.results
                } else {
                    post.results.selected_index == if pre.results.selected_index > 0 {
                        pre.results.selected_index - 1
                    } else {
                        0int
                    }
                }
            },
            _ => post == pre,
        }
    }
}

/// Routes one key event while the results panel holds focus.
pub fn handle_event(state: &mut State, key_event: &KeyEvent)
    requires
        old(state).wf(),
    ensures
        final(state).wf(),
        step(*old(state), *final(state), *key_event),
{
    if !matches!(key_event.kind, KeyEventKind::Press) {
        return ;
    }

    match key_event.code {
        KeyCode::Tab => {
            state.active_area = Area::Variables;
        },
        KeyCode::BackTab => {
            state.active_area = Area::Unfocused;
        },
        KeyCode::PageUp => {
            state.results.select_next();
        },
        KeyCode::PageDown => {
            state.results.select_previous();
        },
        _ => {},
    }
}

} // verus!
