//! Handler for the variables panel. The panel is reserved for future input
//! binding and only takes part in the focus cycle.

use vstd::prelude::*;

use crate::areas::Area;
use crate::events::{KeyCode, KeyEvent, KeyEventKind};
use crate::ui::State;

verus! {

/// What one key event does while the variables panel holds focus: Tab moves
/// on to the query panel, BackTab back to the results panel; every other
/// key (and every non-press event) changes nothing.
pub open spec fn step(pre: State, post: State, ev: KeyEvent) -> bool {
    if ev.kind != KeyEventKind::Press {
        post == pre
    } else {
        match ev.code {
            KeyCode::Tab => post == (State { active_area: Area::Query, ..pre }),
            KeyCode::BackTab => post == (State { active_area: Area::Results, ..pre }),
            _ => post == pre,
        }
    }
}

/// Routes one key event while the variables panel holds focus.
pub fn handle_event(state: &mut State, key_event: &KeyEvent)
    requires
        old(state).wf(),
    ensures
        final(state).wf(),
        step(*old(state), *final(state), *key_event),
{
    if !matches!(key_event.kind, KeyEventKind::Press) {
        return ;
    }

    match key_event.code {
        KeyCode::Tab => {
            state.active_area = Area::Query;
        },
        KeyCode::BackTab => {
            state.active_area = Area::Results;
        },
        _ => {},
    }
}

} // verus!
