//! Handler for the unfocused state: the entry point of the focus cycle and
//! the only state that can request termination.

use vstd::prelude::*;

use crate::areas::Area;
use crate::events::{KeyCode, KeyEvent, KeyEventKind};
use crate::ui::State;

verus! {

/// What one key event does while no panel holds focus: `q` requests
/// termination, Tab moves focus to the results panel, and every other key
/// (and every non-press event) changes nothing.
pub open spec fn step(pre: State, post: State, ev: KeyEvent) -> bool {
    if ev.kind != KeyEventKind::Press {
        post == pre
    } else {
        match ev.code {
            KeyCode::Char(c) => if c == 'q' {
                post == (State { should_quit: true, ..pre })
            } else {
                post == pre
            },
            KeyCode::Tab => post == (State { active_area: Area::Results, ..pre }),
            _ => post == pre,
        }
    }
}

/// Routes one key event while no panel holds focus.
pub fn handle_event(state: &mut State, key_event: &KeyEvent)
    requires
        old(state).wf(),
    ensures
        final(state).wf(),
        step(*old(state), *final(state), *key_event),
{
    if !matches!(key_event.kind, KeyEventKind::Press) {
        return ;
    }

    match key_event.code {
        KeyCode::Char(c) => {
            if c == 'q' {
                state.should_quit = true;
            }
        },
        KeyCode::Tab => {
            state.active_area = Area::Results;
        },
        _ => {},
    }
}

} // verus!
