//! Handler for the query panel: text editing, cursor movement, and
//! submission of the current text.

use vstd::prelude::*;

use crate::areas::Area;
use crate::events::{KeyCode, KeyEvent, KeyEventKind};
use crate::ui::State;

verus! {

/// What one key event does while the query panel holds focus: Tab leaves
/// focus (back to unfocused), BackTab moves back to the variables panel, a
/// printable character is inserted at the cursor, Backspace deletes the
/// character before the cursor, the arrow keys move the cursor, and Enter
/// queues a copy of the current text for execution without clearing the
/// box; every other key (and every non-press event) changes nothing.
pub open spec fn step(pre: State, post: State, ev: KeyEvent) -> bool {
    if ev.kind != KeyEventKind::Press {
        post == pre
    } else {
        match ev.code {
            KeyCode::Tab => post == (State { active_area: Area::Unfocused, ..pre }),
            KeyCode::BackTab => post == (State { active_area: Area::Variables, ..pre }),
            KeyCode::Char(c) => {
                &&& post.agrees_outside_query(pre)
                &&& post.query.submission_queue == pre.query.submission_queue
                &&& if pre.query.text@.len() < usize::MAX {
                    post.query.text@ == pre.query.text@.insert(pre.query.cursor_pos as int, c)
                        && post.query.cursor_pos == pre.query.cursor_pos + 1
                } else {
                    post.query == pre.query
                }
            },
            KeyCode::Backspace => {
                &&& post.agrees_outside_query(pre)
                &&& post.query.submission_queue == pre.query.submission_queue
                &&& if pre.query.cursor_pos == 0 {
                    post.query == pre.query
                } else {
                    post.query.text@ == pre.query.text@.remove(pre.query.cursor_pos - 1)
                        && post.query.cursor_pos == pre.query.cursor_pos - 1
                }
            },
            KeyCode::Left => {
                &&& post.agrees_outside_query(pre)
                &&& post.query.text == pre.query.text
                &&& post.query.submission_queue == pre.query.submission_queue
                &&& post.query.cursor_pos == if pre.query.cursor_pos > 0 {
                    pre.query.cursor_pos - 1
                } else {
                    0int
                }
            },
            KeyCode::Right => {
                &&& post.agrees_outside_query(pre)
                &&& post.query.text == pre.query.text
                &&& post.query.submission_queue == pre.query.submission_queue
                &&& post.query.cursor_pos == if pre.query.cursor_pos < pre.query.text@.len() {
                    pre.query.cursor_pos + 1
                } else {
                    pre.query.cursor_pos as int
                }
            },
            KeyCode::Enter => {
                &&& post.agrees_outside_query(pre)
                &&& post.query.text == pre.query.text
                &&& post.query.cursor_pos == pre.query.cursor_pos
                &&& post.query.queue_model() == pre.query.queue_model().push(pre.query.text@)
            },
            _ => post == pre,
        }
    }
}

/// Routes one key event while the query panel holds focus.
pub fn handle_event(state: &mut State, key_event: &KeyEvent)
    requires
        old(state).wf(),
    ensures
        final(state).wf(),
        step(*old(state), *final(state), *key_event),
{
    if !matches!(key_event.kind, KeyEventKind::Press) {
        return ;
    }

    match key_event.code {
        KeyCode::Tab => {
            state.active_area = Area::Unfocused;
        },
        KeyCode::BackTab => {
            state.active_area = Area::Variables;
        },
        KeyCode::Char(c) => {
            state.query.insert_char(c);
        },
        KeyCode::Backspace => {
            state.query.delete_before_cursor();
        },
        KeyCode::Left => {
            state.query.move_left();
        },
        KeyCode::Right => {
            state.query.move_right();
        },
        KeyCode::Enter => {
            state.query.submit();
        },
        _ => {},
    }
}

} // verus!
