use querie::areas::Area;
use querie::events::{KeyCode, KeyEvent, KeyEventKind};
use querie::ui::State;

fn press(code: KeyCode) -> KeyEvent {
    KeyEvent::press(code)
}

#[test]
fn session_starts_unfocused_and_not_quitting() {
    let st = State::default();
    assert_eq!(st.active_area, Area::Unfocused);
    assert!(!st.should_quit());
    assert_eq!(st.query.text, Vec::<char>::new());
    assert_eq!(st.query.cursor_pos, 0);
    assert!(st.query.submission_queue.is_empty());
    assert!(st.results.result_sets.is_empty());
}

#[test]
fn tab_walks_the_full_cycle() {
    let mut st = State::default();
    st.handle_event(&press(KeyCode::Tab));
    assert_eq!(st.active_area, Area::Results);
    st.handle_event(&press(KeyCode::Tab));
    assert_eq!(st.active_area, Area::Variables);
    st.handle_event(&press(KeyCode::Tab));
    assert_eq!(st.active_area, Area::Query);
    st.handle_event(&press(KeyCode::Tab));
    assert_eq!(st.active_area, Area::Unfocused);
}

#[test]
fn backtab_reverses_the_cycle_down_to_unfocused() {
    let mut st = State::default();
    st.handle_event(&press(KeyCode::Tab));
    st.handle_event(&press(KeyCode::Tab));
    st.handle_event(&press(KeyCode::Tab));
    assert_eq!(st.active_area, Area::Query);
    st.handle_event(&press(KeyCode::BackTab));
    assert_eq!(st.active_area, Area::Variables);
    st.handle_event(&press(KeyCode::BackTab));
    assert_eq!(st.active_area, Area::Results);
    st.handle_event(&press(KeyCode::BackTab));
    assert_eq!(st.active_area, Area::Unfocused);
}

#[test]
fn backtab_while_unfocused_is_a_no_op() {
    let mut st = State::default();
    st.handle_event(&press(KeyCode::BackTab));
    assert_eq!(st.active_area, Area::Unfocused);
}

#[test]
fn tab_then_backtab_returns_from_results_and_variables() {
    for start_tabs in [1usize, 2] {
        let mut st = State::default();
        for _ in 0..start_tabs {
            st.handle_event(&press(KeyCode::Tab));
        }
        let origin = st.active_area;
        st.handle_event(&press(KeyCode::Tab));
        st.handle_event(&press(KeyCode::BackTab));
        assert_eq!(st.active_area, origin);
        st.handle_event(&press(KeyCode::BackTab));
        st.handle_event(&press(KeyCode::Tab));
        assert_eq!(st.active_area, origin);
    }
}

#[test]
fn quit_is_requested_only_while_unfocused() {
    let mut st = State::default();
    st.handle_event(&press(KeyCode::Tab));
    st.handle_event(&press(KeyCode::Tab));
    st.handle_event(&press(KeyCode::Tab));
    assert_eq!(st.active_area, Area::Query);
    st.handle_event(&press(KeyCode::Char('q')));
    assert!(!st.should_quit());
    assert_eq!(st.query.text, vec!['q']);
    st.handle_event(&press(KeyCode::Tab));
    assert_eq!(st.active_area, Area::Unfocused);
    st.handle_event(&press(KeyCode::Char('q')));
    assert!(st.should_quit());
    assert_eq!(st.active_area, Area::Unfocused);
}

#[test]
fn non_press_events_are_ignored() {
    let mut st = State::default();
    let release = KeyEvent {
        code: KeyCode::Tab,
        kind: KeyEventKind::Release,
    };
    st.handle_event(&release);
    assert_eq!(st.active_area, Area::Unfocused);
    let repeat = KeyEvent {
        code: KeyCode::Char('q'),
        kind: KeyEventKind::Repeat,
    };
    st.handle_event(&repeat);
    assert!(!st.should_quit());
}

#[test]
fn other_keys_do_nothing_while_unfocused() {
    let mut st = State::default();
    st.handle_event(&press(KeyCode::Char('x')));
    st.handle_event(&press(KeyCode::Enter));
    st.handle_event(&press(KeyCode::PageUp));
    assert_eq!(st.active_area, Area::Unfocused);
    assert!(!st.should_quit());
    assert!(st.query.text.is_empty());
    assert!(st.query.submission_queue.is_empty());
}

#[test]
fn status_text_is_keyed_by_active_area() {
    let mut st = State::default();
    assert_eq!(st.status_text(), "- (q to quit)");
    st.handle_event(&press(KeyCode::Tab));
    assert_eq!(st.status_text(), "Result");
    st.handle_event(&press(KeyCode::Tab));
    assert_eq!(st.status_text(), "Variables");
    st.handle_event(&press(KeyCode::Tab));
    assert_eq!(st.status_text(), "Query (ENTER to run)");
}

#[test]
fn page_keys_navigate_results_while_results_area_is_active() {
    let mut st = State::default();
    st.add_results(Vec::new());
    st.add_results(Vec::new());
    st.add_results(Vec::new());
    assert_eq!(st.results.selected_index, 2);
    st.handle_event(&press(KeyCode::Tab));
    assert_eq!(st.active_area, Area::Results);
    st.handle_event(&press(KeyCode::PageDown));
    assert_eq!(st.results.selected_index, 1);
    st.handle_event(&press(KeyCode::PageDown));
    st.handle_event(&press(KeyCode::PageDown));
    assert_eq!(st.results.selected_index, 0);
    st.handle_event(&press(KeyCode::PageUp));
    assert_eq!(st.results.selected_index, 1);
    st.handle_event(&press(KeyCode::PageUp));
    st.handle_event(&press(KeyCode::PageUp));
    assert_eq!(st.results.selected_index, 2);
}

#[test]
fn page_keys_on_empty_store_do_not_panic() {
    let mut st = State::default();
    st.handle_event(&press(KeyCode::Tab));
    assert_eq!(st.active_area, Area::Results);
    st.handle_event(&press(KeyCode::PageUp));
    st.handle_event(&press(KeyCode::PageDown));
    assert_eq!(st.results.selected_index, 0);
    assert!(st.results.current().is_none());
}
