use querie::editor::QueryEditorState;

fn editor_with(text: &str) -> QueryEditorState {
    let mut ed = QueryEditorState::new();
    for c in text.chars() {
        ed.insert_char(c);
    }
    ed
}

#[test]
fn insert_advances_cursor() {
    let mut ed = QueryEditorState::new();
    ed.insert_char('a');
    ed.insert_char('b');
    ed.insert_char('c');
    assert_eq!(ed.text, vec!['a', 'b', 'c']);
    assert_eq!(ed.cursor_pos, 3);
    assert_eq!(ed.text_string(), "abc");
}

#[test]
fn insert_at_cursor_inside_text() {
    let mut ed = editor_with("ac");
    ed.move_left();
    ed.insert_char('b');
    assert_eq!(ed.text_string(), "abc");
    assert_eq!(ed.cursor_pos, 2);
}

#[test]
fn cursor_moves_stay_in_bounds() {
    let mut ed = editor_with("ab");
    ed.move_left();
    ed.move_left();
    ed.move_left();
    assert_eq!(ed.cursor_pos, 0);
    ed.move_right();
    ed.move_right();
    ed.move_right();
    assert_eq!(ed.cursor_pos, 2);
    ed.move_left();
    assert_eq!(ed.cursor_pos, 1);
    ed.move_right();
    assert_eq!(ed.cursor_pos, 2);
}

#[test]
fn moves_on_empty_text_stay_at_zero() {
    let mut ed = QueryEditorState::new();
    ed.move_left();
    assert_eq!(ed.cursor_pos, 0);
    ed.move_right();
    assert_eq!(ed.cursor_pos, 0);
    assert_eq!(ed.text_string(), "");
}

#[test]
fn multibyte_insert_never_splits_characters() {
    let mut ed = QueryEditorState::new();
    ed.insert_char('\u{00e9}');
    ed.insert_char('\u{65e5}');
    ed.insert_char('x');
    assert_eq!(ed.text, vec!['\u{00e9}', '\u{65e5}', 'x']);
    assert_eq!(ed.cursor_pos, 3);
    ed.move_left();
    ed.move_left();
    ed.insert_char('\u{00df}');
    assert_eq!(ed.text_string(), "\u{00e9}\u{00df}\u{65e5}x");
    assert_eq!(ed.cursor_pos, 2);
}

#[test]
fn multibyte_delete_removes_exactly_one_character() {
    let mut ed = editor_with("a\u{00e9}\u{65e5}");
    ed.delete_before_cursor();
    assert_eq!(ed.text_string(), "a\u{00e9}");
    assert_eq!(ed.cursor_pos, 2);
    ed.delete_before_cursor();
    assert_eq!(ed.text_string(), "a");
    assert_eq!(ed.cursor_pos, 1);
}

#[test]
fn delete_at_position_zero_is_a_no_op() {
    let mut ed = editor_with("ab");
    ed.move_left();
    ed.move_left();
    assert_eq!(ed.cursor_pos, 0);
    ed.delete_before_cursor();
    assert_eq!(ed.text, vec!['a', 'b']);
    assert_eq!(ed.cursor_pos, 0);
}

#[test]
fn delete_on_empty_text_is_a_no_op() {
    let mut ed = QueryEditorState::new();
    ed.delete_before_cursor();
    assert_eq!(ed.text, Vec::<char>::new());
    assert_eq!(ed.cursor_pos, 0);
}

#[test]
fn delete_in_the_middle_removes_before_cursor() {
    let mut ed = editor_with("abc");
    ed.move_left();
    ed.delete_before_cursor();
    assert_eq!(ed.text_string(), "ac");
    assert_eq!(ed.cursor_pos, 1);
}

#[test]
fn submit_queues_a_copy_and_keeps_the_text() {
    let mut ed = editor_with("SELECT 1");
    ed.submit();
    assert_eq!(ed.submission_queue, vec!["SELECT 1".to_string()]);
    assert_eq!(ed.text_string(), "SELECT 1");
    assert_eq!(ed.cursor_pos, 8);
    ed.submit();
    assert_eq!(
        ed.submission_queue,
        vec!["SELECT 1".to_string(), "SELECT 1".to_string()]
    );
}
