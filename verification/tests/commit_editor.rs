use gitgud::commit_editor::{CommitEditor, EditorMode, SubmitIntent};

fn type_(e: &mut CommitEditor, text: &str) {
    for c in text.chars() {
        e.insert_char(c);
    }
}

#[test]
fn insert_simple_text() {
    let mut e = CommitEditor::new();
    type_(&mut e, "fix");
    assert_eq!(e.message(), "fix");
    assert_eq!((e.row, e.col), (0, 3));
}

#[test]
fn newline_splits_line_and_moves_cursor() {
    let mut e = CommitEditor::new();
    type_(&mut e, "hello");
    e.col = 2;
    e.insert_newline();
    assert_eq!(e.lines, vec!["he".to_string(), "llo".to_string()]);
    assert_eq!((e.row, e.col), (1, 0));
}

#[test]
fn backspace_at_line_start_joins_with_previous() {
    let mut e = CommitEditor::new();
    type_(&mut e, "ab");
    e.insert_newline();
    type_(&mut e, "cd");
    e.row = 1;
    e.col = 0;
    e.backspace();
    assert_eq!(e.message(), "abcd");
    assert_eq!((e.row, e.col), (0, 2));
}

#[test]
fn cursor_clamps_when_moving_to_shorter_line() {
    let mut e = CommitEditor::new();
    type_(&mut e, "longer");
    e.insert_newline();
    type_(&mut e, "hi");
    e.row = 0;
    e.col = 6;
    e.move_down();
    assert_eq!((e.row, e.col), (1, 2));
}

#[test]
fn blank_is_detected_with_only_whitespace() {
    let mut e = CommitEditor::new();
    assert!(e.is_blank());
    e.insert_char(' ');
    e.insert_newline();
    e.insert_char('\t');
    assert!(e.is_blank());
    e.insert_char('x');
    assert!(!e.is_blank());
}

#[test]
fn enter_insert_after_advances_in_middle() {
    let mut e = CommitEditor::new();
    type_(&mut e, "abc");
    e.col = 1;
    e.enter_insert_after();
    assert_eq!(e.col, 2);
    assert_eq!(e.mode, EditorMode::Insert);
}

#[test]
fn enter_insert_after_stays_at_line_end() {
    let mut e = CommitEditor::new();
    type_(&mut e, "abc");
    e.enter_insert_after();
    assert_eq!(e.col, 3);
}

#[test]
fn open_line_below_inserts_blank_and_enters_insert() {
    let mut e = CommitEditor::new();
    type_(&mut e, "abc");
    e.col = 1;
    e.open_line_below();
    assert_eq!(e.lines, vec!["abc".to_string(), String::new()]);
    assert_eq!(e.row, 1);
    assert_eq!(e.col, 0);
    assert_eq!(e.mode, EditorMode::Insert);
}

#[test]
fn open_line_above_pushes_current_down() {
    let mut e = CommitEditor::new();
    type_(&mut e, "abc");
    e.open_line_above();
    assert_eq!(e.lines, vec![String::new(), "abc".to_string()]);
    assert_eq!(e.row, 0);
    assert_eq!(e.mode, EditorMode::Insert);
}

#[test]
fn delete_at_cursor_in_middle_keeps_col() {
    let mut e = CommitEditor::new();
    type_(&mut e, "abc");
    e.col = 1;
    e.delete_at_cursor();
    assert_eq!(e.lines[0], "ac");
    assert_eq!(e.col, 1);
}

#[test]
fn delete_at_cursor_on_last_char_clamps_back() {
    let mut e = CommitEditor::new();
    type_(&mut e, "abc");
    e.col = 2;
    e.delete_at_cursor();
    assert_eq!(e.lines[0], "ab");
    assert_eq!(e.col, 1);
}

#[test]
fn delete_line_when_only_line_clears_it() {
    let mut e = CommitEditor::new();
    type_(&mut e, "abc");
    e.delete_line();
    assert_eq!(e.lines, vec![String::new()]);
    assert_eq!((e.row, e.col), (0, 0));
}

#[test]
fn delete_line_keeps_row_in_range() {
    let mut e = CommitEditor::new();
    type_(&mut e, "first");
    e.insert_newline();
    type_(&mut e, "second");
    e.delete_line();
    assert_eq!(e.lines, vec!["first".to_string()]);
    assert_eq!(e.row, 0);
}

#[test]
fn delete_to_end_of_line_truncates_from_cursor() {
    let mut e = CommitEditor::new();
    type_(&mut e, "abcdef");
    e.col = 3;
    e.delete_to_end_of_line();
    assert_eq!(e.lines[0], "abc");
}

#[test]
fn move_word_forward_skips_word_and_space() {
    let mut e = CommitEditor::new();
    type_(&mut e, "hello world foo");
    e.col = 0;
    e.move_word_forward();
    assert_eq!(e.col, 6);
    e.move_word_forward();
    assert_eq!(e.col, 12);
}

#[test]
fn move_word_back_returns_to_previous_word() {
    let mut e = CommitEditor::new();
    type_(&mut e, "hello world");
    e.col = 11;
    e.move_word_back();
    assert_eq!(e.col, 6);
    e.move_word_back();
    assert_eq!(e.col, 0);
}

#[test]
fn goto_top_and_bottom_span_lines() {
    let mut e = CommitEditor::new();
    type_(&mut e, "a");
    e.insert_newline();
    type_(&mut e, "b");
    e.insert_newline();
    type_(&mut e, "c");
    assert_eq!(e.row, 2);
    e.goto_top();
    assert_eq!(e.row, 0);
    e.goto_bottom();
    assert_eq!(e.row, 2);
}

#[test]
fn command_wq_returns_commit_intent() {
    let mut e = CommitEditor::new();
    e.enter_command();
    e.command_append('w');
    e.command_append('q');
    assert_eq!(e.execute_command(), SubmitIntent::Commit);
    assert_eq!(e.mode, EditorMode::Normal);
}

#[test]
fn command_q_bang_returns_cancel_intent() {
    let mut e = CommitEditor::new();
    e.enter_command();
    e.command_append('q');
    e.command_append('!');
    assert_eq!(e.execute_command(), SubmitIntent::Cancel);
}

#[test]
fn command_q_on_blank_buffer_returns_cancel() {
    let mut e = CommitEditor::new();
    e.enter_command();
    e.command_append('q');
    assert_eq!(e.execute_command(), SubmitIntent::Cancel);
}

#[test]
fn command_q_on_non_blank_buffer_sets_status_and_returns_none() {
    let mut e = CommitEditor::new();
    type_(&mut e, "wip");
    e.enter_command();
    e.command_append('q');
    assert_eq!(e.execute_command(), SubmitIntent::Nothing);
    assert!(e.status_message.as_deref().unwrap().starts_with("E37"));
}

#[test]
fn command_unknown_sets_status_and_returns_none() {
    let mut e = CommitEditor::new();
    e.enter_command();
    e.command_append('z');
    assert_eq!(e.execute_command(), SubmitIntent::Nothing);
    assert!(e.status_message.as_deref().unwrap().starts_with("E492"));
}

#[test]
fn command_backspace_on_empty_returns_to_normal() {
    let mut e = CommitEditor::new();
    e.enter_command();
    e.command_backspace();
    assert_eq!(e.mode, EditorMode::Normal);
}
