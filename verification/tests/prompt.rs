use gitgud::prompt::{shell_split, Prompt};

fn type_(p: &mut Prompt, text: &str) {
    for c in text.chars() {
        p.insert_char(c);
    }
}

#[test]
fn insert_and_submit() {
    let mut p = Prompt::new();
    type_(&mut p, "git status");
    assert_eq!(p.buffer, "git status");
    assert_eq!(p.cursor, 10);
    let s = p.submit();
    assert_eq!(s, "git status");
    assert_eq!(p.buffer, "");
    assert_eq!(p.cursor, 0);
}

#[test]
fn submit_records_into_history() {
    let mut p = Prompt::new();
    type_(&mut p, "git status");
    p.submit();
    type_(&mut p, "git add foo");
    p.submit();
    p.recall_prev();
    assert_eq!(p.buffer, "git add foo");
    p.recall_prev();
    assert_eq!(p.buffer, "git status");
    p.recall_prev();
    assert_eq!(p.buffer, "git status"); // pinned at oldest
}

#[test]
fn recall_next_restores_saved_buffer() {
    let mut p = Prompt::new();
    type_(&mut p, "git status");
    p.submit();
    type_(&mut p, "wip");
    p.recall_prev();
    assert_eq!(p.buffer, "git status");
    p.recall_next();
    assert_eq!(p.buffer, "wip");
    assert_eq!(p.cursor, 3);
}

#[test]
fn recall_next_with_no_recall_is_noop() {
    let mut p = Prompt::new();
    type_(&mut p, "wip");
    p.recall_next();
    assert_eq!(p.buffer, "wip");
}

#[test]
fn duplicate_consecutive_submits_collapse() {
    let mut p = Prompt::new();
    type_(&mut p, "git status");
    p.submit();
    type_(&mut p, "git status");
    p.submit();
    assert_eq!(p.history.len(), 1);
}

#[test]
fn blank_submit_does_not_record() {
    let mut p = Prompt::new();
    type_(&mut p, "   ");
    let s = p.submit();
    assert_eq!(s, "   ");
    assert!(p.history.is_empty());
}

#[test]
fn editing_detaches_from_history() {
    let mut p = Prompt::new();
    type_(&mut p, "git status");
    p.submit();
    type_(&mut p, "git diff");
    p.submit();
    p.recall_prev(); // "git diff"
    type_(&mut p, "!");
    assert_eq!(p.buffer, "git diff!");
    // Down is a no-op once we've edited (detached from history navigation).
    p.recall_next();
    assert_eq!(p.buffer, "git diff!");
    // Up from a detached buffer treats the edit as a fresh baseline:
    // it's saved, then the latest history entry is pulled in.
    p.recall_prev();
    assert_eq!(p.buffer, "git diff");
    p.recall_next();
    assert_eq!(p.buffer, "git diff!");
}

#[test]
fn backspace_at_start_is_noop() {
    let mut p = Prompt::new();
    p.backspace();
    assert_eq!(p.buffer, "");
    assert_eq!(p.cursor, 0);
}

#[test]
fn backspace_removes_char_before_cursor() {
    let mut p = Prompt::new();
    type_(&mut p, "abc");
    p.move_left();
    p.backspace();
    assert_eq!(p.buffer, "ac");
    assert_eq!(p.cursor, 1);
}

#[test]
fn move_clamps_at_buffer_bounds() {
    let mut p = Prompt::new();
    type_(&mut p, "ab");
    p.move_right();
    assert_eq!(p.cursor, 2);
    p.move_left();
    p.move_left();
    p.move_left();
    assert_eq!(p.cursor, 0);
}

#[test]
fn unicode_buffer_indexing() {
    let mut p = Prompt::new();
    type_(&mut p, "héllo");
    assert_eq!(p.cursor, 5);
    p.backspace();
    assert_eq!(p.buffer, "héll");
    assert_eq!(p.cursor, 4);
    p.move_left();
    p.move_left();
    p.delete_at_cursor();
    assert_eq!(p.buffer, "hél");
}

#[test]
fn shell_split_basic() {
    assert_eq!(shell_split("git status"), vec!["git", "status"]);
    assert_eq!(
        shell_split("git add -- src/a.rs"),
        vec!["git", "add", "--", "src/a.rs"]
    );
}

#[test]
fn shell_split_quoted_args() {
    assert_eq!(
        shell_split(r#"git commit -m "wip change""#),
        vec!["git", "commit", "-m", "wip change"]
    );
}

#[test]
fn shell_split_empty_quoted_string() {
    assert_eq!(
        shell_split(r#"git commit -m """#),
        vec!["git", "commit", "-m", ""]
    );
}

#[test]
fn shell_split_backslash_escape_inside_quotes() {
    assert_eq!(
        shell_split(r#""a\"b" c"#),
        vec![r#"a"b"#.to_string(), "c".to_string()]
    );
}

#[test]
fn shell_split_blank_is_empty() {
    assert!(shell_split("   ").is_empty());
    assert!(shell_split("").is_empty());
}

#[test]
fn shell_split_single_quotes_are_literal_and_backslash_outside_quotes_is_kept() {
    assert_eq!(shell_split("it's a\\b"), vec!["it's", "a\\b"]);
    assert_eq!(shell_split("x\"y z\"w"), vec!["xy zw"]);
}

#[test]
fn history_is_capped_at_sixty_four() {
    let mut p = Prompt::new();
    for i in 0..70 {
        type_(&mut p, &format!("git c{i}"));
        p.submit();
    }
    assert_eq!(p.history.len(), 64);
    assert_eq!(p.history[0], "git c6");
    p.recall_prev();
    assert_eq!(p.buffer, "git c69");
}

#[test]
fn shell_split_treats_unicode_spaces_as_separators() {
    let toks = shell_split("git\u{3000}add\u{a0}a.txt\u{2028}b.txt");
    assert_eq!(toks, vec!["git", "add", "a.txt", "b.txt"]);
}

#[test]
fn shell_split_keeps_non_space_format_characters() {
    let toks = shell_split("a\u{180e}b \u{200b}");
    assert_eq!(toks, vec!["a\u{180e}b", "\u{200b}"]);
}

#[test]
fn unquoted_lines_split_like_split_whitespace() {
    for s in ["git add -- src/a.rs", "   ", "", "it's a\\b  c\t\nd", " x  y "] {
        let expected: Vec<String> = s.split_whitespace().map(String::from).collect();
        assert_eq!(shell_split(s), expected);
    }
}
