use gitgud::app::{App, AppEvent, Pane, Task, View};
use gitgud::commit_editor::EditorMode;
use gitgud::git::runner::CommandOutput;
use gitgud::keymap::{Key, KeyCode, KeyKind, Modifiers};

fn key(code: KeyCode) -> Key {
    Key {
        code,
        modifiers: Modifiers {
            shift: false,
            control: false,
            alt: false,
            super_key: false,
            hyper: false,
            meta: false,
        },
        kind: KeyKind::Press,
    }
}

fn ok(stdout: &[u8]) -> Result<CommandOutput, String> {
    Ok(CommandOutput {
        stdout: stdout.to_vec(),
        stderr: Vec::new(),
        code: Some(0),
        status_text: "exit status: 0".to_string(),
    })
}

fn failed(code: i32, stderr: &[u8]) -> Result<CommandOutput, String> {
    Ok(CommandOutput {
        stdout: Vec::new(),
        stderr: stderr.to_vec(),
        code: Some(code),
        status_text: format!("exit status: {code}"),
    })
}

/// Runs the queued work, answering each request from `answers` in order;
/// returns the command lines that were requested.
fn settle(app: &mut App, answers: &mut Vec<Result<CommandOutput, String>>) -> Vec<String> {
    let mut seen = Vec::new();
    let mut req = app.next_request();
    while let Some(r) = req {
        seen.push(r.cmd.display());
        let out = if answers.is_empty() { ok(b"") } else { answers.remove(0) };
        req = app.complete(out);
    }
    seen
}

fn type_keys(app: &mut App, text: &str) {
    for c in text.chars() {
        app.handle_key(key(KeyCode::Char(c)));
    }
}

#[test]
fn startup_loads_status_then_diff_of_first_unstaged_file() {
    let mut app = App::new();
    let seen = settle(&mut app, &mut vec![ok(b" M a.rs\0M  b.rs\0"), ok(b"+x\n")]);
    assert_eq!(seen, vec!["git status --porcelain=v1 -z", "git diff -- a.rs"]);
    assert_eq!(app.status.entries.len(), 2);
    assert_eq!(app.diff, "+x\n");
    assert_eq!(app.last_command(), Some("git diff -- a.rs"));
    assert!(app.tasks.is_empty());
}

#[test]
fn staging_runs_add_then_refreshes_and_records_it_last() {
    let mut app = App::new();
    settle(&mut app, &mut vec![ok(b"?? new.txt\0"), ok(b"")]);
    app.handle_key(key(KeyCode::Char('s')));
    let seen = settle(&mut app, &mut vec![ok(b""), ok(b"A  new.txt\0")]);
    assert_eq!(seen, vec!["git add -- new.txt", "git status --porcelain=v1 -z"]);
    assert_eq!(app.last_command(), Some("git add -- new.txt"));
    assert!(app.error.is_none());
}

#[test]
fn failed_action_reports_trimmed_stderr() {
    let mut app = App::new();
    settle(&mut app, &mut vec![ok(b" M a b.rs\0"), ok(b"")]);
    app.handle_key(key(KeyCode::Char('s')));
    let req = app.next_request().unwrap();
    assert_eq!(req.cmd.display(), "git add -- 'a b.rs'");
    let next = app.complete(failed(1, b"fatal: nope\n")).unwrap();
    assert_eq!(next.cmd.display(), "git status --porcelain=v1 -z");
    assert_eq!(app.error.as_deref(), Some("git add -- 'a b.rs': fatal: nope"));
    // The status reload that follows keeps the command's error.
    let mut r = app.complete(ok(b" M a b.rs\0"));
    while r.is_some() {
        r = app.complete(ok(b""));
    }
    assert_eq!(app.error.as_deref(), Some("git add -- 'a b.rs': fatal: nope"));
    assert_eq!(app.last_command(), Some("git add -- 'a b.rs'"));
}

#[test]
fn discard_asks_then_runs_on_y_and_cancels_otherwise() {
    let mut app = App::new();
    settle(&mut app, &mut vec![ok(b"?? junk\0"), ok(b"")]);
    app.handle_key(key(KeyCode::Char('X')));
    assert_eq!(app.confirm.as_ref().unwrap().prompt, "Delete untracked file 'junk'?");
    app.handle_key(key(KeyCode::Char('n')));
    assert!(app.confirm.is_none());
    assert!(app.next_request().is_none());
    app.handle_key(key(KeyCode::Char('X')));
    app.handle_key(key(KeyCode::Char('y')));
    let seen = settle(&mut app, &mut vec![]);
    assert_eq!(seen[0], "git clean -fd -- junk");
}

#[test]
fn commit_needs_something_staged() {
    let mut app = App::new();
    settle(&mut app, &mut vec![ok(b" M a.rs\0"), ok(b"")]);
    app.handle_key(key(KeyCode::Char('c')));
    assert_eq!(app.view, View::Status);
    assert!(app.error.as_deref().unwrap().starts_with("nothing staged to commit"));
}

#[test]
fn modal_editor_commits_with_message_on_stdin() {
    let mut app = App::new();
    settle(&mut app, &mut vec![ok(b"M  a.rs\0"), ok(b"")]);
    app.handle_key(key(KeyCode::Tab));
    assert_eq!(app.focused, Pane::Staged);
    settle(&mut app, &mut vec![ok(b"")]);
    app.handle_key(key(KeyCode::Char('c')));
    assert_eq!(app.view, View::CommitEditor);
    type_keys(&mut app, "ifix bug");
    app.handle_key(key(KeyCode::Esc));
    assert_eq!(app.commit_editor.mode, EditorMode::Normal);
    type_keys(&mut app, ":wq");
    app.handle_key(key(KeyCode::Enter));
    let req = app.next_request().unwrap();
    assert_eq!(req.cmd.display(), "git commit -F -");
    assert_eq!(req.stdin.as_deref(), Some("fix bug"));
    let mut next = app.complete(ok(b""));
    while let Some(r) = next {
        next = app.complete(if r.cmd.display().starts_with("git status") { ok(b"") } else { ok(b"") });
    }
    assert_eq!(app.view, View::Status);
    assert_eq!(app.last_command(), Some("git commit -F -"));
}

#[test]
fn failed_commit_keeps_editor_with_message() {
    let mut app = App::new();
    settle(&mut app, &mut vec![ok(b"M  a.rs\0"), ok(b"")]);
    app.handle_key(key(KeyCode::Char('c')));
    type_keys(&mut app, "iwip");
    app.handle_key(key(KeyCode::Esc));
    type_keys(&mut app, ":w");
    app.handle_key(key(KeyCode::Enter));
    settle(&mut app, &mut vec![failed(1, b""), ok(b"M  a.rs\0"), ok(b"")]);
    assert_eq!(app.view, View::CommitEditor);
    assert_eq!(app.commit_editor.status_message.as_deref(), Some("commit failed (exit 1)"));
    assert_eq!(app.commit_editor.message(), "wip");
}

#[test]
fn empty_message_aborts_commit() {
    let mut app = App::new();
    settle(&mut app, &mut vec![ok(b"M  a.rs\0"), ok(b"")]);
    app.handle_key(key(KeyCode::Char('c')));
    type_keys(&mut app, ":x");
    app.handle_key(key(KeyCode::Enter));
    assert!(app.next_request().is_none());
    assert!(app
        .commit_editor
        .status_message
        .as_deref()
        .unwrap()
        .starts_with("Aborting commit"));
}

#[test]
fn slash_prompt_routes_commands() {
    let mut app = App::new();
    settle(&mut app, &mut vec![ok(b""), ok(b"")]);
    app.handle_key(key(KeyCode::Char('/')));
    assert!(app.prompt.is_some());
    type_keys(&mut app, "git commit -m \"wip change\"");
    app.handle_key(key(KeyCode::Enter));
    let seen = settle(&mut app, &mut vec![]);
    assert_eq!(seen[0], "git commit -m 'wip change'");
    type_keys(&mut app, "hg status");
    app.handle_key(key(KeyCode::Enter));
    assert_eq!(
        app.error.as_deref(),
        Some("unknown command: /hg status (commands must start with `git`)")
    );
    type_keys(&mut app, "git rebase -i HEAD~2");
    app.handle_key(key(KeyCode::Enter));
    assert_eq!(app.error.as_deref(), Some("interactive rebase is not yet supported"));
    type_keys(&mut app, "git");
    app.handle_key(key(KeyCode::Enter));
    assert_eq!(app.error.as_deref(), Some("missing git subcommand (e.g. /git status)"));
    type_keys(&mut app, "git log --oneline");
    app.handle_key(key(KeyCode::Enter));
    assert_eq!(app.view, View::Log);
    type_keys(&mut app, "quit");
    app.handle_key(key(KeyCode::Enter));
    assert!(app.should_quit);
}

#[test]
fn prompt_commit_without_message_opens_editor() {
    let mut app = App::new();
    settle(&mut app, &mut vec![ok(b"M  a.rs\0"), ok(b"")]);
    app.handle_key(key(KeyCode::Char('/')));
    type_keys(&mut app, "git commit");
    app.handle_key(key(KeyCode::Enter));
    assert!(app.prompt.is_none());
    assert_eq!(app.view, View::CommitEditor);
}

#[test]
fn log_tab_loads_log_and_detail_and_navigates() {
    let mut app = App::new();
    settle(&mut app, &mut vec![ok(b""), ok(b"")]);
    app.handle_key(key(KeyCode::Char('2')));
    let seen = settle(
        &mut app,
        &mut vec![ok(b"s1\0a\0A\0now\0one\0\ns2\0b\0B\0then\0two\0\n"), ok(b"commit s1\n")],
    );
    assert_eq!(seen[1], "git show --stat --no-color s1");
    assert_eq!(app.log.len(), 2);
    assert_eq!(app.log_detail, "commit s1\n");
    app.handle_key(key(KeyCode::Char('G')));
    assert_eq!(app.log_selected, 1);
    assert_eq!(settle(&mut app, &mut vec![ok(b"x")]), vec!["git show --stat --no-color s2"]);
    app.handle_key(key(KeyCode::Char('g')));
    assert_eq!(app.log_selected, 0);
    settle(&mut app, &mut vec![]);
    app.handle_key(key(KeyCode::Char('[')));
    assert_eq!(app.view, View::Status);
}

#[test]
fn empty_repo_log_is_empty_not_error() {
    let mut app = App::new();
    settle(&mut app, &mut vec![ok(b""), ok(b"")]);
    app.switch_view(View::Log);
    settle(&mut app, &mut vec![failed(128, b"fatal: bad default revision 'HEAD'\n")]);
    assert!(app.error.is_none());
    assert!(app.log.is_empty());
    assert_eq!(app.log_detail, "");
}

#[test]
fn ctrl_c_quits_everywhere_and_releases_are_ignored() {
    let mut app = App::new();
    let mut k = key(KeyCode::Char('q'));
    k.kind = KeyKind::Release;
    app.handle_event(AppEvent::Key(k));
    assert!(!app.should_quit);
    app.handle_event(AppEvent::Resize(80, 24));
    let mut c = key(KeyCode::Char('c'));
    c.modifiers.control = true;
    app.handle_event(AppEvent::Key(c));
    assert!(app.should_quit);
}

#[test]
fn spawn_failure_becomes_error() {
    let mut app = App::new();
    settle(&mut app, &mut vec![Err("failed to spawn: git status --porcelain=v1 -z".to_string())]);
    assert_eq!(
        app.error.as_deref(),
        Some("failed to spawn: git status --porcelain=v1 -z")
    );
    assert!(matches!(app.tasks.len(), 0));
    let _ = Task::RefreshStatus;
}

#[test]
fn plain_refresh_clears_a_stale_error() {
    let mut app = App::new();
    settle(&mut app, &mut vec![ok(b" M a.rs\0"), ok(b"")]);
    app.handle_key(key(KeyCode::Char('s')));
    settle(&mut app, &mut vec![failed(1, b"fatal: nope"), ok(b" M a.rs\0"), ok(b"")]);
    assert_eq!(app.error.as_deref(), Some("git add -- a.rs: fatal: nope"));
    app.handle_key(key(KeyCode::Char('r')));
    settle(&mut app, &mut vec![ok(b" M a.rs\0"), ok(b"")]);
    assert!(app.error.is_none());
}

#[test]
fn pending_operator_is_abandoned_by_a_non_character_key() {
    let mut app = App::new();
    settle(&mut app, &mut vec![ok(b"M  a.rs\0"), ok(b"")]);
    app.handle_key(key(KeyCode::Char('c')));
    type_keys(&mut app, "iab");
    app.handle_key(key(KeyCode::Esc));
    app.handle_key(key(KeyCode::Char('d')));
    assert_eq!(app.commit_editor.pending_op, Some('d'));
    let col = app.commit_editor.col;
    app.handle_key(key(KeyCode::Left));
    assert_eq!(app.commit_editor.pending_op, None);
    assert_eq!(app.commit_editor.col, col);
    app.handle_key(key(KeyCode::Char('d')));
    assert_eq!(app.commit_editor.lines, vec!["ab".to_string()]);
}
