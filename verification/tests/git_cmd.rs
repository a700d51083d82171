use gitgud::git::log::{cmd as log_cmd, show_stat_cmd};
use gitgud::git::{needs_quoting, GitCmd};

#[test]
fn display_plain_args() {
    let c = GitCmd::new("add").arg("--").arg("src/a.rs");
    assert_eq!(c.display(), "git add -- src/a.rs");
    assert_eq!(c.args_ref().len(), 3);
    assert!(c.cwd_ref().is_none());
}

#[test]
fn display_quotes_spaces_and_escapes_single_quotes() {
    let c = GitCmd::new("add").arg("my file.txt").arg("it's").arg("");
    assert_eq!(c.display(), "git add 'my file.txt' 'it'\\''s' ''");
}

#[test]
fn display_quotes_shell_metacharacters() {
    for a in ["$HOME", "a`b`", "back\\slash", "\"q\"", "tab\there"] {
        assert!(needs_quoting(a), "{a}");
    }
    assert!(!needs_quoting("plain-arg_1.rs"));
    assert_eq!(GitCmd::new("x").arg("$HOME").display(), "git x '$HOME'");
}

#[test]
fn cwd_is_kept() {
    let c = GitCmd::new("status").cwd("/tmp/repo");
    assert_eq!(c.cwd_ref().map(|s| s.as_str()), Some("/tmp/repo"));
    assert_eq!(c.display(), "git status");
}

#[test]
fn log_and_show_commands() {
    assert_eq!(
        log_cmd().display(),
        "git log --pretty=format:%H%x00%h%x00%an%x00%ar%x00%s%x00%D -n 200"
    );
    assert_eq!(show_stat_cmd("abc").display(), "git show --stat --no-color abc");
}
