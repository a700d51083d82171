use gitgud::git::runner::CommandOutput;
use gitgud::git::status::{cmd, load, parse, FileStatus};

#[test]
fn parses_modified_unstaged() {
    let s = parse(b" M src/foo.rs\0").unwrap();
    assert_eq!(s.entries.len(), 1);
    let e = &s.entries[0];
    assert_eq!(e.path, "src/foo.rs");
    assert_eq!(e.index, FileStatus::Unmodified);
    assert_eq!(e.worktree, FileStatus::Modified);
    assert!(e.is_unstaged() && !e.is_staged());
}

#[test]
fn parses_modified_staged() {
    let s = parse(b"M  src/foo.rs\0").unwrap();
    let e = &s.entries[0];
    assert_eq!(e.index, FileStatus::Modified);
    assert_eq!(e.worktree, FileStatus::Unmodified);
    assert!(e.is_staged() && !e.is_unstaged());
}

#[test]
fn parses_modified_both() {
    let s = parse(b"MM src/foo.rs\0").unwrap();
    let e = &s.entries[0];
    assert!(e.is_staged() && e.is_unstaged());
}

#[test]
fn parses_untracked() {
    let s = parse(b"?? new.txt\0").unwrap();
    let e = &s.entries[0];
    assert_eq!(e.path, "new.txt");
    assert_eq!(e.index, FileStatus::Untracked);
    assert!(!e.is_staged());
    assert!(e.is_unstaged());
}

#[test]
fn parses_multiple_entries() {
    let s = parse(b"M  staged.rs\0 M unstaged.rs\0?? new.txt\0").unwrap();
    assert_eq!(s.entries.len(), 3);
    assert_eq!(s.staged().len(), 1);
    assert_eq!(s.unstaged().len(), 2);
}

#[test]
fn parses_rename() {
    // `R  new\0old\0` — renamed and staged
    let s = parse(b"R  new.rs\0old.rs\0").unwrap();
    assert_eq!(s.entries.len(), 1);
    assert_eq!(s.entries[0].path, "new.rs");
    assert_eq!(s.entries[0].orig_path.as_deref(), Some("old.rs"));
}

#[test]
fn parses_ignored_and_copy_in_worktree() {
    let s = parse(b"!! target\0 C copy.rs\0src.rs\0").unwrap();
    assert_eq!(s.entries.len(), 2);
    assert_eq!(s.entries[0].index, FileStatus::Ignored);
    assert_eq!(s.entries[0].worktree, FileStatus::Ignored);
    assert!(!s.entries[0].is_staged());
    assert_eq!(s.entries[1].worktree, FileStatus::Copied);
    assert_eq!(s.entries[1].orig_path.as_deref(), Some("src.rs"));
}

#[test]
fn truncated_tail_is_ignored_and_last_path_needs_no_nul() {
    let s = parse(b"A  a.rs\0D  b.rs").unwrap();
    assert_eq!(s.entries.len(), 2);
    assert_eq!(s.entries[1].path, "b.rs");
    assert_eq!(s.entries[1].index, FileStatus::Deleted);
    assert!(parse(b"M ").unwrap().entries.is_empty());
}

#[test]
fn unknown_codes_keep_their_character() {
    let s = parse(b"Z? odd\0").unwrap();
    assert_eq!(s.entries[0].index, FileStatus::Unknown('Z'));
    assert_eq!(s.entries[0].worktree, FileStatus::Untracked);
    assert_eq!(FileStatus::Unknown('Z').symbol(), 'Z');
}

#[test]
fn from_char_and_symbol_roundtrip() {
    for c in [' ', 'A', 'M', 'D', 'R', 'C', '?', '!', 'T', 'U', 'x'] {
        assert_eq!(FileStatus::from_char(c).symbol(), c);
    }
    assert_eq!(FileStatus::from_char('T'), FileStatus::TypeChange);
    assert_eq!(FileStatus::from_char('U'), FileStatus::Unmerged);
}

#[test]
fn status_cmd_is_porcelain_z() {
    assert_eq!(cmd().display(), "git status --porcelain=v1 -z");
}

#[test]
fn load_parses_stdout_or_passes_error() {
    let out = CommandOutput {
        stdout: b"?? a\0".to_vec(),
        stderr: Vec::new(),
        code: Some(1),
        status_text: String::from("exit status: 1"),
    };
    assert_eq!(load(Ok(out)).unwrap().entries[0].path, "a");
    assert_eq!(load(Err("boom".to_string())).unwrap_err(), "boom");
}
