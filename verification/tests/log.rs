use gitgud::git::log::{load, parse, parse_text};
use gitgud::git::runner::CommandOutput;

#[test]
fn parses_one_commit_with_refs() {
    let input = b"abc1234567890abc1234567890abc1234567890ab\0abc1234\0Alice\x002 hours ago\0fix(parser): tighten edge case\0HEAD -> main, origin/main\n";
    let log = parse(input);
    assert_eq!(log.entries.len(), 1);
    let e = &log.entries[0];
    assert!(e.sha.starts_with("abc1234"));
    assert_eq!(e.short_sha, "abc1234");
    assert_eq!(e.author, "Alice");
    assert_eq!(e.when, "2 hours ago");
    assert_eq!(e.subject, "fix(parser): tighten edge case");
    assert_eq!(e.refs, vec!["HEAD -> main", "origin/main"]);
}

#[test]
fn parses_multiple_commits() {
    let input = b"sha1aaaaaaaaaaaaaaaaaaaaaaaaaaaaaaaaaaaaaaa\0sha1aaa\0Alice\x001 hour ago\0first\0\nsha2bbbbbbbbbbbbbbbbbbbbbbbbbbbbbbbbbbbbbbb\0sha2bbb\0Bob\x002 days ago\0second\0HEAD -> main\n";
    let log = parse(input);
    assert_eq!(log.entries.len(), 2);
    assert_eq!(log.entries[0].subject, "first");
    assert!(log.entries[0].refs.is_empty());
    assert_eq!(log.entries[1].subject, "second");
    assert_eq!(log.entries[1].refs, vec!["HEAD -> main"]);
}

#[test]
fn empty_input_yields_empty_log() {
    assert!(parse(b"").entries.is_empty());
    assert!(parse(b"\n").entries.is_empty());
}

#[test]
fn malformed_line_is_skipped() {
    // Only 3 NUL-separated fields where 6 are expected.
    let input = b"sha1\0short\0Alice\n";
    assert!(parse(input).entries.is_empty());
}

#[test]
fn refs_with_tag_prefix() {
    let input = b"sha1aaaaaaaaaaaaaaaaaaaaaaaaaaaaaaaaaaaaaaa\0sha1aaa\0Alice\x003 weeks ago\0release\0tag: v1.0, origin/main\n";
    let log = parse(input);
    assert_eq!(
        log.entries[0].refs,
        vec!["tag: v1.0".to_string(), "origin/main".to_string()]
    );
}

#[test]
fn subject_with_special_chars() {
    let input = b"sha1aaaaaaaaaaaaaaaaaaaaaaaaaaaaaaaaaaaaaaa\0sha1aaa\0Alice\x005 minutes ago\0fix: handle , and : in subject\0\n";
    let log = parse(input);
    assert_eq!(log.entries[0].subject, "fix: handle , and : in subject");
}

fn output(code: Option<i32>, stdout: &[u8], stderr: &[u8]) -> CommandOutput {
    CommandOutput {
        stdout: stdout.to_vec(),
        stderr: stderr.to_vec(),
        code,
        status_text: String::from("exit status"),
    }
}

#[test]
fn sixth_field_keeps_later_nuls() {
    let log = parse(b"s\0h\0a\0w\0subj\0HEAD\0extra\n");
    assert_eq!(log.entries.len(), 1);
    assert_eq!(log.entries[0].refs, vec!["HEAD\0extra"]);
}

#[test]
fn last_line_without_newline_is_parsed() {
    let log = parse(b"s\0h\0a\0w\0subj\0");
    assert_eq!(log.entries.len(), 1);
    assert_eq!(log.entries[0].subject, "subj");
}

#[test]
fn load_of_empty_repository_is_empty_log() {
    let out = output(
        Some(128),
        b"",
        b"fatal: your current branch 'main' does not have any commits yet\n",
    );
    let log = load(Ok(out)).unwrap();
    assert!(log.is_empty());
    assert_eq!(log.len(), 0);
}

#[test]
fn load_failure_quotes_trimmed_stderr() {
    let out = output(Some(128), b"", b"  fatal: not a git repository \n");
    assert_eq!(
        load(Ok(out)).unwrap_err(),
        "git log failed: fatal: not a git repository"
    );
}

#[test]
fn load_passes_spawn_failure_through() {
    let r = load(Err("failed to spawn: git log".to_string()));
    assert_eq!(r.unwrap_err(), "failed to spawn: git log");
}

#[test]
fn load_success_parses_stdout() {
    let out = output(Some(0), b"s\0h\0Ann\0now\0msg\0tag: v2\n", b"");
    let log = load(Ok(out)).unwrap();
    assert_eq!(log.len(), 1);
    assert_eq!(log.entries[0].author, "Ann");
    assert_eq!(log.entries[0].refs, vec!["tag: v2"]);
}

#[test]
fn parse_text_reads_decoded_records() {
    let log = parse_text("s1\0s\0Zoë\x00now\0naïve subject\0tag: v1.0\nbad line\n");
    assert_eq!(log.entries.len(), 1);
    assert_eq!(log.entries[0].author, "Zoë");
    assert_eq!(log.entries[0].subject, "naïve subject");
    assert_eq!(log.entries[0].refs, vec!["tag: v1.0"]);
}
