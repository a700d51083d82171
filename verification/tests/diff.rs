use gitgud::git::diff::parse;

// Built by joining so leading-space context lines survive.
fn sample() -> String {
    [
        "diff --git a/foo.rs b/foo.rs",
        "index 1111111..2222222 100644",
        "--- a/foo.rs",
        "+++ b/foo.rs",
        "@@ -1,3 +1,4 @@ fn main() {",
        " let a = 1;",
        "-let b = 2;",
        "+let b = 3;",
        "+let c = 4;",
        "@@ -10,2 +11,2 @@",
        " ctx",
        "-old",
        "+new",
    ]
    .join("\n")
        + "\n"
}

#[test]
fn splits_header_and_hunks() {
    let d = parse(&sample());
    assert_eq!(d.header_lines.len(), 4);
    assert_eq!(d.header_lines[0], "diff --git a/foo.rs b/foo.rs");
    assert_eq!(d.hunks.len(), 2);
    assert_eq!(d.hunks[0].header, "@@ -1,3 +1,4 @@ fn main() {");
    assert_eq!(d.hunks[0].lines.len(), 4);
    assert_eq!(d.hunks[1].header, "@@ -10,2 +11,2 @@");
    assert_eq!(d.hunks[1].lines, vec![" ctx", "-old", "+new"]);
}

#[test]
fn single_hunk_patch_roundtrips_header() {
    let d = parse(&sample());
    let p = d.single_hunk_patch(1).unwrap();
    assert!(p.starts_with("diff --git a/foo.rs b/foo.rs\n"));
    assert!(p.contains("--- a/foo.rs\n"));
    assert!(p.contains("+++ b/foo.rs\n"));
    assert!(p.contains("@@ -10,2 +11,2 @@\n"));
    assert!(p.ends_with("+new\n"));
    // Must not bleed the other hunk in.
    assert!(!p.contains("let b = 3;"));
}

#[test]
fn out_of_range_patch_is_none() {
    let d = parse(&sample());
    assert!(d.single_hunk_patch(2).is_none());
}

#[test]
fn no_newline_marker_stays_with_hunk() {
    let t = "--- a/x\n+++ b/x\n@@ -1 +1 @@\n-a\n+b\n\\ No newline at end of file\n";
    let d = parse(t);
    assert_eq!(d.hunks.len(), 1);
    assert_eq!(
        d.hunks[0].lines,
        vec!["-a", "+b", "\\ No newline at end of file"]
    );
}

#[test]
fn binary_or_empty_diff_has_no_hunks() {
    let d = parse("diff --git a/x b/x\nBinary files a/x and b/x differ\n");
    assert!(d.is_empty());
    assert!(d.single_hunk_patch(0).is_none());
    assert!(parse("").is_empty());
}

#[test]
fn crlf_lines_drop_the_carriage_return() {
    let d = parse("--- a/x\r\n+++ b/x\r\n@@ -1 +1 @@\r\n-a\r\n+b");
    assert_eq!(d.header_lines, vec!["--- a/x", "+++ b/x"]);
    assert_eq!(d.hunks[0].header, "@@ -1 +1 @@");
    assert_eq!(d.hunks[0].lines, vec!["-a", "+b"]);
}

#[test]
fn single_hunk_patch_exact_bytes() {
    let d = parse("--- a/x\n+++ b/x\n@@ -1 +1 @@\n-a\n+b\n@@ -5 +5 @@\n c\n");
    assert_eq!(
        d.single_hunk_patch(0).unwrap(),
        "--- a/x\n+++ b/x\n@@ -1 +1 @@\n-a\n+b\n"
    );
    assert_eq!(
        d.single_hunk_patch(1).unwrap(),
        "--- a/x\n+++ b/x\n@@ -5 +5 @@\n c\n"
    );
}
