use gitgud::app::{App, View};
use gitgud::commit_editor::EditorMode;
use gitgud::prompt::Prompt;
use gitgud::ui::{
    column_bounds, count_for, detail_kind, diff_line_kind, hints_for, label_with_count,
    pane_highlight, ref_kind, status_line_kind, truncate, DetailKind, DiffLineKind, HintStyle,
    RefKind, StatusLine,
};

#[test]
fn labels_and_counts() {
    assert_eq!(label_with_count("Status", Some(3)), "Status (3)");
    assert_eq!(label_with_count("Log", None), "Log");
    assert_eq!(label_with_count("Log", Some(1234)), "Log (1234)");
    let app = App::new();
    assert_eq!(count_for(View::Status, &app), Some(0));
    assert_eq!(count_for(View::Log, &app), None);
    assert_eq!(count_for(View::CommitEditor, &app), None);
}

#[test]
fn truncate_adds_ellipsis() {
    assert_eq!(truncate("Alice", 12), "Alice");
    assert_eq!(truncate("Bartholomew Jones", 12), "Bartholomew…");
    assert_eq!(truncate("héllo", 3), "hé…");
    assert_eq!(truncate("ab", 0), "…");
}

#[test]
fn classifiers() {
    assert_eq!(ref_kind("HEAD -> main"), RefKind::Head);
    assert_eq!(ref_kind("tag: v1.0"), RefKind::Tag);
    assert_eq!(ref_kind("origin/main"), RefKind::Remote);
    assert_eq!(ref_kind("main"), RefKind::Local);
    assert_eq!(diff_line_kind("+++ b/x"), DiffLineKind::FileHeader);
    assert_eq!(diff_line_kind("+x"), DiffLineKind::Added);
    assert_eq!(diff_line_kind("-x"), DiffLineKind::Removed);
    assert_eq!(diff_line_kind("@@ -1 +1 @@"), DiffLineKind::HunkHeader);
    assert_eq!(diff_line_kind("diff --git a b"), DiffLineKind::DiffHeader);
    assert_eq!(diff_line_kind(" ctx"), DiffLineKind::Plain);
    assert_eq!(detail_kind("commit abc"), DetailKind::Commit);
    assert_eq!(detail_kind("Date:   now"), DetailKind::Meta);
    assert_eq!(detail_kind(" src/a.rs | 3 ++-"), DetailKind::FileRow);
    assert_eq!(detail_kind(" 1 file changed, 2 insertions(+)"), DetailKind::Totals);
    assert_eq!(detail_kind("    fix parser"), DetailKind::Body);
    assert_eq!(column_bounds(0, 80), (50, 72));
    assert_eq!(column_bounds(0, 10), (10, 10));
    assert_eq!(column_bounds(3, 80), (72, 72));
}

#[test]
fn only_the_focused_pane_highlights_a_clamped_row() {
    assert_eq!(pane_highlight(true, 1, 3), Some(1));
    assert_eq!(pane_highlight(true, 7, 3), Some(2));
    assert_eq!(pane_highlight(false, 1, 3), None);
    assert_eq!(pane_highlight(true, 0, 0), None);
}

#[test]
fn pane_title_shows_the_row_count() {
    assert_eq!(gitgud::ui::pane_title("Staged", 12), " Staged (12) ");
    assert_eq!(gitgud::ui::pane_title("Unstaged", 0), " Unstaged (0) ");
}

#[test]
fn status_line_prefers_confirm_then_error_then_prompt() {
    let mut app = App::new();
    assert_eq!(status_line_kind(&app), StatusLine::StatusKeys);
    app.view = View::Log;
    assert_eq!(status_line_kind(&app), StatusLine::LogKeys);
    app.prompt = Some(Prompt::new());
    assert_eq!(status_line_kind(&app), StatusLine::PromptKeys);
    app.error = Some("boom".to_string());
    assert_eq!(status_line_kind(&app), StatusLine::Error);
    app.view = View::CommitEditor;
    assert_eq!(status_line_kind(&app), StatusLine::EditorQuit);
}

#[test]
fn hints_panel_switches_per_mode() {
    let (title, lines) = hints_for(&EditorMode::Normal);
    assert_eq!(title, " NORMAL mode ");
    assert_eq!(lines.len(), 4);
    assert_eq!(lines[3][2].text, "w  wq  x");
    assert_eq!(lines[3][2].style, HintStyle::Commit);
    assert_eq!(lines[3][4].style, HintStyle::Cancel);
    let (title, lines) = hints_for(&EditorMode::Insert);
    assert_eq!(title, " INSERT mode ");
    assert_eq!(lines.len(), 2);
    let (title, lines) = hints_for(&EditorMode::Command(String::new()));
    assert_eq!(title, " COMMAND mode ");
    assert_eq!(lines[0][0].text, ":w  :wq  :x   ");
}
