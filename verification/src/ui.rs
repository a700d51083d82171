//! The decisions behind the screen: tab labels, row truncation and the
//! classification of lines and refs that the renderer colors.

use vstd::prelude::*;
use vstd::view::View as _;
use crate::app::{App, Pane, View};
use crate::commit_editor::EditorMode;
use crate::git::status::{FileEntry, FileStatus};
use crate::text::{
    chars_of, contains, contains_spec, decimal_spec, is_whitespace, usize_to_string, starts_with,
    string_from, trim_start_spec, unicode_whitespace,
};

verus! {

broadcast use vstd::string::group_string_axioms;

/// A tab label with its count, e.g. `Status (3)`.
pub fn label_with_count(label: &str, count: Option<usize>) -> (s: String)
    ensures
        match count {
            Some(n) => s@ == label@ + " ("@ + decimal_spec(n as int) + ")"@,
            None => s@ == label@,
        },
{
    let mut s = label.to_string();
    match count {
        Some(n) => {
            s.append(" (");
            let d = usize_to_string(n);
            s.append(d.as_str());
            s.append(")");
        },
        None => {},
    }
    s
}

/// The count a tab shows: every file for Status, the commits for Log (none
/// while the log is empty).
pub fn count_for(view: View, app: &App) -> (c: Option<usize>)
    ensures
        c == match view {
            View::Status => Some(app.status.entries@.len() as usize),
            View::Log => if app.log.entries@.len() == 0 {
                None::<usize>
            } else {
                Some(app.log.entries@.len() as usize)
            },
            View::CommitEditor => None::<usize>,
        },
{
    match view {
        View::Status => Some(app.status.entries.len()),
        View::Log => if app.log.is_empty() {
            None
        } else {
            Some(app.log.len())
        },
        View::CommitEditor => None,
    }
}

/// `s` cut to `max` characters: longer strings keep `max - 1` characters and
/// end in `…`.
pub fn truncate(s: &str, max: usize) -> (r: String)
    ensures
        s@.len() <= max ==> r@ == s@,
        s@.len() > max ==> r@ == s@.subrange(0, if max > 0 { max - 1 } else { 0 }).push('…'),
{
    let cs = chars_of(s);
    if cs.len() <= max {
        s.to_string()
    } else {
        let keep = if max > 0 { max - 1 } else { 0 };
        let mut r = string_from(&cs, 0, keep);
        r.push('…');
        r
    }
}

/// How a decoration chip is colored.
#[derive(Clone, Copy, Debug, PartialEq, Eq, Structural)]
pub enum RefKind {
    /// `HEAD ...`
    Head,
    /// `tag: ...`
    Tag,
    /// A remote-tracking ref such as `origin/main`.
    Remote,
    /// A local branch.
    Local,
}

pub open spec fn ref_kind_spec(r: Seq<char>) -> RefKind {
    if "HEAD"@.is_prefix_of(r) {
        RefKind::Head
    } else if "tag: "@.is_prefix_of(r) {
        RefKind::Tag
    } else if contains_spec(r, "/"@) {
        RefKind::Remote
    } else {
        RefKind::Local
    }
}

pub fn ref_kind(r: &str) -> (k: RefKind)
    ensures
        k == ref_kind_spec(r@),
{
    let cs = chars_of(r);
    if starts_with(&cs, "HEAD") {
        RefKind::Head
    } else if starts_with(&cs, "tag: ") {
        RefKind::Tag
    } else if contains(&cs, "/") {
        RefKind::Remote
    } else {
        RefKind::Local
    }
}

/// How a line of `git diff` output is colored.
#[derive(Clone, Copy, Debug, PartialEq, Eq, Structural)]
pub enum DiffLineKind {
    /// `+++` / `---` file headers.
    FileHeader,
    Added,
    Removed,
    HunkHeader,
    /// `diff ...`
    DiffHeader,
    Plain,
}

pub open spec fn diff_line_kind_spec(s: Seq<char>) -> DiffLineKind {
    if "+++"@.is_prefix_of(s) || "---"@.is_prefix_of(s) {
        DiffLineKind::FileHeader
    } else if "+"@.is_prefix_of(s) {
        DiffLineKind::Added
    } else if "-"@.is_prefix_of(s) {
        DiffLineKind::Removed
    } else if "@@"@.is_prefix_of(s) {
        DiffLineKind::HunkHeader
    } else if "diff "@.is_prefix_of(s) {
        DiffLineKind::DiffHeader
    } else {
        DiffLineKind::Plain
    }
}

pub fn diff_line_kind(s: &str) -> (k: DiffLineKind)
    ensures
        k == diff_line_kind_spec(s@),
{
    let cs = chars_of(s);
    if starts_with(&cs, "+++") || starts_with(&cs, "---") {
        DiffLineKind::FileHeader
    } else if starts_with(&cs, "+") {
        DiffLineKind::Added
    } else if starts_with(&cs, "-") {
        DiffLineKind::Removed
    } else if starts_with(&cs, "@@") {
        DiffLineKind::HunkHeader
    } else if starts_with(&cs, "diff ") {
        DiffLineKind::DiffHeader
    } else {
        DiffLineKind::Plain
    }
}

/// How a line of `git show --stat` output is colored.
#[derive(Clone, Copy, Debug, PartialEq, Eq, Structural)]
pub enum DetailKind {
    /// `commit <sha>`
    Commit,
    /// `Author:` / `Date:`
    Meta,
    /// A per-file `path | N +-` row.
    FileRow,
    /// The `N files changed, ...` footer.
    Totals,
    Body,
}

/// Whether `c` is an ASCII digit.
pub open spec fn ascii_digit(c: char) -> bool {
    '0' <= c && c <= '9'
}

pub open spec fn detail_kind_spec(s: Seq<char>) -> DetailKind {
    let t = trim_start_spec(s);
    if "commit "@.is_prefix_of(s) {
        DetailKind::Commit
    } else if "Author:"@.is_prefix_of(s) || "Date:"@.is_prefix_of(s) {
        DetailKind::Meta
    } else if contains_spec(s, " | "@) {
        DetailKind::FileRow
    } else if t.len() > 0 && ascii_digit(t[0]) && (contains_spec(s, "insertion"@) || contains_spec(
        s,
        "deletion"@,
    ) || contains_spec(s, "changed"@)) {
        DetailKind::Totals
    } else {
        DetailKind::Body
    }
}

/// The first character after leading whitespace, if any.
fn first_non_space(cs: &Vec<char>) -> (c: Option<char>)
    ensures
        trim_start_spec(cs@).len() == 0 ==> c is None,
        trim_start_spec(cs@).len() > 0 ==> c == Some(trim_start_spec(cs@)[0]),
{
    let n = cs.len();
    let mut i: usize = 0;
    assert(cs@.subrange(0, n as int) == cs@);
    while i < n && is_whitespace(cs[i])
        invariant
            i <= n == cs.len(),
            trim_start_spec(cs@) == trim_start_spec(cs@.subrange(i as int, n as int)),
        decreases n - i,
    {
        assert(cs@.subrange(i as int, n as int).drop_first() == cs@.subrange(i + 1, n as int));
        i += 1;
    }
    if i < n {
        Some(cs[i])
    } else {
        None
    }
}

pub fn detail_kind(s: &str) -> (k: DetailKind)
    ensures
        k == detail_kind_spec(s@),
{
    let cs = chars_of(s);
    if starts_with(&cs, "commit ") {
        DetailKind::Commit
    } else if starts_with(&cs, "Author:") || starts_with(&cs, "Date:") {
        DetailKind::Meta
    } else if contains(&cs, " | ") {
        DetailKind::FileRow
    } else {
        let digit = match first_non_space(&cs) {
            Some(c) => '0' <= c && c <= '9',
            None => false,
        };
        if digit && (contains(&cs, "insertion") || contains(&cs, "deletion") || contains(
            &cs,
            "changed",
        )) {
            DetailKind::Totals
        } else {
            DetailKind::Body
        }
    }
}

/// How a file's status code is colored in a pane.
#[derive(Clone, Copy, Debug, PartialEq, Eq, Structural)]
pub enum StatusColor {
    /// Added, renamed or copied.
    Staged,
    /// Modified or type-changed.
    Changed,
    /// Deleted, untracked or unmerged.
    Alert,
    Neutral,
}

/// The status shown for `e` in pane `p`: the index side in Staged, the
/// worktree side in Unstaged.
pub open spec fn pane_status(e: FileEntry, p: Pane) -> FileStatus {
    match p {
        Pane::Staged => e.index,
        Pane::Unstaged => e.worktree,
    }
}

pub open spec fn status_color_spec(s: FileStatus) -> StatusColor {
    match s {
        FileStatus::Added | FileStatus::Renamed | FileStatus::Copied => StatusColor::Staged,
        FileStatus::Modified | FileStatus::TypeChange => StatusColor::Changed,
        FileStatus::Deleted | FileStatus::Untracked | FileStatus::Unmerged => StatusColor::Alert,
        _ => StatusColor::Neutral,
    }
}

/// The status code character and its color for `e` in pane `p`.
pub fn symbol_and_color(e: &FileEntry, p: Pane) -> (r: (char, StatusColor))
    ensures
        r.0 == crate::git::status::symbol_of(pane_status(*e, p)),
        r.1 == status_color_spec(pane_status(*e, p)),
{
    let s = match p {
        Pane::Staged => &e.index,
        Pane::Unstaged => &e.worktree,
    };
    let color = match s {
        FileStatus::Added | FileStatus::Renamed | FileStatus::Copied => StatusColor::Staged,
        FileStatus::Modified | FileStatus::TypeChange => StatusColor::Changed,
        FileStatus::Deleted | FileStatus::Untracked | FileStatus::Unmerged => StatusColor::Alert,
        _ => StatusColor::Neutral,
    };
    (s.symbol(), color)
}

/// Subject lines go yellow past 50 characters and red past 72; body lines
/// go red past 72.
pub const SUBJECT_SOFT_LIMIT: usize = 50;
pub const SUBJECT_HARD_LIMIT: usize = 72;
pub const BODY_LIMIT: usize = 72;

/// Where the normal and the warning parts of an editor line end, for a line
/// of `len` characters at row `row`: characters before the first bound are
/// plain, up to the second are a warning, the rest are over the limit.
pub fn column_bounds(row: usize, len: usize) -> (b: (usize, usize))
    ensures
        ({
            let soft = if row == 0 { SUBJECT_SOFT_LIMIT } else { BODY_LIMIT };
            let hard = if row == 0 { SUBJECT_HARD_LIMIT } else { BODY_LIMIT };
            &&& b.0 == if soft < len { soft } else { len }
            &&& b.1 == if hard < len { hard } else { len }
        }),
{
    let (soft, hard) = if row == 0 {
        (SUBJECT_SOFT_LIMIT, SUBJECT_HARD_LIMIT)
    } else {
        (BODY_LIMIT, BODY_LIMIT)
    };
    let normal_end = if soft < len { soft } else { len };
    let warn_end = if hard < len { hard } else { len };
    (normal_end, warn_end)
}


// --- focused pane ---------------------------------------------------------------

/// The row a file pane highlights: only the focused pane highlights one, the
/// selection clamped to the last row; an empty pane highlights nothing.
pub fn pane_highlight(focused: bool, selected: usize, n: usize) -> (r: Option<usize>)
    ensures
        r == (if focused && n > 0 {
            Some(if selected < n { selected } else { (n - 1) as usize })
        } else {
            None::<usize>
        }),
{
    if focused && n > 0 {
        Some(if selected < n { selected } else { n - 1 })
    } else {
        None
    }
}

/// A pane's border title with its row count, e.g. ` Staged (2) `.
pub fn pane_title(title: &str, n: usize) -> (s: String)
    ensures
        s@ == " "@ + title@ + " ("@ + decimal_spec(n as int) + ") "@,
{
    let mut s = String::from_str(" ");
    s.append(title);
    s.append(" (");
    let d = usize_to_string(n);
    s.append(d.as_str());
    s.append(") ");
    s
}

// --- bottom status line -----------------------------------------------------------

/// What the one-row status line at the bottom shows.
#[derive(Clone, Copy, Debug, PartialEq, Eq, Structural)]
pub enum StatusLine {
    /// The pending confirmation's question with `[y]` / `[N]`.
    Confirm,
    /// The current error with `[Esc] dismiss`.
    Error,
    /// The slash prompt's keys: back, history, run.
    PromptKeys,
    /// The Status view's key bindings.
    StatusKeys,
    /// The Log view's key bindings.
    LogKeys,
    /// Only `[Ctrl+C] quit`, in the commit editor.
    EditorQuit,
}

/// The status line of a view: in the commit editor only the quit hint; in a
/// tab a pending confirmation comes first, then a standing error (preferred
/// over the prompt's keys until it is dismissed), then the prompt's keys,
/// then the view's key bindings.
pub open spec fn status_line_spec(view: View, confirm: bool, error: bool, prompt: bool) -> StatusLine {
    match view {
        View::CommitEditor => StatusLine::EditorQuit,
        _ => if confirm {
            StatusLine::Confirm
        } else if error {
            StatusLine::Error
        } else if prompt {
            StatusLine::PromptKeys
        } else if view == View::Status {
            StatusLine::StatusKeys
        } else {
            StatusLine::LogKeys
        },
    }
}

/// What the status line shows for the app's current state.
pub fn status_line_kind(app: &App) -> (k: StatusLine)
    ensures
        k == status_line_spec(app.view, app.confirm is Some, app.error is Some, app.prompt is Some),
{
    match app.view {
        View::CommitEditor => StatusLine::EditorQuit,
        View::Status | View::Log => if app.confirm.is_some() {
            StatusLine::Confirm
        } else if app.error.is_some() {
            StatusLine::Error
        } else if app.prompt.is_some() {
            StatusLine::PromptKeys
        } else if matches!(app.view, View::Status) {
            StatusLine::StatusKeys
        } else {
            StatusLine::LogKeys
        },
    }
}

// --- commit editor hints panel ------------------------------------------------------

/// How a piece of hint text is emphasised.
#[derive(Clone, Copy, Debug, PartialEq, Eq, Structural)]
pub enum HintStyle {
    Plain,
    /// A key or command name.
    Bold,
    /// The commands that commit.
    Commit,
    /// The commands that cancel.
    Cancel,
}

/// A piece of a hint line.
pub struct HintSpan {
    pub text: String,
    pub style: HintStyle,
}

/// The view of hint lines: each line a sequence of (text, style) pieces.
pub open spec fn hint_lines_view(ls: Seq<Vec<HintSpan>>) -> Seq<Seq<(Seq<char>, HintStyle)>> {
    ls.map_values(|l: Vec<HintSpan>| l@.map_values(|h: HintSpan| (h.text@, h.style)))
}

/// The hints panel of each editor mode: its title and its lines. Normal mode
/// lists the motions, inserts, deletes and commands; Insert and Command mode
/// their narrower sets.
pub open spec fn hints_spec(m: EditorMode) -> (Seq<char>, Seq<Seq<(Seq<char>, HintStyle)>>) {
    match m {
        EditorMode::Normal => (
            " NORMAL mode "@,
            seq![
                seq![
                    ("Move:    "@, HintStyle::Bold),
                    ("h j k l  ·  0 $ line ends  ·  w b word  ·  gg G top/bottom"@, HintStyle::Plain),
                ],
                seq![
                    ("Insert:  "@, HintStyle::Bold),
                    ("i at cursor  ·  a after  ·  I line start  ·  A line end  ·  o below  ·  O above"@, HintStyle::Plain),
                ],
                seq![
                    ("Delete:  "@, HintStyle::Bold),
                    ("x char  ·  dd line  ·  dw word  ·  D to end of line"@, HintStyle::Plain),
                ],
                seq![
                    ("Command: "@, HintStyle::Bold),
                    (":  then  "@, HintStyle::Plain),
                    ("w  wq  x"@, HintStyle::Commit),
                    (" commit  ·  "@, HintStyle::Plain),
                    ("q!  q"@, HintStyle::Cancel),
                    (" cancel"@, HintStyle::Plain),
                ],
            ],
        ),
        EditorMode::Insert => (
            " INSERT mode "@,
            seq![
                seq![
                    ("Type to insert text.  Enter for newline.  Arrows / Home / End / Backspace / Delete to edit."@, HintStyle::Plain),
                ],
                seq![("Esc "@, HintStyle::Bold), ("returns to NORMAL mode."@, HintStyle::Plain)],
            ],
        ),
        EditorMode::Command(_) => (
            " COMMAND mode "@,
            seq![
                seq![(":w  :wq  :x   "@, HintStyle::Bold), ("commit the message (write & quit)"@, HintStyle::Plain)],
                seq![(":q!           "@, HintStyle::Bold), ("cancel and discard the message"@, HintStyle::Plain)],
                seq![(":q            "@, HintStyle::Bold), ("cancel (only if buffer is empty)"@, HintStyle::Plain)],
                seq![
                    ("Enter "@, HintStyle::Bold),
                    ("executes  ·  "@, HintStyle::Plain),
                    ("Esc "@, HintStyle::Bold),
                    ("returns to NORMAL"@, HintStyle::Plain),
                ],
            ],
        ),
    }
}

fn hint(text: &str, style: HintStyle) -> (h: HintSpan)
    ensures
        h.text@ == text@,
        h.style == style,
{
    HintSpan { text: String::from_str(text), style }
}

/// The title and lines of the hints panel for an editor mode.
pub fn hints_for(mode: &EditorMode) -> (h: (String, Vec<Vec<HintSpan>>))
    ensures
        h.0@ == hints_spec(*mode).0,
        hint_lines_view(h.1@) == hints_spec(*mode).1,
{
    match mode {
        EditorMode::Normal => {
            let l1 = vec![
                hint("Move:    ", HintStyle::Bold),
                hint("h j k l  ·  0 $ line ends  ·  w b word  ·  gg G top/bottom", HintStyle::Plain),
            ];
            let l2 = vec![
                hint("Insert:  ", HintStyle::Bold),
                hint("i at cursor  ·  a after  ·  I line start  ·  A line end  ·  o below  ·  O above", HintStyle::Plain),
            ];
            let l3 = vec![
                hint("Delete:  ", HintStyle::Bold),
                hint("x char  ·  dd line  ·  dw word  ·  D to end of line", HintStyle::Plain),
            ];
            let l4 = vec![
                hint("Command: ", HintStyle::Bold),
                hint(":  then  ", HintStyle::Plain),
                hint("w  wq  x", HintStyle::Commit),
                hint(" commit  ·  ", HintStyle::Plain),
                hint("q!  q", HintStyle::Cancel),
                hint(" cancel", HintStyle::Plain),
            ];
            let lines = vec![l1, l2, l3, l4];
            assert(hint_lines_view(lines@) =~~= hints_spec(*mode).1);
            (String::from_str(" NORMAL mode "), lines)
        },
        EditorMode::Insert => {
            let l1 = vec![
                hint("Type to insert text.  Enter for newline.  Arrows / Home / End / Backspace / Delete to edit.", HintStyle::Plain),
            ];
            let l2 = vec![hint("Esc ", HintStyle::Bold), hint("returns to NORMAL mode.", HintStyle::Plain)];
            let lines = vec![l1, l2];
            assert(hint_lines_view(lines@) =~~= hints_spec(*mode).1);
            (String::from_str(" INSERT mode "), lines)
        },
        EditorMode::Command(_) => {
            let l1 = vec![hint(":w  :wq  :x   ", HintStyle::Bold), hint("commit the message (write & quit)", HintStyle::Plain)];
            let l2 = vec![hint(":q!           ", HintStyle::Bold), hint("cancel and discard the message", HintStyle::Plain)];
            let l3 = vec![hint(":q            ", HintStyle::Bold), hint("cancel (only if buffer is empty)", HintStyle::Plain)];
            let l4 = vec![
                hint("Enter ", HintStyle::Bold),
                hint("executes  ·  ", HintStyle::Plain),
                hint("Esc ", HintStyle::Bold),
                hint("returns to NORMAL", HintStyle::Plain),
            ];
            let lines = vec![l1, l2, l3, l4];
            assert(hint_lines_view(lines@) =~~= hints_spec(*mode).1);
            (String::from_str(" COMMAND mode "), lines)
        },
    }
}

} // verus!
