//! Application state and its transitions.
//!
//! Every handler is a verified function of the state (and a key, or the
//! output of a `git` run). Handlers never run git themselves: they push
//! [`Task`]s, and the driver asks [`App::next_request`] for the next `git`
//! process to run and hands its output back through [`App::complete`].

use vstd::prelude::*;
use vstd::view::View as _;
use crate::commit_editor::{CommitEditor, EditorMode, SubmitIntent, command_intent};
use crate::git::{self, GitCmd};
use crate::git::diff;
use crate::git::log::{LogEntry, LogList, entries_view};
use crate::git::runner::CommandOutput;
use crate::git::status::{FileEntry, FileStatus, StatusList, staged_entries, unstaged_entries};
use crate::history::History;
use crate::prompt::{Prompt, shell_split, shell_split_spec, strings_view};
use crate::action::Action;
use crate::keymap::{Key, KeyCode, KeyKind, action_for, is_ctrl_c, is_quit_chord, key_to_action};
use crate::text::{chars_eq, chars_of, decimal_spec, i64_to_string, starts_with, str_eq, trim, trim_spec, lossy_text};

verus! {

broadcast use vstd::string::group_string_axioms;

#[derive(Clone, Copy, Debug, PartialEq, Eq, Structural)]
pub enum Pane {
    Unstaged,
    Staged,
}

#[derive(Clone, Copy, Debug, PartialEq, Eq, Structural)]
pub enum View {
    Status,
    Log,
    CommitEditor,
}

impl View {
    /// Status and Log are tabs; the commit editor takes over the screen.
    pub fn is_tabbed(self) -> (b: bool)
        ensures
            b == (self == View::Status || self == View::Log),
    {
        match self {
            View::Status | View::Log => true,
            View::CommitEditor => false,
        }
    }
}

/// A destructive command waiting for `y/N`.
pub struct PendingConfirm {
    pub prompt: String,
    pub cmd: GitCmd,
}

/// A `git` process for the driver to run, with the bytes for its stdin.
pub struct GitRequest {
    pub cmd: GitCmd,
    pub stdin: Option<String>,
}

/// Work queued by a handler, done in last-in first-out order.
pub enum Task {
    RefreshStatus,
    /// Reload the status after a user command, keeping the error the
    /// command left.
    ReloadStatus,
    RefreshDiff,
    RefreshLog,
    RefreshLogDetail,
    /// Run a user-initiated command, then reload status and record it.
    RunAction(GitCmd),
    /// `git commit -F -` with this message on stdin.
    Commit(String),
    /// Record a command line into the history.
    Record(String),
}

/// What the output of the outstanding `git` run is for.
pub enum Awaiting {
    Status,
    /// The status reload that follows a user command.
    Reload,
    Diff,
    Log,
    LogDetail,
    /// A user-initiated command, with its command line.
    Action(String),
    /// The commit, with its command line.
    Commit(String),
}

pub struct App {
    pub status: StatusList,
    pub focused: Pane,
    pub unstaged_selected: usize,
    pub staged_selected: usize,
    pub diff: String,
    pub log: LogList,
    pub log_selected: usize,
    pub log_detail: String,
    pub history: History,
    pub should_quit: bool,
    pub error: Option<String>,
    pub view: View,
    pub commit_editor: CommitEditor,
    /// `Some` while the slash prompt is open in a tabbed view.
    pub prompt: Option<Prompt>,
    /// `Some` while a destructive command awaits confirmation.
    pub confirm: Option<PendingConfirm>,
    /// Queued work; the last task is done first.
    pub tasks: Vec<Task>,
    /// Set while a requested `git` run has not been completed.
    pub awaiting: Option<Awaiting>,
}

/// `sel` clamped to a list of `len` items.
pub open spec fn clamp_sel_spec(sel: int, len: int) -> int {
    if len == 0 { 0 } else if sel >= len { len - 1 } else { sel }
}

/// `v` clamped to `[lo, hi]`.
pub open spec fn clamp_int(v: int, lo: int, hi: int) -> int {
    if v < lo { lo } else if v > hi { hi } else { v }
}

/// The entries of the focused pane.
pub open spec fn pane_entries(s: StatusList, p: Pane) -> Seq<FileEntry> {
    match p {
        Pane::Unstaged => unstaged_entries(s.entries@),
        Pane::Staged => staged_entries(s.entries@),
    }
}

impl App {
    /// The editor and the open prompt are in their valid states.
    pub open spec fn wf(&self) -> bool {
        &&& self.commit_editor.inv()
        &&& (self.prompt matches Some(p) ==> p.wf())
    }

    /// The selection index of the focused pane.
    pub open spec fn focused_selection(&self) -> usize {
        match self.focused {
            Pane::Unstaged => self.unstaged_selected,
            Pane::Staged => self.staged_selected,
        }
    }

    /// The entry under the cursor of the focused pane.
    pub open spec fn selected_entry_spec(&self) -> Option<FileEntry> {
        let es = pane_entries(self.status, self.focused);
        let i = self.focused_selection();
        if i < es.len() { Some(es[i as int]) } else { None }
    }

    /// The commit under the cursor of the log.
    pub open spec fn selected_commit_spec(&self) -> Option<LogEntry> {
        if self.log_selected < self.log.entries@.len() {
            Some(self.log.entries@[self.log_selected as int])
        } else {
            None
        }
    }

    /// The state at start-up: the Status view, nothing loaded yet, and a
    /// status refresh queued.
    pub fn new() -> (app: Self)
        ensures
            app.wf(),
            app.status.entries@.len() == 0,
            app.focused == Pane::Unstaged,
            app.unstaged_selected == 0,
            app.staged_selected == 0,
            app.diff@.len() == 0,
            app.log.entries@.len() == 0,
            app.log_selected == 0,
            app.log_detail@.len() == 0,
            app.history.entries_view().len() == 0,
            !app.should_quit,
            app.error is None,
            app.view == View::Status,
            app.commit_editor.text() == seq![Seq::<char>::empty()],
            app.commit_editor.mode == EditorMode::Normal,
            app.prompt is None,
            app.confirm is None,
            app.tasks@ == seq![Task::RefreshStatus],
            app.awaiting is None,
    {
        let mut app = App {
            status: StatusList::new(),
            focused: Pane::Unstaged,
            unstaged_selected: 0,
            staged_selected: 0,
            diff: String::new(),
            log: LogList::new(),
            log_selected: 0,
            log_detail: String::new(),
            history: History::new(),
            should_quit: false,
            error: None,
            view: View::Status,
            commit_editor: CommitEditor::new(),
            prompt: None,
            confirm: None,
            tasks: Vec::new(),
            awaiting: None,
        };
        app.refresh_status();
        app
    }

    // --- queries -----------------------------------------------------------------

    pub fn selected_commit(&self) -> (c: Option<&LogEntry>)
        ensures
            match c {
                Some(e) => self.selected_commit_spec() == Some(*e),
                None => self.selected_commit_spec() is None,
            },
    {
        if self.log_selected < self.log.entries.len() {
            Some(&self.log.entries[self.log_selected])
        } else {
            None
        }
    }

    pub fn selected_entry(&self) -> (e: Option<&FileEntry>)
        ensures
            match e {
                Some(x) => self.selected_entry_spec() == Some(*x),
                None => self.selected_entry_spec() is None,
            },
    {
        let v = match self.focused {
            Pane::Unstaged => self.status.unstaged(),
            Pane::Staged => self.status.staged(),
        };
        let i = match self.focused {
            Pane::Unstaged => self.unstaged_selected,
            Pane::Staged => self.staged_selected,
        };
        if i < v.len() {
            assert(v@.map_values(|e: &FileEntry| *e)[i as int] == *v@[i as int]);
            Some(v[i])
        } else {
            None
        }
    }

    /// Number of entries in the focused pane.
    fn pane_len(&self) -> (n: usize)
        ensures
            n == pane_entries(self.status, self.focused).len(),
    {
        match self.focused {
            Pane::Unstaged => self.status.unstaged().len(),
            Pane::Staged => self.status.staged().len(),
        }
    }

    /// The most recent command line, for the command bar.
    pub fn last_command(&self) -> (r: Option<&str>)
        ensures
            self.history.entries_view().len() == 0 ==> r is None,
            self.history.entries_view().len() > 0 ==> r is Some && r->0@
                == self.history.entries_view().last(),
    {
        self.history.last()
    }

    // --- queuing refreshes -----------------------------------------------------------

    /// Queues a reload of `git status` (followed by the diff of the selection).
    pub fn refresh_status(&mut self)
        ensures
            *final(self) == (App { tasks: final(self).tasks, ..*old(self) }),
            final(self).tasks@ == old(self).tasks@.push(Task::RefreshStatus),
    {
        self.tasks.push(Task::RefreshStatus);
    }

    /// Queues a reload of the diff of the selected file.
    pub fn refresh_diff(&mut self)
        ensures
            *final(self) == (App { tasks: final(self).tasks, ..*old(self) }),
            final(self).tasks@ == old(self).tasks@.push(Task::RefreshDiff),
    {
        self.tasks.push(Task::RefreshDiff);
    }

    /// Queues a reload of `git log` (followed by the selected commit's detail).
    pub fn refresh_log(&mut self)
        ensures
            *final(self) == (App { tasks: final(self).tasks, ..*old(self) }),
            final(self).tasks@ == old(self).tasks@.push(Task::RefreshLog),
    {
        self.tasks.push(Task::RefreshLog);
    }

    /// Queues a reload of the selected commit's `git show --stat`.
    pub fn refresh_log_detail(&mut self)
        ensures
            *final(self) == (App { tasks: final(self).tasks, ..*old(self) }),
            final(self).tasks@ == old(self).tasks@.push(Task::RefreshLogDetail),
    {
        self.tasks.push(Task::RefreshLogDetail);
    }
}

/// `sel` clamped to a list of `len` items.
pub fn clamp_sel(sel: usize, len: usize) -> (r: usize)
    ensures
        r == clamp_sel_spec(sel as int, len as int),
{
    if len == 0 {
        0
    } else if sel >= len {
        len - 1
    } else {
        sel
    }
}


/// `a + b` as a new string.
fn join2(a: &str, b: &str) -> (s: String)
    ensures
        s@ == a@ + b@,
{
    let mut s = a.to_string();
    s.append(b);
    s
}

/// `a + b + c` as a new string.
fn join3(a: &str, b: &str, c: &str) -> (s: String)
    ensures
        s@ == a@ + b@ + c@,
{
    let mut s = a.to_string();
    s.append(b);
    s.append(c);
    s
}

/// The arguments of the diff shown for entry `e` in pane `p`: untracked files
/// diff against `/dev/null`; the Staged pane shows the cached diff.
pub open spec fn diff_args(e: FileEntry, p: Pane) -> Seq<Seq<char>> {
    if e.index is Untracked {
        seq!["diff"@, "--no-index"@, "--"@, "/dev/null"@, e.path@]
    } else if p == Pane::Staged {
        seq!["diff"@, "--cached"@, "--"@, e.path@]
    } else {
        seq!["diff"@, "--"@, e.path@]
    }
}

/// The text of the diff pane after a `git diff` run.
pub open spec fn diff_text(out: Result<CommandOutput, String>) -> Seq<char> {
    match out {
        Ok(o) => if o.stdout@.len() > 0 {
            lossy_text(o.stdout@)
        } else if o.code != Some(0i32) {
            "(git diff exited "@ + o.status_text@ + ")\n"@ + lossy_text(o.stderr@)
        } else {
            Seq::empty()
        },
        Err(e) => "(error: "@ + e@ + ")"@,
    }
}

/// The text of the log detail pane after a `git show --stat` run.
pub open spec fn detail_text(out: Result<CommandOutput, String>) -> Seq<char> {
    match out {
        Ok(o) => if o.code == Some(0i32) {
            lossy_text(o.stdout@)
        } else {
            "(git show exited "@ + o.status_text@ + ")\n"@ + lossy_text(o.stderr@)
        },
        Err(e) => "(error: "@ + e@ + ")"@,
    }
}

/// The error a user-initiated command leaves: none on success, else its
/// command line with the trimmed stderr or the failure to start git.
pub open spec fn action_error(display: Seq<char>, out: Result<CommandOutput, String>) -> Option<Seq<char>> {
    match out {
        Ok(o) => if o.code == Some(0i32) {
            None
        } else {
            Some(display + ": "@ + trim_spec(lossy_text(o.stderr@)))
        },
        Err(e) => Some(display + ": "@ + e@),
    }
}

/// The editor status message a failed commit leaves (`None` on success).
pub open spec fn commit_failure(display: Seq<char>, out: Result<CommandOutput, String>) -> Option<Seq<char>> {
    match out {
        Ok(o) => if o.code == Some(0i32) {
            None
        } else {
            let err = trim_spec(lossy_text(o.stderr@));
            if err.len() == 0 {
                Some("commit failed (exit "@ + match o.code {
                    Some(c) => decimal_spec(c as int),
                    None => "signal"@,
                } + ")"@)
            } else {
                Some("commit failed: "@ + err)
            }
        },
        Err(e) => Some(display + ": "@ + e@),
    }
}

/// The arguments of `git commit -F -`.
pub open spec fn commit_args() -> Seq<Seq<char>> {
    seq!["commit"@, "-F"@, "-"@]
}

/// Tasks that finish without running `git`: recording a command line, and a
/// diff or detail refresh with nothing selected.
pub open spec fn instant(app: App, t: Task) -> bool {
    ||| t is Record
    ||| (t is RefreshDiff && app.selected_entry_spec() is None)
    ||| (t is RefreshLogDetail && app.selected_commit_spec() is None)
}

/// The index of the last task in `ts` that needs a `git` run, or -1.
pub open spec fn last_pending(app: App, ts: Seq<Task>) -> int
    decreases ts.len(),
{
    if ts.len() == 0 {
        -1
    } else if instant(app, ts.last()) {
        last_pending(app, ts.drop_last())
    } else {
        ts.len() - 1
    }
}

/// The history after the `Record` tasks of `ts` ran, the last task first.
pub open spec fn history_after(h: Seq<Seq<char>>, ts: Seq<Task>) -> Seq<Seq<char>>
    decreases ts.len(),
{
    if ts.len() == 0 {
        h
    } else {
        let h1 = history_after(h, ts.drop_first());
        match ts[0] {
            Task::Record(s) => crate::history::recorded(h1, s@),
            _ => h1,
        }
    }
}

/// A one-task queue: its history step, and which tasks it contains.
proof fn lemma_one_task(h: Seq<Seq<char>>, t: Task)
    ensures
        history_after(h, seq![t]) == match t {
            Task::Record(s) => crate::history::recorded(h, s@),
            _ => h,
        },
        forall|x: Task| seq![t].contains(x) <==> t == x,
{
    assert(seq![t].drop_first() =~= Seq::<Task>::empty());
    assert(history_after(h, Seq::<Task>::empty()) == h);
    assert(seq![t][0] == t);
    assert forall|x: Task| seq![t].contains(x) <==> t == x by {
        if t == x {
            assert(seq![t][0] == x);
        }
    }
}

/// Running the instant tasks `done`, the last first, took `pre` to `post`:
/// their command lines were recorded and their refreshes cleared the diff or
/// the commit detail.
pub open spec fn drained(pre: App, post: App, done: Seq<Task>) -> bool {
    &&& post.history.entries_view() == history_after(pre.history.entries_view(), done)
    &&& post.diff@ == if done.contains(Task::RefreshDiff) { Seq::<char>::empty() } else { pre.diff@ }
    &&& post.log_detail@ == if done.contains(Task::RefreshLogDetail) {
        Seq::<char>::empty()
    } else {
        pre.log_detail@
    }
    &&& post == (App {
        history: post.history,
        diff: post.diff,
        log_detail: post.log_detail,
        tasks: post.tasks,
        ..pre
    })
}

/// Draining `d` and then one more task `t` drains `[t] + d`.
proof fn lemma_drained_step(a: App, b: App, c: App, d: Seq<Task>, t: Task)
    requires
        drained(a, b, d),
        drained(b, c, seq![t]),
    ensures
        drained(a, c, seq![t] + d),
{
    let e = seq![t] + d;
    lemma_one_task(b.history.entries_view(), t);
    assert(e.drop_first() =~= d);
    assert(e[0] == t);
    assert forall|x: Task| e.contains(x) <==> (t == x || d.contains(x)) by {
        if t == x {
            assert(e[0] == x);
        }
        if d.contains(x) {
            let i = choose|i: int| 0 <= i < d.len() && d[i] == x;
            assert(e[i + 1] == x);
        }
        if e.contains(x) {
            let i = choose|i: int| 0 <= i < e.len() && e[i] == x;
            if i > 0 {
                assert(d[i - 1] == x);
            }
        }
    }
}

/// A refresh started: its command line recorded, and `git` asked to run `args`.
pub open spec fn refresh_started(
    pre: App,
    post: App,
    r: Option<GitRequest>,
    args: Seq<Seq<char>>,
    w: Awaiting,
) -> bool {
    &&& r is Some
    &&& r->0.cmd.args_view() == args
    &&& r->0.stdin is None
    &&& post.awaiting == Some(w)
    &&& post.history.entries_view() == crate::history::recorded(
        pre.history.entries_view(),
        crate::git::display_spec(args),
    )
    &&& post == (App { history: post.history, awaiting: post.awaiting, ..pre })
}

/// Starting the task `t`, which needs a `git` run, took `pre` to `post` and
/// asked for the run `r`.
pub open spec fn started(pre: App, post: App, t: Task, r: Option<GitRequest>) -> bool {
    match t {
        Task::RefreshStatus => refresh_started(
            pre,
            post,
            r,
            seq!["status"@, "--porcelain=v1"@, "-z"@],
            Awaiting::Status,
        ),
        Task::ReloadStatus => refresh_started(
            pre,
            post,
            r,
            seq!["status"@, "--porcelain=v1"@, "-z"@],
            Awaiting::Reload,
        ),
        Task::RefreshDiff => pre.selected_entry_spec() is Some && refresh_started(
            pre,
            post,
            r,
            diff_args(pre.selected_entry_spec()->0, pre.focused),
            Awaiting::Diff,
        ),
        Task::RefreshLog => refresh_started(
            pre,
            post,
            r,
            seq!["log"@, crate::git::log::FORMAT_ARG@, "-n"@, "200"@],
            Awaiting::Log,
        ),
        Task::RefreshLogDetail => pre.selected_commit_spec() is Some && refresh_started(
            pre,
            post,
            r,
            seq!["show"@, "--stat"@, "--no-color"@, pre.selected_commit_spec()->0.sha@],
            Awaiting::LogDetail,
        ),
        Task::RunAction(cmd) => {
            &&& r is Some && r->0.cmd == cmd && r->0.stdin is None
            &&& post.awaiting is Some && post.awaiting->0 is Action
            &&& post.awaiting->0->Action_0@ == crate::git::display_spec(cmd.args_view())
            &&& post == (App { awaiting: post.awaiting, ..pre })
        },
        Task::Commit(msg) => {
            &&& r is Some && r->0.cmd.args_view() == commit_args()
            &&& r->0.stdin == Some(msg)
            &&& post.awaiting is Some && post.awaiting->0 is Commit
            &&& post.awaiting->0->Commit_0@ == crate::git::display_spec(commit_args())
            &&& post == (App { awaiting: post.awaiting, ..pre })
        },
        Task::Record(_) => false,
    }
}

impl App {
    /// What `next_request` does: the instant tasks at the end of the queue
    /// run, and then either the queue is empty and no run is asked for, or the
    /// last task that needs `git` is started and removed with them.
    pub open spec fn next_request_post(pre: Self, post: Self, r: Option<GitRequest>) -> bool {
        let ts = pre.tasks@;
        let k = last_pending(pre, ts);
        &&& k < 0 ==> r is None && post.tasks@.len() == 0 && drained(pre, post, ts)
        &&& k >= 0 ==> post.tasks@ == ts.take(k) && exists|mid: App|
            #[trigger] drained(pre, mid, ts.skip(k + 1)) && mid.tasks@ == ts.take(k) && started(
                mid,
                post,
                ts[k],
                r,
            )
    }
}

impl App {
    /// The diff command for the selected entry, if any entry is selected.
    fn diff_cmd(&self) -> (c: Option<GitCmd>)
        ensures
            match self.selected_entry_spec() {
                Some(e) => c is Some && c->0.args_view() == diff_args(e, self.focused)
                    && c->0.cwd_view() is None,
                None => c is None,
            },
    {
        let e = match self.selected_entry() {
            Some(e) => e,
            None => return None,
        };
        let path = e.path.as_str();
        let cmd = if matches!(e.index, FileStatus::Untracked) {
            GitCmd::new("diff").arg("--no-index").arg("--").arg("/dev/null").arg(path)
        } else if self.focused == Pane::Staged {
            GitCmd::new("diff").arg("--cached").arg("--").arg(path)
        } else {
            GitCmd::new("diff").arg("--").arg(path)
        };
        Some(cmd)
    }

    /// Starts one queued task: either finishes it on the spot (returning
    /// `None`) or records the command line of a refresh in the history, sets
    /// what the output is awaited for, and returns the `git` run to make.
    fn start_task(&mut self, t: Task) -> (r: Option<GitRequest>)
        requires
            old(self).wf(),
        ensures
            final(self).wf(),
            final(self).tasks == old(self).tasks,
            r is Some ==> final(self).awaiting is Some,
            r is None ==> final(self).awaiting == old(self).awaiting,
            instant(*old(self), t) ==> r is None && drained(*old(self), *final(self), seq![t]),
            !instant(*old(self), t) ==> started(*old(self), *final(self), t, r),
    {
        proof {
            lemma_one_task(self.history.entries_view(), t);
        }
        match t {
            Task::RefreshStatus => {
                let cmd = git::status::cmd();
                let d = cmd.display();
                self.history.record(d.as_str());
                self.awaiting = Some(Awaiting::Status);
                Some(GitRequest { cmd, stdin: None })
            },
            Task::ReloadStatus => {
                let cmd = git::status::cmd();
                let d = cmd.display();
                self.history.record(d.as_str());
                self.awaiting = Some(Awaiting::Reload);
                Some(GitRequest { cmd, stdin: None })
            },
            Task::RefreshDiff => match self.diff_cmd() {
                Some(cmd) => {
                    let d = cmd.display();
                    self.history.record(d.as_str());
                    self.awaiting = Some(Awaiting::Diff);
                    Some(GitRequest { cmd, stdin: None })
                },
                None => {
                    self.diff = String::new();
                    None
                },
            },
            Task::RefreshLog => {
                let cmd = git::log::cmd();
                let d = cmd.display();
                self.history.record(d.as_str());
                self.awaiting = Some(Awaiting::Log);
                Some(GitRequest { cmd, stdin: None })
            },
            Task::RefreshLogDetail => {
                let cmd = match self.selected_commit() {
                    Some(c) => git::log::show_stat_cmd(c.sha.as_str()),
                    None => {
                        self.log_detail = String::new();
                        return None;
                    },
                };
                let d = cmd.display();
                self.history.record(d.as_str());
                self.awaiting = Some(Awaiting::LogDetail);
                Some(GitRequest { cmd, stdin: None })
            },
            Task::RunAction(cmd) => {
                let d = cmd.display();
                self.awaiting = Some(Awaiting::Action(d));
                Some(GitRequest { cmd, stdin: None })
            },
            Task::Commit(msg) => {
                let cmd = GitCmd::new("commit").arg("-F").arg("-");
                assert(cmd.args_view() =~= commit_args());
                let d = cmd.display();
                self.awaiting = Some(Awaiting::Commit(d));
                Some(GitRequest { cmd, stdin: Some(msg) })
            },
            Task::Record(s) => {
                self.history.record(s.as_str());
                None
            },
        }
    }

    /// Works through the queued tasks, most recent first, until one needs a
    /// `git` run, which is returned; `None` once the queue is empty.
    pub fn next_request(&mut self) -> (r: Option<GitRequest>)
        requires
            old(self).wf(),
        ensures
            final(self).wf(),
            Self::next_request_post(*old(self), *final(self), r),
            r is Some ==> final(self).awaiting is Some,
            r is None ==> final(self).tasks@.len() == 0 && final(self).awaiting == old(self).awaiting,
            final(self).tasks@ == old(self).tasks@.take(final(self).tasks@.len() as int),
    {
        let ghost ts = self.tasks@;
        proof {
            assert(ts.skip(ts.len() as int) =~= Seq::<Task>::empty());
            assert(history_after(self.history.entries_view(), Seq::<Task>::empty())
                == self.history.entries_view());
        }
        loop
            invariant
                self.wf(),
                ts == old(self).tasks@,
                self.awaiting == old(self).awaiting,
                self.tasks@ == ts.take(self.tasks@.len() as int),
                self.tasks@.len() <= ts.len(),
                last_pending(*old(self), ts) == last_pending(*old(self), self.tasks@),
                drained(*old(self), *self, ts.skip(self.tasks@.len() as int)),
            decreases self.tasks@.len(),
        {
            let ghost before = *self;
            let ghost j = self.tasks@.len() as int;
            match self.tasks.pop() {
                None => {
                    assert(ts.skip(0) =~= ts);
                    return None;
                },
                Some(t) => {
                    assert(self.tasks@ =~= ts.take(j - 1));
                    assert(before.tasks@.drop_last() =~= self.tasks@);
                    assert(t == ts[j - 1]);
                    let ghost mid = *self;
                    assert(drained(*old(self), mid, ts.skip(j)));
                    let r = self.start_task(t);
                    if r.is_some() {
                        assert(last_pending(*old(self), ts) == j - 1);
                        assert(drained(*old(self), mid, ts.skip(j - 1 + 1)));
                        return r;
                    }
                    proof {
                        lemma_drained_step(*old(self), mid, *self, ts.skip(j), t);
                        assert(seq![t] + ts.skip(j) =~= ts.skip(j - 1));
                    }
                },
            }
        }
    }
}


impl App {
    /// What applying the output `out` of the awaited run does to the state.
    pub open spec fn finish_post(pre: Self, post: Self, out: Result<CommandOutput, String>) -> bool {
        &&& post.awaiting is None
        &&& pre.awaiting is None ==> post == pre
        &&& pre.awaiting matches Some(Awaiting::Status) ==> match out {
            Err(e) => {
                &&& post.error == Some(e)
                &&& post.tasks@ == pre.tasks@.push(Task::RefreshDiff)
                &&& post == (App { error: post.error, tasks: post.tasks, awaiting: None, ..pre })
            },
            Ok(o) => {
                let es = post.status.entries@;
                &&& es.map_values(|e: FileEntry| e.view()) == crate::git::status::parse_status_spec(o.stdout@)
                &&& post.unstaged_selected == clamp_sel_spec(pre.unstaged_selected as int, unstaged_entries(es).len() as int)
                &&& post.staged_selected == clamp_sel_spec(pre.staged_selected as int, staged_entries(es).len() as int)
                &&& post.error is None
                &&& post.tasks@ == pre.tasks@.push(Task::RefreshDiff)
                &&& post == (App {
                    status: post.status,
                    unstaged_selected: post.unstaged_selected,
                    staged_selected: post.staged_selected,
                    error: None,
                    tasks: post.tasks,
                    awaiting: None,
                    ..pre
                })
            }
        }
        &&& pre.awaiting matches Some(Awaiting::Reload) ==> match out {
            Err(e) => {
                &&& post.error == Some(e)
                &&& post.tasks@ == pre.tasks@.push(Task::RefreshDiff)
                &&& post == (App { error: post.error, tasks: post.tasks, awaiting: None, ..pre })
            },
            Ok(o) => {
                let es = post.status.entries@;
                &&& es.map_values(|e: FileEntry| e.view()) == crate::git::status::parse_status_spec(o.stdout@)
                &&& post.unstaged_selected == clamp_sel_spec(pre.unstaged_selected as int, unstaged_entries(es).len() as int)
                &&& post.staged_selected == clamp_sel_spec(pre.staged_selected as int, staged_entries(es).len() as int)
                &&& post.tasks@ == pre.tasks@.push(Task::RefreshDiff)
                &&& post == (App {
                    status: post.status,
                    unstaged_selected: post.unstaged_selected,
                    staged_selected: post.staged_selected,
                    tasks: post.tasks,
                    awaiting: None,
                    ..pre
                })
            }
        }
        &&& pre.awaiting matches Some(Awaiting::Log) ==> {
            &&& post.tasks@ == pre.tasks@.push(Task::RefreshLogDetail)
            &&& match out {
                Err(e) => post.error == Some(e) && post == (App { error: post.error, tasks: post.tasks, awaiting: None, ..pre }),
                Ok(o) => {
                    let err = lossy_text(o.stderr@);
                    if o.code != Some(0i32) && !crate::git::log::no_commits_yet(err) {
                        &&& post.error is Some
                        &&& post.error->0@ == "git log failed: "@ + trim_spec(err)
                        &&& post == (App { error: post.error, tasks: post.tasks, awaiting: None, ..pre })
                    } else {
                        &&& (o.code != Some(0i32) ==> post.log.entries@.len() == 0)
                        &&& (o.code == Some(0i32) ==> entries_view(post.log.entries@) == crate::git::log::parse_log_spec(o.stdout@))
                        &&& post.log_selected == clamp_sel_spec(pre.log_selected as int, post.log.entries@.len() as int)
                        &&& post == (App {
                            log: post.log,
                            log_selected: post.log_selected,
                            error: None,
                            tasks: post.tasks,
                            awaiting: None,
                            ..pre
                        })
                    }
                },
            }
        }
        &&& pre.awaiting matches Some(Awaiting::Diff) ==> {
            &&& post.diff@ == diff_text(out)
            &&& post == (App { diff: post.diff, awaiting: None, ..pre })
        }
        &&& pre.awaiting matches Some(Awaiting::LogDetail) ==> {
            &&& post.log_detail@ == detail_text(out)
            &&& post == (App { log_detail: post.log_detail, awaiting: None, ..pre })
        }
        &&& pre.awaiting matches Some(Awaiting::Action(d)) ==> {
            &&& post.tasks@ == pre.tasks@.push(Task::Record(d)).push(Task::ReloadStatus)
            &&& match action_error(d@, out) {
                Some(m) => post.error is Some && post.error->0@ == m,
                None => post.error is None,
            }
            &&& post == (App { error: post.error, tasks: post.tasks, awaiting: None, ..pre })
        }
        &&& pre.awaiting matches Some(Awaiting::Commit(d)) ==> {
            &&& post.tasks@ == pre.tasks@.push(Task::Record(d)).push(Task::RefreshStatus)
            &&& match commit_failure(d@, out) {
                None => {
                    &&& post.commit_editor.is_fresh()
                    &&& post.view == View::Status
                    &&& post == (App { commit_editor: post.commit_editor, view: View::Status, error: None, tasks: post.tasks, awaiting: None, ..pre })
                },
                Some(m) => {
                    &&& post.commit_editor.status_message is Some
                    &&& post.commit_editor.status_message->0@ == m
                    &&& post.commit_editor == (CommitEditor { status_message: post.commit_editor.status_message, ..pre.commit_editor })
                    &&& post == (App { commit_editor: post.commit_editor, tasks: post.tasks, awaiting: None, ..pre })
                },
            }
        }
    }

    /// Applies the output of the awaited `git` run and queues what follows:
    /// a status load is followed by the selection's diff, a log load by the
    /// selected commit's detail, and a user command or commit by a status
    /// refresh and then the recording of its command line.
    pub fn finish(&mut self, out: Result<CommandOutput, String>)
        requires
            old(self).wf(),
        ensures
            final(self).wf(),
            Self::finish_post(*old(self), *final(self), out),

    {
        let mut awaiting: Option<Awaiting> = None;
        std::mem::swap(&mut awaiting, &mut self.awaiting);
        let a = match awaiting {
            None => return,
            Some(a) => a,
        };
        match a {
            Awaiting::Status => {
                match git::status::load(out) {
                    Ok(s) => {
                        self.status = s;
                        let u = self.status.unstaged().len();
                        let st = self.status.staged().len();
                        self.unstaged_selected = clamp_sel(self.unstaged_selected, u);
                        self.staged_selected = clamp_sel(self.staged_selected, st);
                        self.error = None;
                    },
                    Err(e) => {
                        self.error = Some(e);
                    },
                }
                self.tasks.push(Task::RefreshDiff);
            },
            Awaiting::Reload => {
                match git::status::load(out) {
                    Ok(s) => {
                        self.status = s;
                        let u = self.status.unstaged().len();
                        let st = self.status.staged().len();
                        self.unstaged_selected = clamp_sel(self.unstaged_selected, u);
                        self.staged_selected = clamp_sel(self.staged_selected, st);
                    },
                    Err(e) => {
                        self.error = Some(e);
                    },
                }
                self.tasks.push(Task::RefreshDiff);
            },
            Awaiting::Log => {
                match git::log::load(out) {
                    Ok(l) => {
                        self.log = l;
                        let n = self.log.len();
                        if n == 0 {
                            self.log_selected = 0;
                        } else if self.log_selected >= n {
                            self.log_selected = n - 1;
                        }
                        self.error = None;
                    },
                    Err(e) => {
                        self.error = Some(e);
                    },
                }
                self.tasks.push(Task::RefreshLogDetail);
            },
            Awaiting::Diff => {
                self.diff = match out {
                    Ok(o) => {
                        if o.stdout.len() > 0 {
                            o.stdout_str()
                        } else if !o.success() {
                            let err = o.stderr_str();
                            let mut m = join3("(git diff exited ", o.status_text.as_str(), ")\n");
                            m.append(err.as_str());
                            m
                        } else {
                            String::new()
                        }
                    },
                    Err(e) => join3("(error: ", e.as_str(), ")"),
                };
            },
            Awaiting::LogDetail => {
                self.log_detail = match out {
                    Ok(o) => {
                        if o.success() {
                            o.stdout_str()
                        } else {
                            let err = o.stderr_str();
                            let mut m = join3("(git show exited ", o.status_text.as_str(), ")\n");
                            m.append(err.as_str());
                            m
                        }
                    },
                    Err(e) => join3("(error: ", e.as_str(), ")"),
                };
            },
            Awaiting::Action(d) => {
                self.error = match out {
                    Ok(o) => {
                        if !o.success() {
                            let err = o.stderr_str();
                            let t = trim(err.as_str());
                            Some(join3(d.as_str(), ": ", t.as_str()))
                        } else {
                            None
                        }
                    },
                    Err(e) => Some(join3(d.as_str(), ": ", e.as_str())),
                };
                self.tasks.push(Task::Record(d));
                self.tasks.push(Task::ReloadStatus);
            },
            Awaiting::Commit(d) => {
                let failure = match out {
                    Ok(o) => {
                        if o.success() {
                            None
                        } else {
                            let err = o.stderr_str();
                            let t = trim(err.as_str());
                            if t.as_str().is_empty() {
                                let code = match o.code {
                                    Some(c) => i64_to_string(c as i64),
                                    None => String::from_str("signal"),
                                };
                                Some(join3("commit failed (exit ", code.as_str(), ")"))
                            } else {
                                Some(join2("commit failed: ", t.as_str()))
                            }
                        }
                    },
                    Err(e) => Some(join3(d.as_str(), ": ", e.as_str())),
                };
                match failure {
                    None => {
                        self.commit_editor = CommitEditor::new();
                        self.view = View::Status;
                        self.error = None;
                    },
                    Some(m) => {
                        self.commit_editor.status_message = Some(m);
                    },
                }
                self.tasks.push(Task::Record(d));
                self.tasks.push(Task::RefreshStatus);
            },
        }
    }

    /// Hands back the output of the requested `git` run and returns the next
    /// run to make, if any.
    pub fn complete(&mut self, out: Result<CommandOutput, String>) -> (r: Option<GitRequest>)
        requires
            old(self).wf(),
        ensures
            final(self).wf(),
            r is Some ==> final(self).awaiting is Some,
            r is None ==> final(self).tasks@.len() == 0 && final(self).awaiting is None,
            exists|mid: App|
                #[trigger] Self::finish_post(*old(self), mid, out) && Self::next_request_post(
                    mid,
                    *final(self),
                    r,
                ),
    {
        self.finish(out);
        let ghost mid = *self;
        let r = self.next_request();
        assert(Self::finish_post(*old(self), mid, out));
        r
    }
}


/// `before` with one more task: running a command with these arguments.
pub open spec fn queued_run(before: Seq<Task>, after: Seq<Task>, args: Seq<Seq<char>>) -> bool {
    &&& after.len() == before.len() + 1
    &&& after.take(before.len() as int) == before
    &&& after.last() is RunAction
    &&& after.last()->RunAction_0.args_view() == args
    &&& after.last()->RunAction_0.cwd_view() is None
}

/// The tab after `v` (two tabs, so also the one before it).
pub open spec fn other_tab(v: View) -> View {
    match v {
        View::Status => View::Log,
        View::Log => View::Status,
        View::CommitEditor => View::CommitEditor,
    }
}

/// The tab a key switches to: `1`, `2`, `[` and `]` without modifiers.
pub open spec fn tab_target(v: View, k: Key) -> Option<View> {
    if !k.modifiers.none_spec() {
        None
    } else {
        match k.code {
            KeyCode::Char(c) => if c == '1' {
                Some(View::Status)
            } else if c == '2' {
                Some(View::Log)
            } else if c == ']' || c == '[' {
                Some(other_tab(v))
            } else {
                None
            },
            _ => None,
        }
    }
}

/// A flag that supplies the commit message inline.
pub open spec fn message_flag(a: Seq<char>) -> bool {
    ||| a == "-m"@
    ||| a == "-F"@
    ||| a == "--message"@
    ||| a == "--file"@
    ||| "--message="@.is_prefix_of(a)
    ||| "--file="@.is_prefix_of(a)
    ||| (a.len() > 2 && ("-m"@.is_prefix_of(a) || "-F"@.is_prefix_of(a)))
}

/// Whether `git commit` arguments include a flag supplying the message.
pub fn has_commit_message_flag(args: &[String]) -> (b: bool)
    ensures
        b == exists|i: int| 0 <= i < args@.len() && message_flag(#[trigger] args@[i]@),
{
    let mut i: usize = 0;
    while i < args.len()
        invariant
            i <= args@.len(),
            forall|j: int| 0 <= j < i ==> !message_flag(#[trigger] args@[j]@),
        decreases args@.len() - i,
    {
        let a = chars_of(args[i].as_str());
        let hit = chars_eq(&a, "-m") || chars_eq(&a, "-F") || chars_eq(&a, "--message")
            || chars_eq(&a, "--file") || starts_with(&a, "--message=") || starts_with(&a, "--file=")
            || (a.len() > 2 && (starts_with(&a, "-m") || starts_with(&a, "-F")));
        if hit {
            assert(message_flag(args@[i as int]@));
            return true;
        }
        i += 1;
    }
    false
}

/// Whether any of `args` is exactly `x` or `y`.
pub open spec fn any_arg(args: Seq<Seq<char>>, x: Seq<char>, y: Seq<char>) -> bool {
    exists|i: int| 0 <= i < args.len() && (#[trigger] args[i] == x || args[i] == y)
}

fn has_arg(args: &[String], x: &str, y: &str) -> (b: bool)
    ensures
        b == any_arg(strings_view(args@), x@, y@),
{
    let mut i: usize = 0;
    while i < args.len()
        invariant
            i <= args@.len(),
            forall|j: int| 0 <= j < i ==> !(#[trigger] strings_view(args@)[j] == x@ || strings_view(args@)[j] == y@),
        decreases args@.len() - i,
    {
        if str_eq(args[i].as_str(), x) || str_eq(args[i].as_str(), y) {
            assert(strings_view(args@)[i as int] == args@[i as int]@);
            return true;
        }
        i += 1;
    }
    false
}

impl App {
    // --- relations describing the handlers --------------------------------------

    pub open spec fn switch_view_post(pre: Self, post: Self, target: View) -> bool {
        if pre.view == target {
            post == pre
        } else {
            &&& post == (App { view: target, tasks: post.tasks, ..pre })
            &&& post.tasks@ == match target {
                View::Status => pre.tasks@.push(Task::RefreshStatus),
                View::Log => pre.tasks@.push(Task::RefreshLog),
                View::CommitEditor => pre.tasks@,
            }
        }
    }

    /// The selection after moving the focused pane's cursor by `delta`.
    pub open spec fn moved_selection(pre: Self, delta: i32) -> int {
        let len = pane_entries(pre.status, pre.focused).len();
        if len == 0 {
            0
        } else {
            clamp_int(pre.focused_selection() + delta, 0, len - 1)
        }
    }

    pub open spec fn move_selection_post(pre: Self, post: Self, delta: i32) -> bool {
        let n = Self::moved_selection(pre, delta);
        &&& post.tasks@ == pre.tasks@.push(Task::RefreshDiff)
        &&& match pre.focused {
            Pane::Unstaged => post == (App { unstaged_selected: n as usize, tasks: post.tasks, ..pre }),
            Pane::Staged => post == (App { staged_selected: n as usize, tasks: post.tasks, ..pre }),
        }
    }

    pub open spec fn move_log_selection_post(pre: Self, post: Self, delta: i32) -> bool {
        let len = pre.log.entries@.len();
        if len == 0 {
            &&& post.log_detail@.len() == 0
            &&& post == (App { log_selected: 0, log_detail: post.log_detail, ..pre })
        } else {
            let n = if delta == i32::MIN {
                0
            } else if delta == i32::MAX {
                len - 1
            } else {
                clamp_int(pre.log_selected + delta, 0, len - 1)
            };
            &&& post.tasks@ == pre.tasks@.push(Task::RefreshLogDetail)
            &&& post == (App { log_selected: n as usize, tasks: post.tasks, ..pre })
        }
    }

    pub open spec fn open_commit_editor_post(pre: Self, post: Self) -> bool {
        if staged_entries(pre.status.entries@).len() == 0 {
            &&& post.error is Some
            &&& post.error->0@ == "nothing staged to commit (press 's' on an unstaged file, [Esc] to dismiss)"@
            &&& post == (App { error: post.error, ..pre })
        } else {
            &&& post.commit_editor.is_fresh()
            &&& post == (App { error: None, commit_editor: post.commit_editor, view: View::CommitEditor, ..pre })
        }
    }

    pub open spec fn cancel_commit_post(pre: Self, post: Self) -> bool {
        &&& post.commit_editor.is_fresh()
        &&& post == (App { error: None, commit_editor: post.commit_editor, view: View::Status, ..pre })
    }

    pub open spec fn submit_commit_post(pre: Self, post: Self) -> bool {
        if pre.commit_editor.blank_spec() {
            &&& post.commit_editor.status_message is Some
            &&& post.commit_editor.status_message->0@ == "Aborting commit due to empty commit message (use :q! to discard)"@
            &&& post.commit_editor == (CommitEditor { status_message: post.commit_editor.status_message, ..pre.commit_editor })
            &&& post == (App { commit_editor: post.commit_editor, ..pre })
        } else {
            &&& post.tasks@.len() == pre.tasks@.len() + 1
            &&& post.tasks@.take(pre.tasks@.len() as int) == pre.tasks@
            &&& post.tasks@.last() is Commit
            &&& post.tasks@.last()->Commit_0@ == crate::commit_editor::join_lines(pre.commit_editor.text())
            &&& post == (App { tasks: post.tasks, ..pre })
        }
    }

    pub open spec fn stage_selected_post(pre: Self, post: Self) -> bool {
        if pre.focused == Pane::Unstaged && pre.selected_entry_spec() is Some {
            &&& queued_run(pre.tasks@, post.tasks@, seq!["add"@, "--"@, pre.selected_entry_spec()->0.path@])
            &&& post == (App { tasks: post.tasks, ..pre })
        } else {
            post == pre
        }
    }

    pub open spec fn unstage_selected_post(pre: Self, post: Self) -> bool {
        if pre.focused == Pane::Staged && pre.selected_entry_spec() is Some {
            &&& queued_run(pre.tasks@, post.tasks@, seq!["restore"@, "--staged"@, "--"@, pre.selected_entry_spec()->0.path@])
            &&& post == (App { tasks: post.tasks, ..pre })
        } else {
            post == pre
        }
    }

    pub open spec fn discard_selected_post(pre: Self, post: Self) -> bool {
        match pre.selected_entry_spec() {
            None => post == pre,
            Some(e) => {
                let p = e.path@;
                let (msg, args) = if pre.focused == Pane::Unstaged {
                    if e.worktree is Untracked {
                        ("Delete untracked file '"@ + p + "'?"@, seq!["clean"@, "-fd"@, "--"@, p])
                    } else {
                        ("Discard worktree changes to '"@ + p + "'?"@, seq!["restore"@, "--"@, p])
                    }
                } else {
                    (
                        "Reset '"@ + p + "' to HEAD (drops staged + worktree changes)?"@,
                        seq!["restore"@, "--staged"@, "--worktree"@, "--source=HEAD"@, "--"@, p],
                    )
                };
                &&& post.confirm is Some
                &&& post.confirm->0.prompt@ == msg
                &&& post.confirm->0.cmd.args_view() == args
                &&& post.confirm->0.cmd.cwd_view() is None
                &&& post == (App { confirm: post.confirm, ..pre })
            },
        }
    }

    // --- tabs ---------------------------------------------------------------------

    fn next_tab(&self) -> (v: View)
        ensures
            v == other_tab(self.view),
    {
        match self.view {
            View::Status => View::Log,
            View::Log => View::Status,
            View::CommitEditor => self.view,
        }
    }

    fn prev_tab(&self) -> (v: View)
        ensures
            v == other_tab(self.view),
    {
        self.next_tab()
    }

    /// Switches the active view, queuing a reload of the target tab's data.
    pub fn switch_view(&mut self, target: View)
        ensures
            Self::switch_view_post(*old(self), *final(self), target),
    {
        if self.view == target {
            return;
        }
        self.view = target;
        match target {
            View::Status => self.refresh_status(),
            View::Log => self.refresh_log(),
            View::CommitEditor => {},
        }
    }

    /// Tab keys (`1`, `2`, `[`, `]` without modifiers) switch views.
    fn try_handle_tab_key(&mut self, k: Key) -> (handled: bool)
        ensures
            handled == tab_target(old(self).view, k) is Some,
            match tab_target(old(self).view, k) {
                Some(t) => Self::switch_view_post(*old(self), *final(self), t),
                None => *final(self) == *old(self),
            },
    {
        if !k.modifiers.is_empty() {
            return false;
        }
        let target = match k.code {
            KeyCode::Char(c) => if c == '1' {
                Some(View::Status)
            } else if c == '2' {
                Some(View::Log)
            } else if c == ']' {
                Some(self.next_tab())
            } else if c == '[' {
                Some(self.prev_tab())
            } else {
                None
            },
            _ => None,
        };
        match target {
            Some(t) => {
                self.switch_view(t);
                true
            },
            None => false,
        }
    }

    // --- selection ------------------------------------------------------------------

    /// Moves the focused pane's cursor by `delta`, clamped to the pane, and
    /// queues the new selection's diff.
    fn move_selection(&mut self, delta: i32)
        ensures
            Self::move_selection_post(*old(self), *final(self), delta),
    {
        let len = self.pane_len();
        let sel = match self.focused {
            Pane::Unstaged => self.unstaged_selected,
            Pane::Staged => self.staged_selected,
        };
        let new_sel: usize = if len == 0 {
            0
        } else {
            let v: i128 = sel as i128 + delta as i128;
            let hi: i128 = (len - 1) as i128;
            if v < 0 { 0 } else if v > hi { len - 1 } else { v as usize }
        };
        match self.focused {
            Pane::Unstaged => self.unstaged_selected = new_sel,
            Pane::Staged => self.staged_selected = new_sel,
        }
        self.refresh_diff();
    }

    /// Moves the log cursor (`i32::MIN` / `i32::MAX` jump to the first / last
    /// commit) and queues the selected commit's detail.
    fn move_log_selection(&mut self, delta: i32)
        ensures
            Self::move_log_selection_post(*old(self), *final(self), delta),
    {
        let len = self.log.len();
        if len == 0 {
            self.log_selected = 0;
            self.log_detail = String::new();
            return;
        }
        let new_sel: usize = if delta == i32::MIN {
            0
        } else if delta == i32::MAX {
            len - 1
        } else {
            let v: i128 = self.log_selected as i128 + delta as i128;
            let hi: i128 = (len - 1) as i128;
            if v < 0 { 0 } else if v > hi { len - 1 } else { v as usize }
        };
        self.log_selected = new_sel;
        self.refresh_log_detail();
    }

    // --- commit editor lifecycle ---------------------------------------------------------

    /// Opens the modal editor, unless nothing is staged.
    fn open_commit_editor(&mut self)
        ensures
            Self::open_commit_editor_post(*old(self), *final(self)),
    {
        if self.status.staged().len() == 0 {
            self.error = Some(
                String::from_str(
                    "nothing staged to commit (press 's' on an unstaged file, [Esc] to dismiss)",
                ),
            );
            return;
        }
        self.error = None;
        self.commit_editor = CommitEditor::new();
        self.view = View::CommitEditor;
    }

    /// Discards the editor and returns to the Status view.
    fn cancel_commit(&mut self)
        ensures
            Self::cancel_commit_post(*old(self), *final(self)),
    {
        self.commit_editor = CommitEditor::new();
        self.view = View::Status;
        self.error = None;
    }

    /// Queues `git commit -F -` with the message, unless the message is blank.
    fn submit_commit(&mut self)
        ensures
            Self::submit_commit_post(*old(self), *final(self)),
    {
        if self.commit_editor.is_blank() {
            self.commit_editor.status_message = Some(
                String::from_str("Aborting commit due to empty commit message (use :q! to discard)"),
            );
            return;
        }
        let message = self.commit_editor.message();
        self.tasks.push(Task::Commit(message));
        assert(self.tasks@.take(old(self).tasks@.len() as int) =~= old(self).tasks@);
    }

    // --- status-view actions ---------------------------------------------------------------

    /// Queues a user-initiated command.
    fn run_action(&mut self, cmd: GitCmd)
        ensures
            final(self).tasks@ == old(self).tasks@.push(Task::RunAction(cmd)),
            final(self).tasks@.take(old(self).tasks@.len() as int) == old(self).tasks@,
            *final(self) == (App { tasks: final(self).tasks, ..*old(self) }),
    {
        self.tasks.push(Task::RunAction(cmd));
        assert(self.tasks@.take(old(self).tasks@.len() as int) =~= old(self).tasks@);
    }

    /// `s`: queues `git add -- <path>` for the selected unstaged file.
    fn stage_selected(&mut self)
        ensures
            Self::stage_selected_post(*old(self), *final(self)),
    {
        if self.focused != Pane::Unstaged {
            return;
        }
        let cmd = match self.selected_entry() {
            Some(e) => {
                let c = GitCmd::new("add").arg("--").arg(e.path.as_str());
                assert(c.args_view() =~= seq!["add"@, "--"@, e.path@]);
                c
            },
            None => return,
        };
        self.run_action(cmd);
    }

    /// `u`: queues `git restore --staged -- <path>` for the selected staged file.
    fn unstage_selected(&mut self)
        ensures
            Self::unstage_selected_post(*old(self), *final(self)),
    {
        if self.focused != Pane::Staged {
            return;
        }
        let cmd = match self.selected_entry() {
            Some(e) => {
                let c = GitCmd::new("restore").arg("--staged").arg("--").arg(e.path.as_str());
                assert(c.args_view() =~= seq!["restore"@, "--staged"@, "--"@, e.path@]);
                c
            },
            None => return,
        };
        self.run_action(cmd);
    }

    /// `X`: asks for confirmation of the destructive command fitting the
    /// pane and file: `git clean` for an untracked file, `git restore` of the
    /// worktree for an unstaged change, and a full reset to `HEAD` for a
    /// staged file.
    fn discard_selected(&mut self)
        ensures
            Self::discard_selected_post(*old(self), *final(self)),
    {
        let pending = match self.selected_entry() {
            None => return,
            Some(entry) => {
                let path = entry.path.as_str();
                if self.focused == Pane::Unstaged {
                    if matches!(entry.worktree, FileStatus::Untracked) {
                        let cmd = GitCmd::new("clean").arg("-fd").arg("--").arg(path);
                        assert(cmd.args_view() =~= seq!["clean"@, "-fd"@, "--"@, path@]);
                        PendingConfirm { prompt: join3("Delete untracked file '", path, "'?"), cmd }
                    } else {
                        let cmd = GitCmd::new("restore").arg("--").arg(path);
                        assert(cmd.args_view() =~= seq!["restore"@, "--"@, path@]);
                        PendingConfirm {
                            prompt: join3("Discard worktree changes to '", path, "'?"),
                            cmd,
                        }
                    }
                } else {
                    let cmd = GitCmd::new("restore").arg("--staged").arg("--worktree").arg(
                        "--source=HEAD",
                    ).arg("--").arg(path);
                    assert(cmd.args_view() =~= seq![
                        "restore"@,
                        "--staged"@,
                        "--worktree"@,
                        "--source=HEAD"@,
                        "--"@,
                        path@,
                    ]);
                    PendingConfirm {
                        prompt: join3("Reset '", path, "' to HEAD (drops staged + worktree changes)?"),
                        cmd,
                    }
                }
            },
        };
        self.confirm = Some(pending);
    }
}


/// How a submitted prompt line is routed.
#[derive(Clone, Copy, Debug, PartialEq, Eq, Structural)]
pub enum PromptOutcome {
    /// Blank input: nothing happens.
    Blank,
    /// `exit` / `quit`.
    Quit,
    /// Not a `git` command.
    Unknown,
    /// `git` alone.
    MissingSubcommand,
    /// `git commit` without an inline message: opens the editor.
    OpenEditor,
    /// `git rebase -i`.
    RejectRebase,
    /// `git add -p`.
    RejectAddPatch,
    /// `git log`: switches to the Log tab.
    SwitchLog,
    /// `git status`: switches to the Status tab.
    SwitchStatus,
    /// Anything else is run as typed.
    Run,
}

/// The tokens of a submitted prompt line.
pub open spec fn prompt_args(raw: Seq<char>) -> Seq<Seq<char>> {
    shell_split_spec(trim_spec(raw))
}

/// How the submitted line `raw` is routed.
pub open spec fn prompt_outcome(raw: Seq<char>) -> PromptOutcome {
    let t = trim_spec(raw);
    let a = shell_split_spec(t);
    if t.len() == 0 || a.len() == 0 {
        PromptOutcome::Blank
    } else if a[0] == "exit"@ || a[0] == "quit"@ {
        PromptOutcome::Quit
    } else if a[0] != "git"@ {
        PromptOutcome::Unknown
    } else if a.len() == 1 {
        PromptOutcome::MissingSubcommand
    } else {
        let sub = a[1];
        let tail = a.subrange(2, a.len() as int);
        if sub == "commit"@ && !(exists|i: int| 0 <= i < tail.len() && message_flag(#[trigger] tail[i])) {
            PromptOutcome::OpenEditor
        } else if sub == "rebase"@ && any_arg(tail, "-i"@, "--interactive"@) {
            PromptOutcome::RejectRebase
        } else if sub == "add"@ && any_arg(tail, "-p"@, "--patch"@) {
            PromptOutcome::RejectAddPatch
        } else if sub == "log"@ {
            PromptOutcome::SwitchLog
        } else if sub == "status"@ {
            PromptOutcome::SwitchStatus
        } else {
            PromptOutcome::Run
        }
    }
}

/// `post` is `pre` with the error message `m`.
pub open spec fn errored(pre: App, post: App, m: Seq<char>) -> bool {
    &&& post.error is Some
    &&& post.error->0@ == m
    &&& post == (App { error: post.error, ..pre })
}

/// The other file pane.
pub open spec fn other_pane(p: Pane) -> Pane {
    match p {
        Pane::Unstaged => Pane::Staged,
        Pane::Staged => Pane::Unstaged,
    }
}

impl App {
    pub open spec fn dispatch_prompt_post(pre: Self, post: Self, raw: Seq<char>) -> bool {
        let a = prompt_args(raw);
        match prompt_outcome(raw) {
            PromptOutcome::Blank => post == pre,
            PromptOutcome::Quit => post == (App { should_quit: true, ..pre }),
            PromptOutcome::Unknown => errored(pre, post, "unknown command: /"@ + trim_spec(raw) + " (commands must start with `git`)"@),
            PromptOutcome::MissingSubcommand => errored(pre, post, "missing git subcommand (e.g. /git status)"@),
            PromptOutcome::OpenEditor => Self::open_commit_editor_post(App { prompt: None, ..pre }, post),
            PromptOutcome::RejectRebase => errored(pre, post, "interactive rebase is not yet supported"@),
            PromptOutcome::RejectAddPatch => errored(pre, post, "interactive `add -p` is not yet supported"@),
            PromptOutcome::SwitchLog => Self::switch_view_post(pre, post, View::Log),
            PromptOutcome::SwitchStatus => Self::switch_view_post(pre, post, View::Status),
            PromptOutcome::Run => {
                &&& queued_run(pre.tasks@, post.tasks@, a.subrange(1, a.len() as int))
                &&& post == (App { tasks: post.tasks, ..pre })
            },
        }
    }

    /// Routes a submitted prompt line (without its leading `/`).
    fn dispatch_prompt(&mut self, raw: String)
        ensures
            Self::dispatch_prompt_post(*old(self), *final(self), raw@),
    {
        let trimmed = trim(raw.as_str());
        if trimmed.as_str().is_empty() {
            return;
        }
        let args = shell_split(trimmed.as_str());
        let ghost av = strings_view(args@);
        if args.len() == 0 {
            return;
        }
        assert(av[0] == args@[0]@);
        if str_eq(args[0].as_str(), "exit") || str_eq(args[0].as_str(), "quit") {
            self.should_quit = true;
            return;
        }
        if !str_eq(args[0].as_str(), "git") {
            self.error = Some(join3("unknown command: /", trimmed.as_str(), " (commands must start with `git`)"));
            return;
        }
        if args.len() == 1 {
            self.error = Some(String::from_str("missing git subcommand (e.g. /git status)"));
            return;
        }
        let sub = args[1].as_str();
        assert(av[1] == args@[1]@);
        let tail = vstd::slice::slice_subrange(args.as_slice(), 2, args.len());
        assert(strings_view(tail@) =~= av.subrange(2, av.len() as int));
        let is_commit = str_eq(sub, "commit");
        let flagged = has_commit_message_flag(tail);
        if is_commit && !flagged {
            assert(forall|i: int| 0 <= i < tail@.len() ==> tail@[i]@ == #[trigger] strings_view(tail@)[i]);
            self.prompt = None;
            self.open_commit_editor();
            return;
        }
        assert(sub@ == "commit"@ ==> exists|i: int| 0 <= i < av.subrange(2, av.len() as int).len()
            && message_flag(#[trigger] av.subrange(2, av.len() as int)[i])) by {
            if sub@ == "commit"@ && flagged {
                let i = choose|i: int| 0 <= i < tail@.len() && message_flag(#[trigger] tail@[i]@);
                assert(strings_view(tail@)[i] == tail@[i]@);
            }
        }
        if str_eq(sub, "rebase") && has_arg(tail, "-i", "--interactive") {
            self.error = Some(String::from_str("interactive rebase is not yet supported"));
            return;
        }
        if str_eq(sub, "add") && has_arg(tail, "-p", "--patch") {
            self.error = Some(String::from_str("interactive `add -p` is not yet supported"));
            return;
        }
        if str_eq(sub, "log") {
            self.switch_view(View::Log);
            return;
        }
        if str_eq(sub, "status") {
            self.switch_view(View::Status);
            return;
        }
        let mut cmd = GitCmd::new(sub);
        let mut i: usize = 2;
        while i < args.len()
            invariant
                2 <= i <= args.len(),
                av == strings_view(args@),
                cmd.args_view() == av.subrange(1, i as int),
                cmd.cwd_view() is None,
            decreases args.len() - i,
        {
            cmd = cmd.arg(args[i].as_str());
            assert(av.subrange(1, i + 1) =~= av.subrange(1, i as int).push(av[i as int]));
            i += 1;
        }
        self.run_action(cmd);
    }
}


/// An input event.
pub enum AppEvent {
    Key(Key),
    /// The terminal was resized; the next frame redraws at the new size.
    Resize(u16, u16),
}

/// The character of a key without modifiers checks, if it is a character key.
pub open spec fn key_char(k: Key) -> Option<char> {
    match k.code {
        KeyCode::Char(c) => Some(c),
        _ => None,
    }
}

/// What a Normal-mode key does to the editor.
pub open spec fn normal_key_post(pre: CommitEditor, post: CommitEditor, k: Key) -> bool {
    match pre.pending_op {
        Some(prev) => pending_key_post(pre, post, prev, k),
        None => normal_fresh_key_post(pre, post, k),
    }
}

/// The key after a half-typed operator: `gg`, `dd` and `dw` complete it; any
/// other key, character or not, abandons the operator and is swallowed.
pub open spec fn pending_key_post(pre: CommitEditor, post: CommitEditor, prev: char, k: Key) -> bool {
    let mid = CommitEditor { pending_op: None, ..pre };
    match k.code {
        KeyCode::Char(c) => if prev == 'g' && c == 'g' {
            CommitEditor::goto_top_post(mid, post)
        } else if prev == 'd' && c == 'd' {
            CommitEditor::delete_line_post(mid, post)
        } else if prev == 'd' && c == 'w' {
            CommitEditor::delete_word_forward_post(mid, post)
        } else {
            post == mid
        },
        _ => post == mid,
    }
}

/// A Normal-mode key with no operator pending.
pub open spec fn normal_fresh_key_post(pre: CommitEditor, post: CommitEditor, k: Key) -> bool {
    match k.code {
        KeyCode::Char(c) => if c == 'h' {
                CommitEditor::move_left_post(pre, post)
            } else if c == 'j' {
                CommitEditor::move_down_post(pre, post)
            } else if c == 'k' {
                CommitEditor::move_up_post(pre, post)
            } else if c == 'l' {
                CommitEditor::move_right_post(pre, post)
            } else if c == '0' {
                CommitEditor::move_line_start_post(pre, post)
            } else if c == '$' {
                CommitEditor::move_line_end_post(pre, post)
            } else if c == 'w' {
                CommitEditor::move_word_forward_post(pre, post)
            } else if c == 'b' {
                CommitEditor::move_word_back_post(pre, post)
            } else if c == 'G' {
                CommitEditor::goto_bottom_post(pre, post)
            } else if c == 'g' || c == 'd' {
                post == (CommitEditor { pending_op: Some(c), ..pre })
            } else if c == 'i' {
                CommitEditor::enter_insert_post(pre, post)
            } else if c == 'a' {
                CommitEditor::enter_insert_after_post(pre, post)
            } else if c == 'I' {
                CommitEditor::enter_insert_line_start_post(pre, post)
            } else if c == 'A' {
                CommitEditor::enter_insert_line_end_post(pre, post)
            } else if c == 'o' {
                CommitEditor::open_line_below_post(pre, post)
            } else if c == 'O' {
                CommitEditor::open_line_above_post(pre, post)
            } else if c == 'x' {
                CommitEditor::delete_at_cursor_post(pre, post)
            } else if c == 'D' {
                CommitEditor::delete_to_end_of_line_post(pre, post)
            } else if c == ':' {
                CommitEditor::enter_command_post(pre, post)
            } else {
                post == pre
            },
        KeyCode::Esc => CommitEditor::clear_status_post(pre, post),
        KeyCode::Left => CommitEditor::move_left_post(pre, post),
        KeyCode::Right => CommitEditor::move_right_post(pre, post),
        KeyCode::Up => CommitEditor::move_up_post(pre, post),
        KeyCode::Down => CommitEditor::move_down_post(pre, post),
        KeyCode::Home => CommitEditor::move_line_start_post(pre, post),
        KeyCode::End => CommitEditor::move_line_end_post(pre, post),
        _ => post == pre,
    }
}

/// What an Insert-mode key does to the editor: edits clear the status
/// message, motions keep it.
pub open spec fn insert_key_post(pre: CommitEditor, post: CommitEditor, k: Key) -> bool {
    let mid = CommitEditor { status_message: pre.status_message, ..post };
    match k.code {
        KeyCode::Esc => CommitEditor::enter_normal_post(pre, post),
        KeyCode::Enter => CommitEditor::insert_newline_post(pre, mid) && post.status_message is None,
        KeyCode::Backspace => CommitEditor::backspace_post(pre, mid) && post.status_message is None,
        KeyCode::Delete => CommitEditor::delete_at_cursor_post(pre, mid) && post.status_message is None,
        KeyCode::Left => CommitEditor::move_left_post(pre, post),
        KeyCode::Right => CommitEditor::move_right_post(pre, post),
        KeyCode::Up => CommitEditor::move_up_post(pre, post),
        KeyCode::Down => CommitEditor::move_down_post(pre, post),
        KeyCode::Home => CommitEditor::move_line_start_post(pre, post),
        KeyCode::End => CommitEditor::move_line_end_post(pre, post),
        KeyCode::Char(c) => if pre.col < usize::MAX {
            CommitEditor::insert_char_post(pre, mid, c) && post.status_message is None
        } else {
            post == pre
        },
        _ => post == pre,
    }
}

impl App {
    pub open spec fn handle_confirm_key_post(pre: Self, post: Self, k: Key) -> bool {
        match pre.confirm {
            None => post == pre,
            Some(c) => if k.code == KeyCode::Char('y') || k.code == KeyCode::Char('Y') {
                post == (App { confirm: None, tasks: post.tasks, ..pre })
                    && post.tasks@ == pre.tasks@.push(Task::RunAction(c.cmd))
            } else {
                post == (App { confirm: None, ..pre })
            },
        }
    }

    pub open spec fn handle_status_normal_key_post(pre: Self, post: Self, k: Key) -> bool {
        match action_for(k) {
            None => post == pre,
            Some(a) => match a {
                Action::Quit => post == (App { should_quit: true, ..pre }),
                Action::MoveSelection(d) => Self::move_selection_post(pre, post, d),
                Action::SwitchPane | Action::SwitchPaneBack => {
                    &&& post.tasks@ == pre.tasks@.push(Task::RefreshDiff)
                    &&& post == (App { focused: other_pane(pre.focused), tasks: post.tasks, ..pre })
                },
                Action::EnterDiff | Action::LeaveDiff => post == pre,
                Action::Refresh => post == (App { tasks: post.tasks, ..pre })
                    && post.tasks@ == pre.tasks@.push(Task::RefreshStatus),
                Action::StageSelected => Self::stage_selected_post(pre, post),
                Action::UnstageSelected => Self::unstage_selected_post(pre, post),
                Action::DiscardSelected => Self::discard_selected_post(pre, post),
                Action::Commit => Self::open_commit_editor_post(pre, post),
                Action::Dismiss => post == (App { error: None, ..pre }),
            },
        }
    }

    pub open spec fn handle_log_normal_key_post(pre: Self, post: Self, k: Key) -> bool {
        match k.code {
            KeyCode::Char(c) => if c == 'q' {
                post == (App { should_quit: true, ..pre })
            } else if c == 'j' {
                Self::move_log_selection_post(pre, post, 1i32)
            } else if c == 'k' {
                Self::move_log_selection_post(pre, post, -1i32)
            } else if c == 'g' {
                Self::move_log_selection_post(pre, post, i32::MIN)
            } else if c == 'G' {
                Self::move_log_selection_post(pre, post, i32::MAX)
            } else if c == 'r' {
                post == (App { tasks: post.tasks, ..pre }) && post.tasks@ == pre.tasks@.push(Task::RefreshLog)
            } else {
                post == pre
            },
            KeyCode::Down => Self::move_log_selection_post(pre, post, 1i32),
            KeyCode::Up => Self::move_log_selection_post(pre, post, -1i32),
            KeyCode::Esc => post == (App { error: None, ..pre }),
            _ => post == pre,
        }
    }

    pub open spec fn handle_prompt_key_post(pre: Self, post: Self, k: Key) -> bool {
        match pre.prompt {
            None => post == pre,
            Some(p) => {
                let same_but_prompt = post == (App { prompt: post.prompt, ..pre }) && post.prompt is Some;
                let q = post.prompt->0;
                match k.code {
                    KeyCode::Esc => post == (App { prompt: None, ..pre }),
                    KeyCode::Enter => exists|mid: Prompt, raw: Seq<char>|
                        Prompt::submit_post(p, mid, raw) && #[trigger] Self::dispatch_prompt_post(
                            App { prompt: Some(mid), ..pre },
                            post,
                            raw,
                        ),
                    KeyCode::Backspace => same_but_prompt && Prompt::backspace_post(p, q),
                    KeyCode::Delete => same_but_prompt && Prompt::delete_at_cursor_post(p, q),
                    KeyCode::Left => same_but_prompt && Prompt::move_left_post(p, q),
                    KeyCode::Right => same_but_prompt && Prompt::move_right_post(p, q),
                    KeyCode::Home => same_but_prompt && Prompt::move_home_post(p, q),
                    KeyCode::End => same_but_prompt && Prompt::move_end_post(p, q),
                    KeyCode::Up => same_but_prompt && Prompt::recall_prev_post(p, q),
                    KeyCode::Down => same_but_prompt && Prompt::recall_next_post(p, q),
                    KeyCode::Char(c) => if p.cursor < usize::MAX {
                        same_but_prompt && Prompt::insert_char_post(p, q, c)
                    } else {
                        post == pre
                    },
                    _ => post == pre,
                }
            },
        }
    }

    pub open spec fn handle_command_mode_key_post(pre: Self, post: Self, k: Key) -> bool {
        let e = pre.commit_editor;
        let same_but_editor = post == (App { commit_editor: post.commit_editor, ..pre });
        match k.code {
            KeyCode::Esc => same_but_editor && CommitEditor::cancel_command_post(e, post.commit_editor),
            KeyCode::Enter => exists|mid: CommitEditor|
                #[trigger] CommitEditor::execute_command_post(e, mid, command_intent(e.mode->Command_0@, e.blank_spec()))
                && {
                let app = App { commit_editor: mid, ..pre };
                match command_intent(e.mode->Command_0@, e.blank_spec()) {
                    SubmitIntent::Commit => Self::submit_commit_post(app, post),
                    SubmitIntent::Cancel => Self::cancel_commit_post(app, post),
                    SubmitIntent::Nothing => post == app,
                }
            },
            KeyCode::Backspace => same_but_editor && CommitEditor::command_backspace_post(e, post.commit_editor),
            KeyCode::Char(c) => same_but_editor && CommitEditor::command_append_post(e, post.commit_editor, c),
            _ => post == pre,
        }
    }

    pub open spec fn handle_commit_editor_key_post(pre: Self, post: Self, k: Key) -> bool {
        match pre.commit_editor.mode {
            EditorMode::Normal => post == (App { commit_editor: post.commit_editor, ..pre })
                && normal_key_post(pre.commit_editor, post.commit_editor, k),
            EditorMode::Insert => post == (App { commit_editor: post.commit_editor, ..pre })
                && insert_key_post(pre.commit_editor, post.commit_editor, k),
            EditorMode::Command(_) => Self::handle_command_mode_key_post(pre, post, k),
        }
    }

    /// What a key does to the whole application.
    pub open spec fn handle_key_post(pre: Self, post: Self, k: Key) -> bool {
        if is_ctrl_c(k) {
            post == (App { should_quit: true, ..pre })
        } else if pre.confirm is Some {
            Self::handle_confirm_key_post(pre, post, k)
        } else if pre.view == View::CommitEditor {
            Self::handle_commit_editor_key_post(pre, post, k)
        } else if pre.prompt is Some {
            Self::handle_prompt_key_post(pre, post, k)
        } else if k.modifiers.none_spec() && k.code == KeyCode::Char('/') {
            &&& post.prompt is Some
            &&& post.prompt->0.is_fresh()
            &&& post == (App { prompt: post.prompt, error: None, ..pre })
        } else if tab_target(pre.view, k) is Some {
            Self::switch_view_post(pre, post, tab_target(pre.view, k)->0)
        } else {
            match pre.view {
                View::Status => Self::handle_status_normal_key_post(pre, post, k),
                View::Log => Self::handle_log_normal_key_post(pre, post, k),
                View::CommitEditor => post == pre,
            }
        }
    }

    // --- handlers ---------------------------------------------------------------------

    /// Key events other than releases are handled; resizes need nothing.
    pub fn handle_event(&mut self, ev: AppEvent)
        requires
            old(self).wf(),
        ensures
            final(self).wf(),
            match ev {
                AppEvent::Key(k) => if k.kind != KeyKind::Release {
                    Self::handle_key_post(*old(self), *final(self), k)
                } else {
                    *final(self) == *old(self)
                },
                AppEvent::Resize(_, _) => *final(self) == *old(self),
            },
    {
        match ev {
            AppEvent::Key(k) => {
                if !matches!(k.kind, KeyKind::Release) {
                    self.handle_key(k);
                }
            },
            AppEvent::Resize(_, _) => {},
        }
    }

    /// Routes a key: `Ctrl+C` quits from anywhere; a pending confirmation,
    /// the commit editor and the open prompt each take all keys; otherwise
    /// `/` opens the prompt, tab keys switch tabs, and the active view handles
    /// the rest.
    pub fn handle_key(&mut self, k: Key)
        requires
            old(self).wf(),
        ensures
            final(self).wf(),
            Self::handle_key_post(*old(self), *final(self), k),
    {
        if is_quit_chord(&k) {
            self.should_quit = true;
            return;
        }
        if self.confirm.is_some() {
            self.handle_confirm_key(k);
            return;
        }
        if self.view == View::CommitEditor {
            self.handle_commit_editor_key(k);
            return;
        }
        if self.prompt.is_some() {
            self.handle_prompt_key(k);
            return;
        }
        let slash = match k.code {
            KeyCode::Char(c) => c == '/',
            _ => false,
        };
        if k.modifiers.is_empty() && slash {
            self.prompt = Some(Prompt::new());
            self.error = None;
            return;
        }
        if self.try_handle_tab_key(k) {
            return;
        }
        match self.view {
            View::Status => self.handle_status_normal_key(k),
            View::Log => self.handle_log_normal_key(k),
            View::CommitEditor => {},
        }
    }

    fn handle_status_normal_key(&mut self, k: Key)
        ensures
            Self::handle_status_normal_key_post(*old(self), *final(self), k),
    {
        let action = match key_to_action(k) {
            Some(a) => a,
            None => return,
        };
        match action {
            Action::Quit => self.should_quit = true,
            Action::MoveSelection(d) => self.move_selection(d),
            Action::SwitchPane | Action::SwitchPaneBack => {
                self.focused = match self.focused {
                    Pane::Unstaged => Pane::Staged,
                    Pane::Staged => Pane::Unstaged,
                };
                self.refresh_diff();
            },
            Action::EnterDiff | Action::LeaveDiff => {},
            Action::Refresh => self.refresh_status(),
            Action::StageSelected => self.stage_selected(),
            Action::UnstageSelected => self.unstage_selected(),
            Action::DiscardSelected => self.discard_selected(),
            Action::Commit => self.open_commit_editor(),
            Action::Dismiss => self.error = None,
        }
    }

    fn handle_log_normal_key(&mut self, k: Key)
        ensures
            Self::handle_log_normal_key_post(*old(self), *final(self), k),
    {
        match k.code {
            KeyCode::Char(c) => if c == 'q' {
                self.should_quit = true;
            } else if c == 'j' {
                self.move_log_selection(1);
            } else if c == 'k' {
                self.move_log_selection(-1);
            } else if c == 'g' {
                self.move_log_selection(i32::MIN);
            } else if c == 'G' {
                self.move_log_selection(i32::MAX);
            } else if c == 'r' {
                self.refresh_log();
            },
            KeyCode::Down => self.move_log_selection(1),
            KeyCode::Up => self.move_log_selection(-1),
            KeyCode::Esc => self.error = None,
            _ => {},
        }
    }

    /// `y`/`Y` runs the pending command; any other key cancels it.
    fn handle_confirm_key(&mut self, k: Key)
        ensures
            Self::handle_confirm_key_post(*old(self), *final(self), k),
    {
        let confirmed = match k.code {
            KeyCode::Char(c) => c == 'y' || c == 'Y',
            _ => false,
        };
        let pending = match self.confirm.take() {
            Some(p) => p,
            None => return,
        };
        if confirmed {
            self.run_action(pending.cmd);
        }
    }

    fn handle_prompt_key(&mut self, k: Key)
        requires
            old(self).wf(),
        ensures
            final(self).wf(),
            Self::handle_prompt_key_post(*old(self), *final(self), k),
    {
        let mut p = match self.prompt.take() {
            Some(p) => p,
            None => return,
        };
        match k.code {
            KeyCode::Esc => {
                return;
            },
            KeyCode::Enter => {
                let ghost p0 = p;
                let raw = p.submit();
                self.prompt = Some(p);
                let ghost mid_app = *self;
                assert(mid_app == (App { prompt: Some(p), ..*old(self) }));
                self.dispatch_prompt(raw);
                assert(Prompt::submit_post(p0, p, raw@));
                assert(Self::dispatch_prompt_post(App { prompt: Some(p), ..*old(self) }, *self, raw@));
                return;
            },
            KeyCode::Backspace => p.backspace(),
            KeyCode::Delete => p.delete_at_cursor(),
            KeyCode::Left => p.move_left(),
            KeyCode::Right => p.move_right(),
            KeyCode::Home => p.move_home(),
            KeyCode::End => p.move_end(),
            KeyCode::Up => p.recall_prev(),
            KeyCode::Down => p.recall_next(),
            KeyCode::Char(c) => {
                if p.cursor < usize::MAX {
                    p.insert_char(c);
                }
            },
            _ => {},
        }
        self.prompt = Some(p);
    }

    fn handle_commit_editor_key(&mut self, k: Key)
        requires
            old(self).wf(),
        ensures
            final(self).wf(),
            Self::handle_commit_editor_key_post(*old(self), *final(self), k),
    {
        match self.commit_editor.mode {
            EditorMode::Normal => self.handle_normal_mode_key(k),
            EditorMode::Insert => self.handle_insert_mode_key(k),
            EditorMode::Command(_) => self.handle_command_mode_key(k),
        }
    }

    fn handle_normal_mode_key(&mut self, k: Key)
        requires
            old(self).wf(),
        ensures
            final(self).wf(),
            *final(self) == (App { commit_editor: final(self).commit_editor, ..*old(self) }),
            normal_key_post(old(self).commit_editor, final(self).commit_editor, k),
            old(self).commit_editor.pending_op is Some ==> final(self).commit_editor.pending_op is None,
    {
        let e = &mut self.commit_editor;
        let pending = e.pending_op;
        if let Some(prev) = pending {
            e.pending_op = None;
            if let KeyCode::Char(c) = k.code {
                if prev == 'g' && c == 'g' {
                    e.goto_top();
                } else if prev == 'd' && c == 'd' {
                    e.delete_line();
                } else if prev == 'd' && c == 'w' {
                    e.delete_word_forward();
                }
            }
            return;
        }
        if let KeyCode::Char(c) = k.code {
            if c == 'h' {
                e.move_left();
            } else if c == 'j' {
                e.move_down();
            } else if c == 'k' {
                e.move_up();
            } else if c == 'l' {
                e.move_right();
            } else if c == '0' {
                e.move_line_start();
            } else if c == '$' {
                e.move_line_end();
            } else if c == 'w' {
                e.move_word_forward();
            } else if c == 'b' {
                e.move_word_back();
            } else if c == 'G' {
                e.goto_bottom();
            } else if c == 'g' {
                e.pending_op = Some('g');
            } else if c == 'd' {
                e.pending_op = Some('d');
            } else if c == 'i' {
                e.enter_insert();
            } else if c == 'a' {
                e.enter_insert_after();
            } else if c == 'I' {
                e.enter_insert_line_start();
            } else if c == 'A' {
                e.enter_insert_line_end();
            } else if c == 'o' {
                e.open_line_below();
            } else if c == 'O' {
                e.open_line_above();
            } else if c == 'x' {
                e.delete_at_cursor();
            } else if c == 'D' {
                e.delete_to_end_of_line();
            } else if c == ':' {
                e.enter_command();
            }
            return;
        }
        match k.code {
            KeyCode::Esc => e.clear_status(),
            KeyCode::Left => e.move_left(),
            KeyCode::Right => e.move_right(),
            KeyCode::Up => e.move_up(),
            KeyCode::Down => e.move_down(),
            KeyCode::Home => e.move_line_start(),
            KeyCode::End => e.move_line_end(),
            _ => {},
        }
    }

    fn handle_insert_mode_key(&mut self, k: Key)
        requires
            old(self).wf(),
        ensures
            final(self).wf(),
            *final(self) == (App { commit_editor: final(self).commit_editor, ..*old(self) }),
            insert_key_post(old(self).commit_editor, final(self).commit_editor, k),
    {
        let e = &mut self.commit_editor;
        match k.code {
            KeyCode::Esc => e.enter_normal(),
            KeyCode::Enter => {
                e.insert_newline();
                e.clear_status();
            },
            KeyCode::Backspace => {
                e.backspace();
                e.clear_status();
            },
            KeyCode::Delete => {
                e.delete_at_cursor();
                e.clear_status();
            },
            KeyCode::Left => e.move_left(),
            KeyCode::Right => e.move_right(),
            KeyCode::Up => e.move_up(),
            KeyCode::Down => e.move_down(),
            KeyCode::Home => e.move_line_start(),
            KeyCode::End => e.move_line_end(),
            KeyCode::Char(c) => {
                if e.col < usize::MAX {
                    e.insert_char(c);
                    e.clear_status();
                }
            },
            _ => {},
        }
    }

    fn handle_command_mode_key(&mut self, k: Key)
        requires
            old(self).wf(),
            old(self).commit_editor.mode is Command,
        ensures
            final(self).wf(),
            Self::handle_command_mode_key_post(*old(self), *final(self), k),
    {
        match k.code {
            KeyCode::Esc => self.commit_editor.cancel_command(),
            KeyCode::Enter => {
                let intent = self.commit_editor.execute_command();
                let ghost mid = self.commit_editor;
                match intent {
                    SubmitIntent::Commit => self.submit_commit(),
                    SubmitIntent::Cancel => self.cancel_commit(),
                    SubmitIntent::Nothing => {},
                }
                assert(CommitEditor::execute_command_post(old(self).commit_editor, mid, intent));
            },
            KeyCode::Backspace => self.commit_editor.command_backspace(),
            KeyCode::Char(c) => self.commit_editor.command_append(c),
            _ => {},
        }
    }
}

} // verus!
