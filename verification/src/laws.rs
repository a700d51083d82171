//! Properties of the library that span several functions or all inputs.

use vstd::prelude::*;
use vstd::view::View as _;
use crate::app::{
    action_error, drained, last_pending, normal_key_post, App, Awaiting, clamp_sel_spec, other_tab, started, GitRequest,
    Task, View,
};
use crate::git::runner::CommandOutput;
use crate::commit_editor::{clamp_col, insert_char_at, join_lines, remove_range, CommitEditor};
use crate::git::diff::{diff_of_lines, is_hunk_header, lines_from, patch_spec, strip_cr, terminated, HunkView};
use crate::git::log::{parse_refs_spec, ref_pieces_from, next_comma_space, lemma_next_comma_space};
use crate::git::status::{
    lemma_nul_from_ge, nul_from, parse_status_spec, record_end, records_from, skip_nul, status_of,
    symbol_of, FileStatus, staged_status, unstaged_status,
};
use crate::history::{recorded, CAP};
use crate::keymap::{is_ctrl_c, Key};
use crate::prompt::{Prompt, record_submission, shell_split_spec, split_from};
use crate::text::{all_whitespace, lemma_next_sep, next_sep, pieces_from, unicode_whitespace};
use crate::git::status::FileEntry;
use crate::app::{diff_args, Pane};

verus! {

// --- porcelain status codes ------------------------------------------------

/// Reading a status code and writing it back gives the same character.
pub proof fn law_status_code_roundtrip(c: char)
    ensures
        symbol_of(status_of(c)) == c,
{
}

/// Writing a status and reading it back gives the same status, for every
/// status that is not an `Unknown` wrapping one of the known codes.
pub proof fn law_status_symbol_roundtrip(s: FileStatus)
    requires
        s matches FileStatus::Unknown(c) ==> status_of(c) is Unknown,
    ensures
        status_of(symbol_of(s)) == s,
{
}

/// Untracked files count as unstaged and never as staged; unmodified index
/// or worktree sides are neither.
pub proof fn law_untracked_is_only_unstaged()
    ensures
        !staged_status(FileStatus::Untracked),
        unstaged_status(FileStatus::Untracked),
        !staged_status(FileStatus::Unmodified),
        !unstaged_status(FileStatus::Unmodified),
        !staged_status(FileStatus::Ignored),
{
}

proof fn lemma_records_bounded(b: Seq<u8>, i: int)
    requires
        0 <= i <= b.len(),
    ensures
        records_from(b, i).len() * 3 <= b.len() - i,
    decreases b.len() - i,
{
    if i + 3 <= b.len() {
        lemma_nul_from_ge(b, i + 3);
        let j = skip_nul(b, nul_from(b, i + 3));
        lemma_nul_from_ge(b, j);
        let e = record_end(b, i);
        assert(i + 3 <= e <= b.len());
        lemma_records_bounded(b, e);
    }
}

/// Every status entry takes at least three bytes (two codes and a space), so
/// a stream of `n` bytes yields at most `n / 3` entries.
pub proof fn law_status_entries_bounded(b: Seq<u8>)
    ensures
        parse_status_spec(b).len() <= b.len() / 3,
{
    lemma_records_bounded(b, 0);
}

// --- diff -------------------------------------------------------------------

/// In a parsed diff no header line opens a hunk and every hunk header does.
pub proof fn law_diff_shape(ls: Seq<Seq<char>>)
    ensures
        forall|i: int| 0 <= i < diff_of_lines(ls).header_lines.len()
            ==> !is_hunk_header(#[trigger] diff_of_lines(ls).header_lines[i]),
        forall|i: int| 0 <= i < diff_of_lines(ls).hunks.len()
            ==> is_hunk_header(#[trigger] diff_of_lines(ls).hunks[i].header),
    decreases ls.len(),
{
    if ls.len() > 0 {
        law_diff_shape(ls.drop_last());
        let d = diff_of_lines(ls.drop_last());
        let e = diff_of_lines(ls);
        let l = ls.last();
        assert forall|i: int| 0 <= i < e.header_lines.len() implies !is_hunk_header(
            #[trigger] e.header_lines[i],
        ) by {
            if i < d.header_lines.len() {
                assert(!is_hunk_header(d.header_lines[i]));
            }
        }
        assert forall|i: int| 0 <= i < e.hunks.len() implies is_hunk_header(
            #[trigger] e.hunks[i].header,
        ) by {
            if i < d.hunks.len() {
                assert(is_hunk_header(d.hunks[i].header));
            }
        }
    }
}

/// Parsing never loses or reorders a line: the header lines, then each
/// hunk's header and body, are the input lines in order.
pub open spec fn flatten_hunks(hs: Seq<HunkView>) -> Seq<Seq<char>>
    decreases hs.len(),
{
    if hs.len() == 0 {
        Seq::empty()
    } else {
        flatten_hunks(hs.drop_last()) + seq![hs.last().header] + hs.last().lines
    }
}

/// The lines of a parsed diff, read back in order, are its input lines.
pub proof fn law_diff_keeps_every_line(ls: Seq<Seq<char>>)
    ensures
        diff_of_lines(ls).header_lines + flatten_hunks(diff_of_lines(ls).hunks) == ls,
    decreases ls.len(),
{
    if ls.len() > 0 {
        let d = diff_of_lines(ls.drop_last());
        law_diff_keeps_every_line(ls.drop_last());
        let l = ls.last();
        if is_hunk_header(l) {
            let hs = d.hunks.push(HunkView { header: l, lines: Seq::empty() });
            assert(hs.drop_last() =~= d.hunks);
            assert(flatten_hunks(hs) == flatten_hunks(d.hunks) + seq![l] + Seq::<Seq<char>>::empty());
            assert(ls =~= ls.drop_last().push(l));
            assert(d.header_lines + flatten_hunks(hs) =~= ls);
        } else if d.hunks.len() == 0 {
            assert(flatten_hunks(d.hunks) =~= Seq::<Seq<char>>::empty());
            assert(d.header_lines.push(l) + flatten_hunks(d.hunks) =~= ls);
        } else {
            let h = d.hunks.last();
            let hs = d.hunks.update(d.hunks.len() - 1, HunkView { header: h.header, lines: h.lines.push(l) });
            assert(hs.drop_last() =~= d.hunks.drop_last());
            assert(flatten_hunks(d.hunks) == flatten_hunks(d.hunks.drop_last()) + seq![h.header] + h.lines);
            assert(flatten_hunks(hs) == flatten_hunks(d.hunks.drop_last()) + seq![h.header] + h.lines.push(l));
            assert(ls =~= ls.drop_last().push(l));
            assert(d.header_lines + flatten_hunks(hs) =~= ls);
        }
    }
}

/// Newline-terminated text of a nonempty list of lines ends with a newline.
proof fn lemma_terminated_ends_with_newline(ls: Seq<Seq<char>>)
    requires
        ls.len() > 0,
    ensures
        terminated(ls).len() > 0,
        terminated(ls).last() == '\n',
{
}

/// A one-hunk patch always ends with a newline, as `git apply` needs.
pub proof fn law_patch_ends_with_newline(header_lines: Seq<Seq<char>>, h: HunkView)
    ensures
        patch_spec(header_lines, h).len() > 0,
        patch_spec(header_lines, h).last() == '\n',
{
    if h.lines.len() > 0 {
        lemma_terminated_ends_with_newline(h.lines);
    }
}

// --- log decorations ---------------------------------------------------------

/// Pieces joined back with `", "`.
pub open spec fn join_comma_space(ps: Seq<Seq<char>>) -> Seq<char>
    decreases ps.len(),
{
    if ps.len() == 0 {
        Seq::empty()
    } else if ps.len() == 1 {
        ps[0]
    } else {
        ps[0] + ", "@ + join_comma_space(ps.drop_first())
    }
}

proof fn lemma_ref_pieces_join(s: Seq<char>, start: int)
    requires
        0 <= start <= s.len(),
    ensures
        ref_pieces_from(s, start).len() >= 1,
        join_comma_space(ref_pieces_from(s, start)) == s.subrange(start, s.len() as int),
    decreases s.len() - start,
{
    reveal_strlit(", ");
    let k = next_comma_space(s, start);
    lemma_next_comma_space(s, start);
    if k < s.len() {
        lemma_ref_pieces_join(s, k + 2);
        let rest = ref_pieces_from(s, k + 2);
        let ps = seq![s.subrange(start, k)] + rest;
        assert(ps.drop_first() =~= rest);
        assert(ps[0] == s.subrange(start, k));
        assert(s[k] == ',' && s[k + 1] == ' ') by {
            lemma_comma_space_found(s, start);
        }
        assert(s.subrange(start, k) + ", "@ + s.subrange(k + 2, s.len() as int) =~= s.subrange(
            start,
            s.len() as int,
        ));
    }
}

proof fn lemma_comma_space_found(s: Seq<char>, i: int)
    requires
        0 <= i,
        next_comma_space(s, i) < s.len(),
    ensures
        s[next_comma_space(s, i)] == ',',
        s[next_comma_space(s, i) + 1] == ' ',
    decreases s.len() - i,
{
    if !(i >= s.len() || (s[i] == ',' && i + 1 < s.len() && s[i + 1] == ' ')) {
        lemma_comma_space_found(s, i + 1);
    }
}

/// Splitting a decoration into refs loses nothing: joining the refs with
/// `", "` gives the decoration back.
pub proof fn law_refs_rejoin(s: Seq<char>)
    ensures
        join_comma_space(parse_refs_spec(s)) == s,
{
    if s.len() > 0 {
        lemma_ref_pieces_join(s, 0);
        assert(s.subrange(0, s.len() as int) =~= s);
    }
}

// --- tokenizer ---------------------------------------------------------------

proof fn lemma_blank_split_from(s: Seq<char>, i: int)
    requires
        0 <= i <= s.len(),
        all_whitespace(s),
    ensures
        split_from(s, i, Seq::empty(), Seq::empty(), false, false) == Seq::<Seq<char>>::empty(),
    decreases s.len() - i,
{
    if i < s.len() {
        assert(unicode_whitespace(s[i]));
        lemma_blank_split_from(s, i + 1);
    }
}

/// A blank command line has no tokens.
pub proof fn law_blank_line_has_no_tokens(s: Seq<char>)
    requires
        all_whitespace(s),
    ensures
        shell_split_spec(s) == Seq::<Seq<char>>::empty(),
{
    lemma_blank_split_from(s, 0);
}

/// The end of the run of non-whitespace characters starting at `i`.
pub open spec fn word_end(s: Seq<char>, i: int) -> int
    decreases s.len() - i,
{
    if i < 0 || i >= s.len() || unicode_whitespace(s[i]) {
        i
    } else {
        word_end(s, i + 1)
    }
}

/// A word ends at or after where it starts, and past its first character.
pub proof fn lemma_word_end(s: Seq<char>, i: int)
    requires
        0 <= i <= s.len(),
    ensures
        i <= word_end(s, i) <= s.len(),
        i < s.len() && !unicode_whitespace(s[i]) ==> word_end(s, i) > i,
    decreases s.len() - i,
{
    if i < s.len() && !unicode_whitespace(s[i]) {
        lemma_word_end(s, i + 1);
    }
}

/// The maximal runs of non-whitespace characters of `s[i..]`, in order.
pub open spec fn words_from(s: Seq<char>, i: int) -> Seq<Seq<char>>
    decreases s.len() - i,
{
    if i < 0 || i >= s.len() {
        Seq::empty()
    } else if unicode_whitespace(s[i]) {
        words_from(s, i + 1)
    } else {
        let j = word_end(s, i);
        proof {
            lemma_word_end(s, i);
        }
        seq![s.subrange(i, j)] + words_from(s, j)
    }
}

/// `s` split on whitespace, as `str::split_whitespace` splits it.
pub open spec fn split_whitespace_spec(s: Seq<char>) -> Seq<Seq<char>> {
    words_from(s, 0)
}

proof fn lemma_plain_split(s: Seq<char>, i: int, out: Seq<Seq<char>>, cur: Seq<char>, started: bool)
    requires
        0 <= i <= s.len(),
        forall|k: int| 0 <= k < s.len() ==> s[k] != '"',
        !started ==> cur == Seq::<char>::empty(),
    ensures
        split_from(s, i, out, cur, false, started) == if started {
            out.push(cur + s.subrange(i, word_end(s, i))) + words_from(s, word_end(s, i))
        } else {
            out + words_from(s, i)
        },
    decreases s.len() - i,
{
    lemma_word_end(s, i);
    if i == s.len() {
        assert(s.subrange(i, i) =~= Seq::<char>::empty());
        assert(cur + Seq::<char>::empty() =~= cur);
        assert(out.push(cur) + Seq::<Seq<char>>::empty() =~= out.push(cur));
        assert(out + Seq::<Seq<char>>::empty() =~= out);
    } else {
        let c = s[i];
        assert(c != '"');
        if unicode_whitespace(c) {
            lemma_plain_split(s, i + 1, if started { out.push(cur) } else { out }, Seq::empty(), false);
            if started {
                assert(s.subrange(i, i) =~= Seq::<char>::empty());
                assert(cur + Seq::<char>::empty() =~= cur);
            }
        } else {
            lemma_plain_split(s, i + 1, out, cur.push(c), true);
            lemma_word_end(s, i + 1);
            let j = word_end(s, i);
            assert(cur.push(c) + s.subrange(i + 1, j) =~= cur + s.subrange(i, j));
            if !started {
                assert(out.push(s.subrange(i, j)) + words_from(s, j) =~= out + (seq![s.subrange(i, j)] + words_from(s, j)));
            }
        }
    }
}

/// Without double quotes the tokenizer is plain whitespace splitting: single
/// quotes and backslashes are ordinary characters.
pub proof fn law_unquoted_line_splits_on_whitespace(s: Seq<char>)
    requires
        forall|k: int| 0 <= k < s.len() ==> s[k] != '"',
    ensures
        shell_split_spec(s) == split_whitespace_spec(s),
{
    lemma_plain_split(s, 0, Seq::empty(), Seq::empty(), false);
    assert(Seq::<Seq<char>>::empty() + words_from(s, 0) =~= words_from(s, 0));
}

// --- prompt history -------------------------------------------------------------

/// After submitting a non-blank line, up-arrow shows that line.
pub proof fn law_submit_then_recall(p0: Prompt, p1: Prompt, p2: Prompt, raw: Seq<char>)
    requires
        Prompt::submit_post(p0, p1, raw),
        !all_whitespace(raw),
        Prompt::recall_prev_post(p1, p2),
    ensures
        p2.buffer@ == raw,
{
    let h = p0.history_view();
    if h.len() > 0 && h.last() == raw {
    } else if h.len() == crate::prompt::HISTORY_CAP {
        assert(h.drop_first().push(raw).last() == raw);
    } else {
        assert(h.push(raw).last() == raw);
    }
}

/// Up-arrow then down-arrow, started from a buffer being edited, gives that
/// buffer back.
pub proof fn law_recall_roundtrip(p0: Prompt, p1: Prompt, p2: Prompt)
    requires
        p0.wf(),
        p0.recall_index() is None,
        p0.history_view().len() > 0,
        Prompt::recall_prev_post(p0, p1),
        Prompt::recall_next_post(p1, p2),
    ensures
        p2.buffer@ == p0.buffer@,
        p2.recall_index() is None,
{
}

/// The prompt history never holds more than 64 entries, and a blank
/// submission leaves it unchanged.
pub proof fn law_prompt_history_bounded(h: Seq<Seq<char>>, raw: Seq<char>)
    requires
        h.len() <= crate::prompt::HISTORY_CAP,
    ensures
        record_submission(h, raw).len() <= crate::prompt::HISTORY_CAP,
        all_whitespace(raw) ==> record_submission(h, raw) == h,
{
}

// --- command history -------------------------------------------------------------

/// The newest entry after recording `cmd` is `cmd`, and the history stays
/// within its capacity.
pub proof fn law_record_then_last(h: Seq<Seq<char>>, cmd: Seq<char>)
    requires
        h.len() <= CAP,
    ensures
        recorded(h, cmd).last() == cmd,
        recorded(h, cmd).len() <= CAP,
        h.len() < CAP ==> recorded(h, cmd) == h.push(cmd),
{
}

// --- commit editor ------------------------------------------------------------------

/// Backspace right after typing a character removes exactly that character.
pub proof fn law_backspace_undoes_insert(e0: CommitEditor, e1: CommitEditor, e2: CommitEditor, c: char)
    requires
        e0.inv(),
        CommitEditor::insert_char_post(e0, e1, c),
        CommitEditor::backspace_post(e1, e2),
    ensures
        e2.text() == e0.text(),
        e2.row == e0.row,
        e2.col == e0.col,
{
    let l = e0.cur_line();
    let col = e0.col as int;
    let l1 = insert_char_at(l, col, c);
    assert(e1.text()[e1.row as int] == l1);
    assert(remove_range(l1, clamp_col(col, l1.len() as int), clamp_col(col + 1, l1.len() as int)) =~= l);
    assert(e0.text().update(e0.row as int, l1).update(e0.row as int, l) =~= e0.text());
}

/// Backspace at the start of the line that `Enter` just opened joins the
/// two halves back into the line that was split.
pub proof fn law_backspace_undoes_newline(e0: CommitEditor, e1: CommitEditor, e2: CommitEditor)
    requires
        e0.inv(),
        CommitEditor::insert_newline_post(e0, e1),
        CommitEditor::backspace_post(e1, e2),
    ensures
        e2.text() == e0.text(),
        e2.row == e0.row,
        e2.col == e0.col,
{
    let l = e0.cur_line();
    let i = clamp_col(e0.col as int, l.len() as int);
    let r = e0.row as int;
    let t1 = e0.text().update(r, l.subrange(0, i)).insert(r + 1, l.subrange(i, l.len() as int));
    assert(e1.text() == t1);
    assert(t1[r] == l.subrange(0, i));
    assert(t1[r + 1] == l.subrange(i, l.len() as int));
    assert(l.subrange(0, i) + l.subrange(i, l.len() as int) =~= l);
    assert(t1.update(r, l).remove(r + 1) =~= e0.text());
}

// --- application -------------------------------------------------------------------------

/// `Ctrl+C` quits from every view and mode, changing nothing else.
pub proof fn law_ctrl_c_quits(pre: App, post: App, k: Key)
    requires
        is_ctrl_c(k),
        App::handle_key_post(pre, post, k),
    ensures
        post.should_quit,
        post == (App { should_quit: true, ..pre }),
{
}

/// While a confirmation is pending, any other key resolves it: the
/// confirmation is gone afterwards, and at most the confirmed command is
/// queued.
pub proof fn law_confirmation_takes_the_next_key(pre: App, post: App, k: Key)
    requires
        !is_ctrl_c(k),
        pre.confirm is Some,
        App::handle_key_post(pre, post, k),
    ensures
        post.confirm is None,
        post.view == pre.view,
        post.error == pre.error,
        post.prompt == pre.prompt,
        post.tasks@ == pre.tasks@ || post.tasks@ == pre.tasks@.push(
            crate::app::Task::RunAction(pre.confirm->0.cmd),
        ),
{
}

/// A clamped selection names an item of a nonempty list.
pub proof fn law_clamped_selection_in_range(sel: int, len: int)
    requires
        len > 0,
    ensures
        0 <= clamp_sel_spec(sel, len) < len || sel < 0,
{
}

/// Moving the selection keeps it inside the focused pane.
pub proof fn law_moved_selection_in_range(pre: App, delta: i32)
    ensures
        0 <= App::moved_selection(pre, delta),
        crate::app::pane_entries(pre.status, pre.focused).len() > 0 ==> App::moved_selection(pre, delta)
            < crate::app::pane_entries(pre.status, pre.focused).len(),
{
}

/// With two tabs, `]` twice (or `[` twice) returns to the starting tab.
pub proof fn law_tab_cycle(v: View)
    ensures
        other_tab(other_tab(v)) == v,
{
}

/// Every refresh the app starts shows its exact command line in the teaching
/// bar: the newest history entry is the command that is about to run.
pub proof fn law_refresh_shows_its_command(pre: App, post: App, t: Task, r: Option<GitRequest>)
    requires
        t is RefreshStatus || t is ReloadStatus || t is RefreshDiff || t is RefreshLog || t is RefreshLogDetail,
        started(pre, post, t, r),
    ensures
        r is Some,
        post.history.entries_view().len() > 0,
        post.history.entries_view().last() == crate::git::display_spec(r->0.cmd.args_view()),
{
}

/// A user command that fails leaves its error, and the status reload that
/// follows it does not clear that error when the reload succeeds.
pub proof fn law_failed_command_error_survives_reload(
    a0: App,
    a1: App,
    a2: App,
    a3: App,
    out: Result<CommandOutput, String>,
    reload: CommandOutput,
    r: Option<GitRequest>,
)
    requires
        a0.awaiting matches Some(Awaiting::Action(d)) && action_error(d@, out) is Some,
        App::finish_post(a0, a1, out),
        App::next_request_post(a1, a2, r),
        App::finish_post(a2, a3, Ok(reload)),
    ensures
        a1.error is Some,
        a1.error->0@ == action_error(a0.awaiting->0->Action_0@, out)->0,
        a3.error == a1.error,
{
    let ts = a1.tasks@;
    assert(ts.last() == Task::ReloadStatus);
    assert(last_pending(a1, ts) == ts.len() - 1);
    let k = ts.len() - 1;
    let mid = choose|mid: App|
        #[trigger] drained(a1, mid, ts.skip(k + 1)) && mid.tasks@ == ts.take(k) && started(
            mid,
            a2,
            ts[k],
            r,
        );
    assert(ts.skip(k + 1) =~= Seq::<Task>::empty());
    assert(mid.error == a1.error);
    assert(a2.awaiting == Some(Awaiting::Reload));
}

/// In Normal mode the key after a half-typed operator (`g`, `d`) always
/// resolves it: `gg`, `dd`, `dw` complete it, and any other key, character or
/// not, abandons it.
pub proof fn law_pending_operator_resolved_by_next_key(pre: CommitEditor, post: CommitEditor, k: Key)
    requires
        pre.inv(),
        pre.pending_op is Some,
        normal_key_post(pre, post, k),
    ensures
        post.pending_op is None,
{
}


// --- prompt recall, both directions ---------------------------------------------------

/// Down while an older entry is shown moves to the next newer entry.
pub proof fn law_down_shows_next_newer(p: Prompt, q: Prompt, i: usize)
    requires
        p.wf(),
        p.recall_index() == Some(i),
        i + 1 < p.history_view().len(),
        Prompt::recall_next_post(p, q),
    ensures
        q.recall_index() == Some((i + 1) as usize),
        q.buffer@ == p.history_view()[i + 1],
        q.history_view() == p.history_view(),
{
}

/// Down on the newest entry ends recall and gives back the line that was
/// being typed before recall started.
pub proof fn law_down_past_newest_restores_draft(p: Prompt, q: Prompt, i: usize, draft: Seq<char>)
    requires
        p.wf(),
        p.recall_index() == Some(i),
        i + 1 == p.history_view().len(),
        p.saved_view() == Some(draft),
        Prompt::recall_next_post(p, q),
    ensures
        q.recall_index() is None,
        q.buffer@ == draft,
        q.cursor == draft.len(),
{
}

/// Up shows the next older entry: the newest when recall starts, and the
/// oldest stays put.
pub proof fn law_up_shows_next_older(p: Prompt, q: Prompt)
    requires
        p.wf(),
        p.history_view().len() > 0,
        Prompt::recall_prev_post(p, q),
    ensures
        p.recall_index() is None ==> q.recall_index() == Some((p.history_view().len() - 1) as usize)
            && q.buffer@ == p.history_view().last() && q.saved_view() == Some(p.buffer@),
        match p.recall_index() {
            Some(i) => i > 0 ==> q.recall_index() == Some((i - 1) as usize) && q.buffer@
                == p.history_view()[i - 1],
            None => true,
        },
        p.recall_index() == Some(0usize) ==> q.recall_index() == Some(0usize) && q.buffer@
            == p.history_view()[0],
{
}

/// Up then Down, from any recalled entry but the oldest, comes back to the
/// same entry.
pub proof fn law_up_then_down_returns(p0: Prompt, p1: Prompt, p2: Prompt, i: usize)
    requires
        p0.wf(),
        p0.recall_index() == Some(i),
        0 < i,
        Prompt::recall_prev_post(p0, p1),
        Prompt::recall_next_post(p1, p2),
    ensures
        p2.recall_index() == Some(i),
        p2.buffer@ == p0.history_view()[i as int],
{
}

// --- diff command of the selection ------------------------------------------------------

/// The diff shown for a tracked file is the staged one (`--cached`) exactly
/// when the Staged pane is focused; the path always comes last, after `--`.
pub proof fn law_staged_pane_shows_cached_diff(e: FileEntry, p: Pane)
    requires
        !(e.index is Untracked),
    ensures
        diff_args(e, p).len() == if p == Pane::Staged { 4int } else { 3int },
        diff_args(e, p)[0] == "diff"@,
        (diff_args(e, p)[1] == "--cached"@) <==> (p == Pane::Staged),
        diff_args(e, p).last() == e.path@,
        diff_args(e, p)[diff_args(e, p).len() - 2] == "--"@,
{
    reveal_strlit("--");
    reveal_strlit("--cached");
    assert("--"@.len() != "--cached"@.len());
}

/// An untracked file is diffed against `/dev/null` with `--no-index`, in
/// either pane.
pub proof fn law_untracked_diffs_against_dev_null(e: FileEntry, p: Pane)
    requires
        e.index is Untracked,
    ensures
        diff_args(e, p) == seq!["diff"@, "--no-index"@, "--"@, "/dev/null"@, e.path@],
{
}

// --- committed message ------------------------------------------------------------------

proof fn lemma_next_sep_none(s: Seq<char>, i: int, sep: char)
    requires
        0 <= i <= s.len(),
        forall|k: int| i <= k < s.len() ==> s[k] != sep,
    ensures
        next_sep(s, i, sep) == s.len(),
    decreases s.len() - i,
{
    if i < s.len() {
        lemma_next_sep_none(s, i + 1, sep);
    }
}

proof fn lemma_next_sep_skips(s: Seq<char>, i: int, sep: char, j: int)
    requires
        0 <= i <= j < next_sep(s, i, sep),
    ensures
        s[j] != sep,
    decreases j - i,
{
    if i < j {
        lemma_next_sep_skips(s, i + 1, sep, j);
    }
}

proof fn lemma_next_sep_concat(a: Seq<char>, b: Seq<char>, start: int)
    requires
        0 <= start <= a.len(),
    ensures
        next_sep(a, start, '\n') < a.len() ==> next_sep(a + seq!['\n'] + b, start, '\n') == next_sep(a, start, '\n'),
        next_sep(a, start, '\n') >= a.len() ==> next_sep(a + seq!['\n'] + b, start, '\n') == a.len(),
    decreases a.len() - start,
{
    let s = a + seq!['\n'] + b;
    if start < a.len() {
        assert(s[start] == a[start]);
        if a[start] != '\n' {
            lemma_next_sep_concat(a, b, start + 1);
        }
    } else {
        assert(s[start] == '\n');
    }
}

proof fn lemma_pieces_concat(a: Seq<char>, b: Seq<char>, start: int)
    requires
        0 <= start <= a.len(),
        forall|k: int| 0 <= k < b.len() ==> b[k] != '\n',
    ensures
        pieces_from(a + seq!['\n'] + b, start, '\n') == pieces_from(a, start, '\n') + seq![b],
    decreases a.len() - start,
{
    let s = a + seq!['\n'] + b;
    lemma_next_sep(a, start, '\n');
    lemma_next_sep(s, start, '\n');
    lemma_next_sep_concat(a, b, start);
    let ka = next_sep(a, start, '\n');
    if ka < a.len() {
        lemma_pieces_concat(a, b, ka + 1);
        assert(s.subrange(start, ka) =~= a.subrange(start, ka));
        assert(pieces_from(s, start, '\n') == seq![s.subrange(start, ka)] + pieces_from(s, ka + 1, '\n'));
        assert(pieces_from(a, start, '\n') == seq![a.subrange(start, ka)] + pieces_from(a, ka + 1, '\n'));
        assert(seq![a.subrange(start, ka)] + (pieces_from(a, ka + 1, '\n') + seq![b])
            =~= (seq![a.subrange(start, ka)] + pieces_from(a, ka + 1, '\n')) + seq![b]);
    } else {
        let n = a.len() as int;
        assert forall|k: int| n + 1 <= k < s.len() implies s[k] != '\n' by {
            assert(s[k] == b[k - n - 1]);
        }
        lemma_next_sep_none(s, n + 1, '\n');
        assert(s.subrange(n + 1, s.len() as int) =~= b);
        assert(pieces_from(s, n + 1, '\n') == seq![s.subrange(n + 1, s.len() as int)]);
        assert(s.subrange(start, n) =~= a.subrange(start, n));
        assert(pieces_from(s, start, '\n') =~= seq![a.subrange(start, n)] + seq![b]);
    }
}

/// The message the editor commits (`message`, which joins the lines) splits
/// at `\n` back into exactly the editor's lines: one newline between lines,
/// nothing merged, dropped or reordered.
pub proof fn law_message_splits_into_lines(ls: Seq<Seq<char>>)
    requires
        ls.len() > 0,
        forall|i: int, k: int| 0 <= i < ls.len() && 0 <= k < ls[i].len() ==> ls[i][k] != '\n',
    ensures
        pieces_from(join_lines(ls), 0, '\n') == ls,
    decreases ls.len(),
{
    if ls.len() == 1 {
        assert(forall|k: int| 0 <= k < ls[0].len() ==> ls[0][k] != '\n');
        lemma_next_sep_none(ls[0], 0, '\n');
        assert(ls[0].subrange(0, ls[0].len() as int) =~= ls[0]);
        assert(pieces_from(ls[0], 0, '\n') =~= ls);
    } else {
        let ps = ls.drop_last();
        let x = ls.last();
        assert(forall|k: int| 0 <= k < x.len() ==> x[k] != '\n') by {
            assert(x == ls[ls.len() - 1]);
        }
        law_message_splits_into_lines(ps);
        lemma_pieces_concat(join_lines(ps), x, 0);
        assert(ps.push(x) =~= ls);
    }
}

// --- diff lines --------------------------------------------------------------------------

/// `ls` joined with `\n`, built from the front.
proof fn lemma_join_front(x: Seq<char>, rest: Seq<Seq<char>>)
    ensures
        join_lines(seq![x] + rest) == if rest.len() == 0 {
            x
        } else {
            x + seq!['\n'] + join_lines(rest)
        },
    decreases rest.len(),
{
    let t = seq![x] + rest;
    if rest.len() == 0 {
        assert(t =~= seq![x]);
    } else if rest.len() == 1 {
        assert(t.drop_last() =~= seq![x]);
        assert(join_lines(seq![x]) == x);
        assert(t.last() == rest[0]);
        assert(join_lines(rest) == rest[0]);
        assert(join_lines(t) == join_lines(t.drop_last()) + seq!['\n'] + t.last());
    } else {
        assert(t.drop_last() =~= seq![x] + rest.drop_last());
        lemma_join_front(x, rest.drop_last());
        assert(t.last() == rest.last());
        assert(join_lines(t) == join_lines(t.drop_last()) + seq!['\n'] + t.last());
        assert(join_lines(rest) == join_lines(rest.drop_last()) + seq!['\n'] + rest.last());
        assert(x + seq!['\n'] + join_lines(rest.drop_last()) + seq!['\n'] + rest.last()
            =~= x + seq!['\n'] + (join_lines(rest.drop_last()) + seq!['\n'] + rest.last()));
    }
}

/// `t` without one final newline.
pub open spec fn without_final_newline(t: Seq<char>) -> Seq<char> {
    if t.len() > 0 && t.last() == '\n' { t.drop_last() } else { t }
}

proof fn lemma_lines_rejoin(s: Seq<char>, start: int)
    requires
        0 <= start <= s.len(),
        forall|k: int| 0 <= k < s.len() ==> s[k] != '\r',
    ensures
        join_lines(lines_from(s, start)) == without_final_newline(s.subrange(start, s.len() as int)),
        start < s.len() ==> lines_from(s, start).len() > 0,
    decreases s.len() - start,
{
    let n = s.len() as int;
    if start == n {
        assert(s.subrange(start, n) =~= Seq::<char>::empty());
    } else {
        let k = next_sep(s, start, '\n');
        lemma_next_sep(s, start, '\n');
        if k >= n {
            assert(lines_from(s, start) == seq![s.subrange(start, n)]);
            assert(join_lines(seq![s.subrange(start, n)]) == s.subrange(start, n));
            assert(s.subrange(start, n).last() == s[n - 1]);
            lemma_next_sep_skips(s, start, '\n', n - 1);
        } else {
            let l = s.subrange(start, k);
            assert(strip_cr(l) == l) by {
                if l.len() > 0 {
                    assert(l.last() == s[k - 1]);
                }
            }
            lemma_lines_rejoin(s, k + 1);
            let rest = lines_from(s, k + 1);
            assert(lines_from(s, start) == seq![l] + rest);
            lemma_join_front(l, rest);
            if k + 1 == n {
                assert(rest =~= Seq::<Seq<char>>::empty());
                assert(s.subrange(start, n) =~= l.push('\n'));
                assert(l.push('\n').drop_last() =~= l);
            } else {
                assert(rest.len() > 0);
                assert(s.subrange(start, n) =~= l + seq!['\n'] + s.subrange(k + 1, n));
                assert(s.subrange(start, n).last() == s.subrange(k + 1, n).last());
                if s[n - 1] == '\n' {
                    assert(s.subrange(start, n).drop_last() =~= l + seq!['\n'] + s.subrange(
                        k + 1,
                        n,
                    ).drop_last());
                }
            }
        }
    }
}

/// Splitting diff text into lines loses no character: for text without
/// carriage returns, the lines joined with `\n` give the text back, less one
/// final newline.
pub proof fn law_diff_lines_rejoin(s: Seq<char>)
    requires
        forall|k: int| 0 <= k < s.len() ==> s[k] != '\r',
    ensures
        join_lines(lines_from(s, 0)) == without_final_newline(s),
{
    lemma_lines_rejoin(s, 0);
    assert(s.subrange(0, s.len() as int) =~= s);
}

proof fn lemma_next_sep_shift(a: Seq<char>, b: Seq<char>, j: int, sep: char)
    requires
        0 <= j <= b.len(),
    ensures
        next_sep(a + b, a.len() + j, sep) == a.len() + next_sep(b, j, sep),
    decreases b.len() - j,
{
    if j < b.len() {
        assert((a + b)[a.len() + j] == b[j]);
        if b[j] != sep {
            lemma_next_sep_shift(a, b, j + 1, sep);
        }
    }
}

proof fn lemma_lines_shift(a: Seq<char>, b: Seq<char>, j: int)
    requires
        0 <= j <= b.len(),
    ensures
        lines_from(a + b, a.len() + j) == lines_from(b, j),
    decreases b.len() - j,
{
    let s = a + b;
    let n = a.len() as int;
    if j < b.len() {
        lemma_next_sep_shift(a, b, j, '\n');
        lemma_next_sep(b, j, '\n');
        let k = next_sep(b, j, '\n');
        if k >= b.len() {
            assert(s.subrange(n + j, s.len() as int) =~= b.subrange(j, b.len() as int));
        } else {
            assert(s.subrange(n + j, n + k) =~= b.subrange(j, k));
            lemma_lines_shift(a, b, k + 1);
        }
    }
}

proof fn lemma_first_line(l: Seq<char>, rest: Seq<char>)
    requires
        forall|k: int| 0 <= k < l.len() ==> l[k] != '\n',
    ensures
        lines_from(l + seq!['\n'] + rest, 0) == seq![strip_cr(l)] + lines_from(rest, 0),
{
    let s = l + seq!['\n'] + rest;
    lemma_next_sep_none(l, 0, '\n');
    lemma_next_sep_concat(l, rest, 0);
    assert(next_sep(s, 0, '\n') == l.len());
    assert(s.subrange(0, l.len() as int) =~= l);
    lemma_lines_shift(l + seq!['\n'], rest, 0);
    assert(s =~= (l + seq!['\n']) + rest);
}

/// A line ended by `\n` is read whole: no character of it is dropped.
pub proof fn law_diff_line_kept_whole(l: Seq<char>, rest: Seq<char>)
    requires
        forall|k: int| 0 <= k < l.len() ==> l[k] != '\n',
        l.len() == 0 || l.last() != '\r',
    ensures
        lines_from(l + seq!['\n'] + rest, 0) == seq![l] + lines_from(rest, 0),
{
    lemma_first_line(l, rest);
}

/// A line ended by `\r\n` is read without the `\r`, and nothing else is
/// dropped.
pub proof fn law_diff_crlf_line(l: Seq<char>, rest: Seq<char>)
    requires
        forall|k: int| 0 <= k < l.len() ==> l[k] != '\n',
    ensures
        lines_from(l + seq!['\r', '\n'] + rest, 0) == seq![l] + lines_from(rest, 0),
{
    let lr = l.push('\r');
    assert forall|k: int| 0 <= k < lr.len() implies lr[k] != '\n' by {
        if k < l.len() {
            assert(lr[k] == l[k]);
        }
    }
    lemma_first_line(lr, rest);
    assert(lr + seq!['\n'] =~= l + seq!['\r', '\n']);
    assert(lr.drop_last() =~= l);
}

/// A last line without a newline is read whole.
pub proof fn law_diff_last_line_kept(l: Seq<char>)
    requires
        l.len() > 0,
        forall|k: int| 0 <= k < l.len() ==> l[k] != '\n',
    ensures
        lines_from(l, 0) == seq![l],
{
    lemma_next_sep_none(l, 0, '\n');
    assert(l.subrange(0, l.len() as int) =~= l);
}

// --- status panes ---------------------------------------------------------------------------

/// An entry is in the Unstaged pane exactly when its worktree side is not
/// unmodified (a deleted, modified, added, renamed, copied, type-changed,
/// unmerged or untracked file all count), and in the Staged pane exactly
/// when its index side is neither unmodified, untracked nor ignored.
pub proof fn law_pane_membership(e: FileEntry, es: Seq<FileEntry>)
    ensures
        e.unstaged_spec() <==> !(e.worktree is Unmodified),
        e.staged_spec() <==> !(e.index is Unmodified || e.index is Untracked || e.index is Ignored),
        crate::git::status::unstaged_entries(es) == es.filter(|f: FileEntry| !(f.worktree is Unmodified)),
        crate::git::status::staged_entries(es) == es.filter(
            |f: FileEntry| !(f.index is Unmodified || f.index is Untracked || f.index is Ignored),
        ),
{
    assert((|f: FileEntry| f.unstaged_spec()) =~= (|f: FileEntry| !(f.worktree is Unmodified)));
    assert((|f: FileEntry| f.staged_spec()) =~= (|f: FileEntry|
        !(f.index is Unmodified || f.index is Untracked || f.index is Ignored)));
}

} // verus!
