//! Modal (vi-style) multi-line editor state for composing commit messages.
//!
//! The cursor is `(row, col)` where `col` counts characters, not bytes, so
//! every column computation works on the `Seq<char>` view of a line.

use vstd::prelude::*;
use crate::text::{
    all_whitespace, char_len, chars_eq, chars_of, is_all_whitespace, is_alphanumeric, is_whitespace, push_chars, string_from, alphanumeric,
    unicode_whitespace,
};

verus! {

broadcast use vstd::string::group_string_axioms;

/// Editor mode. `Command` holds the characters typed after the leading `:`.
#[derive(Clone, Debug, PartialEq, Eq)]
pub enum EditorMode {
    Normal,
    Insert,
    Command(String),
}

/// What the application should do after a `:command` ran.
#[derive(Clone, Copy, Debug, PartialEq, Eq)]
pub enum SubmitIntent {
    /// Stay in the editor.
    Nothing,
    Commit,
    Cancel,
}

/// Character classes for word motions.
#[derive(Clone, Copy, Debug, PartialEq, Eq, Structural)]
pub enum CharClass {
    Word,
    Punct,
    Space,
}

pub struct CommitEditor {
    pub lines: Vec<String>,
    pub row: usize,
    pub col: usize,
    pub mode: EditorMode,
    /// First key of a two-key sequence (`g` of `gg`, `d` of `dd`/`dw`).
    pub pending_op: Option<char>,
    /// vim-style transient message shown in the editor's status row.
    pub status_message: Option<String>,
}

// ---------------------------------------------------------------------------
// Specifications
// ---------------------------------------------------------------------------

/// `col` clamped to a line of length `len`.
pub open spec fn clamp_col(col: int, len: int) -> int {
    if col < len { col } else { len }
}

/// `s` with `c` inserted before character `col` (at the end when `col` is past it).
pub open spec fn insert_char_at(s: Seq<char>, col: int, c: char) -> Seq<char> {
    let i = clamp_col(col, s.len() as int);
    s.subrange(0, i).push(c) + s.subrange(i, s.len() as int)
}

/// `s` without the characters in `[lo, hi)`.
pub open spec fn remove_range(s: Seq<char>, lo: int, hi: int) -> Seq<char> {
    s.subrange(0, lo) + s.subrange(hi, s.len() as int)
}

/// Lines joined with `\n` between them.
pub open spec fn join_lines(ls: Seq<Seq<char>>) -> Seq<char>
    decreases ls.len(),
{
    if ls.len() == 0 {
        Seq::empty()
    } else if ls.len() == 1 {
        ls[0]
    } else {
        join_lines(ls.drop_last()) + seq!['\n'] + ls.last()
    }
}

/// Word characters are alphanumeric or `_`; other non-space characters are
/// punctuation.
pub open spec fn class_of(c: char) -> CharClass {
    if unicode_whitespace(c) {
        CharClass::Space
    } else if alphanumeric(c) || c == '_' {
        CharClass::Word
    } else {
        CharClass::Punct
    }
}

/// First index at or after `col` whose character is not of class `cls`.
pub open spec fn skip_class(s: Seq<char>, col: int, cls: CharClass) -> int
    decreases s.len() - col,
{
    if 0 <= col < s.len() && class_of(s[col]) == cls {
        skip_class(s, col + 1, cls)
    } else {
        col
    }
}

/// Where `w` lands from `col`: past the run under the cursor (unless it is
/// whitespace), then past the whitespace after it.
pub open spec fn word_forward_end(s: Seq<char>, col: int) -> int {
    let after_run = if 0 <= col < s.len() && class_of(s[col]) != CharClass::Space {
        skip_class(s, col, class_of(s[col]))
    } else {
        col
    };
    skip_class(s, after_run, CharClass::Space)
}

/// Moving left from `col`, the first index that is not whitespace (or 0).
pub open spec fn back_skip_space(s: Seq<char>, col: int) -> int
    decreases col,
{
    if col > 0 && class_of(s[col]) == CharClass::Space {
        back_skip_space(s, col - 1)
    } else {
        col
    }
}

/// Moving left from `col`, the start of the run of class `cls` ending at `col`.
pub open spec fn back_skip_class(s: Seq<char>, col: int, cls: CharClass) -> int
    decreases col,
{
    if col > 0 && class_of(s[col - 1]) == cls {
        back_skip_class(s, col - 1, cls)
    } else {
        col
    }
}

/// Where `b` lands from a column `col > 0` of `s`.
pub open spec fn word_back_target(s: Seq<char>, col: int) -> int {
    let c1 = back_skip_space(s, col - 1);
    if c1 == 0 {
        0
    } else {
        back_skip_class(s, c1, class_of(s[c1]))
    }
}

/// Every line is empty or whitespace.
pub open spec fn blank_text(t: Seq<Seq<char>>) -> bool {
    forall|i: int| 0 <= i < t.len() ==> all_whitespace(#[trigger] t[i])
}

/// The intent a `:command` yields, given whether the buffer is blank.
pub open spec fn command_intent(cmd: Seq<char>, blank: bool) -> SubmitIntent {
    if cmd.len() == 0 {
        SubmitIntent::Nothing
    } else if cmd == "w"@ || cmd == "wq"@ || cmd == "x"@ {
        SubmitIntent::Commit
    } else if cmd == "q"@ {
        if blank { SubmitIntent::Cancel } else { SubmitIntent::Nothing }
    } else if cmd == "q!"@ {
        SubmitIntent::Cancel
    } else {
        SubmitIntent::Nothing
    }
}

/// The status message a `:command` sets, if it sets one.
pub open spec fn command_status(cmd: Seq<char>, blank: bool) -> Option<Seq<char>> {
    if cmd.len() == 0 || cmd == "w"@ || cmd == "wq"@ || cmd == "x"@ {
        None
    } else if cmd == "q"@ {
        if blank { None } else { Some("E37: No write since last change (use :q! to force)"@) }
    } else if cmd == "q!"@ {
        None
    } else {
        Some("E492: Not an editor command: "@ + cmd)
    }
}

impl CommitEditor {
    /// The buffer as a sequence of lines of characters.
    pub open spec fn text(&self) -> Seq<Seq<char>> {
        self.lines@.map_values(|l: String| l@)
    }

    /// The cursor row names an existing line.
    pub open spec fn wf(&self) -> bool {
        self.row < self.lines.len()
    }

    /// The cursor row names an existing line and the column is within it
    /// (possibly just past its last character).
    pub open spec fn inv(&self) -> bool {
        self.wf() && self.col <= self.cur_line().len()
    }

    /// The line under the cursor.
    pub open spec fn cur_line(&self) -> Seq<char> {
        self.text()[self.row as int]
    }

    /// The state of a newly opened editor: one empty line, cursor at its
    /// start, Normal mode, nothing pending, no message.
    pub open spec fn is_fresh(&self) -> bool {
        &&& self.text() == seq![Seq::<char>::empty()]
        &&& self.lines.len() == 1
        &&& self.row == 0
        &&& self.col == 0
        &&& self.mode == EditorMode::Normal
        &&& self.pending_op is None
        &&& self.status_message is None
    }

    /// Mode, pending operator and status message are those of `other`.
    pub open spec fn same_modal_state(&self, other: &Self) -> bool {
        &&& self.mode == other.mode
        &&& self.pending_op == other.pending_op
        &&& self.status_message == other.status_message
    }

    /// Only the cursor differs from `other`.
    pub open spec fn cursor_only_change(&self, other: &Self) -> bool {
        &&& self.text() == other.text()
        &&& self.lines.len() == other.lines.len()
        &&& self.same_modal_state(other)
    }

    /// Every line is empty or whitespace.
    pub open spec fn blank_spec(&self) -> bool {
        blank_text(self.text())
    }

    // --- transition relations ------------------------------------------------

    /// What `execute_command` does, returning `r`: outside command mode,
    /// nothing; in command mode it leaves for Normal mode, returns the
    /// command's intent and sets the status message the command calls for.
    pub open spec fn execute_command_post(pre: Self, post: Self, r: SubmitIntent) -> bool {
        &&& (pre.inv() ==> post.inv())
        &&& (!(pre.mode is Command) ==> r == SubmitIntent::Nothing && post == pre)
        &&& (pre.mode is Command ==> {
            let cmd = pre.mode->Command_0@;
            let blank = pre.blank_spec();
            &&& r == command_intent(cmd, blank)
            &&& post.mode == EditorMode::Normal
            &&& post.pending_op is None
            &&& post.lines == pre.lines
            &&& post.row == pre.row
            &&& post.col == pre.col
            &&& match command_status(cmd, blank) {
                Some(msg) => post.status_message is Some && post.status_message->0@ == msg,
                None => post.status_message == pre.status_message,
            }
        })
    }

    /// What `enter_normal` does: the relation between the editor before and after.
    pub open spec fn enter_normal_post(pre: Self, post: Self) -> bool {
        &&& (pre.inv() ==> post.inv())
        &&& (post.mode == EditorMode::Normal)
        &&& (post.pending_op is None)
        &&& (post.status_message == pre.status_message)
        &&& (post.lines == pre.lines)
        &&& (post.row == pre.row)
        &&& (post.col == pre.col)
    }

    /// What `enter_insert` does: the relation between the editor before and after.
    pub open spec fn enter_insert_post(pre: Self, post: Self) -> bool {
        &&& (pre.inv() ==> post.inv())
        &&& (post.mode == EditorMode::Insert)
        &&& (post.pending_op is None)
        &&& (post.status_message is None)
        &&& (post.lines == pre.lines)
        &&& (post.row == pre.row)
        &&& (post.col == pre.col)
    }

    /// What `enter_insert_after` does: the relation between the editor before and after.
    pub open spec fn enter_insert_after_post(pre: Self, post: Self) -> bool {
        &&& (pre.inv() ==> post.inv())
        &&& (post.col == if pre.col < pre.cur_line().len() {
                    pre.col + 1
            } else {
                    pre.col as int
            })
        &&& (post.mode == EditorMode::Insert)
        &&& (post.pending_op is None)
        &&& (post.status_message is None)
        &&& (post.lines == pre.lines)
        &&& (post.row == pre.row)
    }

    /// What `enter_insert_line_start` does: the relation between the editor before and after.
    pub open spec fn enter_insert_line_start_post(pre: Self, post: Self) -> bool {
        &&& (pre.inv() ==> post.inv())
        &&& (post.col == 0)
        &&& (post.mode == EditorMode::Insert)
        &&& (post.pending_op is None)
        &&& (post.status_message is None)
        &&& (post.lines == pre.lines)
        &&& (post.row == pre.row)
    }

    /// What `enter_insert_line_end` does: the relation between the editor before and after.
    pub open spec fn enter_insert_line_end_post(pre: Self, post: Self) -> bool {
        &&& (pre.inv() ==> post.inv())
        &&& (post.col == pre.cur_line().len())
        &&& (post.mode == EditorMode::Insert)
        &&& (post.pending_op is None)
        &&& (post.status_message is None)
        &&& (post.lines == pre.lines)
        &&& (post.row == pre.row)
    }

    /// What `open_line_below` does: the relation between the editor before and after.
    pub open spec fn open_line_below_post(pre: Self, post: Self) -> bool {
        &&& (pre.inv() ==> post.inv())
        &&& (post.wf())
        &&& (post.text() == pre.text().insert(pre.row + 1, Seq::<char>::empty()))
        &&& (post.row == pre.row + 1)
        &&& (post.col == 0)
        &&& (post.mode == EditorMode::Insert)
        &&& (post.pending_op is None)
        &&& (post.status_message is None)
    }

    /// What `open_line_above` does: the relation between the editor before and after.
    pub open spec fn open_line_above_post(pre: Self, post: Self) -> bool {
        &&& (pre.inv() ==> post.inv())
        &&& (post.wf())
        &&& (post.text() == pre.text().insert(pre.row as int, Seq::<char>::empty()))
        &&& (post.row == pre.row)
        &&& (post.col == 0)
        &&& (post.mode == EditorMode::Insert)
        &&& (post.pending_op is None)
        &&& (post.status_message is None)
    }

    /// What `enter_command` does: the relation between the editor before and after.
    pub open spec fn enter_command_post(pre: Self, post: Self) -> bool {
        &&& (pre.inv() ==> post.inv())
        &&& (post.mode is Command)
        &&& (post.mode->Command_0@ == Seq::<char>::empty())
        &&& (post.pending_op is None)
        &&& (post.status_message is None)
        &&& (post.lines == pre.lines)
        &&& (post.row == pre.row)
        &&& (post.col == pre.col)
    }

    /// What `cancel_command` does: the relation between the editor before and after.
    pub open spec fn cancel_command_post(pre: Self, post: Self) -> bool {
        &&& (pre.inv() ==> post.inv())
        &&& (post.mode == EditorMode::Normal)
        &&& (post.pending_op is None)
        &&& (post.status_message == pre.status_message)
        &&& (post.lines == pre.lines)
        &&& (post.row == pre.row)
        &&& (post.col == pre.col)
    }

    /// What `clear_status` does: the relation between the editor before and after.
    pub open spec fn clear_status_post(pre: Self, post: Self) -> bool {
        &&& (pre.inv() ==> post.inv())
        &&& (post.status_message is None)
        &&& (post.mode == pre.mode)
        &&& (post.pending_op == pre.pending_op)
        &&& (post.lines == pre.lines)
        &&& (post.row == pre.row)
        &&& (post.col == pre.col)
    }

    /// What `command_append` does: the relation between the editor before and after.
    pub open spec fn command_append_post(pre: Self, post: Self, c: char) -> bool {
        &&& (pre.inv() ==> post.inv())
        &&& (pre.mode is Command ==> post.mode is Command
                    && post.mode->Command_0@ == pre.mode->Command_0@.push(c))
        &&& (!(pre.mode is Command) ==> post.mode == pre.mode)
        &&& (post.pending_op == pre.pending_op)
        &&& (post.status_message == pre.status_message)
        &&& (post.lines == pre.lines)
        &&& (post.row == pre.row)
        &&& (post.col == pre.col)
    }

    /// What `command_backspace` does: the relation between the editor before and after.
    pub open spec fn command_backspace_post(pre: Self, post: Self) -> bool {
        &&& (pre.inv() ==> post.inv())
        &&& (pre.mode is Command && pre.mode->Command_0@.len() > 0 ==> post.mode
                    is Command && post.mode->Command_0@ == pre.mode->Command_0@.drop_last()
                    && post.pending_op == pre.pending_op)
        &&& (pre.mode is Command && pre.mode->Command_0@.len() == 0 ==> post.mode
                    == EditorMode::Normal && post.pending_op is None)
        &&& (!(pre.mode is Command) ==> post.mode == pre.mode
                    && post.pending_op == pre.pending_op)
        &&& (post.status_message == pre.status_message)
        &&& (post.lines == pre.lines)
        &&& (post.row == pre.row)
        &&& (post.col == pre.col)
    }

    /// What `insert_char` does: the relation between the editor before and after.
    pub open spec fn insert_char_post(pre: Self, post: Self, c: char) -> bool {
        &&& (pre.inv() ==> post.inv())
        &&& (post.wf())
        &&& (post.text() == pre.text().update(
                    pre.row as int,
                    insert_char_at(pre.cur_line(), pre.col as int, c)
            ))
        &&& (post.lines.len() == pre.lines.len())
        &&& (post.row == pre.row)
        &&& (post.col == pre.col + 1)
        &&& (post.same_modal_state(&pre))
    }

    /// What `insert_newline` does: the relation between the editor before and after.
    pub open spec fn insert_newline_post(pre: Self, post: Self) -> bool {
        &&& (pre.inv() ==> post.inv())
        &&& (post.wf())
        &&& (({
                    let l = pre.cur_line();
                    let i = clamp_col(pre.col as int, l.len() as int);
                    post.text() == pre.text().update(pre.row as int, l.subrange(0, i))
                        .insert(pre.row + 1, l.subrange(i, l.len() as int))
            }))
        &&& (post.row == pre.row + 1)
        &&& (post.col == 0)
        &&& (post.same_modal_state(&pre))
    }

    /// What `backspace` does: the relation between the editor before and after.
    pub open spec fn backspace_post(pre: Self, post: Self) -> bool {
        &&& (pre.inv() ==> post.inv())
        &&& (post.wf())
        &&& (post.same_modal_state(&pre))
        &&& (pre.col > 0 ==> {
                    let l = pre.cur_line();
                    &&& post.text() == pre.text().update(
                        pre.row as int,
                        remove_range(
                            l,
                            clamp_col(pre.col - 1, l.len() as int),
                            clamp_col(pre.col as int, l.len() as int),
                        ),
                    )
                    &&& post.row == pre.row
                    &&& post.col == pre.col - 1
            })
        &&& (pre.col == 0 && pre.row > 0 ==> {
                    let prev = pre.text()[pre.row - 1];
                    &&& post.text() == pre.text().update(
                        pre.row - 1,
                        prev + pre.cur_line(),
                    ).remove(pre.row as int)
                    &&& post.row == pre.row - 1
                    &&& post.col == prev.len()
            })
        &&& (pre.col == 0 && pre.row == 0 ==> post.lines == pre.lines
                    && post.row == 0 && post.col == 0)
    }

    /// What `delete_at_cursor` does: the relation between the editor before and after.
    pub open spec fn delete_at_cursor_post(pre: Self, post: Self) -> bool {
        &&& (pre.inv() ==> post.inv())
        &&& (post.wf())
        &&& (post.same_modal_state(&pre))
        &&& (post.row == pre.row)
        &&& (({
                    let l = pre.cur_line();
                    let c = pre.col as int;
                    if c < l.len() {
                        &&& post.text() == pre.text().update(
                            pre.row as int,
                            remove_range(l, c, c + 1),
                        )
                        &&& post.col == if c >= l.len() - 1 && l.len() - 1 > 0 {
                            l.len() - 2
                        } else {
                            c
                        }
                    } else if pre.row + 1 < pre.lines.len() {
                        &&& post.text() == pre.text().update(
                            pre.row as int,
                            l + pre.text()[pre.row + 1],
                        ).remove(pre.row + 1)
                        &&& post.col == pre.col
                    } else {
                        &&& post.lines == pre.lines
                        &&& post.col == pre.col
                    }
            }))
    }

    /// What `move_left` does: the relation between the editor before and after.
    pub open spec fn move_left_post(pre: Self, post: Self) -> bool {
        &&& (pre.inv() ==> post.inv())
        &&& (post.col == if pre.col > 0 { pre.col - 1 } else { 0 })
        &&& (post.row == pre.row)
        &&& (post.lines == pre.lines)
        &&& (post.same_modal_state(&pre))
    }

    /// What `move_right` does: the relation between the editor before and after.
    pub open spec fn move_right_post(pre: Self, post: Self) -> bool {
        &&& (pre.inv() ==> post.inv())
        &&& (post.col == if pre.col < pre.cur_line().len() {
                    pre.col + 1
            } else {
                    pre.col as int
            })
        &&& (post.row == pre.row)
        &&& (post.lines == pre.lines)
        &&& (post.same_modal_state(&pre))
    }

    /// What `move_up` does: the relation between the editor before and after.
    pub open spec fn move_up_post(pre: Self, post: Self) -> bool {
        &&& (pre.inv() ==> post.inv())
        &&& (post.wf())
        &&& (pre.row > 0 ==> post.row == pre.row - 1 && post.col
                    == clamp_col(pre.col as int, pre.text()[pre.row - 1].len() as int))
        &&& (pre.row == 0 ==> post.row == 0 && post.col == pre.col)
        &&& (post.lines == pre.lines)
        &&& (post.same_modal_state(&pre))
    }

    /// What `move_down` does: the relation between the editor before and after.
    pub open spec fn move_down_post(pre: Self, post: Self) -> bool {
        &&& (pre.inv() ==> post.inv())
        &&& (post.wf())
        &&& (pre.row + 1 < pre.lines.len() ==> post.row == pre.row + 1
                    && post.col == clamp_col(
                    pre.col as int,
                    pre.text()[pre.row + 1].len() as int
            ))
        &&& (pre.row + 1 >= pre.lines.len() ==> post.row == pre.row
                    && post.col == pre.col)
        &&& (post.lines == pre.lines)
        &&& (post.same_modal_state(&pre))
    }

    /// What `move_line_start` does: the relation between the editor before and after.
    pub open spec fn move_line_start_post(pre: Self, post: Self) -> bool {
        &&& (pre.inv() ==> post.inv())
        &&& (post.col == 0)
        &&& (post.row == pre.row)
        &&& (post.lines == pre.lines)
        &&& (post.same_modal_state(&pre))
    }

    /// What `move_line_end` does: the relation between the editor before and after.
    pub open spec fn move_line_end_post(pre: Self, post: Self) -> bool {
        &&& (pre.inv() ==> post.inv())
        &&& (post.col == pre.cur_line().len())
        &&& (post.row == pre.row)
        &&& (post.lines == pre.lines)
        &&& (post.same_modal_state(&pre))
    }

    /// What `goto_top` does: the relation between the editor before and after.
    pub open spec fn goto_top_post(pre: Self, post: Self) -> bool {
        &&& (pre.inv() ==> post.inv())
        &&& (post.wf())
        &&& (post.row == 0)
        &&& (post.col == clamp_col(pre.col as int, pre.text()[0].len() as int))
        &&& (post.lines == pre.lines)
        &&& (post.same_modal_state(&pre))
    }

    /// What `goto_bottom` does: the relation between the editor before and after.
    pub open spec fn goto_bottom_post(pre: Self, post: Self) -> bool {
        &&& (pre.inv() ==> post.inv())
        &&& (post.wf())
        &&& (post.row == pre.lines.len() - 1)
        &&& (post.col == clamp_col(
                    pre.col as int,
                    pre.text()[pre.lines.len() - 1].len() as int
            ))
        &&& (post.lines == pre.lines)
        &&& (post.same_modal_state(&pre))
    }

    /// What `move_word_forward` does: the relation between the editor before and after.
    pub open spec fn move_word_forward_post(pre: Self, post: Self) -> bool {
        &&& (pre.inv() ==> post.inv())
        &&& (post.wf())
        &&& (({
                    let l = pre.cur_line();
                    let t = word_forward_end(l, pre.col as int);
                    if t < l.len() {
                        post.row == pre.row && post.col == t
                    } else if pre.row + 1 < pre.lines.len() {
                        post.row == pre.row + 1 && post.col == 0
                    } else {
                        post.row == pre.row && post.col == l.len()
                    }
            }))
        &&& (post.lines == pre.lines)
        &&& (post.same_modal_state(&pre))
    }

    /// What `move_word_back` does: the relation between the editor before and after.
    pub open spec fn move_word_back_post(pre: Self, post: Self) -> bool {
        &&& (pre.inv() ==> post.inv())
        &&& (post.wf())
        &&& (pre.col == 0 && pre.row > 0 ==> post.row == pre.row - 1
                    && post.col == pre.text()[pre.row - 1].len())
        &&& (pre.col == 0 && pre.row == 0 ==> post.row == 0 && post.col
                    == 0)
        &&& (pre.col > 0 ==> post.row == pre.row && post.col
                    == word_back_target(pre.cur_line(), pre.col as int))
        &&& (post.lines == pre.lines)
        &&& (post.same_modal_state(&pre))
    }

    /// What `delete_line` does: the relation between the editor before and after.
    pub open spec fn delete_line_post(pre: Self, post: Self) -> bool {
        &&& (pre.inv() ==> post.inv())
        &&& (post.wf())
        &&& (post.same_modal_state(&pre))
        &&& (pre.lines.len() == 1 ==> post.text() == seq![Seq::<char>::empty()]
                    && post.row == 0 && post.col == 0)
        &&& (pre.lines.len() > 1 ==> {
                    let t = pre.text().remove(pre.row as int);
                    let r = if pre.row >= t.len() { t.len() - 1 } else { pre.row as int };
                    &&& post.text() == t
                    &&& post.row == r
                    &&& post.col == clamp_col(pre.col as int, t[r].len() as int)
            })
    }

    /// What `delete_to_end_of_line` does: the relation between the editor before and after.
    pub open spec fn delete_to_end_of_line_post(pre: Self, post: Self) -> bool {
        &&& (pre.inv() ==> post.inv())
        &&& (post.wf())
        &&& (({
                    let l = pre.cur_line();
                    let i = clamp_col(pre.col as int, l.len() as int);
                    &&& post.text() == pre.text().update(
                        pre.row as int,
                        l.subrange(0, i),
                    )
                    &&& post.col == if pre.col > 0 && pre.col >= i {
                        if i > 0 { i - 1 } else { 0 }
                    } else {
                        pre.col as int
                    }
            }))
        &&& (post.row == pre.row)
        &&& (post.same_modal_state(&pre))
    }

    /// What `delete_word_forward` does: the relation between the editor before and after.
    pub open spec fn delete_word_forward_post(pre: Self, post: Self) -> bool {
        &&& (pre.inv() ==> post.inv())
        &&& (post.wf())
        &&& (({
                    let l = pre.cur_line();
                    let t = word_forward_end(l, pre.col as int);
                    post.text() == pre.text().update(
                        pre.row as int,
                        remove_range(
                            l,
                            clamp_col(pre.col as int, l.len() as int),
                            clamp_col(t, l.len() as int),
                        ),
                    )
            }))
        &&& (post.row == pre.row)
        &&& (post.col == pre.col)
        &&& (post.same_modal_state(&pre))
    }

    // --- helpers -----------------------------------------------------------

    fn line_chars(&self) -> (cs: Vec<char>)
        requires
            self.wf(),
        ensures
            cs@ == self.cur_line(),
    {
        chars_of(self.lines[self.row].as_str())
    }

    fn line_len(&self) -> (n: usize)
        requires
            self.wf(),
        ensures
            n == self.cur_line().len(),
    {
        char_len(self.lines[self.row].as_str())
    }

    fn set_line(&mut self, r: usize, s: String)
        requires
            r < old(self).lines.len(),
        ensures
            final(self).text() == old(self).text().update(r as int, s@),
            final(self).lines.len() == old(self).lines.len(),
            final(self).row == old(self).row,
            final(self).col == old(self).col,
            final(self).same_modal_state(old(self)),
    {
        self.lines.set(r, s);
        assert(self.text() =~= old(self).text().update(r as int, s@));
    }

    // --- construction and queries -----------------------------------------

    pub fn new() -> (e: Self)
        ensures
            e.inv(),
            e.is_fresh(),
    {
        let e = CommitEditor {
            lines: vec![String::new()],
            row: 0,
            col: 0,
            mode: EditorMode::Normal,
            pending_op: None,
            status_message: None,
        };
        assert(e.text() =~= seq![Seq::<char>::empty()]);
        e
    }

    /// The message: all lines joined with `\n`.
    pub fn message(&self) -> (m: String)
        ensures
            m@ == join_lines(self.text()),
    {
        let mut m = String::new();
        let n = self.lines.len();
        let mut i: usize = 0;
        while i < n
            invariant
                i <= n == self.lines.len(),
                m@ == join_lines(self.text().take(i as int)),
            decreases n - i,
        {
            let ghost before = self.text().take(i as int);
            if i > 0 {
                m.push('\n');
            }
            m.append(self.lines[i].as_str());
            assert(self.text().take(i + 1).drop_last() =~= before);
            assert(i == 0 ==> self.text().take(i + 1) =~= seq![self.text()[i as int]]);
            i += 1;
        }
        assert(self.text().take(n as int) =~= self.text());
        m
    }

    /// Whether every line is empty or only whitespace.
    pub fn is_blank(&self) -> (b: bool)
        ensures
            b == self.blank_spec(),
    {
        let n = self.lines.len();
        let mut i: usize = 0;
        while i < n
            invariant
                i <= n == self.lines.len(),
                forall|j: int| 0 <= j < i ==> all_whitespace(#[trigger] self.text()[j]),
            decreases n - i,
        {
            if !is_all_whitespace(self.lines[i].as_str()) {
                assert(!all_whitespace(self.text()[i as int]));
                return false;
            }
            i += 1;
        }
        true
    }

    // --- mode transitions ----------------------------------------------------

    pub fn enter_normal(&mut self)
        ensures
            Self::enter_normal_post(*old(self), *final(self)),
    {
        self.mode = EditorMode::Normal;
        self.pending_op = None;
    }

    pub fn enter_insert(&mut self)
        ensures
            Self::enter_insert_post(*old(self), *final(self)),
    {
        self.mode = EditorMode::Insert;
        self.pending_op = None;
        self.status_message = None;
    }

    /// `a`: advance one column unless at the end of the line, then insert.
    pub fn enter_insert_after(&mut self)
        requires
            old(self).wf(),
        ensures
            Self::enter_insert_after_post(*old(self), *final(self)),
    {
        let len = self.line_len();
        if self.col < len {
            self.col += 1;
        }
        self.enter_insert();
    }

    /// `I`: insert at the start of the line.
    pub fn enter_insert_line_start(&mut self)
        ensures
            Self::enter_insert_line_start_post(*old(self), *final(self)),
    {
        self.col = 0;
        self.enter_insert();
    }

    /// `A`: insert at the end of the line.
    pub fn enter_insert_line_end(&mut self)
        requires
            old(self).wf(),
        ensures
            Self::enter_insert_line_end_post(*old(self), *final(self)),
    {
        self.col = self.line_len();
        self.enter_insert();
    }

    /// `o`: open an empty line below the cursor and insert there.
    pub fn open_line_below(&mut self)
        requires
            old(self).wf(),
        ensures
            Self::open_line_below_post(*old(self), *final(self)),
    {
        self.lines.insert(self.row + 1, String::new());
        assert(self.text() =~= old(self).text().insert(old(self).row + 1, Seq::<char>::empty()));
        self.row += 1;
        self.col = 0;
        self.enter_insert();
    }

    /// `O`: open an empty line above the cursor (the cursor row now names it)
    /// and insert there.
    pub fn open_line_above(&mut self)
        requires
            old(self).wf(),
        ensures
            Self::open_line_above_post(*old(self), *final(self)),
    {
        self.lines.insert(self.row, String::new());
        assert(self.text() =~= old(self).text().insert(old(self).row as int, Seq::<char>::empty()));
        self.col = 0;
        self.enter_insert();
    }

    /// `:`: start an empty command line.
    pub fn enter_command(&mut self)
        ensures
            Self::enter_command_post(*old(self), *final(self)),
    {
        self.mode = EditorMode::Command(String::new());
        self.pending_op = None;
        self.status_message = None;
    }

    /// `Esc` in command mode: discard the command, keep the status message.
    pub fn cancel_command(&mut self)
        ensures
            Self::cancel_command_post(*old(self), *final(self)),
    {
        self.enter_normal();
    }

    pub fn clear_status(&mut self)
        ensures
            Self::clear_status_post(*old(self), *final(self)),
    {
        self.status_message = None;
    }

    // --- command-mode editing ------------------------------------------------

    /// Appends `c` to the command line (only in command mode).
    pub fn command_append(&mut self, c: char)
        ensures
            Self::command_append_post(*old(self), *final(self), c),
    {
        let next = match &self.mode {
            EditorMode::Command(s) => {
                let mut s2 = s.clone();
                s2.push(c);
                Some(s2)
            },
            _ => None,
        };
        if let Some(s2) = next {
            self.mode = EditorMode::Command(s2);
        }
    }

    /// Deletes the last command character; on an empty command line, leaves
    /// command mode (as vim does).
    pub fn command_backspace(&mut self)
        ensures
            Self::command_backspace_post(*old(self), *final(self)),
    {
        let next = match &self.mode {
            EditorMode::Command(s) => {
                let cs = chars_of(s.as_str());
                if cs.len() == 0 {
                    Some(None)
                } else {
                    Some(Some(string_from(&cs, 0, cs.len() - 1)))
                }
            },
            _ => None,
        };
        match next {
            Some(Some(s2)) => {
                self.mode = EditorMode::Command(s2);
            },
            Some(None) => {
                self.enter_normal();
            },
            None => {},
        }
    }

    /// Runs the typed `:command`. Always leaves command mode.
    pub fn execute_command(&mut self) -> (r: SubmitIntent)
        ensures
            Self::execute_command_post(*old(self), *final(self), r),
    {
        let cmd = match &self.mode {
            EditorMode::Command(s) => s.clone(),
            _ => return SubmitIntent::Nothing,
        };
        self.enter_normal();
        let cs = chars_of(cmd.as_str());
        if cs.len() == 0 {
            SubmitIntent::Nothing
        } else if chars_eq(&cs, "w") || chars_eq(&cs, "wq") || chars_eq(&cs, "x") {
            SubmitIntent::Commit
        } else if chars_eq(&cs, "q") {
            if self.is_blank() {
                SubmitIntent::Cancel
            } else {
                self.status_message = Some(
                    String::from_str("E37: No write since last change (use :q! to force)"),
                );
                SubmitIntent::Nothing
            }
        } else if chars_eq(&cs, "q!") {
            SubmitIntent::Cancel
        } else {
            let mut msg = String::from_str("E492: Not an editor command: ");
            msg.append(cmd.as_str());
            self.status_message = Some(msg);
            SubmitIntent::Nothing
        }
    }

    // --- text mutations --------------------------------------------------------

    /// Inserts `c` before the cursor column and advances the cursor.
    pub fn insert_char(&mut self, c: char)
        requires
            old(self).wf(),
            old(self).col < usize::MAX,
        ensures
            Self::insert_char_post(*old(self), *final(self), c),
    {
        let cs = self.line_chars();
        let i = if self.col < cs.len() { self.col } else { cs.len() };
        let mut s = string_from(&cs, 0, i);
        s.push(c);
        push_chars(&mut s, &cs, i, cs.len());
        let r = self.row;
        self.set_line(r, s);
        self.col += 1;
    }

    /// Splits the line at the cursor; the cursor moves to the start of the new
    /// line below.
    pub fn insert_newline(&mut self)
        requires
            old(self).wf(),
        ensures
            Self::insert_newline_post(*old(self), *final(self)),
    {
        let cs = self.line_chars();
        let i = if self.col < cs.len() { self.col } else { cs.len() };
        let left = string_from(&cs, 0, i);
        let rest = string_from(&cs, i, cs.len());
        let r = self.row;
        self.set_line(r, left);
        let ghost mid = self.text();
        self.lines.insert(r + 1, rest);
        assert(self.text() =~= mid.insert(r + 1, rest@));
        self.row += 1;
        self.col = 0;
    }

    /// Deletes the character before the cursor; at the start of a line, joins
    /// it onto the previous one.
    pub fn backspace(&mut self)
        requires
            old(self).wf(),
        ensures
            Self::backspace_post(*old(self), *final(self)),
    {
        if self.col > 0 {
            let cs = self.line_chars();
            let n = cs.len();
            let start = if self.col - 1 < n { self.col - 1 } else { n };
            let end = if self.col < n { self.col } else { n };
            let mut s = string_from(&cs, 0, start);
            push_chars(&mut s, &cs, end, n);
            let r = self.row;
            self.set_line(r, s);
            self.col -= 1;
        } else if self.row > 0 {
            let r = self.row;
            let removed = self.lines.remove(r);
            let ghost t1 = self.text();
            assert(t1 =~= old(self).text().remove(r as int));
            self.row = r - 1;
            self.col = self.line_len();
            let mut joined = self.lines[r - 1].clone();
            joined.append(removed.as_str());
            self.set_line(r - 1, joined);
            assert(self.text() =~= old(self).text().update(
                r - 1,
                old(self).text()[r - 1] + old(self).text()[r as int],
            ).remove(r as int));
        }
    }

    /// `Delete` / `x`: removes the character under the cursor (clamping the
    /// cursor back if it would sit past the new last character); at the end
    /// of a line, joins the next line onto it.
    pub fn delete_at_cursor(&mut self)
        requires
            old(self).wf(),
        ensures
            Self::delete_at_cursor_post(*old(self), *final(self)),
    {
        let cs = self.line_chars();
        let len = cs.len();
        let r = self.row;
        if self.col < len {
            let mut s = string_from(&cs, 0, self.col);
            push_chars(&mut s, &cs, self.col + 1, len);
            self.set_line(r, s);
            let new_len = len - 1;
            if self.col >= new_len && new_len > 0 {
                self.col = new_len - 1;
            }
        } else if r + 1 < self.lines.len() {
            let next = self.lines.remove(r + 1);
            let ghost t1 = self.text();
            assert(t1 =~= old(self).text().remove(r + 1));
            let mut joined = self.lines[r].clone();
            joined.append(next.as_str());
            self.set_line(r, joined);
            assert(self.text() =~= old(self).text().update(
                r as int,
                old(self).text()[r as int] + old(self).text()[r + 1],
            ).remove(r + 1));
        }
    }

    // --- movement ----------------------------------------------------------------

    pub fn move_left(&mut self)
        ensures
            Self::move_left_post(*old(self), *final(self)),
    {
        if self.col > 0 {
            self.col -= 1;
        }
    }

    pub fn move_right(&mut self)
        requires
            old(self).wf(),
        ensures
            Self::move_right_post(*old(self), *final(self)),
    {
        let len = self.line_len();
        if self.col < len {
            self.col += 1;
        }
    }

    /// Up one line, clamping the column to the new line's length.
    pub fn move_up(&mut self)
        requires
            old(self).wf(),
        ensures
            Self::move_up_post(*old(self), *final(self)),
    {
        if self.row > 0 {
            self.row -= 1;
            let len = self.line_len();
            if len < self.col {
                self.col = len;
            }
        }
    }

    /// Down one line, clamping the column to the new line's length.
    pub fn move_down(&mut self)
        requires
            old(self).wf(),
        ensures
            Self::move_down_post(*old(self), *final(self)),
    {
        if self.row + 1 < self.lines.len() {
            self.row += 1;
            let len = self.line_len();
            if len < self.col {
                self.col = len;
            }
        }
    }

    pub fn move_line_start(&mut self)
        ensures
            Self::move_line_start_post(*old(self), *final(self)),
    {
        self.col = 0;
    }

    pub fn move_line_end(&mut self)
        requires
            old(self).wf(),
        ensures
            Self::move_line_end_post(*old(self), *final(self)),
    {
        self.col = self.line_len();
    }

    /// `gg`: first line, column clamped to its length.
    pub fn goto_top(&mut self)
        requires
            old(self).wf(),
        ensures
            Self::goto_top_post(*old(self), *final(self)),
    {
        self.row = 0;
        let len = self.line_len();
        if len < self.col {
            self.col = len;
        }
    }

    /// `G`: last line, column clamped to its length.
    pub fn goto_bottom(&mut self)
        requires
            old(self).wf(),
        ensures
            Self::goto_bottom_post(*old(self), *final(self)),
    {
        self.row = self.lines.len() - 1;
        let len = self.line_len();
        if len < self.col {
            self.col = len;
        }
    }


    /// `w`: to the start of the next word on this line; past the last word,
    /// to the start of the next line, or to the end of the last line.
    pub fn move_word_forward(&mut self)
        requires
            old(self).wf(),
        ensures
            Self::move_word_forward_post(*old(self), *final(self)),
    {
        let chars = self.line_chars();
        let col = word_end_from(&chars, self.col);
        let len = chars.len();
        if col < len {
            self.col = col;
        } else if self.row + 1 < self.lines.len() {
            self.row += 1;
            self.col = 0;
        } else {
            self.col = len;
        }
    }

    /// `b`: to the start of the previous word; at the start of a line, to the
    /// end of the previous line.
    pub fn move_word_back(&mut self)
        requires
            old(self).wf(),
            !(old(self).col >= 2 && old(self).col > old(self).cur_line().len()),
        ensures
            Self::move_word_back_post(*old(self), *final(self)),
    {
        if self.col == 0 {
            if self.row > 0 {
                self.row -= 1;
                self.col = self.line_len();
            }
            return;
        }
        let chars = self.line_chars();
        let ghost s = chars@;
        let mut col = self.col - 1;
        while col > 0 && is_whitespace(chars[col])
            invariant
                col < chars.len() || col == 0,
                s == chars@,
                back_skip_space(s, col as int) == back_skip_space(s, self.col - 1),
            decreases col,
        {
            col -= 1;
        }
        if col == 0 {
            self.col = 0;
            return;
        }
        let starting = char_class(chars[col]);
        let ghost c1 = col as int;
        while col > 0 && char_class(chars[col - 1]) == starting
            invariant
                col <= c1 < chars.len(),
                s == chars@,
                back_skip_class(s, col as int, starting) == back_skip_class(s, c1, starting),
            decreases col,
        {
            col -= 1;
        }
        self.col = col;
    }

    // --- normal-mode deletes -----------------------------------------------------

    /// `dd`: removes the cursor line (clearing it when it is the only one).
    pub fn delete_line(&mut self)
        requires
            old(self).wf(),
        ensures
            Self::delete_line_post(*old(self), *final(self)),
    {
        if self.lines.len() == 1 {
            self.set_line(0, String::new());
            assert(self.text() =~= seq![Seq::<char>::empty()]);
            self.col = 0;
        } else {
            let r = self.row;
            self.lines.remove(r);
            assert(self.text() =~= old(self).text().remove(r as int));
            if self.row >= self.lines.len() {
                self.row = self.lines.len() - 1;
            }
            let len = self.line_len();
            if len < self.col {
                self.col = len;
            }
        }
    }

    /// `D`: truncates the line at the cursor; a cursor left past the new end
    /// moves onto the last character.
    pub fn delete_to_end_of_line(&mut self)
        requires
            old(self).wf(),
        ensures
            Self::delete_to_end_of_line_post(*old(self), *final(self)),
    {
        let cs = self.line_chars();
        let i = if self.col < cs.len() { self.col } else { cs.len() };
        let s = string_from(&cs, 0, i);
        let r = self.row;
        self.set_line(r, s);
        let new_len = i;
        if self.col > 0 && self.col >= new_len {
            self.col = if new_len > 0 { new_len - 1 } else { 0 };
        }
    }

    /// `dw`: deletes from the cursor to where `w` would land on this line.
    pub fn delete_word_forward(&mut self)
        requires
            old(self).wf(),
        ensures
            Self::delete_word_forward_post(*old(self), *final(self)),
    {
        let chars = self.line_chars();
        let len = chars.len();
        let end = word_end_from(&chars, self.col);
        let start = if self.col < len { self.col } else { len };
        let stop = if end < len { end } else { len };
        let mut s = string_from(&chars, 0, start);
        push_chars(&mut s, &chars, stop, len);
        let r = self.row;
        self.set_line(r, s);
    }

}


/// The class of `c` for word motions.
pub fn char_class(c: char) -> (k: CharClass)
    ensures
        k == class_of(c),
{
    if is_whitespace(c) {
        CharClass::Space
    } else if is_alphanumeric(c) || c == '_' {
        CharClass::Word
    } else {
        CharClass::Punct
    }
}

/// Where `w` lands from `col` on the line `chars`.
fn word_end_from(chars: &Vec<char>, start: usize) -> (col: usize)
    ensures
        col == word_forward_end(chars@, start as int),
        col >= start,
        start <= chars.len() ==> col <= chars.len(),
{
    let len = chars.len();
    let ghost s = chars@;
    let mut col = start;
    if col < len {
        let starting = char_class(chars[col]);
        if starting != CharClass::Space {
            while col < len && char_class(chars[col]) == starting
                invariant
                    start <= col <= len == chars.len(),
                    s == chars@,
                    skip_class(s, col as int, starting) == skip_class(s, start as int, starting),
                decreases len - col,
            {
                col += 1;
            }
        }
    }
    let ghost after = col as int;
    while col < len && is_whitespace(chars[col])
        invariant
            after <= col,
            start <= after,
            len == chars.len(),
            s == chars@,
            start <= len ==> col <= len,
            skip_class(s, col as int, CharClass::Space) == skip_class(s, after, CharClass::Space),
        decreases len - col,
    {
        col += 1;
    }
    col
}

} // verus!
