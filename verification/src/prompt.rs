//! Slash-command prompt state: an edit buffer with a character cursor and a
//! bounded history of submitted commands with shell-style up/down recall.

use vstd::prelude::*;
use std::collections::VecDeque;
use crate::commit_editor::{clamp_col, insert_char_at, remove_range};
use crate::text::{all_whitespace, char_len, chars_of, is_all_whitespace, is_whitespace, push_chars, string_from, unicode_whitespace};

verus! {

broadcast use vstd::string::group_string_axioms;

/// How many submitted commands the prompt remembers.
pub const HISTORY_CAP: usize = 64;

/// State of the slash prompt. The buffer does not include the leading `/`.
pub struct Prompt {
    pub buffer: String,
    /// Cursor position, counted in characters.
    pub cursor: usize,
    /// Submitted commands, oldest first.
    pub history: VecDeque<String>,
    /// The history entry shown while recalling.
    pub history_idx: Option<usize>,
    /// The buffer being edited when recall started.
    pub saved: Option<String>,
}

/// The character views of a sequence of strings.
pub open spec fn strings_view(v: Seq<String>) -> Seq<Seq<char>> {
    v.map_values(|s: String| s@)
}

/// The history after submitting `raw`: blank input is not recorded, a repeat
/// of the newest entry is collapsed, and a full history drops its oldest entry.
pub open spec fn record_submission(h: Seq<Seq<char>>, raw: Seq<char>) -> Seq<Seq<char>> {
    if all_whitespace(raw) {
        h
    } else if h.len() > 0 && h.last() == raw {
        h
    } else if h.len() == HISTORY_CAP {
        h.drop_first().push(raw)
    } else {
        h.push(raw)
    }
}

impl Prompt {
    /// The submitted commands, oldest first.
    pub open spec fn history_view(&self) -> Seq<Seq<char>> {
        strings_view(self.history@)
    }

    /// The history entry being shown, if the buffer came from recall.
    pub open spec fn recall_index(&self) -> Option<usize> {
        self.history_idx
    }

    /// The buffer that was being edited when recall started.
    pub open spec fn saved_view(&self) -> Option<Seq<char>> {
        match self.saved {
            Some(s) => Some(s@),
            None => None,
        }
    }

    /// The recall index names a history entry and the history is bounded.
    pub open spec fn wf(&self) -> bool {
        &&& self.history@.len() <= HISTORY_CAP
        &&& (self.history_idx matches Some(i) ==> i < self.history@.len())
    }

    /// Buffer and cursor unchanged, and no longer attached to history recall.
    pub open spec fn detached_from(&self, other: &Self) -> bool {
        &&& self.recall_index() is None
        &&& self.saved_view() is None
        &&& self.history_view() == other.history_view()
        &&& self.wf()
    }

    /// An empty prompt with no history.
    pub open spec fn is_fresh(&self) -> bool {
        &&& self.wf()
        &&& self.buffer@ == Seq::<char>::empty()
        &&& self.cursor == 0
        &&& self.history_view() == Seq::<Seq<char>>::empty()
        &&& self.recall_index() is None
        &&& self.saved_view() is None
    }

    /// History and recall state are those of `other`.
    pub open spec fn same_recall_state(&self, other: &Self) -> bool {
        &&& self.recall_index() == other.recall_index()
        &&& self.saved_view() == other.saved_view()
        &&& self.history_view() == other.history_view()
        &&& self.wf() == other.wf()
    }

    // --- transition relations ------------------------------------------------

    /// What `submit` does: it hands back the buffer as `raw`, records it (see
    /// [`record_submission`]) and resets the prompt.
    pub open spec fn submit_post(pre: Self, post: Self, raw: Seq<char>) -> bool {
        &&& raw == pre.buffer@
        &&& post.wf()
        &&& post.buffer@ == Seq::<char>::empty()
        &&& post.cursor == 0
        &&& post.recall_index() is None
        &&& post.saved_view() is None
        &&& post.history_view() == record_submission(pre.history_view(), raw)
    }

    /// What `insert_char` does: the relation between the state before and after.
    pub open spec fn insert_char_post(pre: Self, post: Self, c: char) -> bool {
        &&& (post.detached_from(&pre))
        &&& (post.buffer@ == insert_char_at(pre.buffer@, pre.cursor as int, c))
        &&& (post.cursor == pre.cursor + 1)
    }

    /// What `backspace` does: the relation between the state before and after.
    pub open spec fn backspace_post(pre: Self, post: Self) -> bool {
        &&& (post.detached_from(&pre))
        &&& (pre.cursor == 0 ==> post.buffer@ == pre.buffer@ && post.cursor
                == 0)
        &&& (pre.cursor > 0 ==> post.cursor == pre.cursor - 1 && post.buffer@
                == remove_range(
                pre.buffer@,
                clamp_col(pre.cursor - 1, pre.buffer@.len() as int),
                clamp_col(pre.cursor as int, pre.buffer@.len() as int),
            ))
    }

    /// What `delete_at_cursor` does: the relation between the state before and after.
    pub open spec fn delete_at_cursor_post(pre: Self, post: Self) -> bool {
        &&& (post.detached_from(&pre))
        &&& (post.cursor == pre.cursor)
        &&& (pre.cursor >= pre.buffer@.len() ==> post.buffer@ == pre.buffer@)
        &&& (pre.cursor < pre.buffer@.len() ==> post.buffer@ == remove_range(
                pre.buffer@,
                pre.cursor as int,
                pre.cursor + 1,
            ))
    }

    /// What `move_left` does: the relation between the state before and after.
    pub open spec fn move_left_post(pre: Self, post: Self) -> bool {
        &&& (post.cursor == if pre.cursor > 0 { pre.cursor - 1 } else { 0 })
        &&& (post.same_recall_state(&pre))
        &&& (post.buffer == pre.buffer)
    }

    /// What `move_right` does: the relation between the state before and after.
    pub open spec fn move_right_post(pre: Self, post: Self) -> bool {
        &&& (post.cursor == if pre.cursor < pre.buffer@.len() {
                pre.cursor + 1
            } else {
                pre.cursor as int
            })
        &&& (post.same_recall_state(&pre))
        &&& (post.buffer == pre.buffer)
    }

    /// What `move_home` does: the relation between the state before and after.
    pub open spec fn move_home_post(pre: Self, post: Self) -> bool {
        &&& (post.cursor == 0)
        &&& (post.same_recall_state(&pre))
        &&& (post.buffer == pre.buffer)
    }

    /// What `move_end` does: the relation between the state before and after.
    pub open spec fn move_end_post(pre: Self, post: Self) -> bool {
        &&& (post.cursor == pre.buffer@.len())
        &&& (post.same_recall_state(&pre))
        &&& (post.buffer == pre.buffer)
    }

    /// What `recall_prev` does: the relation between the state before and after.
    pub open spec fn recall_prev_post(pre: Self, post: Self) -> bool {
        &&& (post.wf())
        &&& (post.history_view() == pre.history_view())
        &&& (pre.history_view().len() == 0 ==> post.buffer == pre.buffer
                && post.cursor == pre.cursor && post.recall_index()
                == pre.recall_index() && post.saved_view() == pre.saved_view())
        &&& (pre.history_view().len() > 0 ==> {
                let h = pre.history_view();
                let idx: int = match pre.recall_index() {
                    None => h.len() - 1,
                    Some(i) => if i == 0 { 0 } else { i - 1 },
                };
                &&& post.recall_index() == Some(idx as usize)
                &&& post.buffer@ == h[idx]
                &&& post.cursor == h[idx].len()
                &&& post.saved_view() == match pre.recall_index() {
                    None => Some(pre.buffer@),
                    Some(_) => pre.saved_view(),
                }
            })
    }

    /// What `recall_next` does: the relation between the state before and after.
    pub open spec fn recall_next_post(pre: Self, post: Self) -> bool {
        &&& (post.wf())
        &&& (post.history_view() == pre.history_view())
        &&& (pre.recall_index() is None ==> post.buffer == pre.buffer
                && post.cursor == pre.cursor && post.recall_index() is None
                && post.saved_view() == pre.saved_view())
        &&& (pre.recall_index() matches Some(i) ==> {
                let h = pre.history_view();
                if i + 1 < h.len() {
                    &&& post.recall_index() == Some((i + 1) as usize)
                    &&& post.buffer@ == h[i + 1]
                    &&& post.cursor == h[i + 1].len()
                    &&& post.saved_view() == pre.saved_view()
                } else {
                    &&& post.recall_index() is None
                    &&& post.buffer@ == match pre.saved_view() {
                        Some(s) => s,
                        None => Seq::<char>::empty(),
                    }
                    &&& post.cursor == post.buffer@.len()
                    &&& post.saved_view() is None
                }
            })
    }

    pub fn new() -> (p: Self)
        ensures
            p.is_fresh(),
    {
        let p = Prompt {
            buffer: String::new(),
            cursor: 0,
            history: VecDeque::new(),
            history_idx: None,
            saved: None,
        };
        assert(p.history_view() =~= Seq::<Seq<char>>::empty());
        p
    }

    /// Returns the raw buffer, records it into history when it is not blank
    /// (collapsing a repeat of the newest entry), and resets the prompt.
    pub fn submit(&mut self) -> (raw: String)
        requires
            old(self).wf(),
        ensures
            Self::submit_post(*old(self), *final(self), raw@),
    {
        let mut raw = String::new();
        std::mem::swap(&mut raw, &mut self.buffer);
        self.cursor = 0;
        self.history_idx = None;
        self.saved = None;
        let ghost h0 = strings_view(self.history@);
        if !is_all_whitespace(raw.as_str()) {
            let n = self.history.len();
            let repeat = n > 0 && self.history[n - 1] == raw;
            if !repeat {
                if n == HISTORY_CAP {
                    self.history.pop_front();
                }
                self.history.push_back(raw.clone());
                assert(strings_view(self.history@) =~= record_submission(h0, raw@));
            }
        }
        raw
    }

    // --- editing ---------------------------------------------------------------

    fn detach_from_history(&mut self)
        requires
            old(self).wf(),
        ensures
            final(self).detached_from(old(self)),
            final(self).buffer == old(self).buffer,
            final(self).cursor == old(self).cursor,
    {
        self.history_idx = None;
        self.saved = None;
    }

    /// Inserts `c` at the cursor (at the end when the cursor is past it) and
    /// advances the cursor.
    pub fn insert_char(&mut self, c: char)
        requires
            old(self).wf(),
            old(self).cursor < usize::MAX,
        ensures
            Self::insert_char_post(*old(self), *final(self), c),
    {
        self.detach_from_history();
        let cs = chars_of(self.buffer.as_str());
        let i = if self.cursor < cs.len() { self.cursor } else { cs.len() };
        let mut s = string_from(&cs, 0, i);
        s.push(c);
        push_chars(&mut s, &cs, i, cs.len());
        self.buffer = s;
        self.cursor += 1;
    }

    /// Deletes the character before the cursor.
    pub fn backspace(&mut self)
        requires
            old(self).wf(),
        ensures
            Self::backspace_post(*old(self), *final(self)),
    {
        self.detach_from_history();
        if self.cursor == 0 {
            return;
        }
        let cs = chars_of(self.buffer.as_str());
        let n = cs.len();
        let start = if self.cursor - 1 < n { self.cursor - 1 } else { n };
        let end = if self.cursor < n { self.cursor } else { n };
        let mut s = string_from(&cs, 0, start);
        push_chars(&mut s, &cs, end, n);
        self.buffer = s;
        self.cursor -= 1;
    }

    /// Deletes the character under the cursor, if there is one.
    pub fn delete_at_cursor(&mut self)
        requires
            old(self).wf(),
        ensures
            Self::delete_at_cursor_post(*old(self), *final(self)),
    {
        self.detach_from_history();
        let cs = chars_of(self.buffer.as_str());
        let n = cs.len();
        if self.cursor >= n {
            return;
        }
        let mut s = string_from(&cs, 0, self.cursor);
        push_chars(&mut s, &cs, self.cursor + 1, n);
        self.buffer = s;
    }

    // --- movement ----------------------------------------------------------------

    pub fn move_left(&mut self)
        ensures
            Self::move_left_post(*old(self), *final(self)),
    {
        if self.cursor > 0 {
            self.cursor -= 1;
        }
    }

    pub fn move_right(&mut self)
        ensures
            Self::move_right_post(*old(self), *final(self)),
    {
        if self.cursor < char_len(self.buffer.as_str()) {
            self.cursor += 1;
        }
    }

    pub fn move_home(&mut self)
        ensures
            Self::move_home_post(*old(self), *final(self)),
    {
        self.cursor = 0;
    }

    pub fn move_end(&mut self)
        ensures
            Self::move_end_post(*old(self), *final(self)),
    {
        self.cursor = char_len(self.buffer.as_str());
    }

    // --- history recall ------------------------------------------------------------

    /// Up arrow: shows the next older entry (starting from the newest and
    /// saving the buffer being edited); stays on the oldest.
    pub fn recall_prev(&mut self)
        requires
            old(self).wf(),
        ensures
            Self::recall_prev_post(*old(self), *final(self)),
    {
        if self.history.len() == 0 {
            return;
        }
        let new_idx = match self.history_idx {
            None => {
                self.saved = Some(self.buffer.clone());
                self.history.len() - 1
            },
            Some(i) => if i == 0 { 0 } else { i - 1 },
        };
        self.history_idx = Some(new_idx);
        self.buffer = self.history[new_idx].clone();
        self.cursor = char_len(self.buffer.as_str());
    }

    /// Down arrow: shows the next newer entry; past the newest, restores the
    /// buffer saved when recall started. Without recall, does nothing.
    pub fn recall_next(&mut self)
        requires
            old(self).wf(),
        ensures
            Self::recall_next_post(*old(self), *final(self)),
    {
        match self.history_idx {
            None => {},
            Some(i) => {
                if i + 1 < self.history.len() {
                    self.history_idx = Some(i + 1);
                    self.buffer = self.history[i + 1].clone();
                    self.cursor = char_len(self.buffer.as_str());
                } else {
                    self.history_idx = None;
                    let mut taken: Option<String> = None;
                    std::mem::swap(&mut taken, &mut self.saved);
                    self.buffer = match taken {
                        Some(s) => s,
                        None => String::new(),
                    };
                    self.cursor = char_len(self.buffer.as_str());
                }
            },
        }
    }
}

// ---------------------------------------------------------------------------
// Tokenizing
// ---------------------------------------------------------------------------

/// The tokenizer as a left-to-right scan of `s` from index `i`, with the
/// tokens `out` already produced, the token `cur` being built, whether the
/// scan is inside double quotes, and whether `cur` has started.
pub open spec fn split_from(
    s: Seq<char>,
    i: int,
    out: Seq<Seq<char>>,
    cur: Seq<char>,
    in_quotes: bool,
    started: bool,
) -> Seq<Seq<char>>
    decreases s.len() - i,
{
    if i < 0 || i >= s.len() {
        if started { out.push(cur) } else { out }
    } else {
        let c = s[i];
        if c == '"' {
            split_from(s, i + 1, out, cur, !in_quotes, true)
        } else if c == '\\' && in_quotes {
            if i + 1 < s.len() {
                split_from(s, i + 2, out, cur.push(s[i + 1]), in_quotes, started)
            } else {
                split_from(s, i + 1, out, cur, in_quotes, started)
            }
        } else if unicode_whitespace(c) && !in_quotes {
            if started {
                split_from(s, i + 1, out.push(cur), Seq::empty(), in_quotes, false)
            } else {
                split_from(s, i + 1, out, cur, in_quotes, started)
            }
        } else {
            split_from(s, i + 1, out, cur.push(c), in_quotes, true)
        }
    }
}

/// Tokens of a command line: split on unquoted whitespace; double quotes
/// group (and may produce an empty token); inside quotes a backslash takes
/// the next character literally. Single quotes are ordinary characters.
pub open spec fn shell_split_spec(s: Seq<char>) -> Seq<Seq<char>> {
    split_from(s, 0, Seq::empty(), Seq::empty(), false, false)
}

/// Splits a command line into tokens, honoring double-quoted strings.
pub fn shell_split(s: &str) -> (out: Vec<String>)
    ensures
        strings_view(out@) == shell_split_spec(s@),
{
    let cs = chars_of(s);
    let n = cs.len();
    let mut out: Vec<String> = Vec::new();
    let mut cur = String::new();
    let mut in_quotes = false;
    let mut started = false;
    let mut i: usize = 0;
    assert(strings_view(out@) =~= Seq::<Seq<char>>::empty());
    while i < n
        invariant
            i <= n == cs.len(),
            cs@ == s@,
            split_from(cs@, i as int, strings_view(out@), cur@, in_quotes, started)
                == shell_split_spec(s@),
        decreases n - i,
    {
        let c = cs[i];
        let ghost o0 = strings_view(out@);
        if c == '"' {
            in_quotes = !in_quotes;
            started = true;
            i += 1;
        } else if c == '\\' && in_quotes {
            if i + 1 < n {
                cur.push(cs[i + 1]);
                i += 2;
            } else {
                i += 1;
            }
        } else if is_whitespace(c) && !in_quotes {
            if started {
                let mut tok = String::new();
                std::mem::swap(&mut tok, &mut cur);
                out.push(tok);
                assert(strings_view(out@) =~= o0.push(tok@));
                started = false;
            }
            i += 1;
        } else {
            cur.push(c);
            started = true;
            i += 1;
        }
    }
    if started {
        let ghost o0 = strings_view(out@);
        out.push(cur);
        assert(strings_view(out@) =~= o0.push(cur@));
    }
    out
}

} // verus!
