//! Unified-diff parsing for a single file, and reconstruction of a one-hunk
//! patch suitable for `git apply`.
//!
//! Everything before the first line starting with `@@` is the header; each
//! `@@` line opens a hunk that runs until the next `@@` line or the end.

use vstd::prelude::*;
use crate::prompt::strings_view;
use crate::text::{chars_of, find_sep, lemma_next_sep, next_sep, starts_with, string_from};

verus! {

broadcast use vstd::string::group_string_axioms;

/// One `@@ ... @@` block: its header line and body lines, verbatim.
#[derive(Clone, Debug, PartialEq, Eq)]
pub struct Hunk {
    pub header: String,
    pub lines: Vec<String>,
}

/// A single file's diff: the lines before the first hunk, and the hunks.
#[derive(Clone, Debug, PartialEq, Eq)]
pub struct FileDiff {
    pub header_lines: Vec<String>,
    pub hunks: Vec<Hunk>,
}

pub struct HunkView {
    pub header: Seq<char>,
    pub lines: Seq<Seq<char>>,
}

pub struct FileDiffView {
    pub header_lines: Seq<Seq<char>>,
    pub hunks: Seq<HunkView>,
}

impl Hunk {
    pub open spec fn view(&self) -> HunkView {
        HunkView { header: self.header@, lines: strings_view(self.lines@) }
    }
}

/// The views of a sequence of hunks.
pub open spec fn hunks_view(hs: Seq<Hunk>) -> Seq<HunkView> {
    hs.map_values(|h: Hunk| h.view())
}

/// A line minus one trailing `\r`.
pub open spec fn strip_cr(l: Seq<char>) -> Seq<char> {
    if l.len() > 0 && l.last() == '\r' { l.drop_last() } else { l }
}

/// The lines of `s[start..]` as `str::lines` yields them: split at `\n`, a
/// `\r` right before a `\n` dropped, and no empty line after a final `\n`.
pub open spec fn lines_from(s: Seq<char>, start: int) -> Seq<Seq<char>>
    decreases s.len() - start,
{
    if start < 0 || start >= s.len() {
        Seq::empty()
    } else {
        let k = next_sep(s, start, '\n');
        proof {
            lemma_next_sep(s, start, '\n');
        }
        if k >= s.len() {
            seq![s.subrange(start, s.len() as int)]
        } else {
            seq![strip_cr(s.subrange(start, k))] + lines_from(s, k + 1)
        }
    }
}

/// Whether a line opens a hunk.
pub open spec fn is_hunk_header(l: Seq<char>) -> bool {
    "@@"@.is_prefix_of(l)
}

/// The diff described by a sequence of lines.
pub open spec fn diff_of_lines(ls: Seq<Seq<char>>) -> FileDiffView
    decreases ls.len(),
{
    if ls.len() == 0 {
        FileDiffView { header_lines: Seq::empty(), hunks: Seq::empty() }
    } else {
        let d = diff_of_lines(ls.drop_last());
        let l = ls.last();
        if is_hunk_header(l) {
            FileDiffView {
                header_lines: d.header_lines,
                hunks: d.hunks.push(HunkView { header: l, lines: Seq::empty() }),
            }
        } else if d.hunks.len() == 0 {
            FileDiffView { header_lines: d.header_lines.push(l), hunks: d.hunks }
        } else {
            let h = d.hunks.last();
            FileDiffView {
                header_lines: d.header_lines,
                hunks: d.hunks.update(
                    d.hunks.len() - 1,
                    HunkView { header: h.header, lines: h.lines.push(l) },
                ),
            }
        }
    }
}

/// The diff described by `git diff` text.
pub open spec fn parse_diff_spec(text: Seq<char>) -> FileDiffView {
    diff_of_lines(lines_from(text, 0))
}

/// Each line followed by `\n`, concatenated.
pub open spec fn terminated(ls: Seq<Seq<char>>) -> Seq<char>
    decreases ls.len(),
{
    if ls.len() == 0 {
        Seq::empty()
    } else {
        terminated(ls.drop_last()) + ls.last() + seq!['\n']
    }
}

/// The one-hunk patch: the file header, then the hunk's header and body, each
/// line newline-terminated.
pub open spec fn patch_spec(header_lines: Seq<Seq<char>>, h: HunkView) -> Seq<char> {
    terminated(header_lines) + h.header + seq!['\n'] + terminated(h.lines)
}

impl FileDiff {
    pub open spec fn view(&self) -> FileDiffView {
        FileDiffView {
            header_lines: strings_view(self.header_lines@),
            hunks: hunks_view(self.hunks@),
        }
    }

    /// No hunks (binary, rename-only or empty diff).
    pub fn is_empty(&self) -> (b: bool)
        ensures
            b == (self.hunks@.len() == 0),
    {
        self.hunks.len() == 0
    }

    /// The patch holding only hunk `idx`, or `None` when there is no such hunk.
    pub fn single_hunk_patch(&self, idx: usize) -> (p: Option<String>)
        ensures
            idx >= self.hunks@.len() ==> p is None,
            idx < self.hunks@.len() ==> p is Some && p->0@ == patch_spec(
                self.view().header_lines,
                self.view().hunks[idx as int],
            ),
    {
        if idx >= self.hunks.len() {
            return None;
        }
        let hunk = &self.hunks[idx];
        let mut s = String::new();
        push_terminated(&mut s, &self.header_lines);
        s.append(hunk.header.as_str());
        s.push('\n');
        push_terminated(&mut s, &hunk.lines);
        assert(self.view().hunks[idx as int] == hunk.view());
        Some(s)
    }
}

/// Appends each line of `ls` followed by `\n`.
fn push_terminated(s: &mut String, ls: &Vec<String>)
    ensures
        final(s)@ == old(s)@ + terminated(strings_view(ls@)),
{
    let n = ls.len();
    let mut i: usize = 0;
    while i < n
        invariant
            i <= n == ls.len(),
            s@ == old(s)@ + terminated(strings_view(ls@).take(i as int)),
        decreases n - i,
    {
        assert(strings_view(ls@).take(i + 1).drop_last() =~= strings_view(ls@).take(i as int));
        s.append(ls[i].as_str());
        s.push('\n');
        i += 1;
    }
    assert(strings_view(ls@).take(n as int) =~= strings_view(ls@));
}

/// The lines of `text`, as `str::lines` yields them.
pub fn lines_of(text: &str) -> (ls: Vec<String>)
    ensures
        strings_view(ls@) == lines_from(text@, 0),
{
    let cs = chars_of(text);
    let n = cs.len();
    let mut ls: Vec<String> = Vec::new();
    let mut start: usize = 0;
    assert(strings_view(ls@) =~= Seq::<Seq<char>>::empty());
    while start < n
        invariant
            start <= n == cs.len(),
            cs@ == text@,
            strings_view(ls@) + lines_from(cs@, start as int) == lines_from(cs@, 0),
        decreases n - start,
    {
        let k = find_sep(&cs, start, '\n');
        let ghost before = strings_view(ls@);
        if k >= n {
            let line = string_from(&cs, start, n);
            ls.push(line);
            assert(strings_view(ls@) =~= before.push(line@));
            assert(lines_from(cs@, start as int) =~= seq![line@]);
            assert(lines_from(cs@, n as int) =~= Seq::<Seq<char>>::empty());
            start = n;
        } else {
            let end = if k > start && cs[k - 1] == '\r' { k - 1 } else { k };
            let line = string_from(&cs, start, end);
            assert(line@ == strip_cr(cs@.subrange(start as int, k as int)));
            ls.push(line);
            assert(strings_view(ls@) =~= before.push(line@));
            assert(lines_from(cs@, start as int) =~= seq![line@] + lines_from(cs@, k + 1));
            start = k + 1;
        }
    }
    ls
}

/// Parses the output of `git diff [--cached] -- <path>` for one file.
pub fn parse(text: &str) -> (d: FileDiff)
    ensures
        d.view() == parse_diff_spec(text@),
{
    let ls = lines_of(text);
    let ghost lv = strings_view(ls@);
    let mut header_lines: Vec<String> = Vec::new();
    let mut hunks: Vec<Hunk> = Vec::new();
    let n = ls.len();
    let mut i: usize = 0;
    assert(strings_view(header_lines@) =~= Seq::<Seq<char>>::empty());
    assert(hunks_view(hunks@) =~= Seq::<HunkView>::empty());
    while i < n
        invariant
            i <= n == ls.len(),
            lv == strings_view(ls@),
            (FileDiffView { header_lines: strings_view(header_lines@), hunks: hunks_view(hunks@) })
                == diff_of_lines(lv.take(i as int)),
        decreases n - i,
    {
        assert(lv.take(i + 1).drop_last() =~= lv.take(i as int));
        assert(lv.take(i + 1).last() == ls@[i as int]@);
        let line = ls[i].clone();
        let lc = chars_of(line.as_str());
        let ghost hv0 = hunks_view(hunks@);
        let ghost hl0 = strings_view(header_lines@);
        if starts_with(&lc, "@@") {
            let h = Hunk { header: line, lines: Vec::new() };
            assert(strings_view(h.lines@) =~= Seq::<Seq<char>>::empty());
            hunks.push(h);
            assert(hunks_view(hunks@) =~= hv0.push(h.view()));
        } else if hunks.len() == 0 {
            header_lines.push(line);
            assert(strings_view(header_lines@) =~= hl0.push(line@));
        } else {
            let mut h = hunks.pop().unwrap();
            let ghost hl = strings_view(h.lines@);
            h.lines.push(line);
            assert(strings_view(h.lines@) =~= hl.push(line@));
            hunks.push(h);
            assert(hunks_view(hunks@) =~= hv0.update(
                hv0.len() - 1,
                HunkView { header: hv0.last().header, lines: hv0.last().lines.push(line@) },
            ));
        }
        i += 1;
    }
    assert(lv.take(n as int) =~= lv);
    FileDiff { header_lines, hunks }
}

} // verus!
