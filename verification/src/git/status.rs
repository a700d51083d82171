//! Parser for `git status --porcelain=v1 -z`.
//!
//! Each record is `XY SP path NUL`; renames and copies (`R`/`C` on either
//! side) append `origPath NUL`. `??` marks untracked and `!!` ignored files.

use vstd::prelude::*;
use crate::git::GitCmd;
use crate::git::runner::CommandOutput;
use crate::text::{from_utf8_lossy, lossy_text};

verus! {

broadcast use vstd::string::group_string_axioms;

/// One side (index or worktree) of a porcelain status code.
#[derive(Clone, Debug, PartialEq, Eq)]
pub enum FileStatus {
    Unmodified,
    Added,
    Modified,
    Deleted,
    Renamed,
    Copied,
    Untracked,
    Ignored,
    TypeChange,
    Unmerged,
    Unknown(char),
}

/// The status named by a porcelain code character.
pub open spec fn status_of(c: char) -> FileStatus {
    if c == ' ' {
        FileStatus::Unmodified
    } else if c == 'A' {
        FileStatus::Added
    } else if c == 'M' {
        FileStatus::Modified
    } else if c == 'D' {
        FileStatus::Deleted
    } else if c == 'R' {
        FileStatus::Renamed
    } else if c == 'C' {
        FileStatus::Copied
    } else if c == '?' {
        FileStatus::Untracked
    } else if c == '!' {
        FileStatus::Ignored
    } else if c == 'T' {
        FileStatus::TypeChange
    } else if c == 'U' {
        FileStatus::Unmerged
    } else {
        FileStatus::Unknown(c)
    }
}

/// The porcelain code character of a status.
pub open spec fn symbol_of(s: FileStatus) -> char {
    match s {
        FileStatus::Unmodified => ' ',
        FileStatus::Added => 'A',
        FileStatus::Modified => 'M',
        FileStatus::Deleted => 'D',
        FileStatus::Renamed => 'R',
        FileStatus::Copied => 'C',
        FileStatus::Untracked => '?',
        FileStatus::Ignored => '!',
        FileStatus::TypeChange => 'T',
        FileStatus::Unmerged => 'U',
        FileStatus::Unknown(c) => c,
    }
}

impl FileStatus {
    pub fn from_char(c: char) -> (s: Self)
        ensures
            s == status_of(c),
    {
        if c == ' ' {
            FileStatus::Unmodified
        } else if c == 'A' {
            FileStatus::Added
        } else if c == 'M' {
            FileStatus::Modified
        } else if c == 'D' {
            FileStatus::Deleted
        } else if c == 'R' {
            FileStatus::Renamed
        } else if c == 'C' {
            FileStatus::Copied
        } else if c == '?' {
            FileStatus::Untracked
        } else if c == '!' {
            FileStatus::Ignored
        } else if c == 'T' {
            FileStatus::TypeChange
        } else if c == 'U' {
            FileStatus::Unmerged
        } else {
            FileStatus::Unknown(c)
        }
    }

    pub fn symbol(&self) -> (c: char)
        ensures
            c == symbol_of(*self),
    {
        match self {
            FileStatus::Unmodified => ' ',
            FileStatus::Added => 'A',
            FileStatus::Modified => 'M',
            FileStatus::Deleted => 'D',
            FileStatus::Renamed => 'R',
            FileStatus::Copied => 'C',
            FileStatus::Untracked => '?',
            FileStatus::Ignored => '!',
            FileStatus::TypeChange => 'T',
            FileStatus::Unmerged => 'U',
            FileStatus::Unknown(c) => *c,
        }
    }
}

/// One path in the status output.
#[derive(Clone, Debug)]
pub struct FileEntry {
    pub path: String,
    /// The source path of a rename or copy.
    pub orig_path: Option<String>,
    /// Index (staged) status.
    pub index: FileStatus,
    /// Worktree (unstaged) status.
    pub worktree: FileStatus,
}

/// A `FileEntry` with its strings taken as character sequences.
pub struct FileEntryView {
    pub path: Seq<char>,
    pub orig_path: Option<Seq<char>>,
    pub index: FileStatus,
    pub worktree: FileStatus,
}

/// Staged means the index side records a change.
pub open spec fn staged_status(s: FileStatus) -> bool {
    !(s is Unmodified || s is Untracked || s is Ignored)
}

/// Unstaged means the worktree side is not unmodified.
pub open spec fn unstaged_status(s: FileStatus) -> bool {
    !(s is Unmodified)
}

impl FileEntry {
    pub open spec fn view(&self) -> FileEntryView {
        FileEntryView {
            path: self.path@,
            orig_path: match self.orig_path {
                Some(p) => Some(p@),
                None => None,
            },
            index: self.index,
            worktree: self.worktree,
        }
    }

    pub open spec fn staged_spec(&self) -> bool {
        staged_status(self.index)
    }

    pub open spec fn unstaged_spec(&self) -> bool {
        unstaged_status(self.worktree)
    }

    pub fn is_staged(&self) -> (b: bool)
        ensures
            b == self.staged_spec(),
    {
        !matches!(self.index, FileStatus::Unmodified | FileStatus::Untracked | FileStatus::Ignored)
    }

    pub fn is_unstaged(&self) -> (b: bool)
        ensures
            b == self.unstaged_spec(),
    {
        !matches!(self.worktree, FileStatus::Unmodified)
    }
}

/// The entries of a status snapshot, in git's order.
#[derive(Clone, Debug)]
pub struct StatusList {
    pub entries: Vec<FileEntry>,
}

/// The entries shown in the Staged pane.
pub open spec fn staged_entries(es: Seq<FileEntry>) -> Seq<FileEntry> {
    es.filter(|e: FileEntry| e.staged_spec())
}

/// The entries shown in the Unstaged pane.
pub open spec fn unstaged_entries(es: Seq<FileEntry>) -> Seq<FileEntry> {
    es.filter(|e: FileEntry| e.unstaged_spec())
}

impl StatusList {
    pub fn new() -> (s: Self)
        ensures
            s.entries@ == Seq::<FileEntry>::empty(),
    {
        StatusList { entries: Vec::new() }
    }

    /// Entries with a staged change, in order.
    pub fn staged(&self) -> (v: Vec<&FileEntry>)
        ensures
            v@.map_values(|e: &FileEntry| *e) == staged_entries(self.entries@),
    {
        let mut v: Vec<&FileEntry> = Vec::new();
        let n = self.entries.len();
        let mut i: usize = 0;
        while i < n
            invariant
                i <= n == self.entries.len(),
                v@.map_values(|e: &FileEntry| *e) == staged_entries(self.entries@.take(i as int)),
            decreases n - i,
        {
            reveal_with_fuel(Seq::filter, 1);
            assert(self.entries@.take(i + 1).drop_last() =~= self.entries@.take(i as int));
            let e = &self.entries[i];
            if e.is_staged() {
                v.push(e);
            }
            assert(v@.map_values(|e: &FileEntry| *e) =~= staged_entries(self.entries@.take(i + 1)));
            i += 1;
        }
        assert(self.entries@.take(n as int) =~= self.entries@);
        v
    }

    /// Entries with an unstaged (worktree) change, in order.
    pub fn unstaged(&self) -> (v: Vec<&FileEntry>)
        ensures
            v@.map_values(|e: &FileEntry| *e) == unstaged_entries(self.entries@),
    {
        let mut v: Vec<&FileEntry> = Vec::new();
        let n = self.entries.len();
        let mut i: usize = 0;
        while i < n
            invariant
                i <= n == self.entries.len(),
                v@.map_values(|e: &FileEntry| *e) == unstaged_entries(self.entries@.take(i as int)),
            decreases n - i,
        {
            reveal_with_fuel(Seq::filter, 1);
            assert(self.entries@.take(i + 1).drop_last() =~= self.entries@.take(i as int));
            let e = &self.entries[i];
            if e.is_unstaged() {
                v.push(e);
            }
            assert(v@.map_values(|e: &FileEntry| *e) =~= unstaged_entries(self.entries@.take(i + 1)));
            i += 1;
        }
        assert(self.entries@.take(n as int) =~= self.entries@);
        v
    }
}

/// `git status --porcelain=v1 -z`.
pub fn cmd() -> (c: GitCmd)
    ensures
        c.args_view() == seq!["status"@, "--porcelain=v1"@, "-z"@],
        c.cwd_view() is None,
{
    GitCmd::new("status").arg("--porcelain=v1").arg("-z")
}

// ---------------------------------------------------------------------------
// Parsing
// ---------------------------------------------------------------------------

/// The first index at or after `i` holding a NUL byte, or the length.
pub open spec fn nul_from(b: Seq<u8>, i: int) -> int
    decreases b.len() - i,
{
    if i < 0 || i >= b.len() || b[i] == 0 {
        i
    } else {
        nul_from(b, i + 1)
    }
}

/// Past a terminator at `e`, if there is one.
pub open spec fn skip_nul(b: Seq<u8>, e: int) -> int {
    if e < b.len() { e + 1 } else { e }
}

/// Whether a record with these codes carries an original path.
pub open spec fn has_orig(x: char, y: char) -> bool {
    x == 'R' || x == 'C' || y == 'R' || y == 'C'
}

/// Index and worktree status of a code pair: `??` and `!!` mark both sides.
pub open spec fn code_statuses(x: char, y: char) -> (FileStatus, FileStatus) {
    if x == '?' && y == '?' {
        (FileStatus::Untracked, FileStatus::Untracked)
    } else if x == '!' && y == '!' {
        (FileStatus::Ignored, FileStatus::Ignored)
    } else {
        (status_of(x), status_of(y))
    }
}

/// Where the record starting at `i` ends (the start of the next one).
pub open spec fn record_end(b: Seq<u8>, i: int) -> int {
    let x = b[i] as char;
    let y = b[i + 1] as char;
    let j = skip_nul(b, nul_from(b, i + 3));
    if has_orig(x, y) { skip_nul(b, nul_from(b, j)) } else { j }
}

/// The entry of the record starting at `i`.
pub open spec fn record_entry(b: Seq<u8>, i: int) -> FileEntryView {
    let x = b[i] as char;
    let y = b[i + 1] as char;
    let pe = nul_from(b, i + 3);
    let j = skip_nul(b, pe);
    let codes = code_statuses(x, y);
    FileEntryView {
        path: lossy_text(b.subrange(i + 3, pe)),
        orig_path: if has_orig(x, y) {
            Some(lossy_text(b.subrange(j, nul_from(b, j))))
        } else {
            None
        },
        index: codes.0,
        worktree: codes.1,
    }
}

/// Entries of the records from byte `i` on; a tail shorter than a status
/// code and separator is ignored.
pub open spec fn records_from(b: Seq<u8>, i: int) -> Seq<FileEntryView>
    decreases b.len() - i,
{
    if i < 0 || i + 3 > b.len() {
        Seq::empty()
    } else {
        proof {
            lemma_nul_from_ge(b, i + 3);
            lemma_nul_from_ge(b, skip_nul(b, nul_from(b, i + 3)));
        }
        seq![record_entry(b, i)] + records_from(b, record_end(b, i))
    }
}

/// The entries of a whole porcelain stream.
pub open spec fn parse_status_spec(b: Seq<u8>) -> Seq<FileEntryView> {
    records_from(b, 0)
}

pub proof fn lemma_nul_from_ge(b: Seq<u8>, i: int)
    ensures
        nul_from(b, i) >= i,
        0 <= i <= b.len() ==> nul_from(b, i) <= b.len(),
    decreases b.len() - i,
{
    if !(i < 0 || i >= b.len() || b[i] == 0) {
        lemma_nul_from_ge(b, i + 1);
    }
}

/// Index of the first NUL at or after `i`, or the length.
fn find_nul(b: &[u8], i: usize) -> (e: usize)
    requires
        i <= b@.len(),
    ensures
        e == nul_from(b@, i as int),
        i <= e <= b@.len(),
{
    let mut e = i;
    while e < b.len() && b[e] != 0
        invariant
            i <= e <= b@.len(),
            nul_from(b@, e as int) == nul_from(b@, i as int),
        decreases b@.len() - e,
    {
        e += 1;
    }
    e
}

/// Parses `git status --porcelain=v1 -z` output. The parser is total: every
/// input yields `Ok`.
pub fn parse(bytes: &[u8]) -> (r: Result<StatusList, String>)
    ensures
        r is Ok,
        r->Ok_0.entries@.map_values(|e: FileEntry| e.view()) == parse_status_spec(bytes@),
{
    Ok(parse_entries(bytes))
}

/// The status of a finished `git status --porcelain=v1 -z` run: a failure to
/// start git is passed on; otherwise its standard output is parsed (the exit
/// status is not consulted).
pub fn load(out: Result<CommandOutput, String>) -> (r: Result<StatusList, String>)
    ensures
        match out {
            Err(e) => r == Err::<StatusList, String>(e),
            Ok(o) => r is Ok && r->Ok_0.entries@.map_values(|e: FileEntry| e.view())
                == parse_status_spec(o.stdout@),
        },
{
    match out {
        Err(e) => Err(e),
        Ok(o) => parse(o.stdout.as_slice()),
    }
}

fn parse_entries(bytes: &[u8]) -> (s: StatusList)
    ensures
        s.entries@.map_values(|e: FileEntry| e.view()) == parse_status_spec(bytes@),
{
    let mut entries: Vec<FileEntry> = Vec::new();
    let n = bytes.len();
    let mut i: usize = 0;
    while i <= n && n - i >= 3
        invariant
            i <= n == bytes@.len(),
            entries@.map_values(|e: FileEntry| e.view()) + records_from(bytes@, i as int)
                == parse_status_spec(bytes@),
        decreases n - i,
    {
        let x = bytes[i] as char;
        let y = bytes[i + 1] as char;
        let path_start = i + 3;
        let pe = find_nul(bytes, path_start);
        let path = from_utf8_lossy(slice_range(bytes, path_start, pe));
        let mut j = if pe < n { pe + 1 } else { pe };
        let mut orig_path: Option<String> = None;
        if x == 'R' || x == 'C' || y == 'R' || y == 'C' {
            let oe = find_nul(bytes, j);
            orig_path = Some(from_utf8_lossy(slice_range(bytes, j, oe)));
            j = if oe < n { oe + 1 } else { oe };
        }
        let (index, worktree) = if x == '?' && y == '?' {
            (FileStatus::Untracked, FileStatus::Untracked)
        } else if x == '!' && y == '!' {
            (FileStatus::Ignored, FileStatus::Ignored)
        } else {
            (FileStatus::from_char(x), FileStatus::from_char(y))
        };
        let ghost before = entries@.map_values(|e: FileEntry| e.view());
        let entry = FileEntry { path, orig_path, index, worktree };
        proof {
            lemma_nul_from_ge(bytes@, i + 3);
            lemma_nul_from_ge(bytes@, skip_nul(bytes@, nul_from(bytes@, i + 3)));
        }
        assert(entry.view() == record_entry(bytes@, i as int));
        entries.push(entry);
        assert(entries@.map_values(|e: FileEntry| e.view()) =~= before.push(entry.view()));
        assert(records_from(bytes@, i as int) =~= seq![record_entry(bytes@, i as int)]
            + records_from(bytes@, j as int));
        i = j;
    }
    StatusList { entries }
}

/// The bytes `b[lo..hi]`.
fn slice_range(b: &[u8], lo: usize, hi: usize) -> (s: &[u8])
    requires
        lo <= hi <= b@.len(),
    ensures
        s@ == b@.subrange(lo as int, hi as int),
{
    vstd::slice::slice_subrange(b, lo, hi)
}

} // verus!
