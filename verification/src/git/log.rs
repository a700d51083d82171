//! `git log` parser. Fields of a commit are NUL-separated so subjects,
//! author names and ref lists may hold commas or spaces; commits are
//! separated by newlines.

use vstd::prelude::*;
use crate::git::GitCmd;
use crate::git::runner::CommandOutput;
use crate::prompt::strings_view;
use crate::text::{
    char_vecs_view, chars_of, contains, contains_spec, from_utf8_lossy, pieces_from,
    splitn_from, split_chars, splitn_chars, string_from, trim, trim_spec, lossy_text,
};

verus! {

broadcast use vstd::string::group_string_axioms;

/// One commit of the log.
#[derive(Clone, Debug)]
pub struct LogEntry {
    pub sha: String,
    pub short_sha: String,
    pub author: String,
    pub when: String,
    pub subject: String,
    /// Each decoration as its own string (`HEAD -> main`, `tag: v1.0`, ...);
    /// empty when the commit has none.
    pub refs: Vec<String>,
}

/// A `LogEntry` with its strings taken as character sequences.
pub struct LogEntryView {
    pub sha: Seq<char>,
    pub short_sha: Seq<char>,
    pub author: Seq<char>,
    pub when: Seq<char>,
    pub subject: Seq<char>,
    pub refs: Seq<Seq<char>>,
}

impl LogEntry {
    pub open spec fn view(&self) -> LogEntryView {
        LogEntryView {
            sha: self.sha@,
            short_sha: self.short_sha@,
            author: self.author@,
            when: self.when@,
            subject: self.subject@,
            refs: strings_view(self.refs@),
        }
    }
}

/// The commits of a log, newest first.
#[derive(Clone, Debug)]
pub struct LogList {
    pub entries: Vec<LogEntry>,
}

/// The views of a sequence of log entries.
pub open spec fn entries_view(es: Seq<LogEntry>) -> Seq<LogEntryView> {
    es.map_values(|e: LogEntry| e.view())
}

impl LogList {
    pub fn new() -> (l: Self)
        ensures
            l.entries@ == Seq::<LogEntry>::empty(),
    {
        LogList { entries: Vec::new() }
    }

    pub fn len(&self) -> (n: usize)
        ensures
            n == self.entries@.len(),
    {
        self.entries.len()
    }

    pub fn is_empty(&self) -> (b: bool)
        ensures
            b == (self.entries@.len() == 0),
    {
        self.entries.len() == 0
    }
}

/// The record format: full SHA, short SHA, author, relative date, subject and
/// decorations, NUL-separated.
pub const FORMAT_ARG: &'static str = "--pretty=format:%H%x00%h%x00%an%x00%ar%x00%s%x00%D";

/// `git log --pretty=format:... -n 200`.
pub fn cmd() -> (c: GitCmd)
    ensures
        c.args_view() == seq!["log"@, FORMAT_ARG@, "-n"@, "200"@],
        c.cwd_view() is None,
{
    GitCmd::new("log").arg(FORMAT_ARG).arg("-n").arg("200")
}

/// `git show --stat --no-color <sha>`, the detail of one commit.
pub fn show_stat_cmd(sha: &str) -> (c: GitCmd)
    ensures
        c.args_view() == seq!["show"@, "--stat"@, "--no-color"@, sha@],
        c.cwd_view() is None,
{
    GitCmd::new("show").arg("--stat").arg("--no-color").arg(sha)
}

// ---------------------------------------------------------------------------
// Parsing
// ---------------------------------------------------------------------------

/// First index at or after `i` where `", "` starts, or the length.
pub open spec fn next_comma_space(s: Seq<char>, i: int) -> int
    decreases s.len() - i,
{
    if i < 0 || i >= s.len() || (s[i] == ',' && i + 1 < s.len() && s[i + 1] == ' ') {
        i
    } else {
        next_comma_space(s, i + 1)
    }
}

pub proof fn lemma_next_comma_space(s: Seq<char>, i: int)
    ensures
        next_comma_space(s, i) >= i,
        0 <= i <= s.len() ==> next_comma_space(s, i) <= s.len(),
        0 <= i && next_comma_space(s, i) < s.len() ==> next_comma_space(s, i) + 1 < s.len(),
    decreases s.len() - i,
{
    if !(i < 0 || i >= s.len() || (s[i] == ',' && i + 1 < s.len() && s[i + 1] == ' ')) {
        lemma_next_comma_space(s, i + 1);
    }
}

/// The pieces of `s[start..]` between occurrences of `", "`.
pub open spec fn ref_pieces_from(s: Seq<char>, start: int) -> Seq<Seq<char>>
    decreases s.len() - start,
{
    if start < 0 || start > s.len() {
        Seq::empty()
    } else {
        let k = next_comma_space(s, start);
        proof {
            lemma_next_comma_space(s, start);
        }
        if k >= s.len() {
            seq![s.subrange(start, s.len() as int)]
        } else {
            seq![s.subrange(start, k)] + ref_pieces_from(s, k + 2)
        }
    }
}

/// The `%D` decoration split on `", "`; empty input gives no refs.
pub open spec fn parse_refs_spec(s: Seq<char>) -> Seq<Seq<char>> {
    if s.len() == 0 {
        Seq::empty()
    } else {
        ref_pieces_from(s, 0)
    }
}

/// The commit a single line describes; empty lines and lines with fewer than
/// six NUL-separated fields describe none.
pub open spec fn parse_line_spec(line: Seq<char>) -> Option<LogEntryView> {
    let p = splitn_from(line, 0, 6, '\0');
    if line.len() == 0 || p.len() < 6 {
        None
    } else {
        Some(
            LogEntryView {
                sha: p[0],
                short_sha: p[1],
                author: p[2],
                when: p[3],
                subject: p[4],
                refs: parse_refs_spec(p[5]),
            },
        )
    }
}

/// The commits of a sequence of lines, in order.
pub open spec fn entries_of_lines(ls: Seq<Seq<char>>) -> Seq<LogEntryView>
    decreases ls.len(),
{
    if ls.len() == 0 {
        Seq::empty()
    } else {
        let rest = entries_of_lines(ls.drop_last());
        match parse_line_spec(ls.last()) {
            Some(e) => rest.push(e),
            None => rest,
        }
    }
}

/// The commits described by `git log` output.
pub open spec fn parse_log_spec(bytes: Seq<u8>) -> Seq<LogEntryView> {
    entries_of_lines(pieces_from(lossy_text(bytes), 0, '\n'))
}

/// Splits a `%D` decoration on `", "`; empty input gives no refs.
fn parse_refs(s: &Vec<char>) -> (refs: Vec<String>)
    ensures
        strings_view(refs@) == parse_refs_spec(s@),
{
    let mut refs: Vec<String> = Vec::new();
    assert(strings_view(refs@) =~= Seq::<Seq<char>>::empty());
    if s.len() == 0 {
        return refs;
    }
    let n = s.len();
    let mut start: usize = 0;
    loop
        invariant
            start <= n == s.len(),
            strings_view(refs@) + ref_pieces_from(s@, start as int) == parse_refs_spec(s@),
        decreases n - start,
    {
        let mut k = start;
        while k < n && !(s[k] == ',' && k + 1 < n && s[k + 1] == ' ')
            invariant
                start <= k <= n == s.len(),
                next_comma_space(s@, k as int) == next_comma_space(s@, start as int),
            decreases n - k,
        {
            k += 1;
        }
        let piece = string_from(s, start, k);
        let ghost before = strings_view(refs@);
        refs.push(piece);
        assert(strings_view(refs@) =~= before.push(piece@));
        if k >= n {
            assert(ref_pieces_from(s@, start as int) =~= seq![piece@]);
            return refs;
        }
        assert(ref_pieces_from(s@, start as int) =~= seq![piece@] + ref_pieces_from(s@, k + 2));
        start = k + 2;
    }
}

/// Parses one log line.
fn parse_line(line: &Vec<char>) -> (e: Option<LogEntry>)
    ensures
        match e {
            Some(x) => parse_line_spec(line@) == Some(x.view()),
            None => parse_line_spec(line@) is None,
        },
{
    if line.len() == 0 {
        return None;
    }
    let parts = splitn_chars(line, 6, '\0');
    if parts.len() < 6 {
        return None;
    }
    let p = &parts;
    let e = LogEntry {
        sha: string_from(&p[0], 0, p[0].len()),
        short_sha: string_from(&p[1], 0, p[1].len()),
        author: string_from(&p[2], 0, p[2].len()),
        when: string_from(&p[3], 0, p[3].len()),
        subject: string_from(&p[4], 0, p[4].len()),
        refs: parse_refs(&p[5]),
    };
    assert(p@[0]@.subrange(0, p@[0]@.len() as int) =~= p@[0]@);
    assert(p@[1]@.subrange(0, p@[1]@.len() as int) =~= p@[1]@);
    assert(p@[2]@.subrange(0, p@[2]@.len() as int) =~= p@[2]@);
    assert(p@[3]@.subrange(0, p@[3]@.len() as int) =~= p@[3]@);
    assert(p@[4]@.subrange(0, p@[4]@.len() as int) =~= p@[4]@);
    assert(char_vecs_view(parts@)[5] == p@[5]@);
    Some(e)
}

/// Parses `git log` output in the record format of [`cmd`]. Malformed lines
/// are skipped.
pub fn parse(bytes: &[u8]) -> (l: LogList)
    ensures
        entries_view(l.entries@) == parse_log_spec(bytes@),
{
    let s = from_utf8_lossy(bytes);
    parse_text(s.as_str())
}

/// Parses decoded `git log` output: one record per line, malformed lines
/// skipped.
pub fn parse_text(s: &str) -> (l: LogList)
    ensures
        entries_view(l.entries@) == entries_of_lines(pieces_from(s@, 0, '\n')),
{
    let cs = chars_of(s);
    let lines = split_chars(&cs, '\n');
    let ghost ls = char_vecs_view(lines@);
    let mut entries: Vec<LogEntry> = Vec::new();
    let n = lines.len();
    let mut i: usize = 0;
    assert(entries_view(entries@) =~= entries_of_lines(ls.take(0)));
    while i < n
        invariant
            i <= n == lines.len(),
            ls == char_vecs_view(lines@),
            entries_view(entries@) == entries_of_lines(ls.take(i as int)),
        decreases n - i,
    {
        assert(ls.take(i + 1).drop_last() =~= ls.take(i as int));
        assert(ls.take(i + 1).last() == lines@[i as int]@);
        let ghost before = entries_view(entries@);
        match parse_line(&lines[i]) {
            Some(e) => {
                entries.push(e);
                assert(entries_view(entries@) =~= before.push(e.view()));
            },
            None => {},
        }
        i += 1;
    }
    assert(ls.take(n as int) =~= ls);
    LogList { entries }
}

/// Whether `git log` stderr says the repository has no commits yet.
pub open spec fn no_commits_yet(stderr: Seq<char>) -> bool {
    contains_spec(stderr, "does not have any commits"@) || contains_spec(
        stderr,
        "bad default revision"@,
    )
}

/// The log of a finished `git log` run: a failure to start git is passed on;
/// a failed run whose stderr says the repository has no commits yields an
/// empty log; any other failed run is an error quoting the trimmed stderr;
/// a successful run is parsed.
pub fn load(out: Result<CommandOutput, String>) -> (r: Result<LogList, String>)
    ensures
        match out {
            Err(e) => r == Err::<LogList, String>(e),
            Ok(o) => {
                let err = lossy_text(o.stderr@);
                if o.code != Some(0i32) {
                    if no_commits_yet(err) {
                        r is Ok && r->Ok_0.entries@.len() == 0
                    } else {
                        r is Err && r->Err_0@ == "git log failed: "@ + trim_spec(err)
                    }
                } else {
                    r is Ok && entries_view(r->Ok_0.entries@) == parse_log_spec(o.stdout@)
                }
            },
        },
{
    let o = match out {
        Err(e) => return Err(e),
        Ok(o) => o,
    };
    if !o.success() {
        let stderr = o.stderr_str();
        let cs = chars_of(stderr.as_str());
        if contains(&cs, "does not have any commits") || contains(&cs, "bad default revision") {
            return Ok(LogList::new());
        }
        let mut msg = String::from_str("git log failed: ");
        let t = trim(stderr.as_str());
        msg.append(t.as_str());
        return Err(msg);
    }
    Ok(parse(o.stdout.as_slice()))
}

} // verus!
