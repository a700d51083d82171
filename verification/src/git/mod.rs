//! `git` invocations: the `GitCmd` builder through which every git call is
//! described, and the parsers for the output of the calls the app makes.

pub mod diff;
pub mod log;
pub mod runner;
pub mod status;

use vstd::prelude::*;
use crate::prompt::strings_view;
use crate::text::{chars_of, is_whitespace, push_chars, unicode_whitespace};


verus! {

broadcast use vstd::string::group_string_axioms;

/// Builder for a `git ...` invocation. The binary is always `git`; the first
/// argument is the subcommand.
#[derive(Clone, Debug)]
pub struct GitCmd {
    args: Vec<String>,
    cwd: Option<String>,
}

/// Characters that make an argument need quoting besides whitespace.
pub open spec fn shell_special(c: char) -> bool {
    c == '\'' || c == '"' || c == '$' || c == '`' || c == '\\'
}

/// An argument is quoted when it is empty or holds whitespace or a shell
/// metacharacter.
pub open spec fn needs_quoting_spec(s: Seq<char>) -> bool {
    s.len() == 0 || exists|i: int| 0 <= i < s.len() && (unicode_whitespace(#[trigger] s[i]) || shell_special(s[i]))
}

/// `s` with every `'` replaced by `'\''`.
pub open spec fn escape_quotes(s: Seq<char>) -> Seq<char>
    decreases s.len(),
{
    if s.len() == 0 {
        Seq::empty()
    } else if s.last() == '\'' {
        escape_quotes(s.drop_last()) + seq!['\'', '\\', '\'', '\'']
    } else {
        escape_quotes(s.drop_last()).push(s.last())
    }
}

/// How one argument is shown: single-quoted POSIX-style when needed.
pub open spec fn shown_arg(s: Seq<char>) -> Seq<char> {
    if needs_quoting_spec(s) {
        seq!['\''] + escape_quotes(s) + seq!['\'']
    } else {
        s
    }
}

/// `git` followed by each argument, space-separated, quoted where needed.
pub open spec fn display_spec(args: Seq<Seq<char>>) -> Seq<char>
    decreases args.len(),
{
    if args.len() == 0 {
        "git"@
    } else {
        display_spec(args.drop_last()) + seq![' '] + shown_arg(args.last())
    }
}

impl GitCmd {
    /// The arguments after `git`.
    pub closed spec fn args_view(&self) -> Seq<Seq<char>> {
        strings_view(self.args@)
    }

    /// The working directory the command runs in, if not the current one.
    pub closed spec fn cwd_view(&self) -> Option<Seq<char>> {
        match self.cwd {
            Some(p) => Some(p@),
            None => None,
        }
    }

    pub fn new(subcommand: &str) -> (c: Self)
        ensures
            c.args_view() == seq![subcommand@],
            c.cwd_view() is None,
    {
        let c = GitCmd { args: vec![subcommand.to_string()], cwd: None };
        assert(c.args_view() =~= seq![subcommand@]);
        c
    }

    pub fn arg(self, a: &str) -> (c: Self)
        ensures
            c.args_view() == self.args_view().push(a@),
            c.cwd_view() == self.cwd_view(),
    {
        let mut me = self;
        me.args.push(a.to_string());
        assert(me.args_view() =~= self.args_view().push(a@));
        me
    }

    pub fn cwd(self, dir: &str) -> (c: Self)
        ensures
            c.args_view() == self.args_view(),
            c.cwd_view() == Some(dir@),
    {
        let mut me = self;
        me.cwd = Some(dir.to_string());
        me
    }

    pub fn args_ref(&self) -> (a: &[String])
        ensures
            strings_view(a@) == self.args_view(),
    {
        self.args.as_slice()
    }

    pub fn cwd_ref(&self) -> (d: Option<&String>)
        ensures
            match d {
                Some(p) => self.cwd_view() == Some(p@),
                None => self.cwd_view() is None,
            },
    {
        self.cwd.as_ref()
    }

    /// Human-readable, copy-pasteable command line.
    pub fn display(&self) -> (s: String)
        ensures
            s@ == display_spec(self.args_view()),
    {
        let mut out = String::from_str("git");
        let n = self.args.len();
        let mut i: usize = 0;
        while i < n
            invariant
                i <= n == self.args.len(),
                out@ == display_spec(self.args_view().take(i as int)),
            decreases n - i,
        {
            let ghost prev = self.args_view().take(i as int);
            out.push(' ');
            let a = self.args[i].as_str();
            if needs_quoting(a) {
                out.push('\'');
                push_escaped(&mut out, a);
                out.push('\'');
            } else {
                out.append(a);
            }
            assert(self.args_view().take(i + 1).drop_last() =~= prev);
            i += 1;
        }
        assert(self.args_view().take(n as int) =~= self.args_view());
        out
    }
}

/// Appends `a` with each `'` written as `'\''`.
fn push_escaped(out: &mut String, a: &str)
    ensures
        final(out)@ == old(out)@ + escape_quotes(a@),
{
    let cs = chars_of(a);
    let mut i: usize = 0;
    while i < cs.len()
        invariant
            i <= cs.len(),
            cs@ == a@,
            out@ == old(out)@ + escape_quotes(cs@.take(i as int)),
        decreases cs.len() - i,
    {
        assert(cs@.take(i + 1).drop_last() =~= cs@.take(i as int));
        if cs[i] == '\'' {
            out.push('\'');
            out.push('\\');
            out.push('\'');
            out.push('\'');
        } else {
            out.push(cs[i]);
        }
        i += 1;
    }
    assert(cs@.take(cs.len() as int) =~= cs@);
}

/// Whether an argument must be quoted to be copy-pasted into a shell.
pub fn needs_quoting(s: &str) -> (r: bool)
    ensures
        r == needs_quoting_spec(s@),
{
    let cs = chars_of(s);
    if cs.len() == 0 {
        return true;
    }
    let mut i: usize = 0;
    while i < cs.len()
        invariant
            i <= cs.len(),
            cs@ == s@,
            forall|j: int| 0 <= j < i ==> !(unicode_whitespace(#[trigger] cs@[j]) || shell_special(cs@[j])),
        decreases cs.len() - i,
    {
        let c = cs[i];
        if is_whitespace(c) || c == '\'' || c == '"' || c == '$' || c == '`' || c == '\\' {
            return true;
        }
        i += 1;
    }
    false
}

} // verus!
