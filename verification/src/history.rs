//! Bounded log of executed `git` command lines, feeding the command bar.

use vstd::prelude::*;
use std::collections::VecDeque;
use crate::prompt::strings_view;

verus! {

broadcast use vstd::string::group_string_axioms;

/// How many command lines the history keeps.
pub const CAP: usize = 64;

pub struct History {
    entries: VecDeque<String>,
}

/// The history after recording `cmd`: appended, dropping the oldest entry
/// when full.
pub open spec fn recorded(h: Seq<Seq<char>>, cmd: Seq<char>) -> Seq<Seq<char>> {
    if h.len() >= CAP { h.drop_first().push(cmd) } else { h.push(cmd) }
}

impl History {
    /// The recorded command lines, oldest first.
    pub closed spec fn entries_view(&self) -> Seq<Seq<char>> {
        strings_view(self.entries@)
    }

    #[verifier::type_invariant]
    spec fn bounded(&self) -> bool {
        self.entries@.len() <= CAP
    }

    pub fn new() -> (h: Self)
        ensures
            h.entries_view() == Seq::<Seq<char>>::empty(),
    {
        let h = History { entries: VecDeque::new() };
        assert(h.entries_view() =~= Seq::<Seq<char>>::empty());
        h
    }

    /// Appends `cmd`, dropping the oldest entry when the history is full.
    pub fn record(&mut self, cmd: &str)
        ensures
            final(self).entries_view() == recorded(old(self).entries_view(), cmd@),
            final(self).entries_view().len() <= CAP,
    {
        proof {
            use_type_invariant(&*self);
        }
        let ghost h0 = self.entries_view();
        let mut entries = VecDeque::new();
        std::mem::swap(&mut entries, &mut self.entries);
        if entries.len() == CAP {
            entries.pop_front();
        }
        entries.push_back(cmd.to_string());
        assert(strings_view(entries@) =~= recorded(h0, cmd@));
        self.entries = entries;
    }

    /// The most recently recorded command line.
    pub fn last(&self) -> (r: Option<&str>)
        ensures
            self.entries_view().len() == 0 ==> r is None,
            self.entries_view().len() > 0 ==> r is Some && r->0@ == self.entries_view().last(),
    {
        let n = self.entries.len();
        if n == 0 {
            None
        } else {
            Some(self.entries[n - 1].as_str())
        }
    }
}

impl Default for History {
    fn default() -> (h: Self)
        ensures
            h.entries_view() == Seq::<Seq<char>>::empty(),
    {
        History::new()
    }
}

} // verus!
