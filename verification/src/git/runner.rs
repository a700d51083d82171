//! What a finished `git` process hands back.

use vstd::prelude::*;
use crate::text::{from_utf8_lossy, lossy_text};

verus! {

/// Captured output of a finished `git` process.
pub struct CommandOutput {
    pub stdout: Vec<u8>,
    pub stderr: Vec<u8>,
    /// The exit code; `None` when the process was ended by a signal.
    pub code: Option<i32>,
    /// How the exit status reads, e.g. `exit status: 1`.
    pub status_text: String,
}

impl CommandOutput {
    /// Zero exit status; termination by a signal is not a success.
    pub fn success(&self) -> (b: bool)
        ensures
            b == (self.code == Some(0i32)),
    {
        match self.code {
            Some(c) => c == 0,
            None => false,
        }
    }

    pub fn stdout_str(&self) -> (s: String)
        ensures
            s@ == lossy_text(self.stdout@),
    {
        from_utf8_lossy(self.stdout.as_slice())
    }

    pub fn stderr_str(&self) -> (s: String)
        ensures
            s@ == lossy_text(self.stderr@),
    {
        from_utf8_lossy(self.stderr.as_slice())
    }
}

} // verus!
