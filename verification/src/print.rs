//! Debug-output plumbing.
//!
//! The firmware writes debug text through a best-effort sink. Where no
//! debug channel exists, the sink is `NoStdout`, which accepts and discards
//! everything without ever failing. The real debug channel is I/O and lives
//! with the application shell, outside the library.

use vstd::prelude::*;

verus! {

/// A sink that swallows whatever is written to it; the stand-in for a
/// debug output channel when none is attached.
#[derive(Clone, Copy, Debug, Eq, PartialEq, Structural)]
pub struct NoStdout {}

impl NoStdout {
    /// Accept a piece of text and discard it. Never fails: dropping debug
    /// output is always acceptable.
    pub fn write_str(&mut self, s: &str) -> (r: Result<(), ()>)
        ensures
            r is Ok,
    {
        Ok(())
    }
}

} // verus!
