//! Error kinds of the search core.

use vstd::prelude::*;

verus! {

/// The ways a search can fail.  `NotADirectory`, `EmptyPattern` and
/// `BadRegex` abort a search; `Encoding` and `Io` are per-file failures that
/// the walk swallows; `LineNumbersDisabled` reports a scanner that was driven
/// without line numbers, which the collector requires.
#[derive(Clone, Copy, Debug, PartialEq, Eq, Structural)]
pub enum SearchError {
    NotADirectory,
    EmptyPattern,
    BadRegex,
    Encoding,
    LineNumbersDisabled,
    Io,
}

} // verus!
