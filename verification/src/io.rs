//! Plain descriptions of what an I/O operation on the channel reported.

use vstd::prelude::*;

verus! {

/// The classes of I/O failure that the protocol core tells apart.
#[derive(Clone, Copy, Debug, PartialEq, Eq, Structural)]
pub enum IoErrorKind {
    /// The named entity does not exist (yet).
    NotFound,
    /// The operation would have had to block on a non-blocking channel.
    WouldBlock,
    /// A wait ended because its timeout elapsed.
    TimedOut,
    /// The descriptor that was waited on is not valid.
    InvalidInput,
    /// Any other failure.
    Other,
}

/// A failed I/O operation: its class and, where the operating system gave one,
/// the raw error code.
#[derive(Clone, Copy, Debug, PartialEq, Eq)]
pub struct IoFailure {
    pub kind: IoErrorKind,
    pub code: Option<i32>,
}

impl IoFailure {
    /// A failure of the given class without an operating-system code.
    pub fn from_kind(kind: IoErrorKind) -> (r: IoFailure)
        ensures
            r.kind == kind,
            r.code is None,
    {
        IoFailure { kind, code: None }
    }

    /// Whether this failure only says that nothing is available right now.
    pub fn is_would_block(&self) -> (r: bool)
        ensures
            r == (self.kind == IoErrorKind::WouldBlock),
    {
        self.kind == IoErrorKind::WouldBlock
    }
}

} // verus!
