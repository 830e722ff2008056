//! How requests come from the kernel and replies go back.
use vstd::prelude::*;

pub mod macfuse;

verus! {

/// Errors of the transport.
#[derive(Debug)]
pub enum Error {
    /// The session with the FUSE driver failed.
    SessionFailure(String),
}

impl Error {
    /// Whether the error is a failed session that is explained by `message`.
    pub open spec fn says(self, message: Seq<char>) -> bool {
        self matches Error::SessionFailure(text) && text@ == message
    }
}

/// An error says one thing: its text, whole.
pub proof fn law_error_says_its_text(e: Error, message: Seq<char>, other: Seq<char>)
    ensures
        e.says(e->SessionFailure_0@),
        e.says(message) && e.says(other) ==> message == other,
{
}

} // verus!
