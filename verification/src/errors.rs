//! Why a call is refused.

use vstd::prelude::*;

verus! {

/// Class of an error.
#[derive(Clone, Copy, Debug, PartialEq, Eq, Structural)]
pub enum ErrorKind {
    NotFound,
    Unsupported,
    Other,
}

/// A refusal of the virtual machine or of its handlers.
#[derive(Clone, Copy, Debug, PartialEq, Eq, Structural)]
pub enum Error {
    /// The chain was told to sync its state.
    StateSync,
    /// There is no state manager to ask for blocks.
    StateManager,
    /// There is no state manager to build a block on.
    BuildBlock,
    /// Ancestors of a block were asked for.
    GetAncestors,
    /// Several blocks were to be parsed in one call.
    BatchedParseBlock,
    /// A transaction was issued.
    IssueTx,
    /// The request handler gave no response.
    Request,
}

impl Error {
    /// The class of the error.
    pub open spec fn class(self) -> ErrorKind {
        match self {
            Error::StateSync => ErrorKind::Other,
            Error::StateManager => ErrorKind::NotFound,
            Error::BuildBlock => ErrorKind::Other,
            Error::GetAncestors => ErrorKind::Unsupported,
            Error::BatchedParseBlock => ErrorKind::Unsupported,
            Error::IssueTx => ErrorKind::Unsupported,
            Error::Request => ErrorKind::Other,
        }
    }

    /// The text of the error.
    pub open spec fn text(self) -> Seq<char> {
        match self {
            Error::StateSync => "state sync is not supported"@,
            Error::StateManager => "state manager not found"@,
            Error::BuildBlock => "not implement"@,
            Error::GetAncestors => "get_ancestors not implemented"@,
            Error::BatchedParseBlock => "batched_parse_block not implemented"@,
            Error::IssueTx => "issue_tx not implemented"@,
            Error::Request => "failed to handle request"@,
        }
    }

    /// Returns the class of the error.
    pub fn kind(self) -> (kind: ErrorKind)
        ensures
            kind == self.class(),
    {
        match self {
            Error::StateSync => ErrorKind::Other,
            Error::StateManager => ErrorKind::NotFound,
            Error::BuildBlock => ErrorKind::Other,
            Error::GetAncestors => ErrorKind::Unsupported,
            Error::BatchedParseBlock => ErrorKind::Unsupported,
            Error::IssueTx => ErrorKind::Unsupported,
            Error::Request => ErrorKind::Other,
        }
    }

    /// Returns the text of the error.
    pub fn message(self) -> (message: &'static str)
        ensures
            message@ == self.text(),
    {
        match self {
            Error::StateSync => "state sync is not supported",
            Error::StateManager => "state manager not found",
            Error::BuildBlock => "not implement",
            Error::GetAncestors => "get_ancestors not implemented",
            Error::BatchedParseBlock => "batched_parse_block not implemented",
            Error::IssueTx => "issue_tx not implemented",
            Error::Request => "failed to handle request",
        }
    }
}

/// Why a call that works with its surroundings failed.
#[derive(Debug, PartialEq, Eq)]
pub enum Failure<E> {
    /// The call was refused here.
    Refused(Error),
    /// Work done for the call failed with this error, which is passed on.
    Outside(E),
}

} // verus!
