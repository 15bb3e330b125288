//! The call that turns bytes into a block.

use vstd::prelude::*;

use super::Vm;
use crate::block::{Binding, Block};
use crate::choices::Status;
use crate::errors::{Error, Failure};

verus! {

/// A call that turns bytes into a block.
#[derive(Debug, PartialEq, Eq)]
pub enum ParseBlock<'a, P, E> {
    /// Waits for the block that the bytes encode.
    Decode { bytes: &'a [u8] },
    /// Waits for what the state manager has stored under the identifier of this
    /// block.
    Lookup { block: Block<P> },
    /// Has come to an end.
    Finished(Result<Block<P>, Failure<E>>),
}

/// What a [`ParseBlock`] waits for.
#[derive(Debug, PartialEq, Eq)]
pub enum ParseEvent<P, E> {
    /// The bytes were decoded, or could not be decoded.
    Decoded(Result<Block<P>, E>),
    /// The stored block was read, or could not be read.
    Stored(Result<Block<P>, E>),
}

impl<'a, P, E> ParseBlock<'a, P, E> {
    /// The call on a machine with or without a state manager.
    pub open spec fn started(has_state: bool, bytes: &'a [u8]) -> Self {
        if has_state {
            ParseBlock::Decode { bytes }
        } else {
            ParseBlock::Finished(Err(Failure::Refused(Error::StateManager)))
        }
    }

    /// The call waits for this event.
    pub open spec fn awaits(self, event: ParseEvent<P, E>) -> bool {
        match event {
            ParseEvent::Decoded(_) => self is Decode,
            ParseEvent::Stored(_) => self is Lookup,
        }
    }

    /// A block as it was decoded from bytes: not decided yet, with the state
    /// manager and the machine attached.
    pub open spec fn candidate(decoded: Block<P>) -> Block<P> {
        Block { status: Status::Processing, binding: Binding::StateAndVm, ..decoded }
    }

    /// The call after an event that it waits for. A stored block is returned as it
    /// was read; where none can be read, the decoded one is returned.
    pub open spec fn next(self, event: ParseEvent<P, E>) -> Self
        recommends
            self.awaits(event),
    {
        match event {
            ParseEvent::Decoded(Ok(block)) => ParseBlock::Lookup { block: Self::candidate(block) },
            ParseEvent::Decoded(Err(error)) => ParseBlock::Finished(Err(Failure::Outside(error))),
            ParseEvent::Stored(Ok(block)) => ParseBlock::Finished(Ok(block)),
            ParseEvent::Stored(Err(_)) => ParseBlock::Finished(Ok(self->Lookup_block)),
        }
    }

    /// How many events the call can still take.
    pub open spec fn steps_left(self) -> nat {
        match self {
            ParseBlock::Decode { .. } => 2,
            ParseBlock::Lookup { .. } => 1,
            ParseBlock::Finished(_) => 0,
        }
    }

    /// Hands the call an event that it waits for.
    pub fn resume(self, event: ParseEvent<P, E>) -> (call: Self)
        requires
            self.awaits(event),
        ensures
            call == self.next(event),
            call.steps_left() < self.steps_left(),
    {
        match (self, event) {
            (ParseBlock::Decode { .. }, ParseEvent::Decoded(Ok(block))) => {
                let mut block = block;
                block.set_status(Status::Processing);
                block.set_state(Binding::StateAndVm);
                ParseBlock::Lookup { block }
            },
            (ParseBlock::Decode { .. }, ParseEvent::Decoded(Err(error))) => ParseBlock::Finished(
                Err(Failure::Outside(error)),
            ),
            (ParseBlock::Lookup { .. }, ParseEvent::Stored(Ok(block))) => ParseBlock::Finished(
                Ok(block),
            ),
            (ParseBlock::Lookup { block }, ParseEvent::Stored(Err(_))) => ParseBlock::Finished(
                Ok(block),
            ),
            (call, _) => call,
        }
    }
}

impl<C, S> Vm<C, S> {
    /// Asks for the block that `bytes` encode.
    pub fn parse_block<'a, P, E>(&self, bytes: &'a [u8]) -> (call: ParseBlock<'a, P, E>)
        ensures
            call == ParseBlock::<'a, P, E>::started(self.state.state is Some, bytes),
    {
        if let Some(_) = &self.state.state {
            return ParseBlock::Decode { bytes };
        }
        ParseBlock::Finished(Err(Failure::Refused(Error::StateManager)))
    }
}

} // verus!
