//! The call that asks for a stored block.

use vstd::prelude::*;

use super::Vm;
use crate::block::{Binding, Block};
use crate::errors::{Error, Failure};
use crate::ids::Id;

verus! {

/// A call for a stored block.
#[derive(Debug, PartialEq, Eq)]
pub enum GetBlock<P, E> {
    /// Waits for the block that the state manager has stored under the identifier.
    Read { id: Id },
    /// Has come to an end.
    Finished(Result<Block<P>, Failure<E>>),
}

impl<P, E> GetBlock<P, E> {
    /// The call for the block `id` on a machine with or without a state manager.
    pub open spec fn started(has_state: bool, id: Id) -> Self {
        if has_state {
            GetBlock::Read { id }
        } else {
            GetBlock::Finished(Err(Failure::Refused(Error::StateManager)))
        }
    }

    /// The call once the block was read, or could not be read. The block is
    /// returned with the state manager and the machine attached.
    pub open spec fn next(stored: Result<Block<P>, E>) -> Self {
        match stored {
            Ok(block) => GetBlock::Finished(
                Ok(Block { binding: Binding::StateAndVm, ..block }),
            ),
            Err(error) => GetBlock::Finished(Err(Failure::Outside(error))),
        }
    }

    /// Hands the call what the state manager has stored.
    pub fn resume(self, stored: Result<Block<P>, E>) -> (call: Self)
        requires
            self is Read,
        ensures
            call == Self::next(stored),
    {
        match stored {
            Ok(block) => {
                let mut block = block;
                block.set_state(Binding::StateAndVm);
                GetBlock::Finished(Ok(block))
            },
            Err(error) => GetBlock::Finished(Err(Failure::Outside(error))),
        }
    }
}

impl<C, S> Vm<C, S> {
    /// Asks for the block that is stored under `blk_id`.
    pub fn get_block<P, E>(&self, blk_id: Id) -> (call: GetBlock<P, E>)
        ensures
            call == GetBlock::<P, E>::started(self.state.state is Some, blk_id),
    {
        if let Some(_) = &self.state.state {
            return GetBlock::Read { id: blk_id };
        }
        GetBlock::Finished(Err(Failure::Refused(Error::StateManager)))
    }
}

} // verus!
