//! The call that asks for the last accepted block.

use vstd::prelude::*;

use super::Vm;
use crate::errors::{Error, Failure};
use crate::ids::Id;

verus! {

/// A call for the identifier of the last accepted block.
#[derive(Debug, PartialEq, Eq)]
pub enum LastAccepted<E> {
    /// Waits for the identifier that the state manager has stored.
    Read,
    /// Has come to an end.
    Finished(Result<Id, Failure<E>>),
}

impl<E> LastAccepted<E> {
    /// The call on a machine with or without a state manager.
    pub open spec fn started(has_state: bool) -> Self {
        if has_state {
            LastAccepted::Read
        } else {
            LastAccepted::Finished(Err(Failure::Refused(Error::StateManager)))
        }
    }

    /// The call once the identifier was read, or could not be read.
    pub open spec fn next(stored: Result<Id, E>) -> Self {
        match stored {
            Ok(id) => LastAccepted::Finished(Ok(id)),
            Err(error) => LastAccepted::Finished(Err(Failure::Outside(error))),
        }
    }

    /// Hands the call what the state manager has stored.
    pub fn resume(self, stored: Result<Id, E>) -> (call: Self)
        requires
            self is Read,
        ensures
            call == Self::next(stored),
    {
        match stored {
            Ok(id) => LastAccepted::Finished(Ok(id)),
            Err(error) => LastAccepted::Finished(Err(Failure::Outside(error))),
        }
    }
}

impl<C, S> Vm<C, S> {
    /// Asks for the identifier of the last accepted block.
    pub fn last_accepted<E>(&self) -> (call: LastAccepted<E>)
        ensures
            call == LastAccepted::<E>::started(self.state.state is Some),
    {
        if let Some(_) = &self.state.state {
            return LastAccepted::Read;
        }
        LastAccepted::Finished(Err(Failure::Refused(Error::StateManager)))
    }
}

} // verus!
