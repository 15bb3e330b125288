//! The phases of a chain, as its manager reports them.

use vstd::prelude::*;

verus! {

/// Phase of the chain.
#[derive(Clone, Copy, Debug, PartialEq, Eq, Structural)]
pub enum State {
    /// The chain is being created.
    Initializing,
    /// The chain fetches a recent state in place of its history.
    StateSyncing,
    /// The chain catches up with its history.
    Bootstrapping,
    /// The chain has caught up and takes part in consensus.
    NormalOp,
}

} // verus!
