//! Blocks, as far as the virtual machine looks into them.

use vstd::prelude::*;

use crate::choices::{Status, StatusView};
use crate::ids::Id;

verus! {

/// What the virtual machine has attached to a block.
#[derive(Clone, Copy, Debug, PartialEq, Eq, Structural)]
pub enum Binding {
    /// Nothing: the block is as it was stored, decoded or made.
    Nothing,
    /// The machine's own state manager.
    State,
    /// The machine's own state manager, which in turn holds the machine.
    StateAndVm,
    /// The state manager that a start of the machine has opened. It is not, and does
    /// not become, the machine's own.
    OpenedState,
}

/// A block. The virtual machine carries the payload and never reads it.
#[derive(Clone, Debug, PartialEq, Eq)]
pub struct Block<P> {
    pub id: Id,
    pub height: u64,
    pub status: Status,
    pub binding: Binding,
    pub payload: P,
}

impl<P> Block<P> {
    /// Attaches what `binding` names.
    pub fn set_state(&mut self, binding: Binding)
        ensures
            *final(self) == (Block { binding, ..*old(self) }),
    {
        self.binding = binding;
    }

    /// Sets the standing of the block.
    pub fn set_status(&mut self, status: Status)
        ensures
            *final(self) == (Block { status, ..*old(self) }),
    {
        self.status = status;
    }
}

/// What a new block is made from.
#[derive(Clone, Debug, PartialEq, Eq)]
pub struct NewBlock {
    pub parent_id: Id,
    pub height: u64,
    /// Seconds since the Unix epoch.
    pub timestamp: u64,
    pub data: Vec<u8>,
    pub status: Status,
}

/// What a [`NewBlock`] says.
pub struct NewBlockView {
    pub parent_id: Seq<u8>,
    pub height: int,
    pub timestamp: int,
    pub data: Seq<u8>,
    pub status: StatusView,
}

impl View for NewBlock {
    type V = NewBlockView;

    open spec fn view(&self) -> NewBlockView {
        NewBlockView {
            parent_id: self.parent_id@,
            height: self.height as int,
            timestamp: self.timestamp as int,
            data: self.data@,
            status: self.status@,
        }
    }
}

} // verus!
