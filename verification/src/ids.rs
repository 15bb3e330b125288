//! Identifiers of blocks, chains and nodes.

use vstd::prelude::*;

verus! {

/// Identifier of a block or of a chain.
#[derive(Clone, Copy, Debug, PartialEq, Eq)]
pub struct Id {
    pub bytes: [u8; 32],
}

/// Identifier of a node of the network.
#[derive(Clone, Copy, Debug, PartialEq, Eq)]
pub struct NodeId {
    pub bytes: [u8; 20],
}

impl View for Id {
    type V = Seq<u8>;

    open spec fn view(&self) -> Seq<u8> {
        self.bytes@
    }
}

/// The identifier that stands for no block: all of its bytes are zero.
pub open spec fn empty_id() -> Seq<u8> {
    Seq::new(32, |i: int| 0u8)
}

impl Id {
    /// Returns the identifier that stands for no block.
    pub fn empty() -> (id: Id)
        ensures
            id@ == empty_id(),
    {
        Id { bytes: empty_id_bytes() }
    }
}

/// Calls `avalanche_types::ids::Id::empty` and takes the bytes out of its result.
/// Trusted: all 32 of them are zero.
#[verifier::external_body]
fn empty_id_bytes() -> (bytes: [u8; 32])
    ensures
        bytes@ == empty_id(),
{
    let id = avalanche_types::ids::Id::empty();
    id.as_ref().try_into().expect("an identifier is 32 bytes long")
}

} // verus!
