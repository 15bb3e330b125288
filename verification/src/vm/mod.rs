//! The virtual machine.

pub mod build_block;
pub mod get_block;
pub mod initialize;
pub mod last_accepted;
pub mod parse_block;

use vstd::prelude::*;
use vstd::slice::slice_to_vec;

use crate::api::chain_handlers::{ChainHandler, ChainService};
use crate::cluster::ClusterOptions;
use crate::errors::Error;
use crate::http::Handlers;
use crate::ids::{Id, NodeId};
use crate::snow;

verus! {

/// Version of this crate.
pub const VERSION: &'static str = "0.1.0";

/// What the virtual machine remembers between calls. `C` is the context that the
/// engine hands over, `S` the manager of the persistent state.
#[derive(Debug, PartialEq, Eq)]
pub struct VmState<C, S> {
    pub ctx: Option<C>,
    /// The persistent state.
    pub state: Option<S>,
    /// The block that the engine currently prefers.
    pub preferred: Id,
    /// Whether the chain has finished bootstrapping.
    pub bootstrapped: bool,
}

impl<C, S> VmState<C, S> {
    /// Nothing has been handed over yet, no block is preferred, and the chain has
    /// not finished bootstrapping.
    pub open spec fn is_initial(self) -> bool {
        &&& self.ctx is None
        &&& self.state is None
        &&& self.preferred@ == crate::ids::empty_id()
        &&& !self.bootstrapped
    }
}

impl<C, S> Default for VmState<C, S> {
    fn default() -> (state: Self)
        ensures
            state.is_initial(),
    {
        VmState { ctx: None, state: None, preferred: Id::empty(), bootstrapped: false }
    }
}

/// The virtual machine. There is one for a chain, and it cannot be copied: those who
/// need it share it through a handle, behind a lock.
#[derive(Debug, PartialEq, Eq)]
pub struct Vm<C, S> {
    pub state: VmState<C, S>,
}

impl<C, S> Default for Vm<C, S> {
    fn default() -> (vm: Self)
        ensures
            vm.state.is_initial(),
    {
        Vm::new()
    }
}

/// The machine after it was told of a phase of its chain.
pub open spec fn after_set_state<C, S>(vm: Vm<C, S>, snow_state: snow::State) -> Vm<C, S> {
    match snow_state {
        snow::State::StateSyncing => vm,
        _ => Vm {
            state: VmState { bootstrapped: snow_state == snow::State::NormalOp, ..vm.state },
        },
    }
}

/// The machine after it was told which block is preferred.
pub open spec fn after_set_preference<C, S>(vm: Vm<C, S>, id: Id) -> Vm<C, S> {
    Vm { state: VmState { preferred: id, ..vm.state } }
}

/// The body of every health report: the text `200`.
pub open spec fn healthy() -> Seq<u8> {
    seq![0x32u8, 0x30u8, 0x30u8]
}

impl<C, S> Vm<C, S> {
    /// Returns a machine in its initial state.
    pub fn new() -> (vm: Self)
        ensures
            vm.state.is_initial(),
    {
        Vm { state: VmState::default() }
    }

    /// Returns whether the chain has finished bootstrapping.
    pub fn is_bootstrapped(&self) -> (bootstrapped: bool)
        ensures
            bootstrapped == self.state.bootstrapped,
    {
        self.state.bootstrapped
    }

    /// Takes note of the phase of the chain. Syncing its state is refused, and
    /// then nothing changes.
    pub fn set_state(&mut self, snow_state: snow::State) -> (result: Result<(), Error>)
        ensures
            *final(self) == after_set_state(*old(self), snow_state),
            result == (if snow_state == snow::State::StateSyncing {
                Err::<(), Error>(Error::StateSync)
            } else {
                Ok::<(), Error>(())
            }),
    {
        match snow_state {
            // The manager of the chains is creating the chain.
            snow::State::Initializing => {
                self.state.bootstrapped = false;
                Ok(())
            },
            snow::State::StateSyncing => Err(Error::StateSync),
            // Bootstrapping has started.
            snow::State::Bootstrapping => {
                self.state.bootstrapped = false;
                Ok(())
            },
            // Consensus has started, so bootstrapping is complete.
            snow::State::NormalOp => {
                self.state.bootstrapped = true;
                Ok(())
            },
        }
    }

    /// Takes note of the block that the engine prefers.
    pub fn set_preference(&mut self, id: Id) -> (result: Result<(), Error>)
        ensures
            *final(self) == after_set_preference(*old(self), id),
            result == Ok::<(), Error>(()),
    {
        self.state.preferred = id;
        Ok(())
    }

    /// Takes data for a block, and ignores it.
    pub fn inner_build_block(&self, _data: Vec<u8>) -> (result: Result<(), Error>)
        ensures
            result == Ok::<(), Error>(()),
    {
        Ok(())
    }

    /// Returns the options of the cluster to start beside the machine.
    pub fn init_chain(&self) -> (options: ClusterOptions)
        ensures
            options.is_local(),
    {
        ClusterOptions::local()
    }

    /// Refuses to return the ancestors of a block.
    pub fn get_ancestors(
        &self,
        _block_id: Id,
        _max_block_num: i32,
        _max_block_size: i32,
        _max_block_retrival_seconds: u64,
    ) -> (result: Result<Vec<Vec<u8>>, Error>)
        ensures
            result == Err::<Vec<Vec<u8>>, Error>(Error::GetAncestors),
    {
        Err(Error::GetAncestors)
    }

    /// Refuses to parse several blocks in one call.
    pub fn batched_parse_block<B>(&self, _blocks: &[Vec<u8>]) -> (result: Result<Vec<B>, Error>)
        ensures
            result == Err::<Vec<B>, Error>(Error::BatchedParseBlock),
    {
        Err(Error::BatchedParseBlock)
    }

    /// Refuses to issue a transaction.
    pub fn issue_tx<B>(&self) -> (result: Result<B, Error>)
        ensures
            result == Err::<B, Error>(Error::IssueTx),
    {
        Err(Error::IssueTx)
    }

    /// Takes a message of another node. There are no such messages yet.
    pub fn app_request(
        &self,
        _node_id: &NodeId,
        _request_id: u32,
        _deadline: i64,
        _request: &[u8],
    ) -> (result: Result<(), Error>)
        ensures
            result == Ok::<(), Error>(()),
    {
        Ok(())
    }

    /// Takes note that a message to another node failed.
    pub fn app_request_failed(&self, _node_id: &NodeId, _request_id: u32) -> (result: Result<
        (),
        Error,
    >)
        ensures
            result == Ok::<(), Error>(()),
    {
        Ok(())
    }

    /// Takes the answer of another node.
    pub fn app_response(&self, _node_id: &NodeId, _request_id: u32, _response: &[u8]) -> (result:
        Result<(), Error>)
        ensures
            result == Ok::<(), Error>(()),
    {
        Ok(())
    }

    /// Takes gossip of another node.
    pub fn app_gossip(&self, _node_id: &NodeId, _msg: &[u8]) -> (result: Result<(), Error>)
        ensures
            result == Ok::<(), Error>(()),
    {
        Ok(())
    }

    /// Takes a message of another chain. There are no such messages yet.
    pub fn cross_chain_app_request(
        &self,
        _chain_id: &Id,
        _request_id: u32,
        _deadline: i64,
        _request: &[u8],
    ) -> (result: Result<(), Error>)
        ensures
            result == Ok::<(), Error>(()),
    {
        Ok(())
    }

    /// Takes note that a message to another chain failed.
    pub fn cross_chain_app_request_failed(&self, _chain_id: &Id, _request_id: u32) -> (result:
        Result<(), Error>)
        ensures
            result == Ok::<(), Error>(()),
    {
        Ok(())
    }

    /// Takes the answer of another chain.
    pub fn cross_chain_app_response(
        &self,
        _chain_id: &Id,
        _request_id: u32,
        _response: &[u8],
    ) -> (result: Result<(), Error>)
        ensures
            result == Ok::<(), Error>(()),
    {
        Ok(())
    }

    /// Takes note that a node has connected.
    pub fn connected(&self, _id: &NodeId) -> (result: Result<(), Error>)
        ensures
            result == Ok::<(), Error>(()),
    {
        Ok(())
    }

    /// Takes note that a node has disconnected.
    pub fn disconnected(&self, _id: &NodeId) -> (result: Result<(), Error>)
        ensures
            result == Ok::<(), Error>(()),
    {
        Ok(())
    }

    /// Reports that the machine is healthy.
    pub fn health_check(&self) -> (result: Result<Vec<u8>, Error>)
        ensures
            result matches Ok(body) && body@ == healthy(),
    {
        proof {
            reveal_strlit("200");
            vstd::utf8::is_ascii_chars_encode_utf8("200"@);
            assert(vstd::utf8::encode_utf8("200"@) =~= healthy());
        }
        Ok(slice_to_vec("200".as_bytes()))
    }

    /// Takes note that the node is shutting down.
    pub fn shutdown(&self) -> (result: Result<(), Error>)
        ensures
            result == Ok::<(), Error>(()),
    {
        Ok(())
    }

    /// Returns the version of this crate.
    pub fn version(&self) -> (result: Result<String, Error>)
        ensures
            result matches Ok(version) && version@ == VERSION@,
    {
        Ok(VERSION.to_owned())
    }

    /// Offers `handler` as the endpoint that needs no chain.
    pub fn create_static_handlers<H>(&mut self, handler: H) -> (result: Result<Handlers<H>, Error>)
        ensures
            *final(self) == *old(self),
            result matches Ok(handlers) && handlers.well_formed() && handlers.is_single("/static"@)
                && handlers.entries@[0].1.handler == handler,
    {
        Ok(Handlers::single("/static", handler))
    }

    /// Offers the endpoint of the chain, whose service answers with the help of
    /// `vm`, the handle through which this machine is shared. It has no methods yet,
    /// so nothing holds on to the handle.
    pub fn create_handlers<V: Send + Sync + 'static>(&mut self, vm: V) -> (result: Result<
        Handlers<ChainHandler<ChainService<V>>>,
        Error,
    >)
        ensures
            *final(self) == *old(self),
            result matches Ok(handlers) && handlers.well_formed() && handlers.is_single("/rpc"@)
                && handlers.entries@[0].1.handler.methods() == Set::<Seq<char>>::empty(),
    {
        Ok(Handlers::single("/rpc", ChainHandler::new(ChainService::new(vm))))
    }
}

} // verus!
