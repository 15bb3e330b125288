//! The call that starts the virtual machine.

use vstd::prelude::*;
use vstd::slice::slice_to_vec;

use super::{Vm, VmState};
use crate::block::{Binding, Block, NewBlock, NewBlockView};
use crate::choices::Status;
use crate::cluster::ClusterOptions;
use crate::ids::Id;

verus! {

/// A call that starts the virtual machine.
#[derive(Debug, PartialEq, Eq)]
pub enum Initialize<C, P, E> {
    /// Waits until a cluster with these options was started. The context is taken
    /// over then.
    StartCluster { options: ClusterOptions, ctx: Option<C> },
    /// Waits until the current database was opened and a state manager, which knows
    /// no verified block and no machine, was put on top of it.
    OpenDatabase,
    /// Waits for the state manager to tell whether a block was ever accepted.
    CheckLastAccepted,
    /// Waits for the identifier of the last accepted block.
    ReadLastAccepted,
    /// Waits for a block made from this.
    MakeGenesis { content: NewBlock },
    /// Waits until this block was accepted, with the state manager that this call has
    /// opened attached to it.
    AcceptGenesis { block: Block<P> },
    /// Has come to an end.
    Finished(Result<(), E>),
}

/// What an [`Initialize`] waits for.
#[derive(Debug, PartialEq, Eq)]
pub enum InitEvent<P, E> {
    /// The cluster was started.
    ClusterStarted,
    /// The database was opened, or could not be opened.
    DatabaseOpened(Result<(), E>),
    /// Whether a block was ever accepted, or that it could not be found out.
    LastAcceptedChecked(Result<bool, E>),
    /// The identifier of the last accepted block was read, or could not be read.
    LastAcceptedRead(Result<Id, E>),
    /// The first block was made.
    GenesisMade(Block<P>),
    /// The first block was accepted, or could not be accepted.
    GenesisAccepted(Result<(), E>),
}

/// The data of the first block: the text `hello world`.
pub open spec fn genesis_data() -> Seq<u8> {
    seq![
        0x68u8, 0x65u8, 0x6cu8, 0x6cu8, 0x6fu8, 0x20u8,
        0x77u8, 0x6fu8, 0x72u8, 0x6cu8, 0x64u8,
    ]
}

/// What the first block of a chain is made from.
pub open spec fn genesis() -> NewBlockView {
    NewBlockView {
        parent_id: crate::ids::empty_id(),
        height: 0,
        timestamp: 0,
        data: genesis_data(),
        status: crate::choices::default_status(),
    }
}

impl<C, P, E> Initialize<C, P, E> {
    /// The call waits for this event.
    pub open spec fn awaits(self, event: InitEvent<P, E>) -> bool {
        match event {
            InitEvent::ClusterStarted => self is StartCluster,
            InitEvent::DatabaseOpened(_) => self is OpenDatabase,
            InitEvent::LastAcceptedChecked(_) => self is CheckLastAccepted,
            InitEvent::LastAcceptedRead(_) => self is ReadLastAccepted,
            InitEvent::GenesisMade(_) => self is MakeGenesis,
            InitEvent::GenesisAccepted(_) => self is AcceptGenesis,
        }
    }

    /// An event that the call waits for takes it to `next`. What is attached to the
    /// first block is the state manager that this call has opened.
    pub open spec fn steps_to(self, event: InitEvent<P, E>, next: Self) -> bool {
        match (self, event) {
            (Initialize::StartCluster { .. }, InitEvent::ClusterStarted) => next is OpenDatabase,
            (Initialize::OpenDatabase, InitEvent::DatabaseOpened(Ok(_))) => {
                next is CheckLastAccepted
            },
            (Initialize::OpenDatabase, InitEvent::DatabaseOpened(Err(error))) => {
                next == Self::Finished(Err(error))
            },
            (Initialize::CheckLastAccepted, InitEvent::LastAcceptedChecked(Ok(true))) => {
                next is ReadLastAccepted
            },
            (Initialize::CheckLastAccepted, InitEvent::LastAcceptedChecked(Ok(false))) => {
                next matches Initialize::MakeGenesis { content } && content@ == genesis()
            },
            (Initialize::CheckLastAccepted, InitEvent::LastAcceptedChecked(Err(error))) => {
                next == Self::Finished(Err(error))
            },
            (Initialize::ReadLastAccepted, InitEvent::LastAcceptedRead(Ok(_))) => {
                next == Self::Finished(Ok(()))
            },
            (Initialize::ReadLastAccepted, InitEvent::LastAcceptedRead(Err(error))) => {
                next == Self::Finished(Err(error))
            },
            (Initialize::MakeGenesis { .. }, InitEvent::GenesisMade(made)) => {
                next == (Self::AcceptGenesis { block: Block { binding: Binding::OpenedState, ..made } })
            },
            (Initialize::AcceptGenesis { .. }, InitEvent::GenesisAccepted(result)) => {
                next == Self::Finished(result)
            },
            _ => false,
        }
    }

    /// What an event that the call waits for makes of the machine `vm`: the context
    /// is taken over when the cluster has started, and the last accepted block
    /// becomes the preferred one when it is known.
    pub open spec fn machine_after<S>(self, event: InitEvent<P, E>, vm: Vm<C, S>) -> Vm<C, S> {
        match (self, event) {
            (Initialize::StartCluster { ctx, .. }, InitEvent::ClusterStarted) => Vm {
                state: VmState { ctx, ..vm.state },
            },
            (Initialize::ReadLastAccepted, InitEvent::LastAcceptedRead(Ok(id))) => Vm {
                state: VmState { preferred: id, ..vm.state },
            },
            (Initialize::AcceptGenesis { block }, InitEvent::GenesisAccepted(Ok(_))) => Vm {
                state: VmState { preferred: block.id, ..vm.state },
            },
            _ => vm,
        }
    }

    /// How many events the call can still take.
    pub open spec fn steps_left(self) -> nat {
        match self {
            Initialize::StartCluster { .. } => 5,
            Initialize::OpenDatabase => 4,
            Initialize::CheckLastAccepted => 3,
            Initialize::MakeGenesis { .. } => 2,
            Initialize::ReadLastAccepted => 1,
            Initialize::AcceptGenesis { .. } => 1,
            Initialize::Finished(_) => 0,
        }
    }

    /// Hands the call an event that it waits for, on the machine that it starts.
    pub fn resume<S>(self, vm: &mut Vm<C, S>, event: InitEvent<P, E>) -> (call: Self)
        requires
            self.awaits(event),
        ensures
            self.steps_to(event, call),
            *final(vm) == self.machine_after(event, *old(vm)),
            call.steps_left() < self.steps_left(),
    {
        match (self, event) {
            (Initialize::StartCluster { ctx, .. }, InitEvent::ClusterStarted) => {
                vm.state.ctx = ctx;
                Initialize::OpenDatabase
            },
            (Initialize::OpenDatabase, InitEvent::DatabaseOpened(Ok(_))) => {
                Initialize::CheckLastAccepted
            },
            (Initialize::OpenDatabase, InitEvent::DatabaseOpened(Err(error))) => {
                Initialize::Finished(Err(error))
            },
            (
                Initialize::CheckLastAccepted,
                InitEvent::LastAcceptedChecked(Ok(has_last_accepted)),
            ) => {
                if has_last_accepted {
                    Initialize::ReadLastAccepted
                } else {
                    Initialize::MakeGenesis { content: genesis_content() }
                }
            },
            (Initialize::CheckLastAccepted, InitEvent::LastAcceptedChecked(Err(error))) => {
                Initialize::Finished(Err(error))
            },
            (Initialize::ReadLastAccepted, InitEvent::LastAcceptedRead(Ok(id))) => {
                vm.state.preferred = id;
                Initialize::Finished(Ok(()))
            },
            (Initialize::ReadLastAccepted, InitEvent::LastAcceptedRead(Err(error))) => {
                Initialize::Finished(Err(error))
            },
            (Initialize::MakeGenesis { .. }, InitEvent::GenesisMade(made)) => {
                let mut block = made;
                block.set_state(Binding::OpenedState);
                Initialize::AcceptGenesis { block }
            },
            (Initialize::AcceptGenesis { block }, InitEvent::GenesisAccepted(result)) => {
                if let Ok(_) = &result {
                    vm.state.preferred = block.id;
                }
                Initialize::Finished(result)
            },
            (call, _) => call,
        }
    }
}

/// Returns what the first block of a chain is made from.
fn genesis_content() -> (content: NewBlock)
    ensures
        content@ == genesis(),
{
    let genesis = "hello world";
    proof {
        reveal_strlit("hello world");
        vstd::utf8::is_ascii_chars_encode_utf8(genesis@);
        assert(vstd::utf8::encode_utf8(genesis@) =~= genesis_data());
    }
    NewBlock {
        parent_id: Id::empty(),
        height: 0,
        timestamp: 0,
        data: slice_to_vec(genesis.as_bytes()),
        status: Status::default(),
    }
}

impl<C, S> Vm<C, S> {
    /// Starts the machine. What the engine sends along for the first block, for
    /// upgrades and for the configuration is not looked at.
    pub fn initialize<P, E>(
        &mut self,
        ctx: Option<C>,
        _genesis_bytes: &[u8],
        _upgrade_bytes: &[u8],
        _config_bytes: &[u8],
    ) -> (call: Initialize<C, P, E>)
        ensures
            *final(self) == *old(self),
            call matches Initialize::StartCluster { options, ctx: handed } && options.is_local()
                && handed == ctx,
    {
        Initialize::StartCluster { options: self.init_chain(), ctx }
    }
}

} // verus!
