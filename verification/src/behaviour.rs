//! What the calls of the library do, said of their arguments and of what they return.
//!
//! Here `call_ensures(f, args, result)` reads: `f`, called with `args`, has returned
//! `result`. A `&mut` argument stands for the value before the call and, under `final`,
//! for the value after it. `call_requires(f, args)` reads: `f` can be called with `args`.

use bytes::Bytes;
use vstd::prelude::*;

use crate::api::chain_handlers::{
    create_jsonrpc_error, ChainHandler, ChainService, HandleRequest, RequestEvent, Rpc, RpcError,
};
use crate::block::{Binding, Block};
use crate::choices::Status;
use crate::cluster::{ClusterOptions, Env};
use crate::errors::{Error, ErrorKind, Failure};
use crate::http::{Element, Handlers};
use crate::ids::Id;
use crate::snow;
use crate::vm::build_block::{unix_seconds, BuildBlock, BuildEvent};
use crate::vm::get_block::GetBlock;
use crate::vm::initialize::{InitEvent, Initialize};
use crate::vm::last_accepted::LastAccepted;
use crate::vm::parse_block::{ParseBlock, ParseEvent};
use crate::vm::{Vm, VmState};

verus! {

/// After a machine was told which block is preferred, it prefers that block, and its
/// context, its state manager and whether it is bootstrapped are as before.
pub proof fn a_preference_is_kept_and_nothing_else_changes<C, S>(
    vm: &mut Vm<C, S>,
    id: Id,
    result: Result<(), Error>,
)
    requires
        call_ensures(Vm::<C, S>::set_preference, (vm, id), result),
    ensures
        result is Ok,
        final(vm).state.preferred == id,
        final(vm).state.ctx == old(vm).state.ctx,
        final(vm).state.state == old(vm).state.state,
        final(vm).state.bootstrapped == old(vm).state.bootstrapped,
{
}

/// A machine with a state manager that was told of a preference next builds a block on
/// exactly that one.
pub proof fn the_next_block_is_built_on_the_last_preference<C, S, P>(
    vm: &mut Vm<C, S>,
    id: Id,
    result: Result<(), Error>,
    call: BuildBlock<P>,
)
    requires
        call_ensures(Vm::<C, S>::set_preference, (vm, id), result),
        call_ensures(Vm::<C, S>::build_block::<P>, (&*final(vm),), call),
    ensures
        old(vm).state.state is Some ==> call == (BuildBlock::<P>::ReadParent { id }),
        old(vm).state.state is None ==> call == BuildBlock::<P>::Finished(Err(Error::BuildBlock)),
{
}

/// Being told of a phase decides on what the machine says of its bootstrapping:
/// it is over in normal operation, not over while the chain is created or catches up,
/// and as before when the phase is refused. Only the syncing of state is refused. The
/// rest of the machine is as before.
pub proof fn a_phase_decides_on_bootstrapping_alone<C, S>(
    vm: &mut Vm<C, S>,
    phase: snow::State,
    result: Result<(), Error>,
    bootstrapped: bool,
)
    requires
        call_ensures(Vm::<C, S>::set_state, (vm, phase), result),
        call_ensures(Vm::<C, S>::is_bootstrapped, (&*final(vm),), bootstrapped),
    ensures
        phase is NormalOp ==> bootstrapped,
        phase is Initializing ==> !bootstrapped,
        phase is Bootstrapping ==> !bootstrapped,
        phase is StateSyncing ==> bootstrapped == old(vm).state.bootstrapped,
        bootstrapped == final(vm).state.bootstrapped,
        result is Err <==> phase is StateSyncing,
        result matches Err(error) ==> error == Error::StateSync,
        final(vm).state.ctx == old(vm).state.ctx,
        final(vm).state.state == old(vm).state.state,
        final(vm).state.preferred == old(vm).state.preferred,
{
}

/// A machine starts with no context, with no state manager, preferring the identifier
/// whose bytes are all zero, and not bootstrapped, in whichever way it is made.
pub proof fn a_new_machine_holds_nothing<C, S>(
    vm: Vm<C, S>,
    by_default: Vm<C, S>,
    state: VmState<C, S>,
)
    requires
        call_ensures(Vm::<C, S>::new, (), vm),
        call_ensures(<Vm<C, S> as Default>::default, (), by_default),
        call_ensures(<VmState<C, S> as Default>::default, (), state),
    ensures
        vm.state.ctx is None && by_default.state.ctx is None && state.ctx is None,
        vm.state.state is None && by_default.state.state is None && state.state is None,
        !vm.state.bootstrapped && !by_default.state.bootstrapped && !state.bootstrapped,
        forall|i: int| 0 <= i < 32 ==> #[trigger] vm.state.preferred.bytes@[i] == 0,
        forall|i: int| 0 <= i < 32 ==> #[trigger] by_default.state.preferred.bytes@[i] == 0,
        forall|i: int| 0 <= i < 32 ==> #[trigger] state.preferred.bytes@[i] == 0,
{
}

/// A machine with a state manager asks it for the last accepted block, and gives back
/// the very identifier that was stored; what keeps it from being read is passed on. A
/// machine without one refuses.
pub proof fn the_last_accepted_block_is_the_stored_one<C, S, E>(
    vm: Vm<C, S>,
    start: LastAccepted<E>,
    stored: Result<Id, E>,
    end: LastAccepted<E>,
)
    requires
        call_ensures(Vm::<C, S>::last_accepted::<E>, (&vm,), start),
        start is Read ==> call_ensures(LastAccepted::<E>::resume, (start, stored), end),
    ensures
        vm.state.state is None ==> start == LastAccepted::<E>::Finished(
            Err(Failure::Refused(Error::StateManager)),
        ),
        vm.state.state is Some ==> {
            &&& start is Read
            &&& stored matches Ok(id) ==> (end matches LastAccepted::Finished(Ok(got)) && got == id)
            &&& stored matches Err(error) ==> (end matches LastAccepted::Finished(
                Err(Failure::Outside(passed_on)),
            ) && passed_on == error)
        },
{
}

/// A machine with a state manager asks it for exactly the block that was asked for. A
/// machine without one refuses.
pub proof fn the_block_asked_for_is_the_block_read<C, S, P, E>(
    vm: Vm<C, S>,
    id: Id,
    call: GetBlock<P, E>,
)
    requires
        call_ensures(Vm::<C, S>::get_block::<P, E>, (&vm, id), call),
    ensures
        vm.state.state is Some ==> call == (GetBlock::<P, E>::Read { id }),
        vm.state.state is None ==> call == GetBlock::<P, E>::Finished(
            Err(Failure::Refused(Error::StateManager)),
        ),
{
}

/// A stored block is given back with its identifier, height, status and payload, bound
/// to the state manager and the machine; what keeps it from being read is passed on.
pub proof fn a_stored_block_is_given_back<P, E>(
    call: GetBlock<P, E>,
    stored: Result<Block<P>, E>,
    end: GetBlock<P, E>,
)
    requires
        call is Read,
        call_ensures(GetBlock::<P, E>::resume, (call, stored), end),
    ensures
        stored matches Ok(block) ==> {
            &&& end matches GetBlock::Finished(Ok(got))
            &&& got.id == block.id
            &&& got.height == block.height
            &&& got.status == block.status
            &&& got.payload == block.payload
            &&& got.binding is StateAndVm
        },
        stored matches Err(error) ==> (end matches GetBlock::Finished(
            Err(Failure::Outside(passed_on)),
        ) && passed_on == error),
{
}

/// A machine with a state manager has exactly the given bytes decoded. A machine
/// without one refuses.
pub proof fn the_bytes_given_are_the_bytes_decoded<'a, C, S, P, E>(
    vm: Vm<C, S>,
    bytes: &'a [u8],
    call: ParseBlock<'a, P, E>,
)
    requires
        call_ensures(Vm::<C, S>::parse_block::<P, E>, (&vm, bytes), call),
    ensures
        vm.state.state is Some ==> (call matches ParseBlock::Decode { bytes: handed } && handed@
            == bytes@),
        vm.state.state is None ==> call == ParseBlock::<'a, P, E>::Finished(
            Err(Failure::Refused(Error::StateManager)),
        ),
{
}

/// Bytes that cannot be decoded are an error, which is passed on.
pub proof fn undecodable_bytes_are_an_error<'a, P, E>(
    call: ParseBlock<'a, P, E>,
    error: E,
    end: ParseBlock<'a, P, E>,
)
    requires
        call is Decode,
        call_ensures(ParseBlock::<'a, P, E>::resume, (call, ParseEvent::Decoded(Err(error))), end),
    ensures
        end matches ParseBlock::Finished(Err(Failure::Outside(passed_on))) && passed_on == error,
{
}

/// A decoded block is looked up under its own identifier. If a block can be read there,
/// that one is given back as it was read. If none can be read, whatever the reason, the
/// decoded one is given back: with its identifier, height and payload, not decided yet,
/// and bound to the state manager and the machine.
pub proof fn a_decoded_block_yields_to_the_stored_one<'a, P, E>(
    call: ParseBlock<'a, P, E>,
    decoded: Block<P>,
    lookup: ParseBlock<'a, P, E>,
    stored: Result<Block<P>, E>,
    end: ParseBlock<'a, P, E>,
)
    requires
        call is Decode,
        call_ensures(
            ParseBlock::<'a, P, E>::resume,
            (call, ParseEvent::Decoded(Ok(decoded))),
            lookup,
        ),
        call_ensures(ParseBlock::<'a, P, E>::resume, (lookup, ParseEvent::Stored(stored)), end),
    ensures
        lookup matches ParseBlock::Lookup { block } && block.id == decoded.id && block.height
            == decoded.height && block.payload == decoded.payload && block.status is Processing
            && block.binding is StateAndVm,
        stored matches Ok(previous) ==> {
            &&& end matches ParseBlock::Finished(Ok(got))
            &&& got.id == previous.id
            &&& got.height == previous.height
            &&& got.status == previous.status
            &&& got.binding == previous.binding
            &&& got.payload == previous.payload
        },
        stored is Err ==> {
            &&& end matches ParseBlock::Finished(Ok(got))
            &&& got.id == decoded.id
            &&& got.height == decoded.height
            &&& got.payload == decoded.payload
            &&& got.status is Processing
            &&& got.binding is StateAndVm
        },
{
}

/// A block that is looked up is the one given back where none is stored.
pub proof fn a_failed_lookup_changes_nothing<'a, P, E>(
    block: Block<P>,
    error: E,
    end: ParseBlock<'a, P, E>,
)
    requires
        call_ensures(
            ParseBlock::<'a, P, E>::resume,
            (ParseBlock::Lookup { block }, ParseEvent::Stored(Err(error))),
            end,
        ),
    ensures
        end matches ParseBlock::Finished(Ok(got)) && got == block,
{
}

/// A machine with a state manager asks it for the block that it prefers. A machine
/// without one refuses.
pub proof fn the_preferred_block_is_the_parent_read<C, S, P>(vm: Vm<C, S>, call: BuildBlock<P>)
    requires
        call_ensures(Vm::<C, S>::build_block::<P>, (&vm,), call),
    ensures
        vm.state.state is Some ==> call == (BuildBlock::<P>::ReadParent {
            id: vm.state.preferred,
        }),
        vm.state.state is None ==> call == BuildBlock::<P>::Finished(Err(Error::BuildBlock)),
{
}

/// Whatever its parent, a new block names it, lies one above it, holds no data, is not
/// decided, and carries a time that the clock gave.
pub proof fn a_new_block_carries_the_time_of_the_clock<P>(
    call: BuildBlock<P>,
    parent: Block<P>,
    next: BuildBlock<P>,
)
    requires
        call is ReadParent,
        call_ensures(BuildBlock::<P>::resume, (call, BuildEvent::ParentRead(parent)), next),
    ensures
        next matches BuildBlock::Make { content } && {
            &&& content.parent_id.bytes@ == parent.id.bytes@
            &&& content.height == parent.height + 1
            &&& content.data@.len() == 0
            &&& content.status is Processing
            &&& exists|now: i64| #[trigger]
                crate::vm::build_block::is_clock_reading(now) && content.timestamp == (now as int)
                    % 0x1_0000_0000_0000_0000int
        },
{
}

/// As [`a_new_block_carries_the_time_of_the_clock`], at a given time: the new block
/// carries that time.
pub proof fn a_new_block_carries_the_given_time<P>(
    call: BuildBlock<P>,
    parent: Block<P>,
    now: i64,
    next: BuildBlock<P>,
)
    requires
        call is ReadParent,
        call_ensures(BuildBlock::<P>::resume_at, (call, BuildEvent::ParentRead(parent), now), next),
    ensures
        next matches BuildBlock::Make { content } && {
            &&& content.parent_id.bytes@ == parent.id.bytes@
            &&& content.height == parent.height + 1
            &&& content.data@.len() == 0
            &&& content.status is Processing
            &&& content.timestamp == (now as int) % 0x1_0000_0000_0000_0000int
        },
{
}

/// The block that was made is the block given back once it was verified: with its
/// identifier, height, status and payload, and bound to the machine's own state manager.
pub proof fn a_made_block_is_given_back_verified<P>(
    call: BuildBlock<P>,
    made: Block<P>,
    verify: BuildBlock<P>,
    end: BuildBlock<P>,
)
    requires
        call is Make,
        call_ensures(BuildBlock::<P>::resume, (call, BuildEvent::Made(made)), verify),
        call_ensures(BuildBlock::<P>::resume, (verify, BuildEvent::Verified), end),
    ensures
        verify matches BuildBlock::Verify { block } && {
            &&& block.id == made.id
            &&& block.height == made.height
            &&& block.status == made.status
            &&& block.payload == made.payload
            &&& block.binding is State
            &&& end == BuildBlock::<P>::Finished(Ok(block))
        },
{
}

/// The time plays no part once the parent was read.
pub proof fn a_made_block_does_not_depend_on_the_time<P>(
    call: BuildBlock<P>,
    event: BuildEvent<P>,
    now: i64,
    next: BuildBlock<P>,
    resumed: BuildBlock<P>,
)
    requires
        event is Made && call is Make || event is Verified && call is Verify,
        call_ensures(BuildBlock::<P>::resume_at, (call, event, now), next),
        call_ensures(BuildBlock::<P>::resume, (call, event), resumed),
    ensures
        resumed == next,
        event matches BuildEvent::Made(made) ==> (next matches BuildBlock::Verify { block }
            && block.id == made.id && block.height == made.height && block.status == made.status
            && block.payload == made.payload && block.binding is State),
        call matches BuildBlock::Verify { block } ==> next == BuildBlock::<P>::Finished(Ok(block)),
{
}

/// A count of seconds and the unsigned number it is converted to agree modulo two to
/// the power of 64, so different counts become different numbers.
pub proof fn seconds_wrap_around(first: i64, second: i64, one: u64, other: u64)
    requires
        call_ensures(unix_seconds, (first,), one),
        call_ensures(unix_seconds, (second,), other),
    ensures
        one == (first as int) % 0x1_0000_0000_0000_0000int,
        first >= 0 ==> one == first,
        one == other ==> first == second,
{
}

/// A start asks for the local cluster, keeps the context that it was handed, and does
/// not touch the machine yet, whatever bytes are sent along.
pub proof fn a_start_begins_with_the_cluster<C, S, P, E>(
    vm: &mut Vm<C, S>,
    ctx: Option<C>,
    genesis_bytes: &[u8],
    upgrade_bytes: &[u8],
    config_bytes: &[u8],
    call: Initialize<C, P, E>,
)
    requires
        call_ensures(
            Vm::<C, S>::initialize::<P, E>,
            (vm, ctx, genesis_bytes, upgrade_bytes, config_bytes),
            call,
        ),
    ensures
        call matches Initialize::StartCluster { options, ctx: handed } && {
            &&& handed == ctx
            &&& options.env is NewLocal
            &&& options.fullnode_address matches Some(address) && address@ == "127.0.0.1:9000"@
            &&& options.indexer_address is None
            &&& options.pg_address is None
            &&& options.faucet_address is None
            &&& options.epoch_duration_ms is None
            &&& !options.use_indexer_experimental_methods
            &&& options.config_dir matches Some(dir) && dir@ == "/tmp/.suiconfig"@
        },
        final(vm).state == old(vm).state,
{
}

/// Once the cluster runs, the machine has the context that the start was handed, in
/// place of its own, and the database is opened.
pub proof fn a_running_cluster_hands_the_context_over<C, S, P, E>(
    options: ClusterOptions,
    ctx: Option<C>,
    vm: &mut Vm<C, S>,
    next: Initialize<C, P, E>,
)
    requires
        call_ensures(
            Initialize::<C, P, E>::resume::<S>,
            (Initialize::StartCluster { options, ctx }, vm, InitEvent::ClusterStarted),
            next,
        ),
    ensures
        next is OpenDatabase,
        final(vm).state.ctx == ctx,
        final(vm).state.state == old(vm).state.state,
        final(vm).state.preferred == old(vm).state.preferred,
        final(vm).state.bootstrapped == old(vm).state.bootstrapped,
{
}

/// A database that was opened is asked whether a block was ever accepted; one that
/// cannot be opened ends the start. The machine is as before.
pub proof fn an_opened_database_is_asked_next<C, S, P, E>(
    vm: &mut Vm<C, S>,
    opened: Result<(), E>,
    next: Initialize<C, P, E>,
)
    requires
        call_ensures(
            Initialize::<C, P, E>::resume::<S>,
            (Initialize::OpenDatabase, vm, InitEvent::DatabaseOpened(opened)),
            next,
        ),
    ensures
        opened is Ok ==> next is CheckLastAccepted,
        opened matches Err(error) ==> (next matches Initialize::Finished(Err(passed_on))
            && passed_on == error),
        final(vm).state == old(vm).state,
{
}

/// If a block was ever accepted, its identifier is read. If none was, the first block is
/// made: without a parent, at height and time zero, with `hello world` as its data, and
/// with the standing of a block to which none was given. That it cannot be found out
/// ends the start. The machine is as before.
pub proof fn a_chain_without_blocks_gets_its_first<C, S, P, E>(
    vm: &mut Vm<C, S>,
    checked: Result<bool, E>,
    next: Initialize<C, P, E>,
)
    requires
        call_ensures(
            Initialize::<C, P, E>::resume::<S>,
            (Initialize::CheckLastAccepted, vm, InitEvent::LastAcceptedChecked(checked)),
            next,
        ),
    ensures
        checked matches Ok(has_last_accepted) ==> {
            &&& has_last_accepted ==> next is ReadLastAccepted
            &&& !has_last_accepted ==> {
                &&& next matches Initialize::MakeGenesis { content }
                &&& forall|i: int| 0 <= i < 32 ==> #[trigger] content.parent_id.bytes@[i] == 0
                &&& content.height == 0
                &&& content.timestamp == 0
                &&& content.data@ == vstd::utf8::encode_utf8("hello world"@)
                &&& content.status matches Status::Unknown(text) && text@ == "default"@
            }
        },
        checked matches Err(error) ==> (next matches Initialize::Finished(Err(passed_on))
            && passed_on == error),
        final(vm).state == old(vm).state,
{
    reveal_strlit("hello world");
    vstd::utf8::is_ascii_chars_encode_utf8("hello world"@);
    assert(vstd::utf8::encode_utf8("hello world"@) =~= crate::vm::initialize::genesis_data());
}

/// The last accepted block becomes the preferred one, which ends the start well; that it
/// cannot be read ends the start and leaves the machine as before.
pub proof fn the_last_accepted_block_becomes_preferred<C, S, P, E>(
    vm: &mut Vm<C, S>,
    read: Result<Id, E>,
    next: Initialize<C, P, E>,
)
    requires
        call_ensures(
            Initialize::<C, P, E>::resume::<S>,
            (Initialize::ReadLastAccepted, vm, InitEvent::LastAcceptedRead(read)),
            next,
        ),
    ensures
        read matches Ok(id) ==> (next matches Initialize::Finished(Ok(_))
            && final(vm).state.preferred == id),
        read matches Err(error) ==> (next matches Initialize::Finished(Err(passed_on)) && passed_on
            == error && final(vm).state.preferred == old(vm).state.preferred),
        final(vm).state.ctx == old(vm).state.ctx,
        final(vm).state.state == old(vm).state.state,
        final(vm).state.bootstrapped == old(vm).state.bootstrapped,
{
}

/// The first block is accepted as it was made, bound to the state manager that the start
/// has opened, and becomes the preferred one, which ends the start well; that it cannot
/// be accepted ends the start and leaves the machine as before.
pub proof fn the_first_block_becomes_preferred<C, S, P, E>(
    call: Initialize<C, P, E>,
    vm: &mut Vm<C, S>,
    made: Block<P>,
    accept: Initialize<C, P, E>,
    later: &mut Vm<C, S>,
    accepted: Result<(), E>,
    next: Initialize<C, P, E>,
)
    requires
        call is MakeGenesis,
        call_ensures(
            Initialize::<C, P, E>::resume::<S>,
            (call, vm, InitEvent::GenesisMade(made)),
            accept,
        ),
        call_ensures(
            Initialize::<C, P, E>::resume::<S>,
            (accept, later, InitEvent::GenesisAccepted(accepted)),
            next,
        ),
    ensures
        accept matches Initialize::AcceptGenesis { block } && block.id == made.id && block.height
            == made.height && block.status == made.status && block.payload == made.payload
            && block.binding is OpenedState,
        final(vm).state == old(vm).state,
        accepted is Ok ==> (next matches Initialize::Finished(Ok(_)) && final(later).state.preferred
            == made.id),
        accepted matches Err(error) ==> (next matches Initialize::Finished(Err(passed_on))
            && passed_on == error && final(later).state.preferred == old(later).state.preferred),
        final(later).state.ctx == old(later).state.ctx,
        final(later).state.state == old(later).state.state,
        final(later).state.bootstrapped == old(later).state.bootstrapped,
{
}

/// A call that waits can be resumed with whatever the work it waits for has come to. The
/// one exception is a parent at the largest height there is, which has no child.
pub proof fn a_waiting_call_takes_what_it_waits_for<'a, C, S, P, E>(
    build: BuildBlock<P>,
    parse: ParseBlock<'a, P, E>,
    get: GetBlock<P, E>,
    last: LastAccepted<E>,
    init: Initialize<C, P, E>,
    request: HandleRequest<'a, E>,
    vm: &mut Vm<C, S>,
    now: i64,
    block: Block<P>,
)
    ensures
        build is ReadParent && block.height < u64::MAX ==> call_requires(
            BuildBlock::<P>::resume,
            (build, BuildEvent::ParentRead(block)),
        ) && call_requires(
            BuildBlock::<P>::resume_at,
            (build, BuildEvent::ParentRead(block), now),
        ),
        build is Make ==> call_requires(
            BuildBlock::<P>::resume,
            (build, BuildEvent::Made(block)),
        ) && call_requires(BuildBlock::<P>::resume_at, (build, BuildEvent::Made(block), now)),
        build is Verify ==> call_requires(
            BuildBlock::<P>::resume,
            (build, BuildEvent::<P>::Verified),
        ) && call_requires(BuildBlock::<P>::resume_at, (build, BuildEvent::<P>::Verified, now)),
        parse is Decode ==> forall|decoded: Result<Block<P>, E>| #[trigger]
            call_requires(
                ParseBlock::<'a, P, E>::resume,
                (parse, ParseEvent::Decoded(decoded)),
            ),
        parse is Lookup ==> forall|stored: Result<Block<P>, E>| #[trigger]
            call_requires(ParseBlock::<'a, P, E>::resume, (parse, ParseEvent::Stored(stored))),
        get is Read ==> forall|stored: Result<Block<P>, E>| #[trigger]
            call_requires(GetBlock::<P, E>::resume, (get, stored)),
        last is Read ==> forall|stored: Result<Id, E>| #[trigger]
            call_requires(LastAccepted::<E>::resume, (last, stored)),
        init is StartCluster ==> call_requires(
            Initialize::<C, P, E>::resume::<S>,
            (init, vm, InitEvent::<P, E>::ClusterStarted),
        ),
        init is OpenDatabase ==> forall|opened: Result<(), E>| #[trigger]
            call_requires(
                Initialize::<C, P, E>::resume::<S>,
                (init, vm, InitEvent::<P, E>::DatabaseOpened(opened)),
            ),
        init is CheckLastAccepted ==> forall|checked: Result<bool, E>| #[trigger]
            call_requires(
                Initialize::<C, P, E>::resume::<S>,
                (init, vm, InitEvent::<P, E>::LastAcceptedChecked(checked)),
            ),
        init is ReadLastAccepted ==> forall|read: Result<Id, E>| #[trigger]
            call_requires(
                Initialize::<C, P, E>::resume::<S>,
                (init, vm, InitEvent::<P, E>::LastAcceptedRead(read)),
            ),
        init is MakeGenesis ==> call_requires(
            Initialize::<C, P, E>::resume::<S>,
            (init, vm, InitEvent::<P, E>::GenesisMade(block)),
        ),
        init is AcceptGenesis ==> forall|accepted: Result<(), E>| #[trigger]
            call_requires(
                Initialize::<C, P, E>::resume::<S>,
                (init, vm, InitEvent::<P, E>::GenesisAccepted(accepted)),
            ),
        request is Decode ==> forall|decoded: Result<String, E>| #[trigger]
            call_requires(
                HandleRequest::<'a, E>::resume,
                (request, RequestEvent::Decoded(decoded)),
            ),
        request is Respond ==> forall|response: Option<String>| #[trigger]
            call_requires(
                HandleRequest::<'a, E>::resume,
                (request, RequestEvent::<E>::Responded(response)),
            ),
{
}

/// A request is decoded from exactly the bytes that came in, whatever its headers.
pub proof fn the_bytes_of_a_request_are_decoded<'a, T, E>(
    handler: ChainHandler<T>,
    req: &'a Bytes,
    headers: &[Element],
    call: HandleRequest<'a, E>,
)
    requires
        call_ensures(ChainHandler::<T>::request::<E>, (&handler, req, headers), call),
    ensures
        call matches HandleRequest::Decode { req: handed } && *handed == *req,
{
}

/// The request that was decoded is the one handed to the handler, and its response, in
/// UTF-8 and without headers, is the one given back. That there is no response is an
/// error; what keeps the request from being decoded is passed on.
pub proof fn a_response_is_given_back<'a, E>(
    start: HandleRequest<'a, E>,
    decoded: Result<String, E>,
    next: HandleRequest<'a, E>,
    request: String,
    response: Option<String>,
    end: HandleRequest<'a, E>,
)
    requires
        start is Decode,
        call_ensures(HandleRequest::<'a, E>::resume, (start, RequestEvent::Decoded(decoded)), next),
        call_ensures(
            HandleRequest::<'a, E>::resume,
            (HandleRequest::Respond { request }, RequestEvent::<E>::Responded(response)),
            end,
        ),
    ensures
        decoded matches Ok(text) ==> (next matches HandleRequest::Respond { request: handed }
            && handed == text),
        decoded matches Err(error) ==> (next matches HandleRequest::Finished(
            Err(Failure::Outside(passed_on)),
        ) && passed_on == error),
        response matches Some(text) ==> (end matches HandleRequest::Finished(Ok((body, headers)))
            && crate::api::chain_handlers::bytes_content(body) == vstd::utf8::encode_utf8(text@)
            && headers@.len() == 0),
        response is None ==> (end matches HandleRequest::Finished(Err(Failure::Refused(refusal)))
            && refusal == Error::Request),
{
}

/// A handler of a chain offers no methods, whichever service stands behind it, and a
/// copy of a handler offers what the handler offers.
pub proof fn handlers_offer_no_methods<T: Rpc + Clone>(
    service: T,
    handler: ChainHandler<T>,
    copied: ChainHandler<T>,
    copy: ChainHandler<T>,
)
    requires
        call_ensures(ChainHandler::<T>::new, (service,), handler),
        call_ensures(<ChainHandler<T> as Clone>::clone, (&copied,), copy),
    ensures
        forall|name: Seq<char>| !(#[trigger] crate::api::chain_handlers::method_names(
            handler.handler,
        ).contains(name)),
        crate::api::chain_handlers::method_names(copy.handler)
            == crate::api::chain_handlers::method_names(copied.handler),
{
}

/// A service keeps the handle that it was made with.
pub proof fn a_service_keeps_its_machine<V>(vm: V, service: ChainService<V>)
    requires
        call_ensures(ChainService::<V>::new, (vm,), service),
    ensures
        service.vm == vm,
{
}

/// The one endpoint that is offered lies under the path it was given, holds the handler
/// it was given, is served under the write lock, and has no server of its own.
pub proof fn a_single_endpoint_is_what_was_given<H>(
    path: &str,
    handler: H,
    handlers: Handlers<H>,
)
    requires
        call_ensures(Handlers::<H>::single, (path, handler), handlers),
    ensures
        handlers.entries@.len() == 1,
        handlers.entries@[0].0@ == path@,
        handlers.entries@[0].1.handler == handler,
        handlers.entries@[0].1.lock_option is WriteLock,
        handlers.entries@[0].1.server_addr is None,
{
}

/// Every machine offers the given handler under `/static`, and a handler without methods
/// under `/rpc`, each as the only endpoint, and is as before.
pub proof fn every_machine_offers_the_same_endpoints<C, S, H, V: Send + Sync + 'static>(
    vm: &mut Vm<C, S>,
    handler: H,
    of_the_vm: Result<Handlers<H>, Error>,
    other: &mut Vm<C, S>,
    handle: V,
    of_the_chain: Result<Handlers<ChainHandler<ChainService<V>>>, Error>,
)
    requires
        call_ensures(Vm::<C, S>::create_static_handlers::<H>, (vm, handler), of_the_vm),
        call_ensures(Vm::<C, S>::create_handlers::<V>, (other, handle), of_the_chain),
    ensures
        final(vm).state == old(vm).state,
        of_the_vm matches Ok(handlers) && {
            &&& handlers.entries@.len() == 1
            &&& handlers.entries@[0].0@ == "/static"@
            &&& handlers.entries@[0].1.handler == handler
            &&& handlers.entries@[0].1.lock_option is WriteLock
            &&& handlers.entries@[0].1.server_addr is None
        },
        final(other).state == old(other).state,
        of_the_chain matches Ok(handlers) && {
            &&& handlers.entries@.len() == 1
            &&& handlers.entries@[0].0@ == "/rpc"@
            &&& crate::api::chain_handlers::method_names(handlers.entries@[0].1.handler.handler)
                == Set::<Seq<char>>::empty()
            &&& handlers.entries@[0].1.lock_option is WriteLock
            &&& handlers.entries@[0].1.server_addr is None
        },
{
}

/// Every machine is healthy, has the same version, and runs beside the same cluster.
pub proof fn every_machine_reports_the_same<C, S>(
    vm: Vm<C, S>,
    health: Result<Vec<u8>, Error>,
    version: Result<String, Error>,
    options: ClusterOptions,
)
    requires
        call_ensures(Vm::<C, S>::health_check, (&vm,), health),
        call_ensures(Vm::<C, S>::version, (&vm,), version),
        call_ensures(Vm::<C, S>::init_chain, (&vm,), options),
    ensures
        health matches Ok(body) && body@ == vstd::utf8::encode_utf8("200"@),
        version matches Ok(text) && text@ == "0.1.0"@,
        options.env == Env::NewLocal,
        options.fullnode_address matches Some(address) && address@ == "127.0.0.1:9000"@,
        options.indexer_address is None,
        options.pg_address is None,
        options.faucet_address is None,
        options.epoch_duration_ms is None,
        !options.use_indexer_experimental_methods,
        options.config_dir matches Some(dir) && dir@ == "/tmp/.suiconfig"@,
{
    reveal_strlit("200");
    vstd::utf8::is_ascii_chars_encode_utf8("200"@);
    assert(vstd::utf8::encode_utf8("200"@) =~= crate::vm::healthy());
}

/// That there is no state manager is the one thing reported as not found; what the
/// machine does not offer is unsupported; every other refusal is of no class of its own.
/// Different refusals have different texts.
pub proof fn refusals_are_told_apart(
    error: Error,
    kind: ErrorKind,
    text: &'static str,
    other: Error,
    other_text: &'static str,
)
    requires
        call_ensures(Error::kind, (error,), kind),
        call_ensures(Error::message, (error,), text),
        call_ensures(Error::message, (other,), other_text),
    ensures
        kind is NotFound <==> error is StateManager,
        kind is Unsupported <==> (error is GetAncestors || error is BatchedParseBlock
            || error is IssueTx),
        kind is Other <==> (error is StateSync || error is BuildBlock || error is Request),
        text@ == other_text@ <==> error == other,
        error is StateSync ==> text@ == "state sync is not supported"@,
        error is StateManager ==> text@ == "state manager not found"@,
        error is BuildBlock ==> text@ == "not implement"@,
        error is GetAncestors ==> text@ == "get_ancestors not implemented"@,
        error is BatchedParseBlock ==> text@ == "batched_parse_block not implemented"@,
        error is IssueTx ==> text@ == "issue_tx not implemented"@,
        error is Request ==> text@ == "failed to handle request"@,
{
    reveal_strlit("state sync is not supported");
    reveal_strlit("state manager not found");
    reveal_strlit("not implement");
    reveal_strlit("get_ancestors not implemented");
    reveal_strlit("batched_parse_block not implemented");
    reveal_strlit("issue_tx not implemented");
    reveal_strlit("failed to handle request");
    // Two of the texts are equally long, and differ in their first letters.
    assert("issue_tx not implemented"@[0] == 'i' && "failed to handle request"@[0] == 'f');
    if text@ == other_text@ {
        assert(text@.len() == other_text@.len());
        assert(text@[0] == other_text@[0]);
        assert(error == other);
    }
}

/// Whatever the error, it is reported as an internal one, with the text that it is
/// displayed as and no data.
pub proof fn every_error_is_reported_as_internal(e: std::io::Error, error: RpcError)
    requires
        call_ensures(create_jsonrpc_error, (e,), error),
    ensures
        error.code == -32603,
        error.data is None,
        vstd::string::to_string_from_display_ensures::<std::io::Error>(&e, error.message),
{
}

/// No block is named by zero bytes alone, and a block to which no standing was given has
/// the unknown one.
pub proof fn defaults_are_fixed(id: Id, status: Status)
    requires
        call_ensures(Id::empty, (), id),
        call_ensures(<Status as Default>::default, (), status),
    ensures
        forall|i: int| 0 <= i < 32 ==> #[trigger] id.bytes@[i] == 0,
        status matches Status::Unknown(text) && text@ == "default"@,
{
}

/// Attaching something to a block, and setting its standing, changes nothing else of it.
pub proof fn setters_change_one_field<P>(
    block: &mut Block<P>,
    binding: Binding,
    other: &mut Block<P>,
    status: Status,
)
    requires
        call_ensures(Block::<P>::set_state, (block, binding), ()),
        call_ensures(Block::<P>::set_status, (other, status), ()),
    ensures
        final(block).binding == binding,
        final(block).id == old(block).id,
        final(block).height == old(block).height,
        final(block).status == old(block).status,
        final(block).payload == old(block).payload,
        final(other).status == status,
        final(other).id == old(other).id,
        final(other).height == old(other).height,
        final(other).binding == old(other).binding,
        final(other).payload == old(other).payload,
{
}

} // verus!
