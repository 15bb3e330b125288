//! What holds of the virtual machine over several calls, and over whole runs of
//! one call.

use vstd::prelude::*;

use crate::api::chain_handlers::{HandleRequest, RequestEvent};
use crate::block::{Binding, Block};
use crate::errors::{Error, Failure};
use crate::ids::Id;
use crate::snow;
use crate::vm::build_block::{BuildBlock, BuildEvent};
use crate::vm::get_block::GetBlock;
use crate::vm::initialize::{InitEvent, Initialize};
use crate::vm::last_accepted::LastAccepted;
use crate::vm::parse_block::{ParseBlock, ParseEvent};
use crate::vm::Vm;

verus! {

/// The machine after it was told of these phases of its chain, one after the other.
pub open spec fn after_phases<C, S>(vm: Vm<C, S>, phases: Seq<snow::State>) -> Vm<C, S>
    decreases phases.len(),
{
    if phases.len() == 0 {
        vm
    } else {
        crate::vm::after_set_state(after_phases(vm, phases.drop_last()), phases.last())
    }
}

/// A machine is bootstrapped if and only if the last phase that it was told of,
/// leaving out refused ones, is normal operation. Nothing else of the machine
/// changes.
pub proof fn bootstrapped_follows_the_last_phase<C, S>(
    vm: Vm<C, S>,
    phases: Seq<snow::State>,
    last: int,
)
    requires
        0 <= last < phases.len(),
        phases[last] != snow::State::StateSyncing,
        forall|i: int| last < i < phases.len() ==> phases[i] == snow::State::StateSyncing,
    ensures
        after_phases(vm, phases).state.bootstrapped == (phases[last] == snow::State::NormalOp),
        after_phases(vm, phases).state.preferred == vm.state.preferred,
        after_phases(vm, phases).state.ctx == vm.state.ctx,
        after_phases(vm, phases).state.state == vm.state.state,
    decreases phases.len(),
{
    phases_keep_the_rest(vm, phases);
    if last < phases.len() - 1 {
        assert(phases.last() == snow::State::StateSyncing);
        bootstrapped_follows_the_last_phase(vm, phases.drop_last(), last);
    }
}

/// A machine that starts in its initial state is bootstrapped if and only if, of the
/// phases that it was told of, one is normal operation and only refused ones came
/// after it. So it is not bootstrapped as long as every phase was refused.
pub proof fn a_new_machine_follows_the_last_phase<C, S>(vm: Vm<C, S>, phases: Seq<snow::State>)
    requires
        vm.state.is_initial(),
    ensures
        after_phases(vm, phases).state.bootstrapped <==> exists|last: int|
            {
                &&& 0 <= last < phases.len()
                &&& #[trigger] phases[last] == snow::State::NormalOp
                &&& forall|i: int| last < i < phases.len() ==> phases[i]
                    == snow::State::StateSyncing
            },
    decreases phases.len(),
{
    if phases.len() > 0 {
        let earlier = phases.drop_last();
        a_new_machine_follows_the_last_phase(vm, earlier);
        if phases.last() == snow::State::StateSyncing {
            if after_phases(vm, earlier).state.bootstrapped {
                let last = choose|last: int|
                    {
                        &&& 0 <= last < earlier.len()
                        &&& #[trigger] earlier[last] == snow::State::NormalOp
                        &&& forall|i: int| last < i < earlier.len() ==> earlier[i]
                            == snow::State::StateSyncing
                    };
                assert(phases[last] == snow::State::NormalOp);
                assert forall|i: int| last < i < phases.len() implies phases[i]
                    == snow::State::StateSyncing by {
                    if i < earlier.len() {
                        assert(earlier[i] == phases[i]);
                    }
                }
            } else {
                assert forall|last: int|
                    0 <= last < phases.len() && #[trigger] phases[last]
                        == snow::State::NormalOp implies exists|i: int|
                    last < i < phases.len() && phases[i] != snow::State::StateSyncing by {
                    assert(earlier[last] == snow::State::NormalOp);
                    let i = choose|i: int|
                        last < i < earlier.len() && earlier[i] != snow::State::StateSyncing;
                    assert(phases[i] == earlier[i]);
                }
            }
        } else {
            assert(phases[phases.len() - 1] == phases.last());
        }
    }
}

/// Phases of the chain leave the preferred block, the context and the state manager
/// as they are, and refused phases leave everything as it is.
pub proof fn phases_keep_the_rest<C, S>(vm: Vm<C, S>, phases: Seq<snow::State>)
    ensures
        after_phases(vm, phases).state.preferred == vm.state.preferred,
        after_phases(vm, phases).state.ctx == vm.state.ctx,
        after_phases(vm, phases).state.state == vm.state.state,
        (forall|i: int| 0 <= i < phases.len() ==> phases[i] == snow::State::StateSyncing)
            ==> after_phases(vm, phases) == vm,
    decreases phases.len(),
{
    if phases.len() > 0 {
        phases_keep_the_rest(vm, phases.drop_last());
        if forall|i: int| 0 <= i < phases.len() ==> phases[i] == snow::State::StateSyncing {
            assert(forall|i: int|
                0 <= i < phases.drop_last().len() ==> phases.drop_last()[i]
                    == snow::State::StateSyncing);
            assert(phases.last() == snow::State::StateSyncing);
        }
    }
}

/// The last preference counts, and in which order the machine is told of a
/// preference and of a phase makes no difference.
pub proof fn preferences_overwrite_and_commute<C, S>(
    vm: Vm<C, S>,
    first: Id,
    second: Id,
    phase: snow::State,
)
    ensures
        crate::vm::after_set_preference(crate::vm::after_set_preference(vm, first), second)
            == crate::vm::after_set_preference(vm, second),
        crate::vm::after_set_preference(crate::vm::after_set_state(vm, phase), second)
            == crate::vm::after_set_state(crate::vm::after_set_preference(vm, second), phase),
{
}

/// A block is built on the block that was last preferred.
pub proof fn blocks_are_built_on_the_preferred_one<C, S, P>(vm: Vm<C, S>, id: Id)
    requires
        vm.state.state is Some,
    ensures
        ({
            let told = crate::vm::after_set_preference(vm, id);
            BuildBlock::<P>::started(told.state.state is Some, told.state.preferred) == (
            BuildBlock::<P>::ReadParent { id })
        }),
{
}

/// Without a state manager, every call for blocks is refused at once and nothing is
/// asked of the surroundings; with one, no call is refused at its start.
pub proof fn a_state_manager_decides_on_refusal<'a, P, E>(
    has_state: bool,
    id: Id,
    bytes: &'a [u8],
)
    ensures
        LastAccepted::<E>::started(has_state) is Finished <==> !has_state,
        GetBlock::<P, E>::started(has_state, id) is Finished <==> !has_state,
        ParseBlock::<'a, P, E>::started(has_state, bytes) is Finished <==> !has_state,
        BuildBlock::<P>::started(has_state, id) is Finished <==> !has_state,
        !has_state ==> {
            &&& LastAccepted::<E>::started(has_state) == LastAccepted::<E>::Finished(
                Err(Failure::Refused(Error::StateManager)),
            )
            &&& GetBlock::<P, E>::started(has_state, id) == GetBlock::<P, E>::Finished(
                Err(Failure::Refused(Error::StateManager)),
            )
            &&& ParseBlock::<'a, P, E>::started(has_state, bytes) == ParseBlock::<
                'a,
                P,
                E,
            >::Finished(Err(Failure::Refused(Error::StateManager)))
            &&& BuildBlock::<P>::started(has_state, id) == BuildBlock::<P>::Finished(
                Err(Error::BuildBlock),
            )
        },
{
}

/// A stored block is returned as the block that was asked for, with the state
/// manager and the machine attached and nothing else changed; what keeps it from
/// being read is passed on as it is.
pub proof fn stored_blocks_come_back_bound<P, E>(stored: Result<Block<P>, E>)
    ensures
        stored matches Ok(block) ==> (GetBlock::<P, E>::next(stored) matches GetBlock::Finished(
            Ok(got),
        ) && got.binding == Binding::StateAndVm && got == (Block {
            binding: got.binding,
            ..block
        })),
        stored matches Err(error) ==> GetBlock::<P, E>::next(stored) == GetBlock::<P, E>::Finished(
            Err(Failure::Outside(error)),
        ),
{
}

/// A call waits for some event until it has come to an end, and for none after that:
/// it neither gets stuck nor goes on.
pub proof fn calls_wait_until_they_end<'a, C, P, E>(
    build: BuildBlock<P>,
    parse: ParseBlock<'a, P, E>,
    init: Initialize<C, P, E>,
    request: HandleRequest<'a, E>,
    block: Block<P>,
    error: E,
)
    requires
        block.height < u64::MAX,
    ensures
        !(build is Finished) <==> {
            ||| build.awaits(BuildEvent::ParentRead(block))
            ||| build.awaits(BuildEvent::Made(block))
            ||| build.awaits(BuildEvent::Verified)
        },
        build is Finished ==> forall|event: BuildEvent<P>| !build.awaits(event),
        !(parse is Finished) <==> {
            ||| parse.awaits(ParseEvent::Decoded(Err(error)))
            ||| parse.awaits(ParseEvent::Stored(Err(error)))
        },
        parse is Finished ==> forall|event: ParseEvent<P, E>| !parse.awaits(event),
        !(init is Finished) <==> {
            ||| init.awaits(InitEvent::ClusterStarted)
            ||| init.awaits(InitEvent::DatabaseOpened(Err(error)))
            ||| init.awaits(InitEvent::LastAcceptedChecked(Err(error)))
            ||| init.awaits(InitEvent::LastAcceptedRead(Err(error)))
            ||| init.awaits(InitEvent::GenesisMade(block))
            ||| init.awaits(InitEvent::GenesisAccepted(Err(error)))
        },
        init is Finished ==> forall|event: InitEvent<P, E>| !init.awaits(event),
        !(request is Finished) <==> {
            ||| request.awaits(RequestEvent::Decoded(Err(error)))
            ||| request.awaits(RequestEvent::<E>::Responded(None))
        },
        request is Finished ==> forall|event: RequestEvent<E>| !request.awaits(event),
{
}

/// `calls` is what becomes of a call to build a block as it is handed `events`, each
/// at its time.
pub open spec fn is_build_run<P>(
    calls: Seq<BuildBlock<P>>,
    events: Seq<BuildEvent<P>>,
    times: Seq<i64>,
) -> bool {
    &&& calls.len() == events.len() + 1
    &&& times.len() == events.len()
    &&& forall|i: int|
        #![trigger events[i]]
        0 <= i < events.len() ==> calls[i].awaits(events[i]) && calls[i].steps_to(
            events[i],
            times[i],
            calls[i + 1],
        )
}

/// A machine with a state manager builds a block in three steps: it reads the
/// preferred block, has a child of that block made, and returns what was made once
/// it was verified with the machine's own state manager attached. A machine without one refuses.
pub proof fn a_built_block_is_a_verified_child<C, S, P>(
    vm: Vm<C, S>,
    calls: Seq<BuildBlock<P>>,
    events: Seq<BuildEvent<P>>,
    times: Seq<i64>,
)
    requires
        is_build_run(calls, events, times),
        calls[0] == BuildBlock::<P>::started(vm.state.state is Some, vm.state.preferred),
    ensures
        events.len() <= 3,
        vm.state.state is None ==> events.len() == 0 && calls[0] == BuildBlock::<P>::Finished(
            Err(Error::BuildBlock),
        ),
        vm.state.state is Some ==> calls[0] == (BuildBlock::<P>::ReadParent {
            id: vm.state.preferred,
        }),
        events.len() >= 1 ==> (events[0] matches BuildEvent::ParentRead(parent)
            && calls[1] matches BuildBlock::Make { content }
            && content@ == crate::vm::build_block::child(parent, times[0]) && (parent.id
            == vm.state.preferred ==> content@.parent_id == vm.state.preferred@)),
        events.len() >= 2 ==> (events[1] matches BuildEvent::Made(made) && calls[2] == (
        BuildBlock::<P>::Verify { block: Block { binding: Binding::State, ..made } })),
        vm.state.state is Some && calls.last() is Finished ==> {
            &&& events.len() == 3
            &&& events[2] == BuildEvent::<P>::Verified
            &&& events[1] matches BuildEvent::Made(made)
            &&& calls[3] == BuildBlock::<P>::Finished(
                Ok(Block { binding: Binding::State, ..made }),
            )
        },
{
    if events.len() >= 1 {
        assert(calls[0].awaits(events[0]));
    }
    if events.len() >= 2 {
        assert(calls[1].awaits(events[1]));
    }
    if events.len() >= 3 {
        assert(calls[2].awaits(events[2]));
    }
    if events.len() >= 4 {
        assert(calls[3].awaits(events[3]));
    }
}

/// `calls` is what becomes of a call to parse a block as it is handed `events`.
pub open spec fn is_parse_run<'a, P, E>(
    calls: Seq<ParseBlock<'a, P, E>>,
    events: Seq<ParseEvent<P, E>>,
) -> bool {
    &&& calls.len() == events.len() + 1
    &&& forall|i: int|
        #![trigger events[i]]
        0 <= i < events.len() ==> calls[i].awaits(events[i]) && calls[i + 1] == calls[i].next(
            events[i],
        )
}

/// A machine with a state manager parses bytes in two steps. Bytes that cannot be
/// decoded are an error, which is passed on. Else the block that is stored under
/// the identifier of the decoded one is returned as it was read, and where none
/// can be read, the decoded block, not decided yet and bound to the state manager
/// and the machine: looking it up never fails the call.
pub proof fn a_parsed_block_is_the_stored_or_the_decoded_one<'a, P, E>(
    has_state: bool,
    bytes: &'a [u8],
    calls: Seq<ParseBlock<'a, P, E>>,
    events: Seq<ParseEvent<P, E>>,
)
    requires
        is_parse_run(calls, events),
        calls[0] == ParseBlock::<'a, P, E>::started(has_state, bytes),
    ensures
        events.len() <= 2,
        has_state || events.len() == 0,
        events.len() >= 1 ==> (events[0] matches ParseEvent::Decoded(decoded) && match decoded {
            Ok(block) => calls[1] matches ParseBlock::Lookup { block: candidate }
                && candidate.id == block.id && candidate == ParseBlock::<'a, P, E>::candidate(
                block,
            ),
            Err(error) => events.len() == 1 && calls[1] == ParseBlock::<'a, P, E>::Finished(
                Err(Failure::Outside(error)),
            ),
        }),
        events.len() == 2 ==> {
            &&& events[0] matches ParseEvent::Decoded(Ok(decoded))
            &&& events[1] matches ParseEvent::Stored(stored)
            &&& calls[2] == ParseBlock::<'a, P, E>::Finished(
                Ok(
                    match stored {
                        Ok(previous) => previous,
                        Err(_) => ParseBlock::<'a, P, E>::candidate(decoded),
                    },
                ),
            )
            &&& stored is Err ==> {
                &&& calls[2] matches ParseBlock::Finished(Ok(got))
                &&& got.id == decoded.id
                &&& got.height == decoded.height
                &&& got.payload == decoded.payload
                &&& got.status is Processing
                &&& got.binding is StateAndVm
            }
        },
{
    if events.len() >= 1 {
        assert(calls[0].awaits(events[0]));
    }
    if events.len() >= 2 {
        assert(calls[1].awaits(events[1]));
    }
    if events.len() >= 3 {
        assert(calls[2].awaits(events[2]));
    }
}

/// `calls` and `machines` are what becomes of a call that starts a machine, and of
/// that machine, as the call is handed `events`.
pub open spec fn is_init_run<C, S, P, E>(
    calls: Seq<Initialize<C, P, E>>,
    machines: Seq<Vm<C, S>>,
    events: Seq<InitEvent<P, E>>,
) -> bool {
    &&& calls.len() == events.len() + 1
    &&& machines.len() == events.len() + 1
    &&& forall|i: int|
        #![trigger events[i]]
        0 <= i < events.len() ==> calls[i].awaits(events[i]) && calls[i].steps_to(
            events[i],
            calls[i + 1],
        ) && machines[i + 1] == calls[i].machine_after(events[i], machines[i])
}

/// However far the start of a machine gets, it takes over the context once the
/// cluster runs, attaches no state manager, leaves the machine as bootstrapped as it
/// was, and touches the preferred block only by ending well. It takes five events
/// at most.
pub proof fn starting_a_machine_is_cautious<C, S, P, E>(
    ctx: Option<C>,
    calls: Seq<Initialize<C, P, E>>,
    machines: Seq<Vm<C, S>>,
    events: Seq<InitEvent<P, E>>,
)
    requires
        is_init_run(calls, machines, events),
        calls[0] matches Initialize::StartCluster { ctx: handed, .. } && handed == ctx,
    ensures
        events.len() <= 5,
        machines.last().state.state == machines[0].state.state,
        machines.last().state.bootstrapped == machines[0].state.bootstrapped,
        machines.last().state.ctx == (if events.len() == 0 {
            machines[0].state.ctx
        } else {
            ctx
        }),
        !(calls.last() matches Initialize::Finished(Ok(_)))
            ==> machines.last().state.preferred == machines[0].state.preferred,
{
    unfold_init_run(calls, machines, events);
}

/// A start that ends well leaves the last accepted block preferred: the one that was
/// stored, or, where no block was ever accepted, the first block, made as every
/// first block is and accepted with the state manager that the start has opened.
pub proof fn a_started_machine_prefers_the_last_accepted_block<C, S, P, E>(
    calls: Seq<Initialize<C, P, E>>,
    machines: Seq<Vm<C, S>>,
    events: Seq<InitEvent<P, E>>,
)
    requires
        is_init_run(calls, machines, events),
        calls[0] is StartCluster,
        calls.last() matches Initialize::Finished(Ok(_)),
    ensures
        events.len() >= 4,
        events[0] is ClusterStarted,
        events[1] matches InitEvent::DatabaseOpened(Ok(_)),
        events[2] matches InitEvent::LastAcceptedChecked(Ok(has_last_accepted)) && (
        if has_last_accepted {
            &&& events.len() == 4
            &&& events[3] matches InitEvent::LastAcceptedRead(Ok(id))
            &&& machines.last().state.preferred == id
        } else {
            &&& events.len() == 5
            &&& calls[3] matches Initialize::MakeGenesis { content }
            &&& content@ == crate::vm::initialize::genesis()
            &&& events[3] matches InitEvent::GenesisMade(made)
            &&& calls[4] == (Initialize::<C, P, E>::AcceptGenesis {
                block: Block { binding: Binding::OpenedState, ..made },
            })
            &&& events[4] matches InitEvent::GenesisAccepted(Ok(_))
            &&& machines.last().state.preferred == made.id
        }),
{
    unfold_init_run(calls, machines, events);
}

/// A start that fails passes on the error of the work that failed, which is the last
/// thing that was done for it.
pub proof fn a_failed_start_passes_the_error_on<C, S, P, E>(
    calls: Seq<Initialize<C, P, E>>,
    machines: Seq<Vm<C, S>>,
    events: Seq<InitEvent<P, E>>,
    error: E,
)
    requires
        is_init_run(calls, machines, events),
        calls[0] is StartCluster,
        calls.last() == Initialize::<C, P, E>::Finished(Err(error)),
    ensures
        events.len() >= 2,
        ({
            ||| events.last() == InitEvent::<P, E>::DatabaseOpened(Err(error))
            ||| events.last() == InitEvent::<P, E>::LastAcceptedChecked(Err(error))
            ||| events.last() == InitEvent::<P, E>::LastAcceptedRead(Err(error))
            ||| events.last() == InitEvent::<P, E>::GenesisAccepted(Err(error))
        }),
{
    unfold_init_run(calls, machines, events);
}

/// Lays the steps of a run open, one by one.
proof fn unfold_init_run<C, S, P, E>(
    calls: Seq<Initialize<C, P, E>>,
    machines: Seq<Vm<C, S>>,
    events: Seq<InitEvent<P, E>>,
)
    requires
        is_init_run(calls, machines, events),
        calls[0] is StartCluster,
    ensures
        events.len() <= 5,
        events.len() >= 1 ==> calls[0].awaits(events[0]),
        events.len() >= 2 ==> calls[1].awaits(events[1]),
        events.len() >= 3 ==> calls[2].awaits(events[2]),
        events.len() >= 4 ==> calls[3].awaits(events[3]),
        events.len() >= 5 ==> calls[4].awaits(events[4]),
{
    if events.len() >= 6 {
        assert(calls[0].awaits(events[0]));
        assert(calls[1].awaits(events[1]));
        assert(calls[2].awaits(events[2]));
        assert(calls[3].awaits(events[3]));
        assert(calls[4].awaits(events[4]));
        assert(calls[5].awaits(events[5]));
    }
}

/// A request that was decoded is answered with the response of the handler, in UTF-8
/// and without headers; that the handler has none, or that the request cannot be
/// decoded, is an error.
pub proof fn a_request_is_answered_with_the_response<'a, E>(
    start: HandleRequest<'a, E>,
    decoded: Result<String, E>,
    respond: HandleRequest<'a, E>,
    response: Option<String>,
    end: HandleRequest<'a, E>,
)
    requires
        start is Decode,
        start.steps_to(RequestEvent::Decoded(decoded), respond),
        respond.awaits(RequestEvent::<E>::Responded(response)) ==> respond.steps_to(
            RequestEvent::Responded(response),
            end,
        ),
    ensures
        decoded matches Err(error) ==> respond == HandleRequest::<'a, E>::Finished(
            Err(Failure::Outside(error)),
        ),
        decoded matches Ok(request) ==> {
            &&& respond matches HandleRequest::Respond { request: handed }
            &&& handed == request
            &&& response is None ==> end == HandleRequest::<'a, E>::Finished(
                Err(Failure::Refused(Error::Request)),
            )
            &&& response matches Some(text) ==> (end matches HandleRequest::Finished(
                Ok((body, headers)),
            ) && crate::api::chain_handlers::bytes_content(body) == vstd::utf8::encode_utf8(text@)
                && headers@.len() == 0)
        },
{
}

} // verus!
