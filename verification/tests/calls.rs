use sui_subnet::block::{Binding, Block, NewBlock};
use sui_subnet::choices::Status;
use sui_subnet::errors::{Error, Failure};
use sui_subnet::ids::Id;
use sui_subnet::snow::State;
use sui_subnet::vm::build_block::{unix_seconds, BuildBlock, BuildEvent};
use sui_subnet::vm::get_block::GetBlock;
use sui_subnet::vm::initialize::{InitEvent, Initialize};
use sui_subnet::vm::last_accepted::LastAccepted;
use sui_subnet::vm::parse_block::{ParseBlock, ParseEvent};
use sui_subnet::vm::Vm;

type Machine = Vm<&'static str, u8>;
type Payload = &'static str;
type Failed = &'static str;
type Start = Initialize<&'static str, Payload, Failed>;

fn id(byte: u8) -> Id {
    Id { bytes: [byte; 32] }
}

fn block(byte: u8, height: u64, status: Status) -> Block<Payload> {
    Block { id: id(byte), height, status, binding: Binding::Nothing, payload: "payload" }
}

fn with_state() -> Machine {
    let mut vm = Machine::new();
    vm.state.state = Some(7);
    vm.set_preference(id(9)).unwrap();
    vm
}

#[test]
fn without_a_state_manager_calls_for_blocks_are_refused() {
    let vm = Machine::new();
    let refused = Failure::Refused(Error::StateManager);
    let call: LastAccepted<Failed> = vm.last_accepted();
    assert_eq!(call, LastAccepted::Finished(Err(refused)));
    let refused = Failure::Refused(Error::StateManager);
    let call: GetBlock<Payload, Failed> = vm.get_block(id(1));
    assert_eq!(call, GetBlock::Finished(Err(refused)));
    let refused = Failure::Refused(Error::StateManager);
    let call: ParseBlock<Payload, Failed> = vm.parse_block(&[1, 2]);
    assert_eq!(call, ParseBlock::Finished(Err(refused)));
    let call: BuildBlock<Payload> = vm.build_block();
    assert_eq!(call, BuildBlock::Finished(Err(Error::BuildBlock)));
}

#[test]
fn the_last_accepted_block_is_the_stored_one() {
    let call: LastAccepted<Failed> = with_state().last_accepted();
    assert_eq!(call, LastAccepted::Read);
    assert_eq!(call.resume(Ok(id(4))), LastAccepted::Finished(Ok(id(4))));
    let call: LastAccepted<Failed> = with_state().last_accepted();
    assert_eq!(call.resume(Err("gone")), LastAccepted::Finished(Err(Failure::Outside("gone"))));
}

#[test]
fn a_stored_block_comes_back_bound() {
    let call: GetBlock<Payload, Failed> = with_state().get_block(id(5));
    assert_eq!(call, GetBlock::Read { id: id(5) });
    let stored = block(5, 3, Status::Accepted);
    let expected = Block { binding: Binding::StateAndVm, ..block(5, 3, Status::Accepted) };
    assert_eq!(call.resume(Ok(stored)), GetBlock::Finished(Ok(expected)));
    let call: GetBlock<Payload, Failed> = with_state().get_block(id(5));
    assert_eq!(call.resume(Err("gone")), GetBlock::Finished(Err(Failure::Outside("gone"))));
}

#[test]
fn a_known_block_is_parsed_to_the_stored_one() {
    let bytes = [1u8, 2, 3];
    let call: ParseBlock<Payload, Failed> = with_state().parse_block(&bytes);
    assert_eq!(call, ParseBlock::Decode { bytes: &bytes[..] });
    let decoded = block(6, 2, Status::default());
    let candidate = Block {
        status: Status::Processing,
        binding: Binding::StateAndVm,
        ..block(6, 2, Status::default())
    };
    let call = call.resume(ParseEvent::Decoded(Ok(decoded)));
    assert_eq!(call, ParseBlock::Lookup { block: candidate });
    let stored = block(6, 2, Status::Accepted);
    let call = call.resume(ParseEvent::Stored(Ok(stored)));
    assert_eq!(call, ParseBlock::Finished(Ok(block(6, 2, Status::Accepted))));
}

#[test]
fn an_unknown_block_is_parsed_to_the_decoded_one() {
    let call: ParseBlock<Payload, Failed> = with_state().parse_block(&[1]);
    let call = call.resume(ParseEvent::Decoded(Ok(block(6, 2, Status::Rejected))));
    let call = call.resume(ParseEvent::Stored(Err("not found")));
    let expected = Block {
        status: Status::Processing,
        binding: Binding::StateAndVm,
        ..block(6, 2, Status::Rejected)
    };
    assert_eq!(call, ParseBlock::Finished(Ok(expected)));
}

#[test]
fn bytes_that_cannot_be_decoded_are_an_error() {
    let call: ParseBlock<Payload, Failed> = with_state().parse_block(&[]);
    let call = call.resume(ParseEvent::Decoded(Err("garbage")));
    assert_eq!(call, ParseBlock::Finished(Err(Failure::Outside("garbage"))));
}

#[test]
fn a_block_is_built_on_the_preferred_one() {
    let call: BuildBlock<Payload> = with_state().build_block();
    assert_eq!(call, BuildBlock::ReadParent { id: id(9) });
    let call = call.resume_at(BuildEvent::ParentRead(block(9, 41, Status::Accepted)), 1700000000);
    let content = NewBlock {
        parent_id: id(9),
        height: 42,
        timestamp: 1700000000,
        data: vec![],
        status: Status::Processing,
    };
    assert_eq!(call, BuildBlock::Make { content });
    let call = call.resume_at(BuildEvent::Made(block(10, 42, Status::Processing)), 1700000001);
    let bound = Block { binding: Binding::State, ..block(10, 42, Status::Processing) };
    assert_eq!(call, BuildBlock::Verify { block: bound });
    let call = call.resume_at(BuildEvent::Verified, 1700000002);
    let bound = Block { binding: Binding::State, ..block(10, 42, Status::Processing) };
    assert_eq!(call, BuildBlock::Finished(Ok(bound)));
}

#[test]
fn a_block_carries_the_present_time() {
    let before = chrono::Utc::now().timestamp() as u64;
    let call: BuildBlock<Payload> = with_state().build_block();
    let call = call.resume(BuildEvent::ParentRead(block(9, 0, Status::Accepted)));
    let after = chrono::Utc::now().timestamp() as u64;
    match call {
        BuildBlock::Make { content } => {
            assert!(before <= content.timestamp && content.timestamp <= after);
            assert!(content.timestamp > 1_600_000_000);
            assert_eq!(content.height, 1);
            assert_eq!(content.parent_id, id(9));
        }
        other => panic!("{:?}", other),
    }
}

#[test]
fn the_moments_that_can_be_expressed() {
    assert_eq!(chrono::DateTime::<chrono::Utc>::MIN_UTC.timestamp(), -8_334_601_228_800);
    assert_eq!(chrono::DateTime::<chrono::Utc>::MAX_UTC.timestamp(), 8_210_266_876_799);
}

#[test]
fn moments_before_the_epoch_wrap_around() {
    assert_eq!(unix_seconds(0), 0);
    assert_eq!(unix_seconds(i64::MAX), 9223372036854775807);
    assert_eq!(unix_seconds(-1), u64::MAX);
    assert_eq!(unix_seconds(i64::MIN), 9223372036854775808);
}

#[test]
fn the_highest_parent_that_has_a_child() {
    let call: BuildBlock<Payload> = with_state().build_block();
    let call = call.resume_at(BuildEvent::ParentRead(block(9, u64::MAX - 1, Status::Accepted)), 5);
    match call {
        BuildBlock::Make { content } => assert_eq!(content.height, u64::MAX),
        other => panic!("{:?}", other),
    }
}

fn opened(vm: &mut Machine) -> Start {
    let call: Start = vm.initialize(Some("context"), b"ignored", b"ignored", b"ignored");
    let call = call.resume(vm, InitEvent::ClusterStarted);
    call.resume(vm, InitEvent::DatabaseOpened(Ok(())))
}

#[test]
fn the_context_is_taken_over_once_the_cluster_runs() {
    let mut vm = Machine::new();
    let options = vm.init_chain();
    let call: Start = vm.initialize(Some("context"), &[], &[], &[]);
    assert_eq!(call, Initialize::StartCluster { options, ctx: Some("context") });
    assert_eq!(vm, Machine::new());
    let call = call.resume(&mut vm, InitEvent::ClusterStarted);
    assert_eq!(call, Initialize::OpenDatabase);
    assert_eq!(vm.state.ctx, Some("context"));
    let call = call.resume(&mut vm, InitEvent::DatabaseOpened(Ok(())));
    assert_eq!(call, Initialize::CheckLastAccepted);
}

#[test]
fn a_chain_with_history_starts_at_its_last_accepted_block() {
    let mut vm = Machine::new();
    let call = opened(&mut vm);
    let call = call.resume(&mut vm, InitEvent::LastAcceptedChecked(Ok(true)));
    assert_eq!(call, Initialize::ReadLastAccepted);
    let call = call.resume(&mut vm, InitEvent::LastAcceptedRead(Ok(id(8))));
    assert_eq!(call, Initialize::Finished(Ok(())));
    assert_eq!(vm.state.preferred, id(8));
}

#[test]
fn a_chain_without_history_starts_at_its_first_block() {
    let mut vm = Machine::new();
    vm.set_state(State::NormalOp).unwrap();
    let call = opened(&mut vm);
    let call = call.resume(&mut vm, InitEvent::LastAcceptedChecked(Ok(false)));
    let content = NewBlock {
        parent_id: Id { bytes: [0; 32] },
        height: 0,
        timestamp: 0,
        data: b"hello world".to_vec(),
        status: Status::Unknown("default".to_string()),
    };
    assert_eq!(call, Initialize::MakeGenesis { content });
    let call = call.resume(&mut vm, InitEvent::GenesisMade(block(3, 0, Status::default())));
    let bound = Block { binding: Binding::OpenedState, ..block(3, 0, Status::default()) };
    assert_eq!(call, Initialize::AcceptGenesis { block: bound });
    assert_eq!(vm.state.preferred, id(0));
    let call = call.resume(&mut vm, InitEvent::GenesisAccepted(Ok(())));
    assert_eq!(call, Initialize::Finished(Ok(())));
    assert_eq!(vm.state.preferred, id(3));
    assert_eq!(vm.state.ctx, Some("context"));
    assert_eq!(vm.state.state, None);
    assert!(vm.is_bootstrapped());
}

#[test]
fn a_failed_start_leaves_the_preference_and_passes_the_error_on() {
    let mut vm = with_state();
    let call: Start = vm.initialize(None, &[], &[], &[]);
    let call = call.resume(&mut vm, InitEvent::ClusterStarted);
    let call = call.resume(&mut vm, InitEvent::DatabaseOpened(Err("closed")));
    assert_eq!(call, Initialize::Finished(Err("closed")));
    assert_eq!(vm, with_state());

    let call = opened(&mut vm);
    let call = call.resume(&mut vm, InitEvent::LastAcceptedChecked(Err("broken")));
    assert_eq!(call, Initialize::Finished(Err("broken")));

    let call = opened(&mut vm);
    let call = call.resume(&mut vm, InitEvent::LastAcceptedChecked(Ok(true)));
    let call = call.resume(&mut vm, InitEvent::LastAcceptedRead(Err("unreadable")));
    assert_eq!(call, Initialize::Finished(Err("unreadable")));

    let call = opened(&mut vm);
    let call = call.resume(&mut vm, InitEvent::LastAcceptedChecked(Ok(false)));
    let call = call.resume(&mut vm, InitEvent::GenesisMade(block(3, 0, Status::default())));
    let call = call.resume(&mut vm, InitEvent::GenesisAccepted(Err("full")));
    assert_eq!(call, Initialize::Finished(Err("full")));

    assert_eq!(vm.state.preferred, id(9));
    assert_eq!(vm.state.ctx, Some("context"));
}
