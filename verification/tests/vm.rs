use sui_subnet::choices::Status;
use sui_subnet::cluster::{ClusterOptions, Env};
use sui_subnet::errors::{Error, ErrorKind};
use sui_subnet::http::LockOptions;
use sui_subnet::ids::{Id, NodeId};
use sui_subnet::snow::State;
use sui_subnet::vm::{Vm, VmState};

type Machine = Vm<&'static str, u8>;

fn id(byte: u8) -> Id {
    Id { bytes: [byte; 32] }
}

fn node() -> NodeId {
    NodeId { bytes: [1; 20] }
}

#[test]
fn a_new_machine_is_in_its_initial_state() {
    let vm = Machine::new();
    assert_eq!(vm.state.ctx, None);
    assert_eq!(vm.state.state, None);
    assert_eq!(vm.state.preferred, id(0));
    assert!(!vm.is_bootstrapped());
    assert_eq!(vm, Machine::default());
    assert_eq!(vm.state, VmState::default());
}

#[test]
fn the_empty_identifier_agrees_with_the_network() {
    let empty = avalanche_types::ids::Id::empty();
    assert_eq!(empty.as_ref(), &Id::empty().bytes[..]);
}

#[test]
fn the_default_status_is_unknown() {
    assert_eq!(Status::default(), Status::Unknown("default".to_string()));
}

#[test]
fn normal_operation_ends_bootstrapping() {
    let mut vm = Machine::new();
    assert_eq!(vm.set_state(State::Initializing), Ok(()));
    assert!(!vm.is_bootstrapped());
    assert_eq!(vm.set_state(State::NormalOp), Ok(()));
    assert!(vm.is_bootstrapped());
    assert_eq!(vm.set_state(State::Bootstrapping), Ok(()));
    assert!(!vm.is_bootstrapped());
    assert_eq!(vm.set_state(State::NormalOp), Ok(()));
    assert_eq!(vm.set_state(State::Initializing), Ok(()));
    assert!(!vm.is_bootstrapped());
}

#[test]
fn state_sync_is_refused_and_changes_nothing() {
    let mut vm = Machine::new();
    vm.set_state(State::NormalOp).unwrap();
    vm.set_preference(id(4)).unwrap();
    assert_eq!(vm.set_state(State::StateSyncing), Err(Error::StateSync));
    assert!(vm.is_bootstrapped());
    assert_eq!(vm.state.preferred, id(4));
    assert_eq!(vm.state.ctx, None);
    assert_eq!(vm.state.state, None);
}

#[test]
fn refused_phases_alone_do_not_end_bootstrapping() {
    let mut vm = Machine::new();
    assert_eq!(vm.set_state(State::StateSyncing), Err(Error::StateSync));
    assert_eq!(vm.set_state(State::StateSyncing), Err(Error::StateSync));
    assert!(!vm.is_bootstrapped());
    assert_eq!(vm, Machine::new());
}

#[test]
fn the_last_preference_counts() {
    let mut vm = Machine::new();
    assert_eq!(vm.set_preference(id(1)), Ok(()));
    assert_eq!(vm.set_preference(id(2)), Ok(()));
    assert_eq!(vm.state.preferred, id(2));
    assert!(!vm.is_bootstrapped());
}

#[test]
fn preferences_and_phases_commute() {
    let mut one = Machine::new();
    one.set_preference(id(3)).unwrap();
    one.set_state(State::NormalOp).unwrap();
    let mut other = Machine::new();
    other.set_state(State::NormalOp).unwrap();
    other.set_preference(id(3)).unwrap();
    assert_eq!(one, other);
}

#[test]
fn errors_have_their_kinds_and_texts() {
    let cases = [
        (Error::StateSync, ErrorKind::Other, "state sync is not supported"),
        (Error::StateManager, ErrorKind::NotFound, "state manager not found"),
        (Error::BuildBlock, ErrorKind::Other, "not implement"),
        (Error::GetAncestors, ErrorKind::Unsupported, "get_ancestors not implemented"),
        (Error::BatchedParseBlock, ErrorKind::Unsupported, "batched_parse_block not implemented"),
        (Error::IssueTx, ErrorKind::Unsupported, "issue_tx not implemented"),
        (Error::Request, ErrorKind::Other, "failed to handle request"),
    ];
    for (error, kind, text) in cases {
        assert_eq!(error.kind(), kind);
        assert_eq!(error.message(), text);
    }
}

#[test]
fn what_is_not_implemented_is_refused() {
    let vm = Machine::new();
    assert_eq!(vm.get_ancestors(id(1), 1, 2, 3), Err(Error::GetAncestors));
    assert_eq!(vm.batched_parse_block::<u8>(&[vec![1]]), Err(Error::BatchedParseBlock));
    assert_eq!(vm.issue_tx::<u8>(), Err(Error::IssueTx));
}

#[test]
fn messages_are_taken_and_ignored() {
    let vm = Machine::new();
    assert_eq!(vm.app_request(&node(), 1, 2, &[3]), Ok(()));
    assert_eq!(vm.app_request_failed(&node(), 1), Ok(()));
    assert_eq!(vm.app_response(&node(), 1, &[3]), Ok(()));
    assert_eq!(vm.app_gossip(&node(), &[3]), Ok(()));
    assert_eq!(vm.cross_chain_app_request(&id(1), 1, 2, &[3]), Ok(()));
    assert_eq!(vm.cross_chain_app_request_failed(&id(1), 1), Ok(()));
    assert_eq!(vm.cross_chain_app_response(&id(1), 1, &[3]), Ok(()));
    assert_eq!(vm.connected(&node()), Ok(()));
    assert_eq!(vm.disconnected(&node()), Ok(()));
    assert_eq!(vm.inner_build_block(vec![1, 2, 3]), Ok(()));
    assert_eq!(vm.shutdown(), Ok(()));
    assert_eq!(vm, Machine::new());
}

#[test]
fn the_machine_is_healthy() {
    assert_eq!(Machine::new().health_check(), Ok(b"200".to_vec()));
}

#[test]
fn the_version_is_that_of_the_crate() {
    assert_eq!(Machine::new().version(), Ok("0.1.0".to_string()));
}

#[test]
fn the_cluster_is_local() {
    assert_eq!(
        Machine::new().init_chain(),
        ClusterOptions {
            env: Env::NewLocal,
            fullnode_address: Some(format!("127.0.0.1:{}", 9000)),
            indexer_address: None,
            pg_address: None,
            faucet_address: None,
            epoch_duration_ms: None,
            use_indexer_experimental_methods: false,
            config_dir: Some("/tmp/.suiconfig".to_string()),
        }
    );
}

#[test]
fn the_static_endpoint_is_offered() {
    let mut vm = Machine::new();
    let handlers = vm.create_static_handlers("static").unwrap();
    assert_eq!(handlers.entries.len(), 1);
    let (path, endpoint) = &handlers.entries[0];
    assert_eq!(path, "/static");
    assert_eq!(endpoint.lock_option, LockOptions::WriteLock);
    assert_eq!(endpoint.handler, "static");
    assert_eq!(endpoint.server_addr, None);
    assert_eq!(vm, Machine::new());
}

#[test]
fn the_chain_endpoint_is_offered_and_has_no_methods() {
    let mut vm = Machine::new();
    let handlers = vm.create_handlers("handle").unwrap();
    assert_eq!(handlers.entries.len(), 1);
    let (path, endpoint) = &handlers.entries[0];
    assert_eq!(path, "/rpc");
    assert_eq!(endpoint.lock_option, LockOptions::WriteLock);
    assert_eq!(endpoint.server_addr, None);
    assert_eq!(endpoint.handler.handler.io.iter().count(), 0);
    assert_eq!(vm, Machine::new());
}
