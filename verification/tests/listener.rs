use dks3_login::config::ServerConfig;
use dks3_login::keys::KeyManager;
use dks3_login::listener::{
    absorb_task_outcome, listener_step, ListenerAction, ListenerEvent, ListenerPhase, LoginServer,
    StartError, TaskOutcome,
};

fn sample_server() -> LoginServer {
    let config = ServerConfig::new(String::from("127.0.0.1"), 50000);
    let keys = KeyManager::new(vec![7, 13, 42, 99]);
    LoginServer::new(config, keys)
}

#[test]
fn new_keeps_config_and_keys() {
    let server = sample_server();
    assert_eq!(server.get_config().get_server_ip().as_str(), "127.0.0.1");
    assert_eq!(server.get_config().get_login_port(), 50000);
    assert_eq!(server.get_key_manager().get_key_material(), &vec![7, 13, 42, 99]);
}

#[test]
fn bind_target_valid_config() {
    let server = sample_server();
    assert_eq!(server.bind_target(), Ok(String::from("127.0.0.1:50000")));
}

#[test]
fn bind_target_empty_host_is_config_error() {
    let config = ServerConfig::new(String::new(), 50000);
    let server = LoginServer::new(config, KeyManager::new(vec![1]));
    assert_eq!(server.bind_target(), Err(StartError::InvalidAddress));
}

#[test]
fn bind_target_accepts_bracketed_ipv6_host() {
    let config = ServerConfig::new(String::from("[::1]"), 50000);
    let server = LoginServer::new(config, KeyManager::new(vec![1]));
    assert_eq!(server.bind_target(), Ok(String::from("[::1]:50000")));
}

#[test]
fn into_parts_hands_over_the_task_state() {
    let server = sample_server();
    let (conn_id, config, keys) = server.dispatch(9).into_parts();
    assert_eq!(conn_id, 9);
    assert_eq!(config.get_server_ip(), server.get_config().get_server_ip());
    assert_eq!(config.get_login_port(), server.get_config().get_login_port());
    assert_eq!(keys.get_key_material(), server.get_key_manager().get_key_material());
}

#[test]
fn describe_names_the_address() {
    assert_eq!(
        StartError::InvalidAddress.describe("bad:host:50000"),
        "bad:host:50000 is not a valid address"
    );
    assert_eq!(
        StartError::BindFailed.describe("127.0.0.1:50000"),
        "Error binding to <127.0.0.1:50000>"
    );
}

#[test]
fn startup_sequence_reaches_accepting() {
    let (p, a) = listener_step(ListenerPhase::Uninitialized, ListenerEvent::StartRequested);
    assert_eq!((p, a), (ListenerPhase::Resolving, ListenerAction::Resolve));
    let (p, a) = listener_step(p, ListenerEvent::ResolveSucceeded);
    assert_eq!((p, a), (ListenerPhase::Binding, ListenerAction::Bind));
    let (p, a) = listener_step(p, ListenerEvent::BindSucceeded);
    assert_eq!((p, a), (ListenerPhase::Accepting, ListenerAction::Accept));
}

#[test]
fn resolve_failure_is_fatal() {
    let (p, a) = listener_step(ListenerPhase::Resolving, ListenerEvent::ResolveFailed);
    assert_eq!(p, ListenerPhase::Terminated);
    assert_eq!(a, ListenerAction::FailStartup(StartError::InvalidAddress));
}

#[test]
fn bind_failure_is_fatal_and_loop_never_entered() {
    let (p, a) = listener_step(ListenerPhase::Binding, ListenerEvent::BindFailed);
    assert_eq!(p, ListenerPhase::Terminated);
    assert_eq!(a, ListenerAction::FailStartup(StartError::BindFailed));
    // Whatever arrives afterwards, the listener never acts again.
    for e in [
        ListenerEvent::StartRequested,
        ListenerEvent::ResolveSucceeded,
        ListenerEvent::BindSucceeded,
        ListenerEvent::AcceptSucceeded,
        ListenerEvent::AcceptFailed,
    ] {
        let (p2, a2) = listener_step(p, e);
        assert_eq!(p2, ListenerPhase::Terminated);
        assert_eq!(a2, ListenerAction::Ignore);
    }
}

#[test]
fn accept_failure_keeps_the_loop_alive() {
    let (p, a) = listener_step(ListenerPhase::Accepting, ListenerEvent::AcceptFailed);
    assert_eq!((p, a), (ListenerPhase::Accepting, ListenerAction::Accept));
    // A later valid connection is still accepted and dispatched.
    let (p, a) = listener_step(p, ListenerEvent::AcceptSucceeded);
    assert_eq!((p, a), (ListenerPhase::Accepting, ListenerAction::Dispatch));
}

#[test]
fn handler_outcome_never_moves_the_listener() {
    for outcome in [TaskOutcome::Completed, TaskOutcome::Failed, TaskOutcome::Panicked] {
        let p = absorb_task_outcome(ListenerPhase::Accepting, outcome);
        assert_eq!(p, ListenerPhase::Accepting);
        let (p, a) = listener_step(p, ListenerEvent::AcceptSucceeded);
        assert_eq!((p, a), (ListenerPhase::Accepting, ListenerAction::Dispatch));
    }
}

#[test]
fn dispatch_clones_shared_state() {
    let server = sample_server();
    let task = server.dispatch(1);
    assert_eq!(task.get_conn_id(), 1);
    assert_eq!(task.get_config().get_server_ip(), server.get_config().get_server_ip());
    assert_eq!(task.get_config().get_login_port(), server.get_config().get_login_port());
    assert_eq!(
        task.get_key_manager().get_key_material(),
        server.get_key_manager().get_key_material()
    );
}

#[test]
fn many_dispatches_are_independent_and_value_equal() {
    let server = sample_server();
    let tasks: Vec<_> = (0..5u64).map(|id| server.dispatch(id)).collect();
    for (i, t) in tasks.iter().enumerate() {
        assert_eq!(t.get_conn_id(), i as u64);
    }
    for t in &tasks {
        for u in &tasks {
            assert_eq!(t.get_config().get_server_ip(), u.get_config().get_server_ip());
            assert_eq!(t.get_config().get_login_port(), u.get_config().get_login_port());
            assert_eq!(
                t.get_key_manager().get_key_material(),
                u.get_key_manager().get_key_material()
            );
        }
    }
}

#[test]
fn config_clone_observes_same_values() {
    let config = ServerConfig::new(String::from("10.0.0.2"), 19000);
    let copy = config.clone();
    assert_eq!(copy.get_server_ip(), config.get_server_ip());
    assert_eq!(copy.get_login_port(), config.get_login_port());
}

#[test]
fn key_manager_clone_observes_same_material() {
    let keys = KeyManager::new(vec![0, 255, 128]);
    let copy = keys.clone();
    assert_eq!(copy.get_key_material(), keys.get_key_material());
}
