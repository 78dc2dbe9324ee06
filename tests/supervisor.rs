use kirc::events::{Notification, ServerStatusPayload};
use kirc::runtime::{ServerRuntime, ShutdownPlan, SHUTDOWN_TIMEOUT_MS};
use kirc::supervisor::IRCClientState;
use kirc::types::{AppState, KircError, ServerCommand, ServerStatus};

type State = IRCClientState<u32, u32>;

fn id(s: &str) -> String {
    s.to_string()
}

fn status(server_id: &str, status: ServerStatus) -> Notification {
    Notification::ServerStatus(ServerStatusPayload { server_id: id(server_id), status })
}

/// Puts `server_id` in the `Connected` state with task handle `handle` and
/// channel `tx`.
fn connected(state: &mut State, server_id: &str, handle: u32, tx: u32) {
    state.servers.insert(id(server_id), ServerRuntime::Connected { tx, handle });
}

#[test]
fn new_state_is_running_and_empty() {
    let state = State::new();
    assert_eq!(state.app_state(), Some(AppState::Running));
    assert!(!state.is_shutting_down());
    assert_eq!(state.servers.status_of(&id("s1")), ServerStatus::Disconnected);
}

#[test]
fn connect_emits_connecting() {
    let mut state = State::new();
    assert_eq!(state.check_connect(&id("s1")), Ok(()));
    let n = state.begin_connect(id("s1"), 7);
    assert_eq!(n, status("s1", ServerStatus::Connecting));
    assert_eq!(state.servers.status_of(&id("s1")), ServerStatus::Connecting);
}

#[test]
fn second_connect_is_already_active() {
    let mut state = State::new();
    let mut spawned: u32 = 0;
    let mut rejected: u32 = 0;
    let handles: [u32; 2] = [0, 1];
    for handle in handles {
        match state.check_connect(&id("s1")) {
            Ok(()) => {
                state.begin_connect(id("s1"), handle);
                spawned += 1;
            }
            Err(e) => {
                assert_eq!(e, KircError::AlreadyActive);
                rejected += 1;
            }
        }
    }
    assert_eq!(spawned, 1);
    assert_eq!(rejected, 1);
    assert!(matches!(state.servers.get(&id("s1")), Some(ServerRuntime::Connecting { handle: 0 })));
}

#[test]
fn connect_refused_while_registering_connected_or_disconnecting() {
    let mut state = State::new();
    state.servers.insert(id("a"), ServerRuntime::Registering { tx: 1, handle: 1 });
    state.servers.insert(id("b"), ServerRuntime::Connected { tx: 2, handle: 2 });
    state.servers.insert(id("c"), ServerRuntime::Disconnecting { handle: 3 });
    for s in ["a", "b", "c"] {
        assert_eq!(state.check_connect(&id(s)), Err(KircError::AlreadyActive));
    }
}

#[test]
fn connect_allowed_again_after_failure_or_disconnect() {
    let mut state = State::new();
    state.servers.insert(id("a"), ServerRuntime::Failed { error: id("refused") });
    state.servers.insert(id("b"), ServerRuntime::Disconnected);
    assert_eq!(state.check_connect(&id("a")), Ok(()));
    assert_eq!(state.check_connect(&id("b")), Ok(()));
    state.begin_connect(id("a"), 9);
    assert!(matches!(state.servers.get(&id("a")), Some(ServerRuntime::Connecting { handle: 9 })));
}

#[test]
fn cancel_connect_while_connecting() {
    let mut state = State::new();
    state.begin_connect(id("s1"), 42);
    let r = state.cancel_connect(&id("s1"));
    let (handle, n) = r.expect("a connecting session is cancelled");
    assert_eq!(handle, 42);
    assert_eq!(n, status("s1", ServerStatus::Failed));
    assert!(matches!(state.servers.get(&id("s1")), Some(ServerRuntime::Disconnected)));
    // A second cancel finds nothing to abort.
    assert!(state.cancel_connect(&id("s1")).is_none());
}

#[test]
fn cancel_connect_is_a_no_op_otherwise() {
    let mut state = State::new();
    connected(&mut state, "s1", 1, 2);
    assert!(state.cancel_connect(&id("s1")).is_none());
    assert!(state.cancel_connect(&id("unknown")).is_none());
    assert_eq!(state.servers.status_of(&id("s1")), ServerStatus::Connected);
}

#[test]
fn disconnect_connected_session() {
    let mut state = State::new();
    connected(&mut state, "s1", 5, 6);
    assert_eq!(state.disconnect_server(&id("s1")), Some(6));
    assert!(matches!(state.servers.get(&id("s1")), Some(ServerRuntime::Disconnecting { handle: 5 })));
    // Nothing left to disconnect.
    assert_eq!(state.disconnect_server(&id("s1")), None);
}

#[test]
fn disconnect_registering_session() {
    let mut state = State::new();
    state.servers.insert(id("s1"), ServerRuntime::Registering { tx: 3, handle: 4 });
    assert_eq!(state.disconnect_server(&id("s1")), Some(3));
    assert_eq!(state.servers.status_of(&id("s1")), ServerStatus::Disconnecting);
}

#[test]
fn disconnect_without_channel_is_a_no_op() {
    let mut state = State::new();
    state.begin_connect(id("s1"), 1);
    assert_eq!(state.disconnect_server(&id("s1")), None);
    assert_eq!(state.servers.status_of(&id("s1")), ServerStatus::Connecting);
    assert_eq!(state.disconnect_server(&id("none")), None);
}

#[test]
fn send_message_routes_to_connected_session() {
    let mut state = State::new();
    connected(&mut state, "s1", 1, 77);
    let (tx, cmd) = state.send_message(&id("s1"), id("#general"), id("hi")).unwrap();
    assert_eq!(*tx, 77);
    assert_eq!(cmd, ServerCommand::Privmsg { target: id("#general"), message: id("hi") });
}

#[test]
fn join_channel_routes_to_connected_session() {
    let mut state = State::new();
    connected(&mut state, "s1", 1, 77);
    let (tx, cmd) = state.join_channel(&id("s1"), id("#rust")).unwrap();
    assert_eq!(*tx, 77);
    assert_eq!(cmd, ServerCommand::Join(id("#rust")));
}

#[test]
fn commands_to_unknown_session_are_not_found() {
    let mut state = State::new();
    state.servers.insert(id("gone"), ServerRuntime::Disconnected);
    state.servers.insert(id("bad"), ServerRuntime::Failed { error: id("x") });
    for s in ["nobody", "gone", "bad"] {
        assert_eq!(state.join_channel(&id(s), id("#c")).err(), Some(KircError::SessionNotFound));
        assert_eq!(
            state.send_message(&id(s), id("#c"), id("m")).err(),
            Some(KircError::SessionNotFound)
        );
    }
}

#[test]
fn commands_to_unconnected_session_are_refused() {
    let mut state = State::new();
    state.begin_connect(id("s1"), 1);
    state.servers.insert(id("s2"), ServerRuntime::Registering { tx: 2, handle: 2 });
    for s in ["s1", "s2"] {
        assert_eq!(state.join_channel(&id(s), id("#c")).err(), Some(KircError::NotConnected));
        assert_eq!(
            state.send_message(&id(s), id("#c"), id("m")).err(),
            Some(KircError::NotConnected)
        );
    }
}

#[test]
fn locked_channel_refuses_messages() {
    let mut state = State::new();
    connected(&mut state, "s1", 1, 2);
    kirc::locks::lock_channel(
        &mut state.channel_locks,
        kirc::locks::ChannelLockPayload { server_id: id("s1"), channel: id("#quiet") },
    );
    assert_eq!(
        state.send_message(&id("s1"), id("#quiet"), id("m")).err(),
        Some(KircError::ChannelLocked)
    );
    assert!(state.send_message(&id("s1"), id("#loud"), id("m")).is_ok());
}

#[test]
fn shutdown_drains_every_session() {
    let mut state = State::new();
    connected(&mut state, "a", 1, 10);
    connected(&mut state, "b", 2, 20);
    connected(&mut state, "c", 3, 30);
    let mut plans = state.begin_shutdown();
    assert!(state.is_shutting_down());
    assert_eq!(state.app_state(), Some(AppState::ShuttingDown));
    assert_eq!(plans.len(), 3);
    plans.sort_by(|x, y| x.0.cmp(&y.0));
    let expected = [("a", 1, 10), ("b", 2, 20), ("c", 3, 30)];
    for ((sid, plan), (eid, eh, et)) in plans.iter().zip(expected.iter()) {
        assert_eq!(sid, eid);
        match plan {
            ShutdownPlan::QuitAndWait { tx, handle, timeout_ms } => {
                assert_eq!((*handle, *tx, *timeout_ms), (*eh, *et, 5000));
            }
            _ => panic!("a connected session is asked to quit"),
        }
    }
    for s in ["a", "b", "c"] {
        assert!(state.servers.get(&id(s)).is_none());
    }
    assert_eq!(state.check_connect(&id("a")), Err(KircError::ShuttingDown));
    state.finish_shutdown();
    assert_eq!(state.app_state(), Some(AppState::Terminated));
    assert!(!state.is_shutting_down());
    assert_eq!(state.check_connect(&id("a")), Err(KircError::ShuttingDown));
}

#[test]
fn shutdown_plan_for_each_state() {
    let s1 = id("s1");
    let r: ServerRuntime<u32, u32> = ServerRuntime::Registering { tx: 1, handle: 2 };
    assert!(matches!(
        r.shutdown_plan(&s1),
        ShutdownPlan::QuitAndWait { tx: 1, handle: 2, timeout_ms: SHUTDOWN_TIMEOUT_MS }
    ));
    let r: ServerRuntime<u32, u32> = ServerRuntime::Connecting { handle: 3 };
    match r.shutdown_plan(&s1) {
        ShutdownPlan::Abort { handle, notification } => {
            assert_eq!(handle, 3);
            assert_eq!(notification, status("s1", ServerStatus::Failed));
        }
        _ => panic!("a connecting session is aborted"),
    }
    let r: ServerRuntime<u32, u32> = ServerRuntime::Disconnecting { handle: 4 };
    assert!(matches!(r.shutdown_plan(&s1), ShutdownPlan::Wait { handle: 4, timeout_ms: 5000 }));
    let r: ServerRuntime<u32, u32> = ServerRuntime::Disconnected;
    assert!(matches!(r.shutdown_plan(&s1), ShutdownPlan::Nothing));
    let r: ServerRuntime<u32, u32> = ServerRuntime::Failed { error: id("e") };
    assert!(matches!(r.shutdown_plan(&s1), ShutdownPlan::Nothing));
}

#[test]
fn shutdown_gives_connecting_session_its_terminal_notification() {
    let mut state = State::new();
    state.begin_connect(id("s1"), 8);
    let plans = state.begin_shutdown();
    assert_eq!(plans.len(), 1);
    match &plans[0] {
        (sid, ShutdownPlan::Abort { handle, notification }) => {
            assert_eq!(sid, "s1");
            assert_eq!(*handle, 8);
            assert_eq!(*notification, status("s1", ServerStatus::Failed));
        }
        _ => panic!("a connecting session is aborted"),
    }
}

#[test]
fn shutdown_of_empty_registry() {
    let mut state = State::new();
    let plans = state.begin_shutdown();
    assert!(plans.is_empty());
    assert!(state.is_shutting_down());
}

#[test]
fn app_state_codes() {
    assert_eq!(AppState::Running.as_u8(), 0);
    assert_eq!(AppState::ShuttingDown.as_u8(), 1);
    assert_eq!(AppState::Terminated.as_u8(), 2);
    assert_eq!(AppState::from_u8(0), Some(AppState::Running));
    assert_eq!(AppState::from_u8(1), Some(AppState::ShuttingDown));
    assert_eq!(AppState::from_u8(2), Some(AppState::Terminated));
    assert_eq!(AppState::from_u8(3), None);
    assert_eq!(AppState::from_u8(255), None);
}

#[test]
fn error_messages() {
    assert_eq!(KircError::AlreadyActive.message(), "Already connecting or connected");
    assert_eq!(KircError::ShuttingDown.message(), "Application is shutting down");
    assert_eq!(KircError::ChannelLocked.message(), "Channel is locked");
}
