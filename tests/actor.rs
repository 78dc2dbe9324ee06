use kirc::actor::{fail_state, SessionActor};
use kirc::events::{Notification, ServerStatusPayload, SystemMessagePayload, UiEventPayload};
use kirc::frame::{Frame, OutboundFrame};
use kirc::registry::Registry;
use kirc::runtime::ServerRuntime;
use kirc::supervisor::IRCClientState;
use kirc::types::{ConnectServerPayload, ServerCommand, ServerStatus};

fn id(s: &str) -> String {
    s.to_string()
}

fn status(server_id: &str, status: ServerStatus) -> Notification {
    Notification::ServerStatus(ServerStatusPayload { server_id: id(server_id), status })
}

fn is_terminal(n: &Notification) -> bool {
    matches!(
        n,
        Notification::ServerStatus(ServerStatusPayload {
            status: ServerStatus::Disconnected | ServerStatus::Failed,
            ..
        })
    )
}

/// A registry holding `s1` as `Connecting` with handle 1, and the started
/// loop of `s1` with channel 2.
fn started() -> (Registry<u32, u32>, SessionActor) {
    let mut reg: Registry<u32, u32> = Registry::new();
    reg.insert(id("s1"), ServerRuntime::Connecting { handle: 1 });
    let (actor, n) = SessionActor::start(id("s1"), &mut reg, 2).expect("the loop starts");
    assert_eq!(n, status("s1", ServerStatus::Registering));
    (reg, actor)
}

fn welcomed() -> (Registry<u32, u32>, SessionActor) {
    let (mut reg, mut actor) = started();
    actor.handle_frame_at(&mut reg, Frame::Welcome, 1000);
    (reg, actor)
}

#[test]
fn connect_handshake_and_welcome() {
    let payload = ConnectServerPayload {
        server_id: id("s1"),
        host: id("irc.example.org"),
        port: 6697,
        tls: true,
        nickname: id("alice"),
    };
    let mut state: IRCClientState<u32, u32> = IRCClientState::new();
    let s1 = payload.server_id.clone();
    assert_eq!(state.check_connect(&s1), Ok(()));
    let n = state.begin_connect(s1.clone(), 11);
    assert_eq!(n, status("s1", ServerStatus::Connecting));
    let (mut actor, n) = SessionActor::start(s1.clone(), &mut state.servers, 12).unwrap();
    assert_eq!(n, status("s1", ServerStatus::Registering));
    assert!(matches!(
        state.servers.get(&s1),
        Some(ServerRuntime::Registering { tx: 12, handle: 11 })
    ));
    let out = actor.handle_frame_at(&mut state.servers, Frame::Welcome, 5);
    assert_eq!(
        out,
        vec![
            status("s1", ServerStatus::Connected),
            Notification::SystemMessage(SystemMessagePayload {
                server_id: id("s1"),
                message: id("connected"),
            }),
        ]
    );
    assert!(actor.connected);
    assert!(matches!(
        state.servers.get(&s1),
        Some(ServerRuntime::Connected { tx: 12, handle: 11 })
    ));
}

#[test]
fn start_after_cancel_is_silent() {
    let mut state: IRCClientState<u32, u32> = IRCClientState::new();
    state.begin_connect(id("s1"), 1);
    let (handle, n) = state.cancel_connect(&id("s1")).unwrap();
    assert_eq!(handle, 1);
    assert!(is_terminal(&n));
    assert!(SessionActor::start(id("s1"), &mut state.servers, 2).is_none());
    assert!(fail_state(&id("s1"), &mut state.servers, id("late")).is_none());
    assert!(matches!(state.servers.get(&id("s1")), Some(ServerRuntime::Disconnected)));
}

#[test]
fn handshake_failure_marks_failed() {
    let mut reg: Registry<u32, u32> = Registry::new();
    reg.insert(id("s1"), ServerRuntime::Connecting { handle: 1 });
    let n = fail_state(&id("s1"), &mut reg, id("connection refused")).unwrap();
    assert_eq!(n, status("s1", ServerStatus::Failed));
    match reg.get(&id("s1")) {
        Some(ServerRuntime::Failed { error }) => assert_eq!(error, "connection refused"),
        _ => panic!("the record is failed"),
    }
}

#[test]
fn send_message_echoes_locally() {
    let (_reg, mut actor) = welcomed();
    let (frame, out) = actor.handle_command_at(
        ServerCommand::Privmsg { target: id("#general"), message: id("hi") },
        &id("alice"),
        2000,
    );
    assert_eq!(frame, Some(OutboundFrame::Privmsg { target: id("#general"), message: id("hi") }));
    assert_eq!(
        out,
        vec![Notification::Event(UiEventPayload::UserMessage {
            server_id: id("s1"),
            channel: id("#general"),
            nick: id("alice"),
            content: id("hi"),
            timestamp: 2000,
        })]
    );
}

#[test]
fn echoes_keep_order_and_timestamps_never_decrease() {
    let (_reg, mut actor) = welcomed();
    let sends = [("#a", "one", 3000u64), ("#b", "two", 2500u64), ("#a", "three", 4000u64)];
    let mut seen: Vec<(String, u64)> = Vec::new();
    for (target, message, now) in sends {
        let (_, out) = actor.handle_command_at(
            ServerCommand::Privmsg { target: id(target), message: id(message) },
            &id("alice"),
            now,
        );
        assert_eq!(out.len(), 1);
        match &out[0] {
            Notification::Event(UiEventPayload::UserMessage { channel, content, timestamp, .. }) => {
                assert_eq!(channel, target);
                seen.push((content.clone(), *timestamp));
            }
            _ => panic!("an echo is a user message"),
        }
    }
    assert_eq!(
        seen,
        vec![(id("one"), 3000), (id("two"), 3000), (id("three"), 4000)]
    );
}

#[test]
fn join_is_written_without_echo() {
    let (_reg, mut actor) = welcomed();
    let (frame, out) = actor.handle_command_at(ServerCommand::Join(id("#rust")), &id("alice"), 1);
    assert_eq!(frame, Some(OutboundFrame::Join { channel: id("#rust") }));
    assert!(out.is_empty());
    assert!(!actor.is_stopped());
}

#[test]
fn quit_ends_the_loop() {
    let (_reg, mut actor) = welcomed();
    let (frame, out) = actor.handle_command_at(ServerCommand::Quit, &id("alice"), 1);
    assert_eq!(frame, Some(OutboundFrame::Quit { comment: id("bye") }));
    assert!(out.is_empty());
    assert!(actor.is_stopped());
    // Nothing is handled after the loop ended.
    let (frame, out) = actor.handle_command_at(ServerCommand::Join(id("#x")), &id("alice"), 1);
    assert!(frame.is_none() && out.is_empty());
}

#[test]
fn disconnect_while_connected_ends_disconnected() {
    let mut state: IRCClientState<u32, u32> = IRCClientState::new();
    state.begin_connect(id("s1"), 1);
    let (mut actor, _) = SessionActor::start(id("s1"), &mut state.servers, 2).unwrap();
    actor.handle_frame_at(&mut state.servers, Frame::Welcome, 10);
    let tx = state.disconnect_server(&id("s1")).unwrap();
    assert_eq!(tx, 2);
    assert_eq!(state.servers.status_of(&id("s1")), ServerStatus::Disconnecting);
    let (frame, _) = actor.handle_command_at(ServerCommand::Quit, &id("alice"), 11);
    assert!(matches!(frame, Some(OutboundFrame::Quit { .. })));
    assert!(actor.is_stopped());
    let n = actor.finish(&mut state.servers);
    assert_eq!(n, status("s1", ServerStatus::Disconnected));
    assert!(matches!(state.servers.get(&id("s1")), Some(ServerRuntime::Disconnected)));
}

#[test]
fn stream_error_before_welcome_ends_failed() {
    let (mut reg, mut actor) = started();
    actor.stream_closed();
    assert!(actor.is_stopped());
    let n = actor.finish(&mut reg);
    assert_eq!(n, status("s1", ServerStatus::Failed));
    match reg.get(&id("s1")) {
        Some(ServerRuntime::Failed { error }) => {
            assert_eq!(error, "connection closed before registration completed")
        }
        _ => panic!("the record is failed"),
    }
}

#[test]
fn one_terminal_notification_per_life() {
    let (mut reg, mut actor) = started();
    let mut all: Vec<Notification> = Vec::new();
    all.extend(actor.handle_frame_at(&mut reg, Frame::Welcome, 1));
    all.extend(actor.handle_frame_at(
        &mut reg,
        Frame::Quit { source: id("bob"), comment: None },
        2,
    ));
    all.extend(actor.handle_command_at(ServerCommand::Join(id("#a")), &id("alice"), 3).1);
    actor.stream_closed();
    all.extend(actor.handle_frame_at(&mut reg, Frame::Error { message: id("late") }, 4));
    all.push(actor.finish(&mut reg));
    let terminal: Vec<&Notification> = all.iter().filter(|n| is_terminal(n)).collect();
    assert_eq!(terminal, vec![&status("s1", ServerStatus::Disconnected)]);
}

#[test]
fn finish_after_shutdown_leaves_registry_empty() {
    let mut state: IRCClientState<u32, u32> = IRCClientState::new();
    state.begin_connect(id("s1"), 1);
    let (mut actor, _) = SessionActor::start(id("s1"), &mut state.servers, 2).unwrap();
    actor.handle_frame_at(&mut state.servers, Frame::Welcome, 10);
    let plans = state.begin_shutdown();
    assert_eq!(plans.len(), 1);
    actor.handle_command_at(ServerCommand::Quit, &id("alice"), 11);
    let n = actor.finish(&mut state.servers);
    assert_eq!(n, status("s1", ServerStatus::Disconnected));
    assert!(state.servers.get(&id("s1")).is_none());
}

#[test]
fn frames_are_stamped_with_the_clock() {
    let (mut reg, mut actor) = welcomed();
    let out = actor.handle_frame(
        &mut reg,
        Frame::Privmsg { source: id("bob"), target: id("#a"), content: id("yo") },
    );
    match &out[..] {
        [Notification::Event(UiEventPayload::UserMessage { timestamp, .. })] => {
            // Some time after 2020-09-13.
            assert!(*timestamp > 1_600_000_000_000);
        }
        _ => panic!("a message is projected"),
    }
    let (_, out) = actor.handle_command(
        ServerCommand::Privmsg { target: id("#a"), message: id("me") },
        &id("alice"),
    );
    match &out[..] {
        [Notification::Event(UiEventPayload::UserMessage { timestamp, nick, .. })] => {
            assert!(*timestamp > 1_600_000_000_000);
            assert_eq!(nick, "alice");
        }
        _ => panic!("a message is echoed"),
    }
}

#[test]
fn welcome_after_disconnect_is_not_announced() {
    let mut state: IRCClientState<u32, u32> = IRCClientState::new();
    state.begin_connect(id("s1"), 1);
    let (mut actor, _) = SessionActor::start(id("s1"), &mut state.servers, 2).unwrap();
    assert_eq!(state.disconnect_server(&id("s1")), Some(2));
    let out = actor.handle_frame_at(&mut state.servers, Frame::Welcome, 10);
    assert!(out.is_empty());
    assert!(!actor.connected);
    assert_eq!(state.servers.status_of(&id("s1")), ServerStatus::Disconnecting);
    actor.handle_command_at(ServerCommand::Quit, &id("alice"), 11);
    assert_eq!(actor.finish(&mut state.servers), status("s1", ServerStatus::Failed));
}

#[test]
fn second_welcome_is_not_announced() {
    let (mut reg, mut actor) = welcomed();
    let out = actor.handle_frame_at(&mut reg, Frame::Welcome, 2000);
    assert!(out.is_empty());
    assert!(actor.connected);
    assert_eq!(reg.status_of(&id("s1")), ServerStatus::Connected);
}

#[test]
fn welcome_after_shutdown_drain_is_not_announced() {
    let mut state: IRCClientState<u32, u32> = IRCClientState::new();
    state.begin_connect(id("s1"), 1);
    let (mut actor, _) = SessionActor::start(id("s1"), &mut state.servers, 2).unwrap();
    let _ = state.begin_shutdown();
    let out = actor.handle_frame_at(&mut state.servers, Frame::Welcome, 10);
    assert!(out.is_empty());
    assert!(state.servers.get(&id("s1")).is_none());
}
