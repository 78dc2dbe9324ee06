use crate::clock::now_millis;
use crate::events::{
    terminal_count, UiEventView, connected_notice, connected_notification, project_frame, projected, status_notification, views,
    Notification, NotificationView,
};
use crate::frame::{Frame, OutboundFrame, OutboundView};
use crate::registry::{held_by_loop, status_in, Registry};
use crate::runtime::ServerRuntime;
use crate::types::{ServerCommand, ServerStatus};
use vstd::prelude::*;

verus! {

/// The comment sent with the quit frame.
pub open spec fn quit_comment() -> Seq<char> {
    "bye"@
}

/// The reason recorded when a session ends before it ever reached `Connected`.
pub open spec fn closed_early_reason() -> Seq<char> {
    "connection closed before registration completed"@
}

/// The state of one session's main loop. The loop owns the stream and the
/// receiving end of the command channel; this value holds the decisions.
#[derive(Clone, Debug, PartialEq, Eq)]
pub struct SessionActor {
    pub server_id: String,
    /// Whether the session has reached `Connected`.
    pub connected: bool,
    /// The latest timestamp handed out, in milliseconds since the epoch.
    pub last_timestamp: u64,
    /// Whether the loop has ended (quit sent, or stream ended or failed).
    pub stopped: bool,
}

/// The timestamp given to a frame handled at `now`: never earlier than one
/// already handed out.
pub open spec fn stamp(a: SessionActor, now: u64) -> u64 {
    if now > a.last_timestamp {
        now
    } else {
        a.last_timestamp
    }
}

/// Handling one inbound frame at time `now`: the new state and what is emitted.
/// `registering` says whether the registry held the session as `Registering`:
/// only then does the welcome move it to `Connected`, and only then is that
/// announced.
pub open spec fn frame_step(a: SessionActor, f: Frame, now: u64, registering: bool) -> (
    SessionActor,
    Seq<NotificationView>,
) {
    if a.stopped {
        (a, Seq::empty())
    } else {
        let ts = stamp(a, now);
        let a2 = SessionActor { last_timestamp: ts, ..a };
        match f {
            Frame::Welcome => if registering {
                (
                    SessionActor { connected: true, ..a2 },
                    seq![
                        NotificationView::ServerStatus {
                            server_id: a.server_id@,
                            status: ServerStatus::Connected,
                        },
                        NotificationView::SystemMessage {
                            server_id: a.server_id@,
                            message: connected_notice(),
                        },
                    ],
                )
            } else {
                (a2, Seq::empty())
            },
            _ => match projected(a.server_id@, f, ts) {
                Some(e) => (a2, seq![NotificationView::Event(e)]),
                None => (a2, Seq::empty()),
            },
        }
    }
}

/// Whether the registry `m` holds session `id` as `Registering`.
pub open spec fn registering_in<H, T>(m: Map<Seq<char>, ServerRuntime<H, T>>, id: Seq<char>) -> bool {
    status_in(m, id) == ServerStatus::Registering
}

/// What one inbound frame does to the registry: the welcome moves the session
/// from `Registering` to `Connected`.
pub open spec fn frame_registry<H, T>(
    a: SessionActor,
    f: Frame,
    m: Map<Seq<char>, ServerRuntime<H, T>>,
) -> Map<Seq<char>, ServerRuntime<H, T>> {
    if !a.stopped && f is Welcome {
        match m.get(a.server_id@) {
            Some(ServerRuntime::Registering { tx, handle }) => m.insert(
                a.server_id@,
                ServerRuntime::Connected { tx, handle },
            ),
            _ => m,
        }
    } else {
        m
    }
}

/// The local echo of a message sent by `nick`.
pub open spec fn echo_frame(nick: String, target: String, message: String) -> Frame {
    Frame::Privmsg { source: nick, target, content: message }
}

/// Handling one command at time `now`, `nick` being the session's current
/// nickname: the new state, the frame to write, and what is emitted.
pub open spec fn command_step(a: SessionActor, cmd: ServerCommand, nick: String, now: u64) -> (
    SessionActor,
    Option<OutboundView>,
    Seq<NotificationView>,
) {
    if a.stopped {
        (a, None, Seq::empty())
    } else {
        match cmd {
            ServerCommand::Join(channel) => (
                a,
                Some(OutboundView::Join { channel: channel@ }),
                Seq::empty(),
            ),
            ServerCommand::Privmsg { target, message } => {
                let (a2, out) = frame_step(a, echo_frame(nick, target, message), now, false);
                (a2, Some(OutboundView::Privmsg { target: target@, message: message@ }), out)
            },
            ServerCommand::Quit => (
                SessionActor { stopped: true, ..a },
                Some(OutboundView::Quit { comment: quit_comment() }),
                Seq::empty(),
            ),
        }
    }
}

/// The status a session ends in: `Disconnected` once it had been connected,
/// `Failed` otherwise.
pub open spec fn terminal_status(a: SessionActor) -> ServerStatus {
    if a.connected {
        ServerStatus::Disconnected
    } else {
        ServerStatus::Failed
    }
}

/// The notification that ends the life of session `a`.
pub open spec fn terminal_view(a: SessionActor) -> NotificationView {
    NotificationView::ServerStatus { server_id: a.server_id@, status: terminal_status(a) }
}

/// The record a session that ends leaves in the registry.
pub open spec fn is_terminal_record<H, T>(a: SessionActor, rt: ServerRuntime<H, T>) -> bool {
    if a.connected {
        rt is Disconnected
    } else {
        rt matches ServerRuntime::Failed { error } && error@ == closed_early_reason()
    }
}

/// A pre-loop failure of session `id`: when the record is still
/// `Connecting`, it becomes `Failed { error }` and one `Failed` notification
/// is emitted; otherwise (the attempt was cancelled or drained) nothing happens.
pub fn fail_state<H, T>(server_id: &String, servers: &mut Registry<H, T>, error: String) -> (r:
    Option<Notification>)
    requires
        old(servers).wf(),
    ensures
        final(servers).wf(),
        r.is_some() == (status_in(old(servers)@, server_id@) == ServerStatus::Connecting),
        match r {
            Some(n) => n@ == (NotificationView::ServerStatus {
                server_id: server_id@,
                status: ServerStatus::Failed,
            }) && final(servers)@ == old(servers)@.insert(
                server_id@,
                ServerRuntime::Failed { error },
            ),
            None => final(servers)@ == old(servers)@,
        },
{
    if servers.fail_connecting(server_id, error) {
        Some(status_notification(server_id, ServerStatus::Failed))
    } else {
        None
    }
}

impl SessionActor {
    /// The state of a session loop that has just started.
    pub open spec fn fresh(server_id: String) -> SessionActor {
        SessionActor { server_id, connected: false, last_timestamp: 0, stopped: false }
    }

    /// Starts the main loop of session `server_id` once its transport and
    /// handshake succeeded and its command channel `tx` exists: a `Connecting`
    /// record becomes `Registering` and a `Registering` notification is
    /// emitted. If the record is no longer `Connecting` (the attempt was
    /// cancelled or the registry drained), nothing changes and `None` tells
    /// the caller to end the session quietly.
    pub fn start<H, T>(server_id: String, servers: &mut Registry<H, T>, tx: T) -> (r: Option<
        (SessionActor, Notification),
    >)
        requires
            old(servers).wf(),
        ensures
            final(servers).wf(),
            match old(servers)@.get(server_id@) {
                Some(ServerRuntime::Connecting { handle }) => {
                    &&& final(servers)@ == old(servers)@.insert(
                        server_id@,
                        ServerRuntime::Registering { tx, handle },
                    )
                    &&& (r matches Some((a, n)) && a == SessionActor::fresh(server_id) && n@
                        == (NotificationView::ServerStatus {
                        server_id: server_id@,
                        status: ServerStatus::Registering,
                    }))
                },
                _ => final(servers)@ == old(servers)@ && r.is_none(),
            },
    {
        if servers.promote_to_registering(&server_id, tx) {
            let n = status_notification(&server_id, ServerStatus::Registering);
            Some((SessionActor { server_id, connected: false, last_timestamp: 0, stopped: false }, n))
        } else {
            None
        }
    }

    /// Whether the loop has ended.
    pub fn is_stopped(&self) -> (r: bool)
        ensures
            r == self.stopped,
    {
        self.stopped
    }

    /// The clock's reading, or the latest timestamp handed out when the clock
    /// reads before the epoch.
    fn clock_stamp(&self) -> u64 {
        let t = now_millis();
        if t >= 0 {
            t as u64
        } else {
            self.last_timestamp
        }
    }

    fn next_stamp(&self, now: u64) -> (r: u64)
        ensures
            r == stamp(*self, now),
    {
        if now > self.last_timestamp {
            now
        } else {
            self.last_timestamp
        }
    }

    /// Handles one inbound frame at time `now` (milliseconds since the epoch).
    pub fn handle_frame_at<H, T>(
        &mut self,
        servers: &mut Registry<H, T>,
        frame: Frame,
        now: u64,
    ) -> (r: Vec<Notification>)
        requires
            old(servers).wf(),
        ensures
            final(servers).wf(),
            (*final(self), views(r@)) == frame_step(
                *old(self),
                frame,
                now,
                registering_in(old(servers)@, old(self).server_id@),
            ),
            final(servers)@ == frame_registry(*old(self), frame, old(servers)@),
    {
        let mut out: Vec<Notification> = Vec::new();
        if self.stopped {
            proof {
                assert(views(out@) =~= Seq::<NotificationView>::empty());
            }
            return out;
        }
        let ts = self.next_stamp(now);
        self.last_timestamp = ts;
        match frame {
            Frame::Welcome => {
                if servers.mark_connected(&self.server_id) {
                    self.connected = true;
                    out.push(status_notification(&self.server_id, ServerStatus::Connected));
                    out.push(connected_notification(&self.server_id));
                }
            },
            other => {
                let ghost f = other;
                match project_frame(&self.server_id, other, ts) {
                    Some(e) => {
                        out.push(Notification::Event(e));
                    },
                    None => {},
                }
                proof {
                    assert(!(f is Welcome));
                }
            },
        }
        proof {
            let (a2, evs) = frame_step(
                *old(self),
                frame,
                now,
                registering_in(old(servers)@, old(self).server_id@),
            );
            assert(views(out@) =~= evs);
        }
        out
    }

    /// Handles one inbound frame, stamped with the current time (or, should
    /// the clock read before the epoch, with the latest timestamp handed out).
    pub fn handle_frame<H, T>(&mut self, servers: &mut Registry<H, T>, frame: Frame) -> (r: Vec<
        Notification,
    >)
        requires
            old(servers).wf(),
        ensures
            final(servers).wf(),
            final(servers)@ == frame_registry(*old(self), frame, old(servers)@),
            exists|now: u64|
                (*final(self), views(r@)) == #[trigger] frame_step(
                    *old(self),
                    frame,
                    now,
                    registering_in(old(servers)@, old(self).server_id@),
                ),
    {
        let now = self.clock_stamp();
        self.handle_frame_at(servers, frame, now)
    }

    /// Handles one command at time `now`, `nick` being the session's current
    /// nickname. Join and message commands are written out; a message is also
    /// echoed locally through the frame path. Quit is written out and ends the
    /// loop, whether or not the write succeeds.
    pub fn handle_command_at(&mut self, cmd: ServerCommand, nick: &String, now: u64) -> (r: (
        Option<OutboundFrame>,
        Vec<Notification>,
    ))
        ensures
            (*final(self), (match r.0 {
                Some(o) => Some(o@),
                None => None::<OutboundView>,
            }), views(r.1@)) == command_step(*old(self), cmd, *nick, now),
    {
        if self.stopped {
            let out: Vec<Notification> = Vec::new();
            proof {
                assert(views(out@) =~= Seq::<NotificationView>::empty());
            }
            return (None, out);
        }
        match cmd {
            ServerCommand::Join(channel) => {
                let out: Vec<Notification> = Vec::new();
                proof {
                    assert(views(out@) =~= Seq::<NotificationView>::empty());
                }
                (Some(OutboundFrame::Join { channel }), out)
            },
            ServerCommand::Privmsg { target, message } => {
                let ts = self.next_stamp(now);
                self.last_timestamp = ts;
                let echo = project_frame(
                    &self.server_id,
                    Frame::Privmsg {
                        source: nick.clone(),
                        target: target.clone(),
                        content: message.clone(),
                    },
                    ts,
                );
                let mut out: Vec<Notification> = Vec::new();
                match echo {
                    Some(e) => out.push(Notification::Event(e)),
                    None => {},
                }
                proof {
                    let (a2, evs) = frame_step(
                        *old(self),
                        echo_frame(*nick, target, message),
                        now,
                        false,
                    );
                    assert(views(out@) =~= evs);
                }
                (Some(OutboundFrame::Privmsg { target, message }), out)
            },
            ServerCommand::Quit => {
                self.stopped = true;
                let out: Vec<Notification> = Vec::new();
                proof {
                    assert(views(out@) =~= Seq::<NotificationView>::empty());
                }
                let comment = String::from_str("bye");
                (Some(OutboundFrame::Quit { comment }), out)
            },
        }
    }

    /// Handles one command, stamping an echo with the current time (or, should
    /// the clock read before the epoch, with the latest timestamp handed out).
    pub fn handle_command(&mut self, cmd: ServerCommand, nick: &String) -> (r: (
        Option<OutboundFrame>,
        Vec<Notification>,
    ))
        ensures
            exists|now: u64|
                (*final(self), (match r.0 {
                    Some(o) => Some(o@),
                    None => None::<OutboundView>,
                }), views(r.1@)) == #[trigger] command_step(*old(self), cmd, *nick, now),
    {
        let now = self.clock_stamp();
        self.handle_command_at(cmd, nick, now)
    }

    /// The inbound stream failed or ended: the loop ends, without retry.
    pub fn stream_closed(&mut self)
        ensures
            *final(self) == (SessionActor { stopped: true, ..*old(self) }),
    {
        self.stopped = true;
    }

    /// Ends the session: writes its terminal record if the registry still holds
    /// it for this loop, and returns the one terminal notification of its life,
    /// `Disconnected` after a connected session, `Failed` otherwise.
    pub fn finish<H, T>(self, servers: &mut Registry<H, T>) -> (r: Notification)
        requires
            old(servers).wf(),
        ensures
            final(servers).wf(),
            r@ == terminal_view(self),
            held_by_loop(status_in(old(servers)@, self.server_id@)) ==> final(servers)@.contains_key(
                self.server_id@,
            ) && final(servers)@.remove(self.server_id@) == old(servers)@.remove(self.server_id@)
                && is_terminal_record(self, final(servers)@[self.server_id@]),
            !held_by_loop(status_in(old(servers)@, self.server_id@)) ==> final(servers)@ == old(
                servers,
            )@,
    {
        let (outcome, status) = if self.connected {
            (ServerRuntime::Disconnected, ServerStatus::Disconnected)
        } else {
            let error = String::from_str("connection closed before registration completed");
            (ServerRuntime::Failed { error }, ServerStatus::Failed)
        };
        let ghost o = outcome;
        let settled = servers.settle(&self.server_id, outcome);
        proof {
            if settled {
                assert(final(servers)@.remove(self.server_id@) =~= old(servers)@.remove(
                    self.server_id@,
                ));
            }
        }
        status_notification(&self.server_id, status)
    }
}

/// One input of a session's main loop.
pub enum SessionInput {
    /// An inbound frame, handled at `now`; `registering` says whether the
    /// registry then held the session as `Registering`.
    Frame { frame: Frame, now: u64, registering: bool },
    /// A command, handled at `now` while the session's nickname is `nick`.
    Command { cmd: ServerCommand, nick: String, now: u64 },
    /// The inbound stream failed or ended.
    Closed,
}

/// Handling one input: the new state and what is emitted.
pub open spec fn input_step(a: SessionActor, input: SessionInput) -> (SessionActor, Seq<NotificationView>) {
    match input {
        SessionInput::Frame { frame, now, registering } => frame_step(a, frame, now, registering),
        SessionInput::Command { cmd, nick, now } => {
            let (a2, _, out) = command_step(a, cmd, nick, now);
            (a2, out)
        },
        SessionInput::Closed => (SessionActor { stopped: true, ..a }, Seq::empty()),
    }
}

/// The main loop run over `inputs` from state `a`: the final state and all
/// that was emitted, in order. Inputs after the loop ended change nothing.
pub open spec fn run(a: SessionActor, inputs: Seq<SessionInput>) -> (SessionActor, Seq<NotificationView>)
    decreases inputs.len(),
{
    if inputs.len() == 0 {
        (a, Seq::empty())
    } else {
        let (a1, out1) = run(a, inputs.drop_last());
        let (a2, out2) = input_step(a1, inputs.last());
        (a2, out1 + out2)
    }
}

/// Everything a session emits in its life from the start of its main loop:
/// the `Registering` notification, what the loop emits over `inputs`, and the
/// notification of [`SessionActor::finish`].
pub open spec fn lifetime(server_id: String, inputs: Seq<SessionInput>) -> Seq<NotificationView> {
    let (last, out) = run(SessionActor::fresh(server_id), inputs);
    seq![
        NotificationView::ServerStatus {
            server_id: server_id@,
            status: ServerStatus::Registering,
        },
    ] + out + seq![terminal_view(last)]
}

proof fn lemma_terminal_count_concat(s1: Seq<NotificationView>, s2: Seq<NotificationView>)
    ensures
        terminal_count(s1 + s2) == terminal_count(s1) + terminal_count(s2),
    decreases s2.len(),
{
    if s2.len() == 0 {
        assert(s1 + s2 =~= s1);
    } else {
        lemma_terminal_count_concat(s1, s2.drop_last());
        assert((s1 + s2).drop_last() =~= s1 + s2.drop_last());
    }
}

proof fn lemma_run_emits_no_terminal(a: SessionActor, inputs: Seq<SessionInput>)
    ensures
        terminal_count(run(a, inputs).1) == 0,
    decreases inputs.len(),
{
    reveal_with_fuel(terminal_count, 3);
    if inputs.len() > 0 {
        lemma_run_emits_no_terminal(a, inputs.drop_last());
        let (a1, out1) = run(a, inputs.drop_last());
        let (a2, out2) = input_step(a1, inputs.last());
        lemma_terminal_count_concat(out1, out2);
        if out2.len() == 2 {
            assert(out2.drop_last() =~= seq![out2[0]]);
            assert(out2.drop_last().drop_last() =~= Seq::<NotificationView>::empty());
        } else if out2.len() == 1 {
            assert(out2.drop_last() =~= Seq::<NotificationView>::empty());
        }
    }
}

/// Whatever a session's main loop receives (frames, commands, a quit, a
/// stream that fails or ends), the life of the session holds exactly one
/// terminal notification (`Disconnected` or `Failed`): the one of its finish.
pub proof fn lemma_one_terminal_notification(server_id: String, inputs: Seq<SessionInput>)
    ensures
        terminal_count(lifetime(server_id, inputs)) == 1,
{
    reveal_with_fuel(terminal_count, 2);
    let (last, out) = run(SessionActor::fresh(server_id), inputs);
    let first = seq![
        NotificationView::ServerStatus {
            server_id: server_id@,
            status: ServerStatus::Registering,
        },
    ];
    let end = seq![terminal_view(last)];
    lemma_run_emits_no_terminal(SessionActor::fresh(server_id), inputs);
    lemma_terminal_count_concat(first, out);
    lemma_terminal_count_concat(first + out, end);
    assert(first.drop_last() =~= Seq::<NotificationView>::empty());
    assert(end.drop_last() =~= Seq::<NotificationView>::empty());
}

/// A session still connecting when it is cancelled: the cancel leaves its
/// record `Disconnected`, so the loop's start, a late handshake failure and
/// its finish all leave the registry as it is and emit nothing. The `Failed`
/// notification of the cancel is then the only terminal one.
pub proof fn lemma_cancelled_session_stays_silent<H, T>(
    m: Map<Seq<char>, ServerRuntime<H, T>>,
    id: Seq<char>,
)
    requires
        status_in(m, id) == ServerStatus::Connecting,
    ensures
        !(m.insert(id, ServerRuntime::Disconnected).get(id) matches Some(
            ServerRuntime::Connecting { .. },
        )),
        status_in(m.insert(id, ServerRuntime::Disconnected), id) != ServerStatus::Connecting,
        !held_by_loop(status_in(m.insert(id, ServerRuntime::Disconnected), id)),
{
    assert(m.insert(id, ServerRuntime::Disconnected).contains_key(id));
}

/// The sequence of inputs that sends `messages[i]` to `targets[i]`, in order,
/// at times `nows`, while the session's nickname is `nick`.
pub open spec fn message_inputs(
    targets: Seq<String>,
    messages: Seq<String>,
    nick: String,
    nows: Seq<u64>,
) -> Seq<SessionInput> {
    Seq::new(
        targets.len(),
        |i: int|
            SessionInput::Command {
                cmd: ServerCommand::Privmsg { target: targets[i], message: messages[i] },
                nick,
                now: nows[i],
            },
    )
}

/// The timestamp of a user-message notification.
pub open spec fn event_timestamp(n: NotificationView) -> u64 {
    match n {
        NotificationView::Event(UiEventView::UserMessage { timestamp, .. }) => timestamp,
        _ => 0,
    }
}

/// The echo of sending `message` to `target` from session `id` as `nick`.
pub open spec fn is_echo(
    n: NotificationView,
    id: Seq<char>,
    nick: Seq<char>,
    target: Seq<char>,
    message: Seq<char>,
) -> bool {
    n == NotificationView::Event(
        UiEventView::UserMessage {
            server_id: id,
            channel: target,
            nick,
            content: message,
            timestamp: event_timestamp(n),
        },
    )
}

proof fn lemma_echo_run(
    a: SessionActor,
    targets: Seq<String>,
    messages: Seq<String>,
    nick: String,
    nows: Seq<u64>,
)
    requires
        !a.stopped,
        targets.len() == messages.len(),
        messages.len() == nows.len(),
    ensures
        ({
            let (b, out) = run(a, message_inputs(targets, messages, nick, nows));
            &&& !b.stopped
            &&& b.server_id == a.server_id
            &&& a.last_timestamp <= b.last_timestamp
            &&& out.len() == targets.len()
            &&& forall|i: int|
                0 <= i < out.len() ==> is_echo(
                    #[trigger] out[i],
                    a.server_id@,
                    nick@,
                    targets[i]@,
                    messages[i]@,
                )
            &&& forall|i: int, j: int|
                0 <= i <= j < out.len() ==> event_timestamp(#[trigger] out[i]) <= event_timestamp(
                    #[trigger] out[j],
                )
            &&& forall|i: int| 0 <= i < out.len() ==> event_timestamp(#[trigger] out[i]) <= b.last_timestamp
        }),
    decreases targets.len(),
{
    let inputs = message_inputs(targets, messages, nick, nows);
    let n = targets.len() as int;
    if n > 0 {
        let t2 = targets.drop_last();
        let m2 = messages.drop_last();
        let w2 = nows.drop_last();
        lemma_echo_run(a, t2, m2, nick, w2);
        assert(inputs.drop_last() =~= message_inputs(t2, m2, nick, w2));
        let (b1, out1) = run(a, inputs.drop_last());
        let (b2, out2) = input_step(b1, inputs.last());
        let ts = stamp(b1, nows[n - 1]);
        assert(out2 =~= seq![
            NotificationView::Event(
                UiEventView::UserMessage {
                    server_id: a.server_id@,
                    channel: targets[n - 1]@,
                    nick: nick@,
                    content: messages[n - 1]@,
                    timestamp: ts,
                },
            ),
        ]);
        let out = out1 + out2;
        assert forall|i: int| 0 <= i < out.len() implies is_echo(
            #[trigger] out[i],
            a.server_id@,
            nick@,
            targets[i]@,
            messages[i]@,
        ) by {
            if i < n - 1 {
                assert(out[i] == out1[i]);
            }
        }
        assert forall|i: int, j: int| 0 <= i <= j < out.len() implies event_timestamp(
            #[trigger] out[i],
        ) <= event_timestamp(#[trigger] out[j]) by {
            if j < n - 1 {
                assert(out[i] == out1[i] && out[j] == out1[j]);
            } else if i < n - 1 {
                assert(out[i] == out1[i]);
            }
        }
        assert forall|i: int| 0 <= i < out.len() implies event_timestamp(#[trigger] out[i])
            <= b2.last_timestamp by {
            if i < n - 1 {
                assert(out[i] == out1[i]);
            }
        }
    } else {
        assert(run(a, inputs).1 =~= Seq::<NotificationView>::empty());
    }
}

/// Messages sent one after another by a running session come back locally as
/// as many echoes, in the order they were sent: each is the user message of
/// the session's nickname with that message's target and text, and their
/// timestamps never decrease.
pub proof fn lemma_echoes_in_order(
    a: SessionActor,
    targets: Seq<String>,
    messages: Seq<String>,
    nick: String,
    nows: Seq<u64>,
)
    requires
        !a.stopped,
        targets.len() == messages.len(),
        messages.len() == nows.len(),
    ensures
        ({
            let out = run(a, message_inputs(targets, messages, nick, nows)).1;
            &&& out.len() == targets.len()
            &&& forall|i: int|
                0 <= i < out.len() ==> is_echo(
                    #[trigger] out[i],
                    a.server_id@,
                    nick@,
                    targets[i]@,
                    messages[i]@,
                )
            &&& forall|i: int, j: int|
                0 <= i <= j < out.len() ==> event_timestamp(#[trigger] out[i]) <= event_timestamp(
                    #[trigger] out[j],
                )
        }),
{
    lemma_echo_run(a, targets, messages, nick, nows);
}

} // verus!
