use crate::frame::{opt_view, Frame};
use crate::types::ServerStatus;
use vstd::prelude::*;

verus! {

/// The informational text sent once a session reaches `Connected`.
pub open spec fn connected_notice() -> Seq<char> {
    "connected"@
}

/// A protocol event delivered to the outside, stamped in milliseconds since
/// the epoch at the moment the frame was handled locally.
#[derive(Clone, Debug, PartialEq, Eq)]
pub enum UiEventPayload {
    UserMessage { server_id: String, channel: String, nick: String, content: String, timestamp: u64 },
    Join { server_id: String, channel: String, nick: String },
    Part { server_id: String, channel: String, nick: String, reason: Option<String> },
    Quit { server_id: String, nick: String, reason: Option<String> },
    Nick { server_id: String, old_nick: String, new_nick: String },
    Topic { server_id: String, channel: String, topic: Option<String> },
    Error { server_id: String, message: String },
}

/// The mathematical value of a [`UiEventPayload`].
pub enum UiEventView {
    UserMessage {
        server_id: Seq<char>,
        channel: Seq<char>,
        nick: Seq<char>,
        content: Seq<char>,
        timestamp: u64,
    },
    Join { server_id: Seq<char>, channel: Seq<char>, nick: Seq<char> },
    Part { server_id: Seq<char>, channel: Seq<char>, nick: Seq<char>, reason: Option<Seq<char>> },
    Quit { server_id: Seq<char>, nick: Seq<char>, reason: Option<Seq<char>> },
    Nick { server_id: Seq<char>, old_nick: Seq<char>, new_nick: Seq<char> },
    Topic { server_id: Seq<char>, channel: Seq<char>, topic: Option<Seq<char>> },
    Error { server_id: Seq<char>, message: Seq<char> },
}

impl View for UiEventPayload {
    type V = UiEventView;

    open spec fn view(&self) -> UiEventView {
        match self {
            UiEventPayload::UserMessage { server_id, channel, nick, content, timestamp } =>
                UiEventView::UserMessage {
                server_id: server_id@,
                channel: channel@,
                nick: nick@,
                content: content@,
                timestamp: *timestamp,
            },
            UiEventPayload::Join { server_id, channel, nick } => UiEventView::Join {
                server_id: server_id@,
                channel: channel@,
                nick: nick@,
            },
            UiEventPayload::Part { server_id, channel, nick, reason } => UiEventView::Part {
                server_id: server_id@,
                channel: channel@,
                nick: nick@,
                reason: opt_view(*reason),
            },
            UiEventPayload::Quit { server_id, nick, reason } => UiEventView::Quit {
                server_id: server_id@,
                nick: nick@,
                reason: opt_view(*reason),
            },
            UiEventPayload::Nick { server_id, old_nick, new_nick } => UiEventView::Nick {
                server_id: server_id@,
                old_nick: old_nick@,
                new_nick: new_nick@,
            },
            UiEventPayload::Topic { server_id, channel, topic } => UiEventView::Topic {
                server_id: server_id@,
                channel: channel@,
                topic: opt_view(*topic),
            },
            UiEventPayload::Error { server_id, message } => UiEventView::Error {
                server_id: server_id@,
                message: message@,
            },
        }
    }
}

/// A lifecycle notification: the session `server_id` is now in `status`.
#[derive(Clone, Debug, PartialEq, Eq)]
pub struct ServerStatusPayload {
    pub server_id: String,
    pub status: ServerStatus,
}

/// An informational notice about one session.
#[derive(Clone, Debug, PartialEq, Eq)]
pub struct SystemMessagePayload {
    pub server_id: String,
    pub message: String,
}

/// Everything a session or the supervisor delivers to the event sink.
#[derive(Clone, Debug, PartialEq, Eq)]
pub enum Notification {
    ServerStatus(ServerStatusPayload),
    SystemMessage(SystemMessagePayload),
    Event(UiEventPayload),
}

/// The mathematical value of a [`Notification`].
pub enum NotificationView {
    ServerStatus { server_id: Seq<char>, status: ServerStatus },
    SystemMessage { server_id: Seq<char>, message: Seq<char> },
    Event(UiEventView),
}

impl View for Notification {
    type V = NotificationView;

    open spec fn view(&self) -> NotificationView {
        match self {
            Notification::ServerStatus(p) => NotificationView::ServerStatus {
                server_id: p.server_id@,
                status: p.status,
            },
            Notification::SystemMessage(p) => NotificationView::SystemMessage {
                server_id: p.server_id@,
                message: p.message@,
            },
            Notification::Event(e) => NotificationView::Event(e@),
        }
    }
}

impl NotificationView {
    /// A lifecycle notification that ends a session's life.
    pub open spec fn is_terminal(self) -> bool {
        self matches NotificationView::ServerStatus { status, .. } && status.is_terminal()
    }
}

/// The views of a sequence of notifications.
pub open spec fn views(s: Seq<Notification>) -> Seq<NotificationView> {
    s.map_values(|n: Notification| n@)
}

/// How many notifications of `s` end a session's life.
pub open spec fn terminal_count(s: Seq<NotificationView>) -> nat
    decreases s.len(),
{
    if s.len() == 0 {
        0
    } else {
        terminal_count(s.drop_last()) + if s.last().is_terminal() {
            1nat
        } else {
            0nat
        }
    }
}

/// The outward event that a frame of session `id`, handled at time `ts`,
/// projects to; `None` for frames that produce no protocol event.
pub open spec fn projected(id: Seq<char>, f: Frame, ts: u64) -> Option<UiEventView> {
    match f {
        Frame::Privmsg { source, target, content } => Some(
            UiEventView::UserMessage {
                server_id: id,
                channel: target@,
                nick: source@,
                content: content@,
                timestamp: ts,
            },
        ),
        Frame::Join { source, channel } => Some(
            UiEventView::Join { server_id: id, channel: channel@, nick: source@ },
        ),
        Frame::Part { source, channel, comment } => Some(
            UiEventView::Part {
                server_id: id,
                channel: channel@,
                nick: source@,
                reason: opt_view(comment),
            },
        ),
        Frame::Quit { source, comment } => Some(
            UiEventView::Quit { server_id: id, nick: source@, reason: opt_view(comment) },
        ),
        Frame::Nick { source, nickname } => Some(
            UiEventView::Nick { server_id: id, old_nick: source@, new_nick: nickname@ },
        ),
        Frame::Topic { channel, topic } => Some(
            UiEventView::Topic { server_id: id, channel: channel@, topic: opt_view(topic) },
        ),
        Frame::Error { message } => Some(UiEventView::Error { server_id: id, message: message@ }),
        Frame::Welcome => None,
        Frame::Other => None,
    }
}

/// Projects one inbound frame of session `server_id`, handled at `timestamp`,
/// onto the protocol event it is shown as.
pub fn project_frame(server_id: &String, frame: Frame, timestamp: u64) -> (r: Option<
    UiEventPayload,
>)
    ensures
        (match r {
            Some(e) => Some(e@),
            None => None::<UiEventView>,
        }) == projected(server_id@, frame, timestamp),
{
    let id = server_id.clone();
    match frame {
        Frame::Privmsg { source, target, content } => Some(
            UiEventPayload::UserMessage {
                server_id: id,
                channel: target,
                nick: source,
                content,
                timestamp,
            },
        ),
        Frame::Join { source, channel } => Some(
            UiEventPayload::Join { server_id: id, channel, nick: source },
        ),
        Frame::Part { source, channel, comment } => Some(
            UiEventPayload::Part { server_id: id, channel, nick: source, reason: comment },
        ),
        Frame::Quit { source, comment } => Some(
            UiEventPayload::Quit { server_id: id, nick: source, reason: comment },
        ),
        Frame::Nick { source, nickname } => Some(
            UiEventPayload::Nick { server_id: id, old_nick: source, new_nick: nickname },
        ),
        Frame::Topic { channel, topic } => Some(
            UiEventPayload::Topic { server_id: id, channel, topic },
        ),
        Frame::Error { message } => Some(UiEventPayload::Error { server_id: id, message }),
        Frame::Welcome => None,
        Frame::Other => None,
    }
}

/// The lifecycle notification that session `server_id` is now in `status`.
pub fn status_notification(server_id: &String, status: ServerStatus) -> (r: Notification)
    ensures
        r@ == (NotificationView::ServerStatus { server_id: server_id@, status }),
{
    Notification::ServerStatus(ServerStatusPayload { server_id: server_id.clone(), status })
}

/// The informational notice that session `server_id` is connected.
pub fn connected_notification(server_id: &String) -> (r: Notification)
    ensures
        r@ == (NotificationView::SystemMessage {
            server_id: server_id@,
            message: connected_notice(),
        }),
{
    let message = String::from_str("connected");
    Notification::SystemMessage(SystemMessagePayload { server_id: server_id.clone(), message })
}

} // verus!
