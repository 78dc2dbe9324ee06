use vstd::prelude::*;

verus! {

/// An inbound protocol frame, as far as the session logic reads it.
///
/// `source` is the nickname of the frame's sender, empty when the frame
/// carries none.
#[derive(Clone, Debug, PartialEq, Eq)]
pub enum Frame {
    Privmsg { source: String, target: String, content: String },
    Join { source: String, channel: String },
    Part { source: String, channel: String, comment: Option<String> },
    Quit { source: String, comment: Option<String> },
    Nick { source: String, nickname: String },
    Topic { channel: String, topic: Option<String> },
    Error { message: String },
    /// The server's registration-accepted (welcome) reply.
    Welcome,
    /// Any frame the session does not act on.
    Other,
}

/// An outbound protocol frame that a session asks to be written to its stream.
#[derive(Clone, Debug, PartialEq, Eq)]
pub enum OutboundFrame {
    Join { channel: String },
    Privmsg { target: String, message: String },
    Quit { comment: String },
}

/// The mathematical value of an [`OutboundFrame`].
pub enum OutboundView {
    Join { channel: Seq<char> },
    Privmsg { target: Seq<char>, message: Seq<char> },
    Quit { comment: Seq<char> },
}

impl View for OutboundFrame {
    type V = OutboundView;

    open spec fn view(&self) -> OutboundView {
        match self {
            OutboundFrame::Join { channel } => OutboundView::Join { channel: channel@ },
            OutboundFrame::Privmsg { target, message } => OutboundView::Privmsg {
                target: target@,
                message: message@,
            },
            OutboundFrame::Quit { comment } => OutboundView::Quit { comment: comment@ },
        }
    }
}

/// The view of an optional string.
pub open spec fn opt_view(o: Option<String>) -> Option<Seq<char>> {
    match o {
        Some(s) => Some(s@),
        None => None,
    }
}

} // verus!
