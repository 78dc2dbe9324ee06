use vstd::prelude::*;

verus! {

/// Identifier of one logical server connection, supplied from outside.
pub type ServerId = String;

/// Lifecycle state of a session, as reported outside the library.
#[derive(Clone, Copy, Debug, PartialEq, Eq, Structural)]
pub enum ServerStatus {
    Connecting,
    Connected,
    Registering,
    Disconnected,
    Disconnecting,
    Failed,
}

impl ServerStatus {
    /// A status that ends a session's life.
    pub open spec fn is_terminal(self) -> bool {
        self == ServerStatus::Disconnected || self == ServerStatus::Failed
    }

    /// A status in which a session holds resources (a task, maybe a channel).
    pub open spec fn is_live(self) -> bool {
        !self.is_terminal()
    }
}

/// A command handed to a running session over its command channel.
#[derive(Clone, Debug, PartialEq, Eq)]
pub enum ServerCommand {
    Join(String),
    Privmsg { target: String, message: String },
    Quit,
}

/// Process-wide state of the supervisor.
#[derive(Clone, Copy, Debug, PartialEq, Eq, Structural)]
pub enum AppState {
    Running,
    ShuttingDown,
    Terminated,
}

impl AppState {
    pub open spec fn spec_as_u8(self) -> u8 {
        match self {
            AppState::Running => 0,
            AppState::ShuttingDown => 1,
            AppState::Terminated => 2,
        }
    }

    pub open spec fn spec_from_u8(value: u8) -> Option<AppState> {
        if value == 0 {
            Some(AppState::Running)
        } else if value == 1 {
            Some(AppState::ShuttingDown)
        } else if value == 2 {
            Some(AppState::Terminated)
        } else {
            None
        }
    }

    /// The one-byte code under which the state is stored.
    pub fn as_u8(&self) -> (r: u8)
        ensures
            r == self.spec_as_u8(),
            AppState::spec_from_u8(r) == Some(*self),
    {
        match self {
            AppState::Running => 0,
            AppState::ShuttingDown => 1,
            AppState::Terminated => 2,
        }
    }

    /// The state stored under `value`, if `value` is a valid code.
    pub fn from_u8(value: u8) -> (r: Option<AppState>)
        ensures
            r == AppState::spec_from_u8(value),
            r.is_some() <==> value < 3,
            r matches Some(s) ==> s.spec_as_u8() == value,
    {
        match value {
            0 => Some(AppState::Running),
            1 => Some(AppState::ShuttingDown),
            2 => Some(AppState::Terminated),
            _ => None,
        }
    }
}

/// Errors returned to the caller of a supervisor command.
#[derive(Clone, Copy, Debug, PartialEq, Eq, Structural)]
pub enum KircError {
    /// A connection for this identifier is already connecting, registering,
    /// connected or disconnecting.
    AlreadyActive,
    /// No live session exists for this identifier.
    SessionNotFound,
    /// The session exists but has not reached `Connected`.
    NotConnected,
    /// The process is shutting down and accepts no new connection.
    ShuttingDown,
    /// The session's command channel is closed.
    SendFailure,
    /// Sending to this channel is refused by the lock policy.
    ChannelLocked,
}

impl KircError {
    /// A human-readable description of the error.
    pub fn message(&self) -> (r: String) {
        match self {
            KircError::AlreadyActive => String::from_str("Already connecting or connected"),
            KircError::SessionNotFound => String::from_str("Can't find server"),
            KircError::NotConnected => String::from_str("Server not connected"),
            KircError::ShuttingDown => String::from_str("Application is shutting down"),
            KircError::SendFailure => String::from_str("Failed to send command to server"),
            KircError::ChannelLocked => String::from_str("Channel is locked"),
        }
    }
}

/// What is needed to open one connection.
#[derive(Clone, Debug, PartialEq, Eq)]
pub struct ConnectServerPayload {
    pub server_id: ServerId,
    pub host: String,
    pub port: u16,
    pub tls: bool,
    pub nickname: String,
}

} // verus!
