use crate::events::{status_notification, Notification, NotificationView};
use crate::types::ServerStatus;
use vstd::prelude::*;

verus! {

/// How long a graceful shutdown waits for one session's task, in milliseconds.
pub const SHUTDOWN_TIMEOUT_MS: u64 = 5000;

/// The lifecycle record of one session: its state, with exactly the resources
/// that state carries. `H` is the handle of the session's task, `T` the
/// sending end of its command channel.
pub enum ServerRuntime<H, T> {
    Disconnected,
    Connecting { handle: H },
    Registering { tx: T, handle: H },
    Connected { tx: T, handle: H },
    Disconnecting { handle: H },
    Failed { error: String },
}

/// What a graceful shutdown does with the resources of one drained record.
pub enum ShutdownPlan<H, T> {
    /// Send a quit command on `tx`, then wait for the task, at most `timeout_ms`.
    QuitAndWait { tx: T, handle: H, timeout_ms: u64 },
    /// Abort the task, wait until it has stopped, then deliver `notification`,
    /// the one terminal notification of the aborted session.
    Abort { handle: H, notification: Notification },
    /// Wait for the task, at most `timeout_ms`, sending nothing.
    Wait { handle: H, timeout_ms: u64 },
    /// Nothing is running: nothing to do.
    Nothing,
}

impl<H, T> ServerRuntime<H, T> {
    pub open spec fn spec_status(&self) -> ServerStatus {
        match self {
            ServerRuntime::Disconnected => ServerStatus::Disconnected,
            ServerRuntime::Connecting { .. } => ServerStatus::Connecting,
            ServerRuntime::Registering { .. } => ServerStatus::Registering,
            ServerRuntime::Connected { .. } => ServerStatus::Connected,
            ServerRuntime::Disconnecting { .. } => ServerStatus::Disconnecting,
            ServerRuntime::Failed { .. } => ServerStatus::Failed,
        }
    }

    /// The state this record stands for.
    pub fn status(&self) -> (r: ServerStatus)
        ensures
            r == self.spec_status(),
    {
        match self {
            ServerRuntime::Disconnected => ServerStatus::Disconnected,
            ServerRuntime::Connecting { .. } => ServerStatus::Connecting,
            ServerRuntime::Registering { .. } => ServerStatus::Registering,
            ServerRuntime::Connected { .. } => ServerStatus::Connected,
            ServerRuntime::Disconnecting { .. } => ServerStatus::Disconnecting,
            ServerRuntime::Failed { .. } => ServerStatus::Failed,
        }
    }

    /// `p` is the shutdown plan of this record, which belongs to session `id`.
    pub open spec fn is_shutdown_plan(self, id: Seq<char>, p: ShutdownPlan<H, T>) -> bool {
        match self {
            ServerRuntime::Connected { tx, handle } => p == ShutdownPlan::<H, T>::QuitAndWait {
                tx,
                handle,
                timeout_ms: SHUTDOWN_TIMEOUT_MS,
            },
            ServerRuntime::Registering { tx, handle } => p == ShutdownPlan::<H, T>::QuitAndWait {
                tx,
                handle,
                timeout_ms: SHUTDOWN_TIMEOUT_MS,
            },
            ServerRuntime::Connecting { handle } => p matches ShutdownPlan::Abort {
                handle: h,
                notification,
            } && h == handle && notification@ == (NotificationView::ServerStatus {
                server_id: id,
                status: ServerStatus::Failed,
            }),
            ServerRuntime::Disconnecting { handle } => p == ShutdownPlan::<H, T>::Wait {
                handle,
                timeout_ms: SHUTDOWN_TIMEOUT_MS,
            },
            ServerRuntime::Disconnected => p is Nothing,
            ServerRuntime::Failed { .. } => p is Nothing,
        }
    }

    /// The graceful-shutdown step for this record of session `server_id`:
    /// sessions with a channel are asked to quit and waited for, a session
    /// still connecting is aborted and given its `Failed` notification, a
    /// session already disconnecting is waited for, and idle records need
    /// nothing. Every wait is bounded by [`SHUTDOWN_TIMEOUT_MS`].
    pub fn shutdown_plan(self, server_id: &String) -> (r: ShutdownPlan<H, T>)
        ensures
            self.is_shutdown_plan(server_id@, r),
    {
        match self {
            ServerRuntime::Connected { tx, handle } => ShutdownPlan::QuitAndWait {
                tx,
                handle,
                timeout_ms: SHUTDOWN_TIMEOUT_MS,
            },
            ServerRuntime::Registering { tx, handle } => ShutdownPlan::QuitAndWait {
                tx,
                handle,
                timeout_ms: SHUTDOWN_TIMEOUT_MS,
            },
            ServerRuntime::Connecting { handle } => ShutdownPlan::Abort {
                handle,
                notification: status_notification(server_id, ServerStatus::Failed),
            },
            ServerRuntime::Disconnecting { handle } => ShutdownPlan::Wait {
                handle,
                timeout_ms: SHUTDOWN_TIMEOUT_MS,
            },
            ServerRuntime::Disconnected => ShutdownPlan::Nothing,
            ServerRuntime::Failed { .. } => ShutdownPlan::Nothing,
        }
    }
}

} // verus!
