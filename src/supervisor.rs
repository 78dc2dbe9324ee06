use crate::locks::ChannelLocks;
use crate::events::{status_notification, Notification, NotificationView};
use crate::registry::{drained_exactly, held_by_loop, status_in, Registry};
use crate::runtime::{ServerRuntime, ShutdownPlan, SHUTDOWN_TIMEOUT_MS};
use crate::types::{AppState, KircError, ServerCommand, ServerStatus};
use vstd::prelude::*;

verus! {

/// Whether a connect for `id` is admitted, given the process state and the
/// registry's contents: only while running, and only when `id` has no record
/// or an idle one (`Disconnected` or `Failed`).
pub open spec fn connect_verdict<H, T>(
    state: Option<AppState>,
    m: Map<Seq<char>, ServerRuntime<H, T>>,
    id: Seq<char>,
) -> Result<(), KircError> {
    if state != Some(AppState::Running) {
        Err(KircError::ShuttingDown)
    } else if status_in(m, id).is_live() {
        Err(KircError::AlreadyActive)
    } else {
        Ok(())
    }
}

/// Where a command for `id` can go: only to a `Connected` session.
pub open spec fn route_verdict<H, T>(m: Map<Seq<char>, ServerRuntime<H, T>>, id: Seq<char>) -> Result<
    T,
    KircError,
> {
    if !status_in(m, id).is_live() {
        Err(KircError::SessionNotFound)
    } else {
        match m[id] {
            ServerRuntime::Connected { tx, .. } => Ok(tx),
            _ => Err(KircError::NotConnected),
        }
    }
}

/// The supervisor's state: the registry of sessions and the process state.
/// Callers that share it across tasks hold it behind one lock.
pub struct IRCClientState<H, T> {
    pub servers: Registry<H, T>,
    /// The process state, under its one-byte code.
    pub app_state: u8,
    /// The channels on which sending is refused.
    pub channel_locks: ChannelLocks,
}

impl<H, T> IRCClientState<H, T> {
    /// The process state, as stored.
    pub open spec fn spec_app_state(&self) -> Option<AppState> {
        AppState::spec_from_u8(self.app_state)
    }

    pub open spec fn wf(&self) -> bool {
        &&& self.servers.wf()
        &&& self.spec_app_state().is_some()
        &&& self.channel_locks.wf()
    }

    /// A running supervisor with no session.
    pub fn new() -> (r: Self)
        ensures
            r.wf(),
            r.servers@ == Map::<Seq<char>, ServerRuntime<H, T>>::empty(),
            r.spec_app_state() == Some(AppState::Running),
            r.channel_locks@ == Set::<(Seq<char>, Seq<char>)>::empty(),
    {
        IRCClientState {
            servers: Registry::new(),
            app_state: AppState::Running.as_u8(),
            channel_locks: ChannelLocks::new(),
        }
    }

    /// The process state.
    pub fn app_state(&self) -> (r: Option<AppState>)
        ensures
            r == self.spec_app_state(),
    {
        AppState::from_u8(self.app_state)
    }

    fn set_app_state(&mut self, state: AppState)
        ensures
            final(self).spec_app_state() == Some(state),
            final(self).servers == old(self).servers,
            final(self).channel_locks == old(self).channel_locks,
    {
        self.app_state = state.as_u8();
    }

    /// Whether a shutdown is under way.
    pub fn is_shutting_down(&self) -> (r: bool)
        ensures
            r == (self.spec_app_state() == Some(AppState::ShuttingDown)),
    {
        match self.app_state() {
            Some(state) => state == AppState::ShuttingDown,
            None => false,
        }
    }

    /// Decides whether a connect for `server_id` is admitted; see
    /// [`connect_verdict`]. Nothing changes.
    pub fn check_connect(&self, server_id: &String) -> (r: Result<(), KircError>)
        requires
            self.wf(),
        ensures
            r == connect_verdict(self.spec_app_state(), self.servers@, server_id@),
    {
        match self.app_state() {
            Some(AppState::Running) => {},
            _ => {
                return Err(KircError::ShuttingDown);
            },
        }
        match self.servers.status_of(server_id) {
            ServerStatus::Disconnected => Ok(()),
            ServerStatus::Failed => Ok(()),
            _ => Err(KircError::AlreadyActive),
        }
    }

    /// Records the admitted connect of `server_id`, whose freshly spawned task
    /// is `handle`: the record becomes `Connecting`, and the `Connecting`
    /// notification is returned. The caller checks admission with
    /// [`Self::check_connect`] and spawns the task under the same lock.
    pub fn begin_connect(&mut self, server_id: String, handle: H) -> (r: Notification)
        requires
            old(self).wf(),
            connect_verdict(old(self).spec_app_state(), old(self).servers@, server_id@) is Ok,
        ensures
            final(self).wf(),
            final(self).spec_app_state() == old(self).spec_app_state(),
            final(self).channel_locks@ == old(self).channel_locks@,
            final(self).servers@ == old(self).servers@.insert(
                server_id@,
                ServerRuntime::Connecting { handle },
            ),
            r@ == (NotificationView::ServerStatus {
                server_id: server_id@,
                status: ServerStatus::Connecting,
            }),
    {
        let n = status_notification(&server_id, ServerStatus::Connecting);
        self.servers.insert(server_id, ServerRuntime::Connecting { handle });
        n
    }

    /// Cancels a connect still in progress: a `Connecting` record becomes
    /// `Disconnected`, its task handle is handed back to be aborted, and a
    /// `Failed` notification is returned for feedback. For any other state
    /// nothing changes.
    pub fn cancel_connect(&mut self, server_id: &String) -> (r: Option<(H, Notification)>)
        requires
            old(self).wf(),
        ensures
            final(self).wf(),
            final(self).spec_app_state() == old(self).spec_app_state(),
            final(self).channel_locks@ == old(self).channel_locks@,
            match old(self).servers@.get(server_id@) {
                Some(ServerRuntime::Connecting { handle }) => {
                    &&& final(self).servers@ == old(self).servers@.insert(
                        server_id@,
                        ServerRuntime::Disconnected,
                    )
                    &&& (r matches Some((h, n)) && h == handle && n@
                        == (NotificationView::ServerStatus {
                        server_id: server_id@,
                        status: ServerStatus::Failed,
                    }))
                },
                _ => r.is_none() && final(self).servers@ == old(self).servers@,
            },
    {
        match self.servers.abort_connecting(server_id) {
            Some(handle) => Some((handle, status_notification(server_id, ServerStatus::Failed))),
            None => None,
        }
    }

    /// Asks a `Registering` or `Connected` session to quit: its record becomes
    /// `Disconnecting` and its command channel is handed back, on which the
    /// caller sends [`ServerCommand::Quit`]. The session's loop writes the
    /// final record. For any other state nothing changes.
    pub fn disconnect_server(&mut self, server_id: &String) -> (r: Option<T>)
        requires
            old(self).wf(),
        ensures
            final(self).wf(),
            final(self).spec_app_state() == old(self).spec_app_state(),
            final(self).channel_locks@ == old(self).channel_locks@,
            match old(self).servers@.get(server_id@) {
                Some(ServerRuntime::Registering { tx, handle }) => r == Some(tx)
                    && final(self).servers@ == old(self).servers@.insert(
                    server_id@,
                    ServerRuntime::Disconnecting { handle },
                ),
                Some(ServerRuntime::Connected { tx, handle }) => r == Some(tx)
                    && final(self).servers@ == old(self).servers@.insert(
                    server_id@,
                    ServerRuntime::Disconnecting { handle },
                ),
                _ => r.is_none() && final(self).servers@ == old(self).servers@,
            },
    {
        self.servers.begin_disconnecting(server_id)
    }

    /// The command channel of a `Connected` session `server_id`; see
    /// [`route_verdict`].
    pub fn command_channel(&self, server_id: &String) -> (r: Result<&T, KircError>)
        requires
            self.wf(),
        ensures
            match route_verdict(self.servers@, server_id@) {
                Ok(tx) => r matches Ok(t) && *t == tx,
                Err(e) => r matches Err(e2) && e2 == e,
            },
    {
        match self.servers.get(server_id) {
            None => Err(KircError::SessionNotFound),
            Some(rt) => match rt {
                ServerRuntime::Connected { tx, .. } => Ok(tx),
                ServerRuntime::Disconnected => Err(KircError::SessionNotFound),
                ServerRuntime::Failed { .. } => Err(KircError::SessionNotFound),
                _ => Err(KircError::NotConnected),
            },
        }
    }

    /// Routes a join of `channel` to the `Connected` session `server_id`: the
    /// channel to send on and the command to send.
    pub fn join_channel(&self, server_id: &String, channel: String) -> (r: Result<
        (&T, ServerCommand),
        KircError,
    >)
        requires
            self.wf(),
        ensures
            match route_verdict(self.servers@, server_id@) {
                Ok(tx) => r matches Ok((t, c)) && *t == tx && c == ServerCommand::Join(channel),
                Err(e) => r matches Err(e2) && e2 == e,
            },
    {
        match self.command_channel(server_id) {
            Ok(tx) => Ok((tx, ServerCommand::Join(channel))),
            Err(e) => Err(e),
        }
    }

    /// Routes a message to `target` to the `Connected` session `server_id`:
    /// the channel to send on and the command to send. A locked target
    /// channel is refused first.
    pub fn send_message(&self, server_id: &String, target: String, message: String) -> (r: Result<
        (&T, ServerCommand),
        KircError,
    >)
        requires
            self.wf(),
        ensures
            self.channel_locks@.contains((server_id@, target@)) ==> (r matches Err(e) && e
                == KircError::ChannelLocked),
            !self.channel_locks@.contains((server_id@, target@)) ==> match route_verdict(
                self.servers@,
                server_id@,
            ) {
                Ok(tx) => r matches Ok((t, c)) && *t == tx && c == (ServerCommand::Privmsg {
                    target,
                    message,
                }),
                Err(e) => r matches Err(e2) && e2 == e,
            },
    {
        if self.channel_locks.contains(server_id, &target) {
            return Err(KircError::ChannelLocked);
        }
        match self.command_channel(server_id) {
            Ok(tx) => Ok((tx, ServerCommand::Privmsg { target, message })),
            Err(e) => Err(e),
        }
    }

    /// Begins a graceful shutdown: from now on connects are refused, and every
    /// record is drained from the registry in one step and turned into its
    /// shutdown plan, paired with its identifier. A session still connecting
    /// gets its terminal `Failed` notification in its plan. The caller runs all plans
    /// concurrently and then calls [`Self::finish_shutdown`].
    pub fn begin_shutdown(&mut self) -> (r: Vec<(String, ShutdownPlan<H, T>)>)
        requires
            old(self).wf(),
        ensures
            final(self).wf(),
            final(self).spec_app_state() == Some(AppState::ShuttingDown),
            final(self).channel_locks@ == old(self).channel_locks@,
            final(self).servers@ == Map::<Seq<char>, ServerRuntime<H, T>>::empty(),
            exists|d: Seq<(String, ServerRuntime<H, T>)>|
                #[trigger] drained_exactly(d, old(self).servers@) && d.len() == r@.len() && (forall|
                    i: int,
                |
                    0 <= i < d.len() ==> (#[trigger] r@[i]).0 == d[i].0 && d[i].1.is_shutdown_plan(
                        d[i].0@,
                        r@[i].1,
                    )),
    {
        self.set_app_state(AppState::ShuttingDown);
        let mut drained = self.servers.drain_all();
        let ghost d = drained@;
        let mut plans: Vec<(String, ShutdownPlan<H, T>)> = Vec::new();
        while drained.len() > 0
            invariant
                drained@.len() + plans@.len() == d.len(),
                drained@ == d.subrange(plans@.len() as int, d.len() as int),
                forall|i: int|
                    0 <= i < plans@.len() ==> (#[trigger] plans@[i]).0 == d[i].0
                        && d[i].1.is_shutdown_plan(d[i].0@, plans@[i].1),
            decreases drained@.len(),
        {
            let ghost k = plans@.len() as int;
            let (id, rt) = drained.remove(0);
            assert(d[k] == (id, rt));
            let plan = rt.shutdown_plan(&id);
            plans.push((id, plan));
            assert(drained@ =~= d.subrange(plans@.len() as int, d.len() as int));
        }
        assert(drained_exactly(d, old(self).servers@));
        plans
    }

    /// Completes a graceful shutdown once every plan has finished or timed out.
    pub fn finish_shutdown(&mut self)
        requires
            old(self).wf(),
        ensures
            final(self).wf(),
            final(self).spec_app_state() == Some(AppState::Terminated),
            final(self).channel_locks@ == old(self).channel_locks@,
            final(self).servers@ == old(self).servers@,
    {
        self.set_app_state(AppState::Terminated);
    }
}

/// Two connects of one identifier in immediate succession: once the first is
/// admitted and its `Connecting` record written, the second is refused as
/// already active. One task is spawned, one connect rejected.
pub proof fn lemma_second_connect_rejected<H, T>(
    state: Option<AppState>,
    m: Map<Seq<char>, ServerRuntime<H, T>>,
    id: Seq<char>,
    handle: H,
)
    requires
        connect_verdict(state, m, id) is Ok,
    ensures
        connect_verdict(state, m.insert(id, ServerRuntime::Connecting { handle }), id) == Err::<
            (),
            KircError,
        >(KircError::AlreadyActive),
{
    assert(m.insert(id, ServerRuntime::Connecting { handle }).contains_key(id));
}

/// A shutdown of connected sessions: each one drained is asked to quit and
/// waited for at most [`SHUTDOWN_TIMEOUT_MS`], each with its own channel and
/// task. The registry is left empty and stays so: no connect is admitted, and
/// a session loop that ends afterwards, or a handshake that completes or fails
/// late, finds no record to write.
pub proof fn lemma_shutdown_of_connected_sessions<H, T>(
    m: Map<Seq<char>, ServerRuntime<H, T>>,
    d: Seq<(String, ServerRuntime<H, T>)>,
    plans: Seq<(String, ShutdownPlan<H, T>)>,
    id: Seq<char>,
)
    requires
        forall|k: Seq<char>| #[trigger] m.contains_key(k) ==> m[k] is Connected,
        drained_exactly(d, m),
        plans.len() == d.len(),
        forall|i: int|
            0 <= i < d.len() ==> (#[trigger] plans[i]).0 == d[i].0 && d[i].1.is_shutdown_plan(
                d[i].0@,
                plans[i].1,
            ),
    ensures
        forall|k: Seq<char>| #[trigger]
            m.contains_key(k) ==> exists|i: int|
                0 <= i < plans.len() && plans[i].0@ == k && #[trigger] plans[i].1 == (
                ShutdownPlan::QuitAndWait {
                    tx: m[k]->Connected_tx,
                    handle: m[k]->Connected_handle,
                    timeout_ms: SHUTDOWN_TIMEOUT_MS,
                }),
        forall|i: int|
            0 <= i < plans.len() ==> ((#[trigger] plans[i]).1 matches ShutdownPlan::QuitAndWait {
                timeout_ms,
                ..
            } && timeout_ms == SHUTDOWN_TIMEOUT_MS),
        connect_verdict(
            Some(AppState::ShuttingDown),
            Map::<Seq<char>, ServerRuntime<H, T>>::empty(),
            id,
        ) == Err::<(), KircError>(KircError::ShuttingDown),
        !held_by_loop(status_in(Map::<Seq<char>, ServerRuntime<H, T>>::empty(), id)),
        Map::<Seq<char>, ServerRuntime<H, T>>::empty().get(id) is None,
{
    assert forall|k: Seq<char>| #[trigger] m.contains_key(k) implies exists|i: int|
        0 <= i < plans.len() && plans[i].0@ == k && #[trigger] plans[i].1 == (
        ShutdownPlan::QuitAndWait {
            tx: m[k]->Connected_tx,
            handle: m[k]->Connected_handle,
            timeout_ms: SHUTDOWN_TIMEOUT_MS,
        }) by {
        let i = choose|i: int| 0 <= i < d.len() && #[trigger] d[i].0@ == k;
        assert(plans[i].0@ == k);
    }
    assert forall|i: int| 0 <= i < plans.len() implies ((#[trigger] plans[i]).1 matches ShutdownPlan::QuitAndWait {
        timeout_ms,
        ..
    } && timeout_ms == SHUTDOWN_TIMEOUT_MS) by {
        assert(m.contains_key(d[i].0@));
    }
}

/// A session still connecting when shutdown drains it: its plan aborts the
/// task and carries the one terminal notification of its life, `Failed`.
/// The registry is empty from then on, so the loop's start and a late
/// handshake failure find no `Connecting` record: they change nothing and emit
/// nothing, and no other terminal notification follows.
pub proof fn lemma_aborted_at_shutdown_single_terminal<H, T>(
    handle: H,
    id: Seq<char>,
    plan: ShutdownPlan<H, T>,
)
    requires
        (ServerRuntime::<H, T>::Connecting { handle }).is_shutdown_plan(id, plan),
    ensures
        plan matches ShutdownPlan::Abort { handle: h, notification } && h == handle
            && notification@.is_terminal() && notification@ == (NotificationView::ServerStatus {
            server_id: id,
            status: ServerStatus::Failed,
        }),
        !(Map::<Seq<char>, ServerRuntime<H, T>>::empty().get(id) matches Some(
            ServerRuntime::Connecting { .. },
        )),
        status_in(Map::<Seq<char>, ServerRuntime<H, T>>::empty(), id) != ServerStatus::Connecting,
        !held_by_loop(status_in(Map::<Seq<char>, ServerRuntime<H, T>>::empty(), id)),
{
}

} // verus!
