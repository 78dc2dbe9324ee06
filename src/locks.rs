use vstd::prelude::*;

verus! {

/// Names one channel of one session.
#[derive(Clone, Debug, PartialEq, Eq)]
pub struct ChannelLockPayload {
    pub server_id: String,
    pub channel: String,
}

/// Notification that a channel was locked or unlocked.
#[derive(Clone, Debug, PartialEq, Eq)]
pub struct ChannelLockChangedEvent {
    pub server_id: String,
    pub channel: String,
    pub locked: bool,
}

/// The channels on which sending is refused: a policy consulted before a
/// message is forwarded to its session, kept apart from the session logic.
pub struct ChannelLocks {
    locked: Vec<(String, String)>,
}

impl View for ChannelLocks {
    type V = Set<(Seq<char>, Seq<char>)>;

    closed spec fn view(&self) -> Set<(Seq<char>, Seq<char>)> {
        Set::new(
            |p: (Seq<char>, Seq<char>)|
                exists|i: int| 0 <= i < self.locked@.len() && #[trigger] self.pair(i) == p,
        )
    }
}

impl ChannelLocks {
    spec fn pair(&self, i: int) -> (Seq<char>, Seq<char>) {
        (self.locked@[i].0@, self.locked@[i].1@)
    }

    /// Each locked channel is listed once.
    pub closed spec fn wf(&self) -> bool {
        forall|i: int, j: int|
            0 <= i < self.locked@.len() && 0 <= j < self.locked@.len() && i != j ==> #[trigger] self.pair(
                i,
            ) != #[trigger] self.pair(j)
    }

    /// No channel locked.
    pub fn new() -> (r: Self)
        ensures
            r.wf(),
            r@ == Set::<(Seq<char>, Seq<char>)>::empty(),
    {
        let r = ChannelLocks { locked: Vec::new() };
        assert(r@ =~= Set::<(Seq<char>, Seq<char>)>::empty());
        r
    }

    fn find(&self, server_id: &String, channel: &String) -> (r: Option<usize>)
        ensures
            match r {
                Some(i) => i < self.locked@.len() && self.pair(i as int) == (server_id@, channel@),
                None => !self@.contains((server_id@, channel@)),
            },
    {
        let mut i: usize = 0;
        while i < self.locked.len()
            invariant
                i <= self.locked@.len(),
                forall|j: int| 0 <= j < i ==> self.pair(j) != (server_id@, channel@),
            decreases self.locked@.len() - i,
        {
            if self.locked[i].0 == *server_id && self.locked[i].1 == *channel {
                return Some(i);
            }
            i += 1;
        }
        None
    }

    /// Whether `channel` of session `server_id` is locked.
    pub fn contains(&self, server_id: &String, channel: &String) -> (r: bool)
        ensures
            r == self@.contains((server_id@, channel@)),
    {
        match self.find(server_id, channel) {
            Some(i) => {
                assert(self@.contains(self.pair(i as int)));
                true
            },
            None => false,
        }
    }
}

/// Locks the channel named by `payload`, and returns the notification of it.
pub fn lock_channel(locks: &mut ChannelLocks, payload: ChannelLockPayload) -> (r:
    ChannelLockChangedEvent)
    requires
        old(locks).wf(),
    ensures
        final(locks).wf(),
        final(locks)@ == old(locks)@.insert((payload.server_id@, payload.channel@)),
        r.server_id == payload.server_id,
        r.channel == payload.channel,
        r.locked,
{
    let ghost p = (payload.server_id@, payload.channel@);
    if locks.find(&payload.server_id, &payload.channel).is_none() {
        let ghost n = locks.locked@.len();
        locks.locked.push((payload.server_id.clone(), payload.channel.clone()));
        proof {
            assert(locks.pair(n as int) == p);
            assert forall|a: int, b: int|
                0 <= a < locks.locked@.len() && 0 <= b < locks.locked@.len() && a != b implies #[trigger] locks.pair(
                a,
            ) != #[trigger] locks.pair(b) by {
                if a < n {
                    assert(locks.pair(a) == old(locks).pair(a));
                    assert(old(locks)@.contains(old(locks).pair(a)));
                }
                if b < n {
                    assert(locks.pair(b) == old(locks).pair(b));
                    assert(old(locks)@.contains(old(locks).pair(b)));
                }
            }
            assert forall|q: (Seq<char>, Seq<char>)| #[trigger]
                old(locks)@.insert(p).contains(q) implies locks@.contains(q) by {
                if q != p {
                    let i = choose|i: int| 0 <= i < old(locks).locked@.len() && #[trigger] old(
                        locks,
                    ).pair(i) == q;
                    assert(locks.pair(i) == q);
                }
            }
            assert forall|q: (Seq<char>, Seq<char>)| #[trigger]
                locks@.contains(q) implies old(locks)@.insert(p).contains(q) by {
                let i = choose|i: int| 0 <= i < locks.locked@.len() && #[trigger] locks.pair(i) == q;
                if i < n {
                    assert(old(locks).pair(i) == q);
                }
            }
            assert(locks@ =~= old(locks)@.insert(p));
        }
    } else {
        proof {
            assert(locks@ =~= old(locks)@.insert(p));
        }
    }
    ChannelLockChangedEvent { server_id: payload.server_id, channel: payload.channel, locked: true }
}

/// Unlocks the channel named by `payload`, and returns the notification of it.
pub fn unlock_channel(locks: &mut ChannelLocks, payload: ChannelLockPayload) -> (r:
    ChannelLockChangedEvent)
    requires
        old(locks).wf(),
    ensures
        final(locks).wf(),
        final(locks)@ == old(locks)@.remove((payload.server_id@, payload.channel@)),
        r.server_id == payload.server_id,
        r.channel == payload.channel,
        !r.locked,
{
    let ghost p = (payload.server_id@, payload.channel@);
    match locks.find(&payload.server_id, &payload.channel) {
        Some(i) => {
            let _ = locks.locked.remove(i);
            proof {
                assert forall|a: int, b: int|
                    0 <= a < locks.locked@.len() && 0 <= b < locks.locked@.len() && a != b implies #[trigger] locks.pair(
                    a,
                ) != #[trigger] locks.pair(b) by {
                    let a0 = if a < i { a } else { a + 1 };
                    let b0 = if b < i { b } else { b + 1 };
                    assert(locks.pair(a) == old(locks).pair(a0));
                    assert(locks.pair(b) == old(locks).pair(b0));
                }
                assert forall|q: (Seq<char>, Seq<char>)| #[trigger]
                    old(locks)@.remove(p).contains(q) implies locks@.contains(q) by {
                    let j = choose|j: int| 0 <= j < old(locks).locked@.len() && #[trigger] old(
                        locks,
                    ).pair(j) == q;
                    if j < i {
                        assert(locks.pair(j) == q);
                    } else {
                        assert(j != i);
                        assert(locks.pair(j - 1) == q);
                    }
                }
                assert forall|q: (Seq<char>, Seq<char>)| #[trigger]
                    locks@.contains(q) implies old(locks)@.remove(p).contains(q) by {
                    let j = choose|j: int| 0 <= j < locks.locked@.len() && #[trigger] locks.pair(j)
                        == q;
                    let j0 = if j < i { j } else { j + 1 };
                    assert(old(locks).pair(j0) == q);
                    assert(old(locks).pair(i as int) == p);
                }
                assert(locks@ =~= old(locks)@.remove(p));
            }
        },
        None => {
            proof {
                assert(locks@ =~= old(locks)@.remove(p));
            }
        },
    }
    ChannelLockChangedEvent { server_id: payload.server_id, channel: payload.channel, locked: false }
}

/// Whether the channel named by `payload` is locked.
pub fn is_channel_locked(locks: &ChannelLocks, payload: &ChannelLockPayload) -> (r: bool)
    ensures
        r == locks@.contains((payload.server_id@, payload.channel@)),
{
    locks.contains(&payload.server_id, &payload.channel)
}

} // verus!
