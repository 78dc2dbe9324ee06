use crate::runtime::ServerRuntime;
use crate::types::ServerStatus;
use vstd::prelude::*;

verus! {

/// The status of `id` in a registry whose contents are `m`: `Disconnected`
/// for identifiers it does not know.
pub open spec fn status_in<H, T>(m: Map<Seq<char>, ServerRuntime<H, T>>, id: Seq<char>) -> ServerStatus {
    if m.contains_key(id) {
        m[id].spec_status()
    } else {
        ServerStatus::Disconnected
    }
}

/// A status in which a running session loop owns the record.
pub open spec fn held_by_loop(s: ServerStatus) -> bool {
    s == ServerStatus::Registering || s == ServerStatus::Connected || s == ServerStatus::Disconnecting
}

/// `d` holds each record of `m` exactly once, under its identifier.
pub open spec fn drained_exactly<H, T>(
    d: Seq<(String, ServerRuntime<H, T>)>,
    m: Map<Seq<char>, ServerRuntime<H, T>>,
) -> bool {
    &&& forall|i: int, j: int|
        0 <= i < d.len() && 0 <= j < d.len() && i != j ==> #[trigger] d[i].0@ != #[trigger] d[j].0@
    &&& forall|i: int| 0 <= i < d.len() ==> m.contains_key(#[trigger] d[i].0@) && m[d[i].0@] == d[i].1
    &&& forall|k: Seq<char>| #[trigger] m.contains_key(k) ==> exists|i: int| 0 <= i < d.len() && #[trigger] d[i].0@ == k
}

/// The single store of `identifier -> lifecycle record`. Mutation goes through
/// its methods, one key at a time; callers that share it across tasks hold it
/// behind one lock, so each method is one critical section.
pub struct Registry<H, T> {
    entries: Vec<(String, ServerRuntime<H, T>)>,
    model: Ghost<Map<Seq<char>, ServerRuntime<H, T>>>,
}

impl<H, T> View for Registry<H, T> {
    type V = Map<Seq<char>, ServerRuntime<H, T>>;

    closed spec fn view(&self) -> Map<Seq<char>, ServerRuntime<H, T>> {
        self.model@
    }
}

impl<H, T> Registry<H, T> {
    spec fn key(&self, i: int) -> Seq<char> {
        self.entries@[i].0@
    }

    /// Identifiers are unique, and the entries hold exactly the model.
    pub closed spec fn wf(&self) -> bool {
        &&& forall|i: int, j: int|
            0 <= i < self.entries@.len() && 0 <= j < self.entries@.len() && i != j ==> #[trigger] self.key(i)
                != #[trigger] self.key(j)
        &&& forall|i: int|
            0 <= i < self.entries@.len() ==> self.model@.contains_key(#[trigger] self.key(i))
                && self.model@[self.key(i)] == self.entries@[i].1
        &&& forall|k: Seq<char>|
            #[trigger] self.model@.contains_key(k) ==> exists|i: int|
                0 <= i < self.entries@.len() && #[trigger] self.key(i) == k
    }

    /// An empty registry.
    pub fn new() -> (r: Self)
        ensures
            r.wf(),
            r@ == Map::<Seq<char>, ServerRuntime<H, T>>::empty(),
    {
        Registry { entries: Vec::new(), model: Ghost(Map::empty()) }
    }

    fn find(&self, id: &String) -> (r: Option<usize>)
        requires
            self.wf(),
        ensures
            match r {
                Some(i) => i < self.entries@.len() && self.key(i as int) == id@
                    && self@.contains_key(id@) && self@[id@] == self.entries@[i as int].1,
                None => !self@.contains_key(id@),
            },
    {
        let mut i: usize = 0;
        while i < self.entries.len()
            invariant
                self.wf(),
                i <= self.entries@.len(),
                forall|j: int| 0 <= j < i ==> self.key(j) != id@,
            decreases self.entries@.len() - i,
        {
            if self.entries[i].0 == *id {
                assert(self.key(i as int) == id@);
                return Some(i);
            }
            i += 1;
        }
        None
    }

    /// Puts `v` in place of the record at index `i`, and hands back the record
    /// that was there.
    fn replace_at(&mut self, i: usize, v: ServerRuntime<H, T>) -> (r: ServerRuntime<H, T>)
        requires
            old(self).wf(),
            i < old(self).entries@.len(),
        ensures
            final(self).wf(),
            final(self).entries@.len() == old(self).entries@.len(),
            final(self).key(i as int) == old(self).key(i as int),
            r == old(self)@[old(self).key(i as int)],
            final(self)@ == old(self)@.insert(old(self).key(i as int), v),
    {
        let ghost k = self.key(i as int);
        let ghost v0 = v;
        let mut v = v;
        let (key, cur) = self.entries.remove(i);
        self.entries.insert(i, (key, v));
        self.model = Ghost(self.model@.insert(k, v0));
        proof {
            assert forall|j: int| 0 <= j < self.entries@.len() implies self.key(j) == old(self).key(
                j,
            ) by {}
            assert forall|kk: Seq<char>| #[trigger] self.model@.contains_key(kk) implies exists|
                j: int,
            |
                0 <= j < self.entries@.len() && #[trigger] self.key(j) == kk by {
                if kk != k {
                    assert(old(self).model@.contains_key(kk));
                    let j = choose|j: int|
                        0 <= j < old(self).entries@.len() && #[trigger] old(self).key(j) == kk;
                    assert(self.key(j) == kk);
                } else {
                    assert(self.key(i as int) == kk);
                }
            }
        }
        cur
    }

    /// The record of `id`, if there is one.
    pub fn get(&self, id: &String) -> (r: Option<&ServerRuntime<H, T>>)
        requires
            self.wf(),
        ensures
            match r {
                Some(rt) => self@.contains_key(id@) && *rt == self@[id@],
                None => !self@.contains_key(id@),
            },
    {
        match self.find(id) {
            Some(i) => Some(&self.entries[i].1),
            None => None,
        }
    }

    /// The status of `id`; `Disconnected` for an unknown identifier.
    pub fn status_of(&self, id: &String) -> (r: ServerStatus)
        requires
            self.wf(),
        ensures
            r == status_in(self@, id@),
    {
        match self.get(id) {
            Some(rt) => rt.status(),
            None => ServerStatus::Disconnected,
        }
    }

    /// Sets the record of `id` to `rt`, adding `id` if it is new.
    pub fn insert(&mut self, id: String, rt: ServerRuntime<H, T>)
        requires
            old(self).wf(),
        ensures
            final(self).wf(),
            final(self)@ == old(self)@.insert(id@, rt),
    {
        match self.find(&id) {
            Some(i) => {
                let _ = self.replace_at(i, rt);
            },
            None => {
                let ghost k = id@;
                let ghost n = self.entries@.len();
                self.entries.push((id, rt));
                self.model = Ghost(self.model@.insert(k, rt));
                proof {
                    assert forall|j: int| 0 <= j < n implies self.key(j) == old(self).key(j) by {}
                    assert(self.key(n as int) == k);
                    assert forall|kk: Seq<char>| #[trigger] self.model@.contains_key(kk) implies exists|
                        j: int,
                    |
                        0 <= j < self.entries@.len() && #[trigger] self.key(j) == kk by {
                        if kk != k {
                            assert(old(self).model@.contains_key(kk));
                            let j = choose|j: int|
                                0 <= j < old(self).entries@.len() && #[trigger] old(self).key(j)
                                    == kk;
                            assert(self.key(j) == kk);
                        } else {
                            assert(self.key(n as int) == kk);
                        }
                    }
                }
            },
        }
    }

    /// Removes the record of `id`, if any, and hands it back.
    pub fn remove(&mut self, id: &String) -> (r: Option<ServerRuntime<H, T>>)
        requires
            old(self).wf(),
        ensures
            final(self).wf(),
            final(self)@ == old(self)@.remove(id@),
            match r {
                Some(rt) => old(self)@.contains_key(id@) && rt == old(self)@[id@],
                None => !old(self)@.contains_key(id@),
            },
    {
        match self.find(id) {
            None => {
                proof {
                    assert(self@ =~= old(self)@.remove(id@));
                }
                None
            },
            Some(i) => {
                let (_, rt) = self.entries.remove(i);
                self.model = Ghost(self.model@.remove(id@));
                proof {
                    assert forall|a: int, b: int|
                        0 <= a < self.entries@.len() && 0 <= b < self.entries@.len() && a != b implies #[trigger] self.key(
                        a,
                    ) != #[trigger] self.key(b) by {
                        let a0 = if a < i { a } else { a + 1 };
                        let b0 = if b < i { b } else { b + 1 };
                        assert(self.key(a) == old(self).key(a0));
                        assert(self.key(b) == old(self).key(b0));
                    }
                    assert forall|j: int| 0 <= j < self.entries@.len() implies self.model@.contains_key(
                        #[trigger] self.key(j),
                    ) && self.model@[self.key(j)] == self.entries@[j].1 by {
                        let j0 = if j < i { j } else { j + 1 };
                        assert(self.key(j) == old(self).key(j0));
                        assert(j0 != i);
                        assert(old(self).key(j0) != old(self).key(i as int));
                    }
                    assert forall|k: Seq<char>| #[trigger] self.model@.contains_key(k) implies exists|
                        j: int,
                    |
                        0 <= j < self.entries@.len() && #[trigger] self.key(j) == k by {
                        let j0 = choose|j: int|
                            0 <= j < old(self).entries@.len() && #[trigger] old(self).key(j) == k;
                        if j0 < i {
                            assert(self.key(j0) == k);
                        } else {
                            assert(j0 != i);
                            assert(self.key(j0 - 1) == k);
                        }
                    }
                }
                Some(rt)
            },
        }
    }

    /// Moves `id` from `Connecting` to `Registering`, keeping its task handle
    /// and adding the command channel `tx`. Any other record is left alone and
    /// `false` returned.
    pub fn promote_to_registering(&mut self, id: &String, tx: T) -> (r: bool)
        requires
            old(self).wf(),
        ensures
            final(self).wf(),
            r == (status_in(old(self)@, id@) == ServerStatus::Connecting),
            match old(self)@.get(id@) {
                Some(ServerRuntime::Connecting { handle }) => final(self)@ == old(self)@.insert(
                    id@,
                    ServerRuntime::Registering { tx, handle },
                ),
                _ => final(self)@ == old(self)@,
            },
    {
        match self.find(id) {
            None => false,
            Some(i) => {
                let cur = self.replace_at(i, ServerRuntime::Disconnected);
                match cur {
                    ServerRuntime::Connecting { handle } => {
                        let _ = self.replace_at(i, ServerRuntime::Registering { tx, handle });
                        proof {
                            assert(self@ =~= old(self)@.insert(
                                id@,
                                ServerRuntime::Registering { tx, handle },
                            ));
                        }
                        true
                    },
                    other => {
                        let _ = self.replace_at(i, other);
                        proof {
                            assert(self@ =~= old(self)@);
                        }
                        false
                    },
                }
            },
        }
    }

    /// Moves `id` from `Registering` to `Connected`, keeping its channel and
    /// task handle. Any other record is left alone and `false` returned.
    pub fn mark_connected(&mut self, id: &String) -> (r: bool)
        requires
            old(self).wf(),
        ensures
            final(self).wf(),
            r == (status_in(old(self)@, id@) == ServerStatus::Registering),
            match old(self)@.get(id@) {
                Some(ServerRuntime::Registering { tx, handle }) => final(self)@ == old(
                    self,
                )@.insert(id@, ServerRuntime::Connected { tx, handle }),
                _ => final(self)@ == old(self)@,
            },
    {
        match self.find(id) {
            None => false,
            Some(i) => {
                let cur = self.replace_at(i, ServerRuntime::Disconnected);
                match cur {
                    ServerRuntime::Registering { tx, handle } => {
                        let _ = self.replace_at(i, ServerRuntime::Connected { tx, handle });
                        proof {
                            assert(self@ =~= old(self)@.insert(
                                id@,
                                ServerRuntime::Connected { tx, handle },
                            ));
                        }
                        true
                    },
                    other => {
                        let _ = self.replace_at(i, other);
                        proof {
                            assert(self@ =~= old(self)@);
                        }
                        false
                    },
                }
            },
        }
    }

    /// Takes the task handle out of a `Connecting` record of `id`, leaving the
    /// record `Disconnected`. Any other record is left alone and `None`
    /// returned.
    pub fn abort_connecting(&mut self, id: &String) -> (r: Option<H>)
        requires
            old(self).wf(),
        ensures
            final(self).wf(),
            match old(self)@.get(id@) {
                Some(ServerRuntime::Connecting { handle }) => r == Some(handle) && final(self)@
                    == old(self)@.insert(id@, ServerRuntime::Disconnected),
                _ => r.is_none() && final(self)@ == old(self)@,
            },
    {
        match self.find(id) {
            None => None,
            Some(i) => {
                let cur = self.replace_at(i, ServerRuntime::Disconnected);
                match cur {
                    ServerRuntime::Connecting { handle } => Some(handle),
                    other => {
                        let _ = self.replace_at(i, other);
                        proof {
                            assert(self@ =~= old(self)@);
                        }
                        None
                    },
                }
            },
        }
    }

    /// Takes the command channel out of a `Registering` or `Connected` record
    /// of `id`, leaving it `Disconnecting` with the same task handle. Any other
    /// record is left alone and `None` returned.
    pub fn begin_disconnecting(&mut self, id: &String) -> (r: Option<T>)
        requires
            old(self).wf(),
        ensures
            final(self).wf(),
            match old(self)@.get(id@) {
                Some(ServerRuntime::Registering { tx, handle }) => r == Some(tx) && final(self)@
                    == old(self)@.insert(id@, ServerRuntime::Disconnecting { handle }),
                Some(ServerRuntime::Connected { tx, handle }) => r == Some(tx) && final(self)@
                    == old(self)@.insert(id@, ServerRuntime::Disconnecting { handle }),
                _ => r.is_none() && final(self)@ == old(self)@,
            },
    {
        match self.find(id) {
            None => None,
            Some(i) => {
                let cur = self.replace_at(i, ServerRuntime::Disconnected);
                match cur {
                    ServerRuntime::Registering { tx, handle } => {
                        let _ = self.replace_at(i, ServerRuntime::Disconnecting { handle });
                        proof {
                            assert(self@ =~= old(self)@.insert(
                                id@,
                                ServerRuntime::Disconnecting { handle },
                            ));
                        }
                        Some(tx)
                    },
                    ServerRuntime::Connected { tx, handle } => {
                        let _ = self.replace_at(i, ServerRuntime::Disconnecting { handle });
                        proof {
                            assert(self@ =~= old(self)@.insert(
                                id@,
                                ServerRuntime::Disconnecting { handle },
                            ));
                        }
                        Some(tx)
                    },
                    other => {
                        let _ = self.replace_at(i, other);
                        proof {
                            assert(self@ =~= old(self)@);
                        }
                        None
                    },
                }
            },
        }
    }

    /// Replaces a `Connecting` record of `id` by `Failed { error }`. Any other
    /// record is left alone and `false` returned.
    pub fn fail_connecting(&mut self, id: &String, error: String) -> (r: bool)
        requires
            old(self).wf(),
        ensures
            final(self).wf(),
            r == (status_in(old(self)@, id@) == ServerStatus::Connecting),
            r ==> final(self)@ == old(self)@.insert(id@, ServerRuntime::Failed { error }),
            !r ==> final(self)@ == old(self)@,
    {
        match self.find(id) {
            None => false,
            Some(i) => {
                let cur = self.replace_at(i, ServerRuntime::Failed { error });
                match cur {
                    ServerRuntime::Connecting { .. } => true,
                    other => {
                        let _ = self.replace_at(i, other);
                        proof {
                            assert(self@ =~= old(self)@);
                        }
                        false
                    },
                }
            },
        }
    }

    /// Writes the terminal record `outcome` for `id` if `id` is held by a
    /// running session loop (`Registering`, `Connected` or `Disconnecting`).
    /// A record that is absent, idle or still connecting is left alone.
    pub fn settle(&mut self, id: &String, outcome: ServerRuntime<H, T>) -> (r: bool)
        requires
            old(self).wf(),
        ensures
            final(self).wf(),
            r == held_by_loop(status_in(old(self)@, id@)),
            r ==> final(self)@ == old(self)@.insert(id@, outcome),
            !r ==> final(self)@ == old(self)@,
    {
        match self.find(id) {
            None => false,
            Some(i) => {
                let cur = self.replace_at(i, outcome);
                match cur {
                    ServerRuntime::Registering { .. } => true,
                    ServerRuntime::Connected { .. } => true,
                    ServerRuntime::Disconnecting { .. } => true,
                    other => {
                        let _ = self.replace_at(i, other);
                        proof {
                            assert(self@ =~= old(self)@);
                        }
                        false
                    },
                }
            },
        }
    }

    /// Removes every record in one step and hands them all back, each with its
    /// identifier, in no particular order. The registry is then empty.
    pub fn drain_all(&mut self) -> (r: Vec<(String, ServerRuntime<H, T>)>)
        requires
            old(self).wf(),
        ensures
            final(self).wf(),
            final(self)@ == Map::<Seq<char>, ServerRuntime<H, T>>::empty(),
            drained_exactly(r@, old(self)@),
    {
        let mut out: Vec<(String, ServerRuntime<H, T>)> = Vec::new();
        std::mem::swap(&mut out, &mut self.entries);
        self.model = Ghost(Map::empty());
        proof {
            assert forall|i: int, j: int|
                0 <= i < out@.len() && 0 <= j < out@.len() && i != j implies #[trigger] out@[i].0@
                != #[trigger] out@[j].0@ by {
                assert(old(self).key(i) != old(self).key(j));
            }
            assert forall|i: int| 0 <= i < out@.len() implies old(self)@.contains_key(
                #[trigger] out@[i].0@,
            ) && old(self)@[out@[i].0@] == out@[i].1 by {
                assert(old(self).key(i) == out@[i].0@);
            }
            assert forall|k: Seq<char>| #[trigger] old(self)@.contains_key(k) implies exists|i: int|
                0 <= i < out@.len() && #[trigger] out@[i].0@ == k by {
                let i = choose|i: int|
                    0 <= i < old(self).entries@.len() && #[trigger] old(self).key(i) == k;
                assert(out@[i].0@ == k);
            }
        }
        out
    }
}

} // verus!
