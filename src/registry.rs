use vstd::prelude::*;

verus! {

/// Milliseconds without activity after which a client counts as gone.
pub const STALE_AFTER_MS: u64 = 30_000;

/// Identity of one connected caller: its network address as an IPv6 (or
/// IPv4-mapped) address and a port.
#[derive(PartialEq, Eq, Structural, Clone, Copy, Debug, Hash)]
pub struct ClientId {
    pub ip: u128,
    pub port: u16,
}

/// Whether a client last seen at `last_seen` is stale at time `now`.
pub open spec fn is_stale(last_seen: u64, now: u64, stale_after: u64) -> bool {
    now > last_seen + stale_after
}

/// What the registry holds, abstractly: when each live client was last
/// seen, the number of distinct arrivals ever counted (saturating at
/// `u64::MAX`), and the staleness window.
pub struct RegistryView {
    pub clients: Map<ClientId, u64>,
    pub total: u64,
    pub stale_after: u64,
}

impl RegistryView {
    /// The registry after `register(id, now)`: a new client is recorded as
    /// seen now and counted; a known one is left alone.
    pub open spec fn after_register(self, id: ClientId, now: u64) -> RegistryView {
        if self.clients.contains_key(id) {
            self
        } else {
            RegistryView {
                clients: self.clients.insert(id, now),
                total: if self.total < u64::MAX { (self.total + 1) as u64 } else { self.total },
                stale_after: self.stale_after,
            }
        }
    }

    /// The registry after `touch(id, now)`: a known client is recorded as
    /// seen now; an unknown one is not added.
    pub open spec fn after_touch(self, id: ClientId, now: u64) -> RegistryView {
        if self.clients.contains_key(id) {
            RegistryView {
                clients: self.clients.insert(id, now),
                total: self.total,
                stale_after: self.stale_after,
            }
        } else {
            self
        }
    }

    /// The registry after `unregister(id)`.
    pub open spec fn after_unregister(self, id: ClientId) -> RegistryView {
        RegistryView { clients: self.clients.remove(id), total: self.total, stale_after: self.stale_after }
    }

    /// The registry after dropping every client that is stale at `now`.
    pub open spec fn after_sweep(self, now: u64) -> RegistryView {
        RegistryView {
            clients: Map::new(
                |id: ClientId| self.clients.contains_key(id) && !is_stale(self.clients[id], now, self.stale_after),
                |id: ClientId| self.clients[id],
            ),
            total: self.total,
            stale_after: self.stale_after,
        }
    }
}

proof fn lemma_found(s: Seq<ClientId>, c: ClientId)
    requires
        s.contains(c),
    ensures
        0 <= s.index_of(c) < s.len(),
        s[s.index_of(c)] == c,
{
}

/// One live client and when it was last seen.
struct Entry {
    id: ClientId,
    last_seen: u64,
}

/// The currently connected clients with the time each was last seen, plus
/// a lifetime counter of connections that only grows.
pub struct ConnectionRegistry {
    entries: Vec<Entry>,
    total: u64,
    stale_after: u64,
}

impl View for ConnectionRegistry {
    type V = RegistryView;

    closed spec fn view(&self) -> RegistryView {
        RegistryView {
            clients: Map::new(
                |id: ClientId| self.ids().contains(id),
                |id: ClientId| self.entries@[self.ids().index_of(id)].last_seen,
            ),
            total: self.total,
            stale_after: self.stale_after,
        }
    }
}

impl ConnectionRegistry {
    spec fn ids(&self) -> Seq<ClientId> {
        self.entries@.map_values(|e: Entry| e.id)
    }

    /// No client is listed twice, and the live set is never larger than the
    /// number of connections ever made.
    pub closed spec fn wf(&self) -> bool {
        &&& self.ids().no_duplicates()
        &&& self.entries@.len() <= self.total
    }

    proof fn lemma_entry(&self, i: int)
        requires
            self.wf(),
            0 <= i < self.entries@.len(),
        ensures
            self@.clients.contains_key(self.entries@[i].id),
            self@.clients[self.entries@[i].id] == self.entries@[i].last_seen,
    {
        let id = self.entries@[i].id;
        assert(self.ids()[i] == id);
        lemma_found(self.ids(), id);
        let k = self.ids().index_of(id);
        assert(self.ids()[k] == id);
    }

    proof fn lemma_count(&self)
        requires
            self.wf(),
        ensures
            self@.clients.dom().finite(),
            self@.clients.len() == self.entries@.len(),
            self@.clients.len() <= self@.total,
    {
        self.ids().unique_seq_to_set();
        assert(self@.clients.dom() =~= self.ids().to_set());
    }

    /// The live set's cardinality never exceeds the lifetime counter.
    pub proof fn lemma_live_within_total(&self)
        requires
            self.wf(),
        ensures
            self@.clients.dom().finite(),
            self@.clients.len() <= self@.total,
    {
        self.lemma_count();
    }

    fn position(&self, id: ClientId) -> (r: Option<usize>)
        ensures
            match r {
                Some(i) => i < self.entries@.len() && self.entries@[i as int].id == id,
                None => !self@.clients.contains_key(id),
            },
    {
        let mut i: usize = 0;
        while i < self.entries.len()
            invariant
                i <= self.entries@.len(),
                forall|k: int| 0 <= k < i ==> self.entries@[k].id != id,
            decreases self.entries@.len() - i,
        {
            if self.entries[i].id == id {
                return Some(i);
            }
            i = i + 1;
        }
        assert forall|k: int| 0 <= k < self.ids().len() implies self.ids()[k] != id by {
            assert(self.ids()[k] == self.entries@[k].id);
        }
        None
    }

    /// An empty registry that has seen no connection, in which a client
    /// goes stale after `stale_after` milliseconds without activity.
    pub fn new(stale_after: u64) -> (r: Self)
        ensures
            r.wf(),
            r@.clients == Map::<ClientId, u64>::empty(),
            r@.total == 0,
            r@.stale_after == stale_after,
    {
        let r = ConnectionRegistry { entries: Vec::new(), total: 0, stale_after };
        assert(r@.clients =~= Map::<ClientId, u64>::empty());
        r
    }

    /// Adds `id`, seen at `now`, if it is absent, counting it as a new
    /// connection. Returns whether it was absent.
    pub fn register(&mut self, id: ClientId, now: u64) -> (inserted: bool)
        requires
            old(self).wf(),
        ensures
            final(self).wf(),
            inserted == !old(self)@.clients.contains_key(id),
            final(self)@ == old(self)@.after_register(id, now),
    {
        match self.position(id) {
            Some(i) => {
                proof { self.lemma_entry(i as int); }
                false
            },
            None => {
                let ghost before = *self;
                self.entries.push(Entry { id, last_seen: now });
                self.total = self.total.saturating_add(1);
                proof {
                    let after = *self;
                    let n = before.entries@.len() as int;
                    assert(after.ids() =~= before.ids().push(id));
                    assert(after.entries@.len() == after.entries.len());
                    assert(after.wf());
                    let expect = before@.after_register(id, now).clients;
                    after.lemma_entry(n);
                    assert forall|c: ClientId| #[trigger] expect.contains_key(c)
                        implies after@.clients.contains_key(c) && after@.clients[c] == expect[c] by {
                        if c != id {
                            let k = before.ids().index_of(c);
                            lemma_found(before.ids(), c);
                            assert(before.entries@[k].id == c);
                            before.lemma_entry(k);
                            after.lemma_entry(k);
                        }
                    }
                    assert forall|c: ClientId| #[trigger] after@.clients.contains_key(c)
                        implies expect.contains_key(c) by {
                        let k = after.ids().index_of(c);
                        lemma_found(after.ids(), c);
                        if k < n {
                            assert(before.ids()[k] == c);
                        }
                    }
                    assert(after@.clients =~= expect);
                }
                true
            },
        }
    }

    /// Records that a known `id` was seen at `now`; an unknown one is not added.
    pub fn touch(&mut self, id: ClientId, now: u64)
        requires
            old(self).wf(),
        ensures
            final(self).wf(),
            final(self)@ == old(self)@.after_touch(id, now),
    {
        match self.position(id) {
            Some(i) => {
                let ghost before = *self;
                self.entries.set(i, Entry { id, last_seen: now });
                proof {
                    let after = *self;
                    assert(after.ids() =~= before.ids());
                    let expect = before@.after_touch(id, now).clients;
                    after.lemma_entry(i as int);
                    assert forall|c: ClientId| #[trigger] expect.contains_key(c)
                        implies after@.clients.contains_key(c) && after@.clients[c] == expect[c] by {
                        if c != id {
                            let k = before.ids().index_of(c);
                            lemma_found(before.ids(), c);
                            assert(before.entries@[k].id == c);
                            before.lemma_entry(k);
                            after.lemma_entry(k);
                        }
                    }
                    assert forall|c: ClientId| #[trigger] after@.clients.contains_key(c)
                        implies expect.contains_key(c) by {
                        lemma_found(after.ids(), c);
                        let k = after.ids().index_of(c);
                        assert(before.ids()[k] == c);
                    }
                    assert(after@.clients =~= expect);
                }
            },
            None => {},
        }
    }

    /// Removes `id` if it is present. Returns whether it was present.
    pub fn unregister(&mut self, id: ClientId) -> (removed: bool)
        requires
            old(self).wf(),
        ensures
            final(self).wf(),
            removed == old(self)@.clients.contains_key(id),
            final(self)@ == old(self)@.after_unregister(id),
    {
        match self.position(id) {
            Some(i) => {
                proof { self.lemma_entry(i as int); }
                let ghost before = *self;
                self.entries.remove(i);
                proof {
                    assert(before.ids()[i as int] == id);
                    let after = *self;
                    let j = i as int;
                    assert(after.ids() =~= before.ids().remove(j));
                    assert forall|a: int, b: int|
                        0 <= a < after.ids().len() && 0 <= b < after.ids().len() && a != b
                        implies after.ids()[a] != after.ids()[b] by {
                        let a2 = if a < j { a } else { a + 1 };
                        let b2 = if b < j { b } else { b + 1 };
                        assert(after.ids()[a] == before.ids()[a2]);
                        assert(after.ids()[b] == before.ids()[b2]);
                    }
                    assert(after.wf());
                    let expect = before@.after_unregister(id).clients;
                    assert forall|c: ClientId| #[trigger] expect.contains_key(c)
                        implies after@.clients.contains_key(c) && after@.clients[c] == expect[c] by {
                        let k = before.ids().index_of(c);
                        lemma_found(before.ids(), c);
                        assert(before.entries@[k].id == c);
                        before.lemma_entry(k);
                        assert(k != j);
                        let k2 = if k < j { k } else { k - 1 };
                        assert(after.entries@[k2] == before.entries@[k]);
                        after.lemma_entry(k2);
                    }
                    assert forall|c: ClientId| #[trigger] after@.clients.contains_key(c)
                        implies expect.contains_key(c) by {
                        lemma_found(after.ids(), c);
                        let k = after.ids().index_of(c);
                        let k2 = if k < j { k } else { k + 1 };
                        assert(before.ids()[k2] == c);
                        assert(k2 != j);
                    }
                    assert(after@.clients =~= expect);
                }
                true
            },
            None => {
                assert(self@.clients =~= self@.clients.remove(id));
                false
            },
        }
    }

    /// Whether `id` is currently connected.
    pub fn is_registered(&self, id: ClientId) -> (r: bool)
        requires
            self.wf(),
        ensures
            r == self@.clients.contains_key(id),
    {
        match self.position(id) {
            Some(i) => {
                proof { self.lemma_entry(i as int); }
                true
            },
            None => false,
        }
    }

    /// How many clients are connected, without dropping stale ones.
    pub fn live_count(&self) -> (r: usize)
        requires
            self.wf(),
        ensures
            r == self@.clients.len(),
    {
        proof { self.lemma_count(); }
        self.entries.len()
    }

    /// Drops every client that is stale at `now`, then says how many remain.
    pub fn active_count(&mut self, now: u64) -> (r: usize)
        requires
            old(self).wf(),
        ensures
            final(self).wf(),
            final(self)@ == old(self)@.after_sweep(now),
            r == final(self)@.clients.len(),
    {
        let ghost before = *self;
        let mut kept: Vec<Entry> = Vec::new();
        let mut i: usize = 0;
        let n = self.entries.len();
        while i < n
            invariant
                *self == before,
                before.wf(),
                n == self.entries@.len(),
                i <= n,
                kept@.len() <= i,
                forall|a: int| 0 <= a < kept@.len() ==> exists|k: int|
                    0 <= k < i && #[trigger] kept@[a] == before.entries@[k]
                        && !is_stale(before.entries@[k].last_seen, now, before.stale_after),
                forall|k: int| 0 <= k < i && !is_stale(before.entries@[k].last_seen, now, before.stale_after)
                    ==> exists|a: int| 0 <= a < kept@.len() && #[trigger] kept@[a] == before.entries@[k],
                forall|a: int, b: int| 0 <= a < kept@.len() && 0 <= b < kept@.len() && a != b
                    ==> kept@[a].id != kept@[b].id,
            decreases n - i,
        {
            let e = &self.entries[i];
            if !(now > e.last_seen && now - e.last_seen > self.stale_after) {
                proof {
                    assert forall|a: int| 0 <= a < kept@.len() implies kept@[a].id != before.entries@[i as int].id by {
                        let k = choose|k: int| 0 <= k < i && kept@[a] == before.entries@[k]
                            && !is_stale(before.entries@[k].last_seen, now, before.stale_after);
                        assert(before.ids()[k] == kept@[a].id);
                        assert(before.ids()[i as int] == before.entries@[i as int].id);
                    }
                }
                let ghost old_kept = kept@;
                kept.push(Entry { id: e.id, last_seen: e.last_seen });
                proof {
                    assert forall|a: int| 0 <= a < kept@.len() implies exists|k: int|
                        0 <= k < i + 1 && #[trigger] kept@[a] == before.entries@[k]
                            && !is_stale(before.entries@[k].last_seen, now, before.stale_after) by {
                        if a < old_kept.len() {
                            assert(kept@[a] == old_kept[a]);
                        } else {
                            assert(kept@[a] == before.entries@[i as int]);
                        }
                    }
                    assert forall|k: int| 0 <= k < i + 1 && !is_stale(before.entries@[k].last_seen, now, before.stale_after)
                        implies exists|a: int| 0 <= a < kept@.len() && #[trigger] kept@[a] == before.entries@[k] by {
                        if k < i {
                            let a = choose|a: int| 0 <= a < old_kept.len() && old_kept[a] == before.entries@[k];
                            assert(kept@[a] == before.entries@[k]);
                        } else {
                            assert(kept@[old_kept.len() as int] == before.entries@[k]);
                        }
                    }
                }
            }
            i = i + 1;
        }
        self.entries = kept;
        proof {
            let after = *self;
            assert forall|a: int, b: int|
                0 <= a < after.ids().len() && 0 <= b < after.ids().len() && a != b
                implies after.ids()[a] != after.ids()[b] by {
                assert(after.ids()[a] == after.entries@[a].id);
                assert(after.ids()[b] == after.entries@[b].id);
            }
            assert(after.wf());
            let expect = before@.after_sweep(now).clients;
            assert forall|c: ClientId| #[trigger] expect.contains_key(c)
                implies after@.clients.contains_key(c) && after@.clients[c] == expect[c] by {
                let k = before.ids().index_of(c);
                lemma_found(before.ids(), c);
                assert(before.entries@[k].id == c);
                before.lemma_entry(k);
                let a = choose|a: int| 0 <= a < after.entries@.len() && after.entries@[a] == before.entries@[k];
                after.lemma_entry(a);
            }
            assert forall|c: ClientId| #[trigger] after@.clients.contains_key(c)
                implies expect.contains_key(c) by {
                lemma_found(after.ids(), c);
                let a = after.ids().index_of(c);
                let k = choose|k: int| 0 <= k < n && after.entries@[a] == before.entries@[k]
                    && !is_stale(before.entries@[k].last_seen, now, before.stale_after);
                before.lemma_entry(k);
            }
            assert(after@.clients =~= expect);
            after.lemma_count();
        }
        self.entries.len()
    }

    /// How many distinct connections were ever registered.
    pub fn total_connections(&self) -> (r: u64)
        ensures
            r == self@.total,
    {
        self.total
    }
}

/// Registering the same client twice in a row counts one connection and
/// leaves the live set as the first call left it.
pub proof fn lemma_register_twice(v: RegistryView, id: ClientId, first: u64, second: u64)
    requires
        !v.clients.contains_key(id),
        v.total < u64::MAX,
    ensures
        v.after_register(id, first).after_register(id, second).total == v.total + 1,
        v.after_register(id, first).after_register(id, second).clients
            == v.after_register(id, first).clients,
{
}

} // verus!
