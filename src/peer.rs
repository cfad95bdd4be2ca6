//! The peer registry: the peers a node knows, their session state, traffic
//! counters and forwarding policies, keyed by peer id.

use crate::config::PeerPolicies;
use crate::time::Timestamp;
use vstd::prelude::*;

verus! {

/// State of the session with a peer.
#[derive(Clone, Copy, Debug, PartialEq, Eq, Structural)]
pub enum PeerStatus {
    Connected,
    Connecting,
    Disconnected,
}

/// What the node knows about one peer.
#[derive(Clone, Debug)]
pub struct PeerInfo {
    pub id: String,
    /// Where the peer is reached (a URL).
    pub address: String,
    pub status: PeerStatus,
    pub last_heartbeat: Option<Timestamp>,
    pub messages_sent: u64,
    pub messages_received: u64,
    pub policies: PeerPolicies,
}

/// No two entries share an id.
pub open spec fn ids_unique(s: Seq<PeerInfo>) -> bool {
    forall|i: int, j: int|
        0 <= i < s.len() && 0 <= j < s.len() && i != j ==> #[trigger] s[i].id@ != #[trigger] s[j].id@
}

/// Some entry has this id.
pub open spec fn has_id(s: Seq<PeerInfo>, id: Seq<char>) -> bool {
    exists|i: int| 0 <= i < s.len() && #[trigger] s[i].id@ == id
}

/// Where the entry with this id stands (meaningful when there is one).
pub open spec fn position(s: Seq<PeerInfo>, id: Seq<char>) -> int {
    choose|i: int| 0 <= i < s.len() && #[trigger] s[i].id@ == id
}

/// The registry after adding `p`: an entry with the same id takes the new
/// address and policies and keeps its status and counters; otherwise `p` is
/// appended.
pub open spec fn upsert(s: Seq<PeerInfo>, p: PeerInfo) -> Seq<PeerInfo> {
    if has_id(s, p.id@) {
        let i = position(s, p.id@);
        s.update(i, PeerInfo { address: p.address, policies: p.policies, ..s[i] })
    } else {
        s.push(p)
    }
}

/// The registry without the entry with this id, if there is one.
pub open spec fn without(s: Seq<PeerInfo>, id: Seq<char>) -> Seq<PeerInfo> {
    if has_id(s, id) {
        s.remove(position(s, id))
    } else {
        s
    }
}

/// The registry with `f` applied to the entry with this id, if there is one.
pub open spec fn modified(s: Seq<PeerInfo>, id: Seq<char>, f: spec_fn(PeerInfo) -> PeerInfo) -> Seq<
    PeerInfo,
> {
    if has_id(s, id) {
        s.update(position(s, id), f(s[position(s, id)]))
    } else {
        s
    }
}

pub open spec fn is_connected(p: PeerInfo) -> bool {
    p.status == PeerStatus::Connected
}

/// The ids of the registry's entries, in order.
pub open spec fn peer_ids_of(s: Seq<PeerInfo>) -> Seq<Seq<char>> {
    s.map_values(|p: PeerInfo| p.id@)
}

/// A connected peer whose last heartbeat lies more than `timeout_seconds`
/// before `now`.
pub open spec fn is_stale(p: PeerInfo, now: Timestamp, timeout_seconds: u64) -> bool {
    &&& p.status == PeerStatus::Connected
    &&& p.last_heartbeat matches Some(t) && now.seconds - t.seconds > timeout_seconds
}

/// An entry after the liveness sweep: stale sessions are marked disconnected.
pub open spec fn swept(p: PeerInfo, now: Timestamp, timeout_seconds: u64) -> PeerInfo {
    if is_stale(p, now, timeout_seconds) {
        PeerInfo { status: PeerStatus::Disconnected, ..p }
    } else {
        p
    }
}

/// One more, stopping at the largest `u64`.
pub open spec fn bumped(n: u64) -> u64 {
    if n < u64::MAX {
        (n + 1) as u64
    } else {
        n
    }
}

proof fn lemma_position(s: Seq<PeerInfo>, i: int)
    requires
        ids_unique(s),
        0 <= i < s.len(),
    ensures
        has_id(s, s[i].id@),
        position(s, s[i].id@) == i,
{
    assert(has_id(s, s[i].id@));
    let k = position(s, s[i].id@);
    assert(s[k].id@ == s[i].id@);
}

/// Adding a peer whose id is already known replaces nothing but its address
/// and policies: the count stays as it was after the first add, and the entry
/// carries the second add's address and policies.
pub proof fn lemma_add_peer_twice(s: Seq<PeerInfo>, first: PeerInfo, second: PeerInfo)
    requires
        ids_unique(s),
        first.id@ == second.id@,
    ensures
        upsert(upsert(s, first), second).len() == upsert(s, first).len(),
        upsert(s, first).len() <= s.len() + 1,
        ids_unique(upsert(upsert(s, first), second)),
        ({
            let t = upsert(upsert(s, first), second);
            let i = position(t, second.id@);
            &&& has_id(t, second.id@)
            &&& t[i].address == second.address
            &&& t[i].policies == second.policies
        }),
{
    lemma_upsert(s, first);
    lemma_upsert(upsert(s, first), second);
}

/// Adding keeps ids unique and leaves the added id present at its position.
pub proof fn lemma_upsert(s: Seq<PeerInfo>, p: PeerInfo)
    requires
        ids_unique(s),
    ensures
        ids_unique(upsert(s, p)),
        has_id(upsert(s, p), p.id@),
        upsert(s, p)[position(upsert(s, p), p.id@)].address == p.address,
        upsert(s, p)[position(upsert(s, p), p.id@)].policies == p.policies,
        has_id(s, p.id@) ==> upsert(s, p).len() == s.len(),
        !has_id(s, p.id@) ==> upsert(s, p).len() == s.len() + 1,
{
    let t = upsert(s, p);
    if has_id(s, p.id@) {
        let i = position(s, p.id@);
        assert(t[i].id@ == p.id@);
        assert forall|a: int, b: int|
            0 <= a < t.len() && 0 <= b < t.len() && a != b implies #[trigger] t[a].id@
            != #[trigger] t[b].id@ by {
            assert(t[a].id@ == s[a].id@);
            assert(t[b].id@ == s[b].id@);
        }
        lemma_position(t, i);
    } else {
        let n = s.len() as int;
        assert(t[n] == p);
        assert forall|a: int, b: int|
            0 <= a < t.len() && 0 <= b < t.len() && a != b implies #[trigger] t[a].id@
            != #[trigger] t[b].id@ by {
            if a < n && b < n {
                assert(t[a] == s[a]);
                assert(t[b] == s[b]);
            } else if a < n {
                assert(t[a] == s[a]);
            } else {
                assert(t[b] == s[b]);
            }
        }
        lemma_position(t, n);
    }
}

/// The peers a node knows, with at most one entry per id.
pub struct PeerManager {
    peers: Vec<PeerInfo>,
}

impl View for PeerManager {
    type V = Seq<PeerInfo>;

    closed spec fn view(&self) -> Seq<PeerInfo> {
        self.peers@
    }
}

impl PeerManager {
    /// The registry holds at most one entry per id.
    pub open spec fn wf(&self) -> bool {
        ids_unique(self@)
    }

    /// An empty registry.
    pub fn new() -> (r: PeerManager)
        ensures
            r@ == Seq::<PeerInfo>::empty(),
            r.wf(),
    {
        PeerManager { peers: Vec::new() }
    }

    fn find(&self, id: &str) -> (r: Option<usize>)
        requires
            self.wf(),
        ensures
            r matches Some(i) ==> i < self@.len() && self@[i as int].id@ == id@ && position(
                self@,
                id@,
            ) == i && has_id(self@, id@),
            r is None ==> !has_id(self@, id@),
    {
        let key = String::from_str(id);
        let mut i: usize = 0;
        while i < self.peers.len()
            invariant
                i <= self.peers@.len(),
                key@ == id@,
                ids_unique(self.peers@),
                forall|j: int| 0 <= j < i ==> #[trigger] self.peers@[j].id@ != id@,
            decreases self.peers@.len() - i,
        {
            if self.peers[i].id == key {
                proof {
                    lemma_position(self.peers@, i as int);
                }
                return Some(i);
            }
            i = i + 1;
        }
        None
    }

    /// Adds a peer, or updates the address and policies of the peer with the
    /// same id while keeping its status and counters.
    pub fn add_peer(&mut self, peer: PeerInfo)
        requires
            old(self).wf(),
        ensures
            final(self).wf(),
            final(self)@ == upsert(old(self)@, peer),
            has_id(final(self)@, peer.id@),
            has_id(old(self)@, peer.id@) ==> final(self)@.len() == old(self)@.len(),
            !has_id(old(self)@, peer.id@) ==> final(self)@.len() == old(self)@.len() + 1,
    {
        match self.find(peer.id.as_str()) {
            Some(i) => {
                let existing = &self.peers[i];
                let merged = PeerInfo {
                    id: existing.id.clone(),
                    address: peer.address,
                    status: existing.status,
                    last_heartbeat: existing.last_heartbeat,
                    messages_sent: existing.messages_sent,
                    messages_received: existing.messages_received,
                    policies: peer.policies,
                };
                self.peers.set(i, merged);
                assert(self.peers@[i as int].id@ == peer.id@);
            },
            None => {
                proof {
                    assert forall|a: int, b: int|
                        0 <= a < self.peers@.len() + 1 && 0 <= b < self.peers@.len() + 1 && a
                            != b implies #[trigger] self.peers@.push(peer)[a].id@
                        != #[trigger] self.peers@.push(peer)[b].id@ by {
                        if a < self.peers@.len() && b < self.peers@.len() {
                        } else if a < self.peers@.len() {
                            assert(self.peers@[a].id@ != peer.id@);
                        } else {
                            assert(self.peers@[b].id@ != peer.id@);
                        }
                    }
                }
                self.peers.push(peer);
                assert(self.peers@[self.peers@.len() - 1].id@ == peer.id@);
            },
        }
    }

    /// Removes the peer with this id; true when there was one.
    pub fn remove_peer(&mut self, id: &str) -> (r: bool)
        requires
            old(self).wf(),
        ensures
            final(self).wf(),
            r == has_id(old(self)@, id@),
            final(self)@ == without(old(self)@, id@),
            !has_id(final(self)@, id@),
    {
        match self.find(id) {
            Some(i) => {
                let ghost before = self.peers@;
                let _ = self.peers.remove(i);
                proof {
                    assert forall|a: int, b: int|
                        0 <= a < self.peers@.len() && 0 <= b < self.peers@.len() && a != b implies #[trigger] self.peers@[a].id@
                        != #[trigger] self.peers@[b].id@ by {
                        let a0 = if a < i { a } else { a + 1 };
                        let b0 = if b < i { b } else { b + 1 };
                        assert(self.peers@[a] == before[a0]);
                        assert(self.peers@[b] == before[b0]);
                    }
                    if has_id(self.peers@, id@) {
                        let k = choose|k: int| 0 <= k < self.peers@.len() && #[trigger] self.peers@[k].id@ == id@;
                        let k0 = if k < i { k } else { k + 1 };
                        assert(self.peers@[k] == before[k0]);
                    }
                }
                true
            },
            None => false,
        }
    }

    /// The peer with this id.
    pub fn get_peer(&self, id: &str) -> (r: Option<&PeerInfo>)
        requires
            self.wf(),
        ensures
            r is Some <==> has_id(self@, id@),
            r matches Some(p) ==> *p == self@[position(self@, id@)],
    {
        match self.find(id) {
            Some(i) => Some(&self.peers[i]),
            None => None,
        }
    }

    /// The peer with this id, to change in place. A change that gives it the
    /// id of another entry leaves the registry without its well-formedness.
    pub fn get_peer_mut(&mut self, id: &str) -> (r: Option<&mut PeerInfo>)
        requires
            old(self).wf(),
        ensures
            r is Some <==> has_id(old(self)@, id@),
            r is None ==> final(self)@ == old(self)@,
            r matches Some(p) ==> *p == old(self)@[position(old(self)@, id@)] && final(self)@ == old(
                self,
            )@.update(position(old(self)@, id@), *final(p)),
    {
        match self.find(id) {
            Some(i) => Some(&mut self.peers[i]),
            None => None,
        }
    }

    /// All peers, in registry order.
    pub fn list_peers(&self) -> (r: &[PeerInfo])
        ensures
            r@ == self@,
    {
        self.peers.as_slice()
    }

    /// How many peers have a live session.
    pub fn connected_count(&self) -> (r: usize)
        ensures
            r == self@.filter(|p: PeerInfo| is_connected(p)).len(),
    {
        let mut count: usize = 0;
        let mut i: usize = 0;
        while i < self.peers.len()
            invariant
                i <= self.peers@.len(),
                count == self.peers@.take(i as int).filter(|p: PeerInfo| is_connected(p)).len(),
                count <= i,
            decreases self.peers@.len() - i,
        {
            proof {
                assert(self.peers@.take(i as int + 1).drop_last() == self.peers@.take(i as int));
                reveal(Seq::filter);
            }
            if self.peers[i].status == PeerStatus::Connected {
                count = count + 1;
            }
            i = i + 1;
        }
        assert(self.peers@.take(i as int) == self.peers@);
        count
    }

    /// The ids of the peers with a live session, in registry order.
    pub fn connected_peer_ids(&self) -> (r: Vec<String>)
        ensures
            r@.map_values(|s: String| s@) == peer_ids_of(
                self@.filter(|p: PeerInfo| is_connected(p)),
            ),
    {
        let mut out: Vec<String> = Vec::new();
        let mut i: usize = 0;
        while i < self.peers.len()
            invariant
                i <= self.peers@.len(),
                out@.map_values(|s: String| s@) == peer_ids_of(
                    self.peers@.take(i as int).filter(|p: PeerInfo| is_connected(p)),
                ),
            decreases self.peers@.len() - i,
        {
            let ghost kept = self.peers@.take(i as int).filter(|p: PeerInfo| is_connected(p));
            proof {
                assert(self.peers@.take(i as int + 1).drop_last() == self.peers@.take(i as int));
                reveal(Seq::filter);
            }
            if self.peers[i].status == PeerStatus::Connected {
                out.push(self.peers[i].id.clone());
                assert(peer_ids_of(kept.push(self.peers@[i as int])) == peer_ids_of(kept).push(
                    self.peers@[i as int].id@,
                ));
                assert(out@.map_values(|s: String| s@) == out@.drop_last().map_values(
                    |s: String| s@,
                ).push(self.peers@[i as int].id@));
            }
            i = i + 1;
        }
        assert(self.peers@.take(i as int) == self.peers@);
        out
    }

    /// The ids of all known peers, in registry order.
    pub fn peer_ids(&self) -> (r: Vec<String>)
        ensures
            r@.map_values(|s: String| s@) == peer_ids_of(self@),
    {
        let mut out: Vec<String> = Vec::new();
        let mut i: usize = 0;
        while i < self.peers.len()
            invariant
                i <= self.peers@.len(),
                out@.map_values(|s: String| s@) == peer_ids_of(self.peers@.take(i as int)),
            decreases self.peers@.len() - i,
        {
            let ghost before = out@;
            out.push(self.peers[i].id.clone());
            assert(peer_ids_of(self.peers@.take(i as int + 1)) =~= peer_ids_of(
                self.peers@.take(i as int),
            ).push(self.peers@[i as int].id@));
            assert(out@.map_values(|s: String| s@) =~= before.map_values(|s: String| s@).push(
                self.peers@[i as int].id@,
            ));
            i = i + 1;
        }
        assert(self.peers@.take(i as int) == self.peers@);
        out
    }

    /// Marks disconnected every connected peer that has not sent a heartbeat
    /// for more than `timeout_seconds` before `now`.
    pub fn expire_stale_peers(&mut self, now: Timestamp, timeout_seconds: u64)
        requires
            old(self).wf(),
        ensures
            final(self).wf(),
            final(self)@.len() == old(self)@.len(),
            forall|i: int|
                0 <= i < old(self)@.len() ==> #[trigger] final(self)@[i] == swept(
                    old(self)@[i],
                    now,
                    timeout_seconds,
                ),
    {
        let ghost start = self.peers@;
        let mut i: usize = 0;
        while i < self.peers.len()
            invariant
                i <= self.peers@.len(),
                self.peers@.len() == start.len(),
                ids_unique(start),
                forall|j: int| 0 <= j < start.len() ==> #[trigger] self.peers@[j].id@ == start[j].id@,
                forall|j: int|
                    0 <= j < i ==> #[trigger] self.peers@[j] == swept(start[j], now, timeout_seconds),
                forall|j: int| i <= j < start.len() ==> #[trigger] self.peers@[j] == start[j],
            decreases self.peers@.len() - i,
        {
            let existing = &self.peers[i];
            let stale = match existing.last_heartbeat {
                Some(t) => existing.status == PeerStatus::Connected && (now.seconds as i128)
                    - (t.seconds as i128) > timeout_seconds as i128,
                None => false,
            };
            if stale {
                let changed = PeerInfo {
                    id: existing.id.clone(),
                    address: existing.address.clone(),
                    status: PeerStatus::Disconnected,
                    last_heartbeat: existing.last_heartbeat,
                    messages_sent: existing.messages_sent,
                    messages_received: existing.messages_received,
                    policies: existing.policies,
                };
                self.peers.set(i, changed);
            }
            i = i + 1;
        }
        assert forall|a: int, b: int|
            0 <= a < self.peers@.len() && 0 <= b < self.peers@.len() && a != b implies #[trigger] self.peers@[a].id@
            != #[trigger] self.peers@[b].id@ by {
            assert(self.peers@[a].id@ == start[a].id@);
            assert(self.peers@[b].id@ == start[b].id@);
        }
    }

    /// How many peers are known.
    pub fn total_count(&self) -> (r: usize)
        ensures
            r == self@.len(),
    {
        self.peers.len()
    }

    /// Sets the session state of the peer with this id, if there is one.
    pub fn set_peer_status(&mut self, id: &str, status: PeerStatus)
        requires
            old(self).wf(),
        ensures
            final(self).wf(),
            final(self)@ == modified(old(self)@, id@, |p: PeerInfo| PeerInfo { status, ..p }),
    {
        if let Some(i) = self.find(id) {
            let existing = &self.peers[i];
            let changed = PeerInfo {
                id: existing.id.clone(),
                address: existing.address.clone(),
                status,
                last_heartbeat: existing.last_heartbeat,
                messages_sent: existing.messages_sent,
                messages_received: existing.messages_received,
                policies: existing.policies,
            };
            self.peers.set(i, changed);
        }
    }

    /// Counts one more message sent to the peer with this id, if there is one.
    pub fn record_sent(&mut self, id: &str)
        requires
            old(self).wf(),
        ensures
            final(self).wf(),
            final(self)@ == modified(
                old(self)@,
                id@,
                |p: PeerInfo| PeerInfo { messages_sent: bumped(p.messages_sent), ..p },
            ),
    {
        if let Some(i) = self.find(id) {
            let existing = &self.peers[i];
            let sent = if existing.messages_sent < u64::MAX {
                existing.messages_sent + 1
            } else {
                existing.messages_sent
            };
            let changed = PeerInfo {
                id: existing.id.clone(),
                address: existing.address.clone(),
                status: existing.status,
                last_heartbeat: existing.last_heartbeat,
                messages_sent: sent,
                messages_received: existing.messages_received,
                policies: existing.policies,
            };
            self.peers.set(i, changed);
        }
    }

    /// Counts one more message received from the peer with this id, if
    /// there is one.
    pub fn record_received(&mut self, id: &str)
        requires
            old(self).wf(),
        ensures
            final(self).wf(),
            final(self)@ == modified(
                old(self)@,
                id@,
                |p: PeerInfo| PeerInfo { messages_received: bumped(p.messages_received), ..p },
            ),
    {
        if let Some(i) = self.find(id) {
            let existing = &self.peers[i];
            let received = if existing.messages_received < u64::MAX {
                existing.messages_received + 1
            } else {
                existing.messages_received
            };
            let changed = PeerInfo {
                id: existing.id.clone(),
                address: existing.address.clone(),
                status: existing.status,
                last_heartbeat: existing.last_heartbeat,
                messages_sent: existing.messages_sent,
                messages_received: received,
                policies: existing.policies,
            };
            self.peers.set(i, changed);
        }
    }

    /// Records a heartbeat from the peer with this id, if there is one: its
    /// session becomes connected and its last heartbeat is now.
    pub fn update_heartbeat(&mut self, id: &str)
        requires
            old(self).wf(),
        ensures
            final(self).wf(),
            !has_id(old(self)@, id@) ==> final(self)@ == old(self)@,
            has_id(old(self)@, id@) ==> {
                let i = position(old(self)@, id@);
                &&& final(self)@.len() == old(self)@.len()
                &&& forall|j: int|
                    0 <= j < old(self)@.len() && j != i ==> #[trigger] final(self)@[j] == old(
                        self,
                    )@[j]
                &&& final(self)@[i].status == PeerStatus::Connected
                &&& final(self)@[i].last_heartbeat is Some
                &&& final(self)@[i] == PeerInfo {
                    status: PeerStatus::Connected,
                    last_heartbeat: final(self)@[i].last_heartbeat,
                    ..old(self)@[i]
                }
            },
    {
        if let Some(i) = self.find(id) {
            let now = Timestamp::now();
            let existing = &self.peers[i];
            let changed = PeerInfo {
                id: existing.id.clone(),
                address: existing.address.clone(),
                status: PeerStatus::Connected,
                last_heartbeat: Some(now),
                messages_sent: existing.messages_sent,
                messages_received: existing.messages_received,
                policies: existing.policies,
            };
            self.peers.set(i, changed);
        }
    }
}

impl Default for PeerManager {
    fn default() -> (r: PeerManager)
        ensures
            r@ == Seq::<PeerInfo>::empty(),
            r.wf(),
    {
        PeerManager::new()
    }
}

} // verus!
