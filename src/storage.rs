//! Storage of CDMs and object states, each keyed by its id, and the set of
//! message ids already processed, used to drop duplicates.
//!
//! Each collection is a value of its own, so a concurrent host can guard
//! each one with its own lock; `MemoryStorage` bundles the three.

use crate::cdm::{CdmRecord, ObjectRecord};
use crate::error::Error;
use crate::time::Timestamp;
use vstd::prelude::*;

verus! {

/// A record stored under a text key.
pub trait Keyed {
    spec fn spec_key(&self) -> Seq<char>;

    fn key(&self) -> (r: &String)
        ensures
            r@ == self.spec_key(),
    ;
}

impl Keyed for CdmRecord {
    open spec fn spec_key(&self) -> Seq<char> {
        self.cdm_id@
    }

    fn key(&self) -> (r: &String) {
        &self.cdm_id
    }
}

impl Keyed for ObjectRecord {
    open spec fn spec_key(&self) -> Seq<char> {
        self.object_id@
    }

    fn key(&self) -> (r: &String) {
        &self.object_id
    }
}

/// No two records share a key.
pub open spec fn keys_unique<T: Keyed>(s: Seq<T>) -> bool {
    forall|i: int, j: int|
        0 <= i < s.len() && 0 <= j < s.len() && i != j ==> #[trigger] s[i].spec_key()
            != #[trigger] s[j].spec_key()
}

/// Some record has this key.
pub open spec fn has_key<T: Keyed>(s: Seq<T>, key: Seq<char>) -> bool {
    exists|i: int| 0 <= i < s.len() && #[trigger] s[i].spec_key() == key
}

/// Where the record with this key stands (meaningful when there is one).
pub open spec fn key_position<T: Keyed>(s: Seq<T>, key: Seq<char>) -> int {
    choose|i: int| 0 <= i < s.len() && #[trigger] s[i].spec_key() == key
}

/// The collection after storing `r`: it replaces the record with the same
/// key, or is appended.
pub open spec fn stored<T: Keyed>(s: Seq<T>, r: T) -> Seq<T> {
    if has_key(s, r.spec_key()) {
        s.update(key_position(s, r.spec_key()), r)
    } else {
        s.push(r)
    }
}

proof fn lemma_key_position<T: Keyed>(s: Seq<T>, i: int)
    requires
        keys_unique(s),
        0 <= i < s.len(),
    ensures
        has_key(s, s[i].spec_key()),
        key_position(s, s[i].spec_key()) == i,
{
    assert(has_key(s, s[i].spec_key()));
    let k = key_position(s, s[i].spec_key());
    assert(s[k].spec_key() == s[i].spec_key());
}

/// Storing under a new key adds one record; storing under a key already
/// present replaces that record and keeps the count.
pub proof fn lemma_stored_len<T: Keyed>(s: Seq<T>, r: T)
    ensures
        !has_key(s, r.spec_key()) ==> stored(s, r).len() == s.len() + 1,
        has_key(s, r.spec_key()) ==> stored(s, r).len() == s.len(),
        has_key(stored(s, r), r.spec_key()),
{
    if has_key(s, r.spec_key()) {
        let k = key_position(s, r.spec_key());
        assert(stored(s, r)[k] == r);
    } else {
        assert(stored(s, r)[s.len() as int] == r);
    }
}

/// Storing a CDM under a new id counts one more; withdrawing it again counts
/// one less, back to where it was.
pub proof fn lemma_store_then_withdraw_count(s: Seq<CdmRecord>, cdm: CdmRecord)
    requires
        keys_unique(s),
        !has_key(s, cdm.spec_key()),
    ensures
        stored(s, cdm).len() == s.len() + 1,
        has_key(stored(s, cdm), cdm.spec_key()),
        stored(s, cdm).remove(key_position(stored(s, cdm), cdm.spec_key())).len() == s.len(),
        stored(s, cdm).remove(key_position(stored(s, cdm), cdm.spec_key())) == s,
{
    lemma_stored_len(s, cdm);
    let t = stored(s, cdm);
    let n = s.len() as int;
    assert(t[n] == cdm);
    assert forall|a: int, b: int|
        0 <= a < t.len() && 0 <= b < t.len() && a != b implies #[trigger] t[a].spec_key()
        != #[trigger] t[b].spec_key() by {
        if a < n && b < n {
            assert(t[a] == s[a]);
            assert(t[b] == s[b]);
        } else if a < n {
            assert(t[a] == s[a]);
        } else {
            assert(t[b] == s[b]);
        }
    }
    lemma_key_position(t, n);
    assert(t.remove(n) =~= s);
}

/// Records keyed by a text, at most one per key.
pub struct KeyedTable<T> {
    items: Vec<T>,
}

impl<T: Keyed> View for KeyedTable<T> {
    type V = Seq<T>;

    closed spec fn view(&self) -> Seq<T> {
        self.items@
    }
}

impl<T: Keyed> KeyedTable<T> {
    /// At most one record per key.
    pub open spec fn wf(&self) -> bool {
        keys_unique(self@)
    }

    /// An empty collection.
    pub fn new() -> (r: KeyedTable<T>)
        ensures
            r@ == Seq::<T>::empty(),
            r.wf(),
    {
        KeyedTable { items: Vec::new() }
    }

    fn find(&self, key: &str) -> (r: Option<usize>)
        requires
            self.wf(),
        ensures
            r matches Some(i) ==> i < self@.len() && key_position(self@, key@) == i && has_key(
                self@,
                key@,
            ),
            r is None ==> !has_key(self@, key@),
    {
        let wanted = String::from_str(key);
        let mut i: usize = 0;
        while i < self.items.len()
            invariant
                i <= self.items@.len(),
                wanted@ == key@,
                keys_unique(self.items@),
                forall|j: int| 0 <= j < i ==> #[trigger] self.items@[j].spec_key() != key@,
            decreases self.items@.len() - i,
        {
            if *self.items[i].key() == wanted {
                proof {
                    lemma_key_position(self.items@, i as int);
                }
                return Some(i);
            }
            i = i + 1;
        }
        None
    }

    /// Stores a record, replacing the one with the same key.
    pub fn store(&mut self, record: T)
        requires
            old(self).wf(),
        ensures
            final(self).wf(),
            final(self)@ == stored(old(self)@, record),
    {
        match self.find(record.key().as_str()) {
            Some(i) => {
                let ghost before = self.items@;
                self.items.set(i, record);
                proof {
                    assert forall|a: int, b: int|
                        0 <= a < self.items@.len() && 0 <= b < self.items@.len() && a != b implies #[trigger] self.items@[a].spec_key()
                        != #[trigger] self.items@[b].spec_key() by {
                        if a != i && b != i {
                            assert(self.items@[a] == before[a]);
                            assert(self.items@[b] == before[b]);
                        } else if a == i {
                            assert(self.items@[b] == before[b]);
                            assert(before[i as int].spec_key() == record.spec_key());
                        } else {
                            assert(self.items@[a] == before[a]);
                            assert(before[i as int].spec_key() == record.spec_key());
                        }
                    }
                }
            },
            None => {
                let ghost before = self.items@;
                self.items.push(record);
                proof {
                    assert forall|a: int, b: int|
                        0 <= a < self.items@.len() && 0 <= b < self.items@.len() && a != b implies #[trigger] self.items@[a].spec_key()
                        != #[trigger] self.items@[b].spec_key() by {
                        if a < before.len() && b < before.len() {
                            assert(self.items@[a] == before[a]);
                            assert(self.items@[b] == before[b]);
                        } else if a < before.len() {
                            assert(self.items@[a] == before[a]);
                        } else {
                            assert(self.items@[b] == before[b]);
                        }
                    }
                }
            },
        }
    }

    /// The record with this key.
    pub fn get(&self, key: &str) -> (r: Option<&T>)
        requires
            self.wf(),
        ensures
            r is Some <==> has_key(self@, key@),
            r matches Some(x) ==> *x == self@[key_position(self@, key@)],
    {
        match self.find(key) {
            Some(i) => Some(&self.items[i]),
            None => None,
        }
    }

    /// All records.
    pub fn list(&self) -> (r: &[T])
        ensures
            r@ == self@,
    {
        self.items.as_slice()
    }

    /// Removes the record with this key; `None` when there is none, which
    /// leaves the collection unchanged.
    pub fn remove(&mut self, key: &str) -> (r: Option<T>)
        requires
            old(self).wf(),
        ensures
            final(self).wf(),
            r is Some <==> has_key(old(self)@, key@),
            r is None ==> final(self)@ == old(self)@,
            r matches Some(x) ==> x == old(self)@[key_position(old(self)@, key@)] && final(self)@
                == old(self)@.remove(key_position(old(self)@, key@)),
            !has_key(final(self)@, key@),
    {
        match self.find(key) {
            Some(i) => {
                let ghost before = self.items@;
                let x = self.items.remove(i);
                proof {
                    assert forall|a: int, b: int|
                        0 <= a < self.items@.len() && 0 <= b < self.items@.len() && a != b implies #[trigger] self.items@[a].spec_key()
                        != #[trigger] self.items@[b].spec_key() by {
                        let a0 = if a < i { a } else { a + 1 };
                        let b0 = if b < i { b } else { b + 1 };
                        assert(self.items@[a] == before[a0]);
                        assert(self.items@[b] == before[b0]);
                    }
                    if has_key(self.items@, key@) {
                        let k = choose|k: int|
                            0 <= k < self.items@.len() && #[trigger] self.items@[k].spec_key()
                                == key@;
                        let k0 = if k < i { k } else { k + 1 };
                        assert(self.items@[k] == before[k0]);
                    }
                }
                Some(x)
            },
            None => None,
        }
    }

    /// How many records are held.
    pub fn len(&self) -> (r: usize)
        ensures
            r == self@.len(),
    {
        self.items.len()
    }
}

/// A processed message id and when it was marked.
#[derive(Clone, Debug)]
pub struct SeenEntry {
    pub message_id: String,
    pub seen_at: Timestamp,
}

/// Ids of the messages already processed, each with the instant it was
/// marked, so that old ones can be let go.
pub struct SeenMessages {
    entries: Vec<SeenEntry>,
}

/// The ids among a list of entries.
pub open spec fn entry_ids(s: Seq<SeenEntry>) -> Set<Seq<char>> {
    s.map_values(|e: SeenEntry| e.message_id@).to_set()
}

/// The entry was marked at or after `cutoff`.
pub open spec fn marked_since(e: SeenEntry, cutoff: Timestamp) -> bool {
    !e.seen_at.spec_before(cutoff)
}

impl View for SeenMessages {
    type V = Set<Seq<char>>;

    closed spec fn view(&self) -> Set<Seq<char>> {
        entry_ids(self.entries@)
    }
}

impl SeenMessages {
    /// The entries, oldest mark first.
    pub closed spec fn entries(&self) -> Seq<SeenEntry> {
        self.entries@
    }

    /// Nothing seen yet.
    pub fn new() -> (r: SeenMessages)
        ensures
            r@ == Set::<Seq<char>>::empty(),
            r.entries() == Seq::<SeenEntry>::empty(),
    {
        let r = SeenMessages { entries: Vec::new() };
        assert(r@ =~= Set::<Seq<char>>::empty());
        r
    }

    /// True when this message id was marked and not let go since.
    pub fn contains(&self, message_id: &str) -> (r: bool)
        ensures
            r == self@.contains(message_id@),
    {
        let wanted = String::from_str(message_id);
        let ghost ids = self.entries@.map_values(|e: SeenEntry| e.message_id@);
        let mut i: usize = 0;
        while i < self.entries.len()
            invariant
                i <= self.entries@.len(),
                wanted@ == message_id@,
                ids == self.entries@.map_values(|e: SeenEntry| e.message_id@),
                forall|j: int| 0 <= j < i ==> #[trigger] ids[j] != message_id@,
            decreases self.entries@.len() - i,
        {
            if self.entries[i].message_id == wanted {
                assert(ids[i as int] == message_id@);
                return true;
            }
            i = i + 1;
        }
        assert forall|j: int| 0 <= j < ids.len() implies #[trigger] ids[j] != message_id@ by {}
        false
    }

    /// Marks a message id as seen at instant `at`; an id already marked keeps
    /// its first mark.
    pub fn insert(&mut self, message_id: &str, at: Timestamp)
        ensures
            final(self)@ == old(self)@.insert(message_id@),
            old(self)@.contains(message_id@) ==> final(self).entries() == old(self).entries(),
            !old(self)@.contains(message_id@) ==> {
                &&& final(self).entries().len() == old(self).entries().len() + 1
                &&& final(self).entries().drop_last() == old(self).entries()
                &&& final(self).entries().last().message_id@ == message_id@
                &&& final(self).entries().last().seen_at == at
            },
    {
        if self.contains(message_id) {
            assert(self@ =~= old(self)@.insert(message_id@));
        } else {
            let ghost before = self.entries@;
            self.entries.push(SeenEntry { message_id: String::from_str(message_id), seen_at: at });
            assert(self.entries@.drop_last() =~= before);
            assert(self.entries@.map_values(|e: SeenEntry| e.message_id@) == before.map_values(
                |e: SeenEntry| e.message_id@,
            ).push(message_id@));
            proof {
                before.map_values(|e: SeenEntry| e.message_id@).lemma_push_to_set_commute(
                    message_id@,
                );
            }
        }
    }

    /// Lets go of every id marked before `cutoff`, keeping the rest in order.
    pub fn evict_before(&mut self, cutoff: Timestamp)
        ensures
            final(self).entries() == old(self).entries().filter(
                |e: SeenEntry| marked_since(e, cutoff),
            ),
            final(self)@ == entry_ids(final(self).entries()),
    {
        let mut kept: Vec<SeenEntry> = Vec::new();
        let mut i: usize = 0;
        while i < self.entries.len()
            invariant
                i <= self.entries@.len(),
                kept@ == self.entries@.take(i as int).filter(|e: SeenEntry| marked_since(e, cutoff)),
            decreases self.entries@.len() - i,
        {
            proof {
                assert(self.entries@.take(i as int + 1).drop_last() == self.entries@.take(i as int));
                reveal(Seq::filter);
            }
            if !self.entries[i].seen_at.before(&cutoff) {
                let e = &self.entries[i];
                kept.push(SeenEntry { message_id: e.message_id.clone(), seen_at: e.seen_at });
                assert(kept@.last() == self.entries@[i as int]);
            }
            i = i + 1;
        }
        assert(self.entries@.take(i as int) == self.entries@);
        self.entries = kept;
    }
}

/// The instant before which processed message ids may be let go: twice the
/// session timeout before `now`, or the earliest representable second if
/// that lies further back.
pub fn dedup_cutoff(now: Timestamp, session_timeout_seconds: u64) -> (r: Timestamp)
    ensures
        r.nanos == now.nanos,
        now.seconds - 2 * session_timeout_seconds >= i64::MIN ==> r.seconds
            == now.seconds - 2 * session_timeout_seconds,
        now.seconds - 2 * session_timeout_seconds < i64::MIN ==> r.seconds
            == i64::MIN,
{
    let window: i128 = (session_timeout_seconds as i128) + (session_timeout_seconds as i128);
    let back: i128 = (now.seconds as i128) - window;
    let seconds: i64 = if back < i64::MIN as i128 {
        i64::MIN
    } else {
        back as i64
    };
    Timestamp::new(seconds, now.nanos)
}

/// A storage backend: CDMs and object states keyed by id, and the ids of
/// messages already processed. Each operation touches one collection only and
/// leaves the other two as they were.
pub trait Storage {
    /// The backend's internal consistency (at most one record per key).
    spec fn wf(&self) -> bool;

    spec fn cdm_records(&self) -> Seq<CdmRecord>;

    spec fn object_records(&self) -> Seq<ObjectRecord>;

    spec fn seen_ids(&self) -> Set<Seq<char>>;

    /// A consistent backend holds at most one CDM and one object state per id.
    proof fn lemma_one_record_per_id(&self)
        requires
            self.wf(),
        ensures
            keys_unique(self.cdm_records()),
            keys_unique(self.object_records()),
    ;

    /// Stores a CDM, replacing the one with the same id.
    fn store_cdm(&mut self, cdm: CdmRecord)
        requires
            old(self).wf(),
        ensures
            final(self).wf(),
            final(self).cdm_records() == stored(old(self).cdm_records(), cdm),
            final(self).object_records() == old(self).object_records(),
            final(self).seen_ids() == old(self).seen_ids(),
    ;

    /// The CDM with this id.
    fn get_cdm(&self, id: &str) -> (r: Option<&CdmRecord>)
        requires
            self.wf(),
        ensures
            r is Some <==> has_key(self.cdm_records(), id@),
            r matches Some(c) ==> *c == self.cdm_records()[key_position(self.cdm_records(), id@)],
    ;

    /// All stored CDMs.
    fn list_cdms(&self) -> (r: &[CdmRecord])
        ensures
            r@ == self.cdm_records(),
    ;

    /// Removes the CDM with this id; `NotFound` when there is none.
    fn withdraw_cdm(&mut self, id: &str) -> (r: Result<(), Error>)
        requires
            old(self).wf(),
        ensures
            final(self).wf(),
            r is Ok <==> has_key(old(self).cdm_records(), id@),
            r is Ok ==> final(self).cdm_records() == old(self).cdm_records().remove(
                key_position(old(self).cdm_records(), id@),
            ),
            r is Err ==> final(self).cdm_records() == old(self).cdm_records(),
            r matches Err(e) ==> e matches Error::NotFound(m) && m@ == "CDM not found: "@ + id@,
            !has_key(final(self).cdm_records(), id@),
            final(self).object_records() == old(self).object_records(),
            final(self).seen_ids() == old(self).seen_ids(),
    ;

    /// How many CDMs are stored.
    fn cdm_count(&self) -> (r: usize)
        ensures
            r == self.cdm_records().len(),
    ;

    /// Stores an object state, replacing the one with the same id.
    fn store_object(&mut self, obj: ObjectRecord)
        requires
            old(self).wf(),
        ensures
            final(self).wf(),
            final(self).object_records() == stored(old(self).object_records(), obj),
            final(self).cdm_records() == old(self).cdm_records(),
            final(self).seen_ids() == old(self).seen_ids(),
    ;

    /// The object state with this id.
    fn get_object(&self, id: &str) -> (r: Option<&ObjectRecord>)
        requires
            self.wf(),
        ensures
            r is Some <==> has_key(self.object_records(), id@),
            r matches Some(o) ==> *o == self.object_records()[key_position(
                self.object_records(),
                id@,
            )],
    ;

    /// All stored object states.
    fn list_objects(&self) -> (r: &[ObjectRecord])
        ensures
            r@ == self.object_records(),
    ;

    /// Removes the object state with this id; `NotFound` when there is none.
    fn withdraw_object(&mut self, id: &str) -> (r: Result<(), Error>)
        requires
            old(self).wf(),
        ensures
            final(self).wf(),
            r is Ok <==> has_key(old(self).object_records(), id@),
            r is Ok ==> final(self).object_records() == old(self).object_records().remove(
                key_position(old(self).object_records(), id@),
            ),
            r is Err ==> final(self).object_records() == old(self).object_records(),
            r matches Err(e) ==> e matches Error::NotFound(m) && m@ == "Object not found: "@ + id@,
            !has_key(final(self).object_records(), id@),
            final(self).cdm_records() == old(self).cdm_records(),
            final(self).seen_ids() == old(self).seen_ids(),
    ;

    /// How many object states are stored.
    fn object_count(&self) -> (r: usize)
        ensures
            r == self.object_records().len(),
    ;

    /// True when this message id was marked as seen.
    fn has_seen_message(&self, message_id: &str) -> (r: bool)
        ensures
            r == self.seen_ids().contains(message_id@),
    ;

    /// Marks a message id as seen.
    fn mark_message_seen(&mut self, message_id: &str)
        requires
            old(self).wf(),
        ensures
            final(self).wf(),
            final(self).seen_ids() == old(self).seen_ids().insert(message_id@),
            final(self).cdm_records() == old(self).cdm_records(),
            final(self).object_records() == old(self).object_records(),
    ;
}

/// Storage held in memory.
pub struct MemoryStorage {
    cdms: KeyedTable<CdmRecord>,
    objects: KeyedTable<ObjectRecord>,
    seen_messages: SeenMessages,
}

impl MemoryStorage {
    /// Empty storage.
    pub fn new() -> (r: MemoryStorage)
        ensures
            r.wf(),
            r.cdm_records() == Seq::<CdmRecord>::empty(),
            r.object_records() == Seq::<ObjectRecord>::empty(),
            r.seen_ids() == Set::<Seq<char>>::empty(),
    {
        MemoryStorage {
            cdms: KeyedTable::new(),
            objects: KeyedTable::new(),
            seen_messages: SeenMessages::new(),
        }
    }
}

impl Storage for MemoryStorage {
    closed spec fn wf(&self) -> bool {
        self.cdms.wf() && self.objects.wf()
    }

    closed spec fn cdm_records(&self) -> Seq<CdmRecord> {
        self.cdms@
    }

    closed spec fn object_records(&self) -> Seq<ObjectRecord> {
        self.objects@
    }

    closed spec fn seen_ids(&self) -> Set<Seq<char>> {
        self.seen_messages@
    }

    proof fn lemma_one_record_per_id(&self) {
    }

    fn store_cdm(&mut self, cdm: CdmRecord) {
        self.cdms.store(cdm);
    }

    fn get_cdm(&self, id: &str) -> (r: Option<&CdmRecord>) {
        self.cdms.get(id)
    }

    fn list_cdms(&self) -> (r: &[CdmRecord]) {
        self.cdms.list()
    }

    fn withdraw_cdm(&mut self, id: &str) -> (r: Result<(), Error>) {
        match self.cdms.remove(id) {
            Some(_) => Ok(()),
            None => Err(Error::NotFound(String::from_str("CDM not found: ").concat(id))),
        }
    }

    fn cdm_count(&self) -> (r: usize) {
        self.cdms.len()
    }

    fn store_object(&mut self, obj: ObjectRecord) {
        self.objects.store(obj);
    }

    fn get_object(&self, id: &str) -> (r: Option<&ObjectRecord>) {
        self.objects.get(id)
    }

    fn list_objects(&self) -> (r: &[ObjectRecord]) {
        self.objects.list()
    }

    fn withdraw_object(&mut self, id: &str) -> (r: Result<(), Error>) {
        match self.objects.remove(id) {
            Some(_) => Ok(()),
            None => Err(Error::NotFound(String::from_str("Object not found: ").concat(id))),
        }
    }

    fn object_count(&self) -> (r: usize) {
        self.objects.len()
    }

    fn has_seen_message(&self, message_id: &str) -> (r: bool) {
        self.seen_messages.contains(message_id)
    }

    fn mark_message_seen(&mut self, message_id: &str) {
        self.seen_messages.insert(message_id, Timestamp::now());
    }
}

impl Default for MemoryStorage {
    fn default() -> (r: MemoryStorage)
        ensures
            r.wf(),
            r.cdm_records() == Seq::<CdmRecord>::empty(),
            r.object_records() == Seq::<ObjectRecord>::empty(),
            r.seen_ids() == Set::<Seq<char>>::empty(),
    {
        MemoryStorage::new()
    }
}

/// The storage backend for a configured storage type; every type is served
/// from memory.
pub fn create_storage(storage_type: &str) -> (r: MemoryStorage)
    ensures
        r.wf(),
        r.cdm_records() == Seq::<CdmRecord>::empty(),
        r.object_records() == Seq::<ObjectRecord>::empty(),
        r.seen_ids() == Set::<Seq<char>>::empty(),
{
    MemoryStorage::new()
}

} // verus!
