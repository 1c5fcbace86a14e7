//! Durable object store boundary: composite keys `(kind tag, uuid)` naming
//! persisted records, the traits that map domain objects onto those keys, and
//! an in-memory key/value backend whose behaviour is the model every real
//! backend must refine. Spec and State of one logical resource share a uuid
//! but carry different kind tags, so each is stored, fetched and deleted
//! independently.

use vstd::prelude::*;

verus! {

/// Kind tag distinguishing the record families kept in the store.
#[derive(Clone, Copy, Debug, PartialEq, Eq, Structural)]
pub enum StorableObjectType {
    VolumeSpec,
    VolumeState,
    PoolSpec,
    PoolState,
    ReplicaSpec,
    ReplicaState,
    NexusSpec,
    NexusState,
}

/// A key that uniquely identifies one persisted record.
pub trait ObjectKey {
    /// The kind tag of the record.
    spec fn spec_key_type(&self) -> StorableObjectType;

    /// The uuid of the record.
    spec fn spec_key_uuid(&self) -> Seq<char>;

    /// The kind tag of the record.
    fn key_type(&self) -> (t: StorableObjectType)
        ensures
            t == self.spec_key_type(),
    ;

    /// The uuid of the record.
    fn key_uuid(&self) -> (u: String)
        ensures
            u@ == self.spec_key_uuid(),
    ;
}

/// A domain object that can be persisted under an [`ObjectKey`].
pub trait StorableObject: Sized {
    /// The key type of this object family.
    type Key: ObjectKey;

    /// The kind tag this object is stored under.
    spec fn spec_key_type(&self) -> StorableObjectType;

    /// The uuid this object is stored under.
    spec fn spec_key_uuid(&self) -> Seq<char>;

    /// The key this object is stored under.
    fn key(&self) -> (k: Self::Key)
        ensures
            k.spec_key_type() == self.spec_key_type(),
            k.spec_key_uuid() == self.spec_key_uuid(),
    ;
}

/// Outcome of fetching a record. A backend distinguishes a key with no record
/// from a record that cannot be decoded and from an unreachable backend; the
/// in-memory backend below only ever reports `Found` or `NotFound`.
#[derive(Debug, PartialEq, Eq)]
pub enum GetOutcome {
    /// The serialized record stored under the key.
    Found(Vec<u8>),
    /// No record is stored under the key.
    NotFound,
    /// A record exists but cannot be decoded.
    Corrupt,
    /// The backend is unreachable.
    Unavailable,
}

/// One stored record.
struct StoreEntry {
    kind: StorableObjectType,
    uuid: String,
    data: Vec<u8>,
}

/// The composite key of one stored record.
spec fn entry_key(e: StoreEntry) -> (StorableObjectType, Seq<char>) {
    (e.kind, e.uuid@)
}

/// The map a sequence of records denotes; later records win, though the
/// store's invariant keeps keys unique so the case never arises.
spec fn entries_map(s: Seq<StoreEntry>) -> Map<(StorableObjectType, Seq<char>), Seq<u8>>
    decreases s.len(),
{
    if s.len() == 0 {
        Map::empty()
    } else {
        entries_map(s.drop_last()).insert(entry_key(s.last()), s.last().data@)
    }
}

/// No two records share a key.
spec fn unique_keys(s: Seq<StoreEntry>) -> bool {
    forall|i: int, j: int|
        0 <= i < j < s.len() ==> entry_key(#[trigger] s[i]) != entry_key(#[trigger] s[j])
}

proof fn lemma_entries_map_contains(s: Seq<StoreEntry>, k: (StorableObjectType, Seq<char>))
    ensures
        entries_map(s).contains_key(k) <==> exists|i: int|
            0 <= i < s.len() && entry_key(#[trigger] s[i]) == k,
    decreases s.len(),
{
    if s.len() > 0 {
        lemma_entries_map_contains(s.drop_last(), k);
        if entry_key(s.last()) == k {
            assert(entry_key(s[s.len() - 1]) == k);
        } else if entries_map(s).contains_key(k) {
            let i = choose|i: int| 0 <= i < s.drop_last().len() && entry_key(#[trigger] s.drop_last()[i]) == k;
            assert(entry_key(s[i]) == k);
        } else {
            assert forall|i: int| 0 <= i < s.len() implies entry_key(#[trigger] s[i]) != k by {
                if i < s.len() - 1 {
                    assert(s.drop_last()[i] == s[i]);
                }
            }
        }
    }
}

proof fn lemma_entries_map_lookup(s: Seq<StoreEntry>, i: int)
    requires
        unique_keys(s),
        0 <= i < s.len(),
    ensures
        entries_map(s).contains_key(entry_key(s[i])),
        entries_map(s)[entry_key(s[i])] == s[i].data@,
    decreases s.len(),
{
    if i == s.len() - 1 {
        assert(s[i] == s.last());
    } else {
        assert(s.drop_last()[i] == s[i]);
        lemma_entries_map_lookup(s.drop_last(), i);
        assert(entry_key(s[i]) != entry_key(s[s.len() - 1]));
    }
}

proof fn lemma_entries_map_remove(s: Seq<StoreEntry>, i: int)
    requires
        unique_keys(s),
        0 <= i < s.len(),
    ensures
        entries_map(s.remove(i)) =~= entries_map(s).remove(entry_key(s[i])),
        unique_keys(s.remove(i)),
    decreases s.len(),
{
    s.remove_ensures(i);
    assert(unique_keys(s.remove(i))) by {
        assert forall|a: int, b: int|
            0 <= a < b < s.remove(i).len() implies entry_key(#[trigger] s.remove(i)[a])
            != entry_key(#[trigger] s.remove(i)[b]) by {
            let a0 = if a < i { a } else { a + 1 };
            let b0 = if b < i { b } else { b + 1 };
            assert(s.remove(i)[a] == s[a0]);
            assert(s.remove(i)[b] == s[b0]);
        }
    }
    if i == s.len() - 1 {
        assert(s.remove(i) =~= s.drop_last());
        lemma_entries_map_contains(s.drop_last(), entry_key(s[i]));
        assert forall|j: int| 0 <= j < s.drop_last().len() implies entry_key(
            #[trigger] s.drop_last()[j],
        ) != entry_key(s[i]) by {
            assert(s.drop_last()[j] == s[j]);
        }
        assert(!entries_map(s.drop_last()).contains_key(entry_key(s[i])));
    } else {
        assert(s.remove(i).last() == s.last());
        assert(s.remove(i).drop_last() =~= s.drop_last().remove(i));
        assert(unique_keys(s.drop_last())) by {
            assert forall|a: int, b: int|
                0 <= a < b < s.drop_last().len() implies entry_key(#[trigger] s.drop_last()[a])
                != entry_key(#[trigger] s.drop_last()[b]) by {
                assert(s.drop_last()[a] == s[a]);
                assert(s.drop_last()[b] == s[b]);
            }
        }
        assert(s.drop_last()[i] == s[i]);
        lemma_entries_map_remove(s.drop_last(), i);
        assert(entry_key(s[i]) != entry_key(s.last()));
    }
}

/// In-memory keyed object store: the executable model of the persistence
/// backend. Its abstract value is the map from composite keys to the bytes
/// stored under them.
pub struct ObjectStore {
    entries: Vec<StoreEntry>,
}

impl View for ObjectStore {
    type V = Map<(StorableObjectType, Seq<char>), Seq<u8>>;

    closed spec fn view(&self) -> Map<(StorableObjectType, Seq<char>), Seq<u8>> {
        entries_map(self.entries@)
    }
}

impl ObjectStore {
    #[verifier::type_invariant]
    spec fn wf(self) -> bool {
        unique_keys(self.entries@)
    }

    /// An empty store.
    pub fn new() -> (r: ObjectStore)
        ensures
            r@ == Map::<(StorableObjectType, Seq<char>), Seq<u8>>::empty(),
    {
        ObjectStore { entries: Vec::new() }
    }

    /// Index of the record stored under `(kind, uuid)`, if any.
    fn find_index(&self, kind: StorableObjectType, uuid: &String) -> (r: Option<usize>)
        ensures
            (match r {
                Some(i) => i < self.entries@.len() && entry_key(self.entries@[i as int]) == (
                    kind,
                    uuid@,
                ),
                None => forall|i: int|
                    0 <= i < self.entries@.len() ==> entry_key(#[trigger] self.entries@[i]) != (
                        kind,
                        uuid@,
                    ),
            }),
    {
        let n = self.entries.len();
        let mut j: usize = 0;
        while j < n
            invariant
                j <= n,
                n == self.entries@.len(),
                forall|i: int|
                    0 <= i < j ==> entry_key(#[trigger] self.entries@[i]) != (kind, uuid@),
            decreases n - j,
        {
            let e = &self.entries[j];
            if e.kind == kind && e.uuid == *uuid {
                return Some(j);
            }
            j += 1;
        }
        None
    }

    /// Fetches the bytes stored under `key`: the record if one is stored,
    /// `NotFound` otherwise. This backend never reports `Corrupt` or
    /// `Unavailable`.
    pub fn get<K: ObjectKey>(&self, key: &K) -> (r: GetOutcome)
        ensures
            self@.contains_key((key.spec_key_type(), key.spec_key_uuid())) ==> (r matches
                GetOutcome::Found(data) && data@ == self@[(key.spec_key_type(),
                key.spec_key_uuid())]),
            !self@.contains_key((key.spec_key_type(), key.spec_key_uuid())) ==> r is NotFound,
    {
        proof {
            use_type_invariant(&*self);
        }
        let kind = key.key_type();
        let uuid = key.key_uuid();
        match self.find_index(kind, &uuid) {
            Some(i) => {
                proof {
                    lemma_entries_map_lookup(self.entries@, i as int);
                }
                GetOutcome::Found(vstd::slice::slice_to_vec(self.entries[i].data.as_slice()))
            },
            None => {
                proof {
                    lemma_entries_map_contains(self.entries@, (kind, uuid@));
                }
                GetOutcome::NotFound
            },
        }
    }

    /// Stores `data` under `key`, replacing any record already there.
    pub fn put<K: ObjectKey>(&mut self, key: &K, data: Vec<u8>)
        ensures
            final(self)@ == old(self)@.insert(
                (key.spec_key_type(), key.spec_key_uuid()),
                data@,
            ),
    {
        proof {
            use_type_invariant(&*self);
        }
        let kind = key.key_type();
        let uuid = key.key_uuid();
        let idx = self.find_index(kind, &uuid);
        let ghost k = (kind, uuid@);
        let ghost s0 = self.entries@;
        let mut entries: Vec<StoreEntry> = Vec::new();
        core::mem::swap(&mut entries, &mut self.entries);
        match idx {
            Some(i) => {
                entries.remove(i);
                proof {
                    lemma_entries_map_remove(s0, i as int);
                }
            },
            None => {
                proof {
                    lemma_entries_map_contains(s0, k);
                    assert(entries_map(s0).remove(k) =~= entries_map(s0));
                }
            },
        }
        let ghost s1 = entries@;
        entries.push(StoreEntry { kind, uuid, data });
        proof {
            assert(entries@.drop_last() =~= s1);
            assert(entries_map(s1).insert(k, data@) =~= entries_map(s0).insert(k, data@));
        }
        self.entries = entries;
    }

    /// Removes the record stored under `key`, if any.
    pub fn delete<K: ObjectKey>(&mut self, key: &K)
        ensures
            final(self)@ == old(self)@.remove((key.spec_key_type(), key.spec_key_uuid())),
    {
        proof {
            use_type_invariant(&*self);
        }
        let kind = key.key_type();
        let uuid = key.key_uuid();
        let idx = self.find_index(kind, &uuid);
        let ghost k = (kind, uuid@);
        let ghost s0 = self.entries@;
        let mut entries: Vec<StoreEntry> = Vec::new();
        core::mem::swap(&mut entries, &mut self.entries);
        match idx {
            Some(i) => {
                entries.remove(i);
                proof {
                    lemma_entries_map_remove(s0, i as int);
                }
            },
            None => {
                proof {
                    lemma_entries_map_contains(s0, k);
                    assert(entries_map(s0).remove(k) =~= entries_map(s0));
                }
            },
        }
        self.entries = entries;
    }
}

/// Records stored under distinct composite keys never interfere: after a
/// `put`, the stored bytes read back unchanged, and every other key still
/// resolves to exactly what it held before — in particular, a Spec and a
/// State sharing a uuid but differing in kind tag live independent lives.
pub proof fn lemma_store_round_trip(
    m: Map<(StorableObjectType, Seq<char>), Seq<u8>>,
    k: (StorableObjectType, Seq<char>),
    data: Seq<u8>,
    other: (StorableObjectType, Seq<char>),
)
    requires
        other != k,
    ensures
        m.insert(k, data).contains_key(k),
        m.insert(k, data)[k] == data,
        m.insert(k, data).contains_key(other) == m.contains_key(other),
        m.contains_key(other) ==> m.insert(k, data)[other] == m[other],
{
}

} // verus!
