//! The persistent cache table, modelled: a key-value store with upsert
//! semantics whose state is a map from keys to entries.
//!
//! Each entry pairs an opaque document text with the time it was written,
//! in whole seconds. At most one entry exists per key; a write to an
//! existing key replaces both the value and the write time.

use vstd::prelude::*;

verus! {

/// Mathematical content of one cache entry: the stored text and the time
/// it was written, in whole seconds.
pub struct EntryModel {
    pub value: Seq<char>,
    pub cached_at: int,
}

/// What a lookup hands back for a key: the stored text and its write time.
pub struct KeyValue {
    pub value: String,
    pub cached_at: i64,
}

impl View for KeyValue {
    type V = EntryModel;

    open spec fn view(&self) -> EntryModel {
        EntryModel { value: self.value@, cached_at: self.cached_at as int }
    }
}

/// A failure of the backing store, with the operation and key for logging.
/// The in-memory store never raises one; the persistent store behind the
/// same interface does, and the retrieval protocol treats it as a miss.
pub struct StorageError {
    pub operation: String,
    pub key: String,
}

/// Mathematical content of a storage failure.
pub struct StorageErrorModel {
    pub operation: Seq<char>,
    pub key: Seq<char>,
}

impl View for StorageError {
    type V = StorageErrorModel;

    open spec fn view(&self) -> StorageErrorModel {
        StorageErrorModel { operation: self.operation@, key: self.key@ }
    }
}

/// One row of the store: a key with its entry.
struct Row {
    key: String,
    value: String,
    cached_at: i64,
}

impl Row {
    spec fn entry(&self) -> EntryModel {
        EntryModel { value: self.value@, cached_at: self.cached_at as int }
    }
}

/// The key-value store. Its abstract state, `self@`, is a map from key
/// text to entry; every operation states its effect on that map.
pub struct KVStore {
    rows: Vec<Row>,
    model: Ghost<Map<Seq<char>, EntryModel>>,
}

impl View for KVStore {
    type V = Map<Seq<char>, EntryModel>;

    closed spec fn view(&self) -> Map<Seq<char>, EntryModel> {
        self.model@
    }
}

/// String equality by text, through owned copies.
fn str_eq(a: &str, b: &str) -> (r: bool)
    ensures
        r == (a@ == b@),
{
    let owned_a: String = a.to_owned();
    let owned_b: String = b.to_owned();
    owned_a == owned_b
}

impl KVStore {
    /// The rows carry pairwise-distinct keys and agree with the abstract map.
    pub closed spec fn wf(&self) -> bool {
        &&& forall|i: int|
            0 <= i < self.rows@.len() ==> self.model@.contains_key(
                (#[trigger] self.rows@[i]).key@,
            )
        &&& forall|i: int|
            0 <= i < self.rows@.len() ==> self.model@[(#[trigger] self.rows@[i]).key@]
                == self.rows@[i].entry()
        &&& forall|k: Seq<char>|
            #[trigger] self.model@.contains_key(k) ==> exists|i: int|
                0 <= i < self.rows@.len() && (#[trigger] self.rows@[i]).key@ == k
        &&& forall|i: int, j: int|
            0 <= i < j < self.rows@.len() ==> (#[trigger] self.rows@[i]).key@ != (
            #[trigger] self.rows@[j]).key@
    }

    /// An empty store.
    pub fn new() -> (s: Self)
        ensures
            s.wf(),
            s@ == Map::<Seq<char>, EntryModel>::empty(),
    {
        KVStore { rows: Vec::new(), model: Ghost(Map::empty()) }
    }

    /// The index of the row holding `key`, if one does.
    fn index_of(&self, key: &str) -> (r: Option<usize>)
        ensures
            match r {
                Some(i) => i < self.rows@.len() && self.rows@[i as int].key@ == key@,
                None => forall|j: int|
                    0 <= j < self.rows@.len() ==> (#[trigger] self.rows@[j]).key@ != key@,
            },
    {
        let mut i: usize = 0;
        while i < self.rows.len()
            invariant
                i <= self.rows@.len(),
                forall|j: int| 0 <= j < i ==> (#[trigger] self.rows@[j]).key@ != key@,
            decreases self.rows@.len() - i,
        {
            if str_eq(self.rows[i].key.as_str(), key) {
                return Some(i);
            }
            i = i + 1;
        }
        None
    }

    /// Looks a key up. Returns the entry written for it, or nothing when
    /// the key is absent; a missing key is never an error.
    pub fn get(&self, key: &str) -> (r: Option<KeyValue>)
        requires
            self.wf(),
        ensures
            match r {
                Some(kv) => self@.contains_key(key@) && kv@ == self@[key@],
                None => !self@.contains_key(key@),
            },
    {
        match self.index_of(key) {
            Some(i) => {
                let row = &self.rows[i];
                let kv = KeyValue { value: row.value.clone(), cached_at: row.cached_at };
                proof {
                    assert(self.model@.contains_key(self.rows@[i as int].key@));
                    assert(self.model@[self.rows@[i as int].key@] == self.rows@[i as int].entry());
                }
                Some(kv)
            },
            None => {
                proof {
                    if self.model@.contains_key(key@) {
                        let j = choose|j: int|
                            0 <= j < self.rows@.len() && (#[trigger] self.rows@[j]).key@ == key@;
                        assert(false);
                    }
                }
                None
            },
        }
    }

    /// Removes the row for `key` if one exists; reports whether one did.
    fn take_row(&mut self, key: &str) -> (found: bool)
        requires
            old(self).wf(),
        ensures
            final(self).wf(),
            found == old(self)@.contains_key(key@),
            final(self)@ == old(self)@.remove(key@),
    {
        match self.index_of(key) {
            Some(i) => {
                let ghost rows0 = self.rows@;
                let ghost m0 = self.model@;
                proof {
                    assert(m0.contains_key(rows0[i as int].key@));
                }
                self.rows.remove(i);
                self.model = Ghost(self.model@.remove(key@));
                proof {
                    rows0.remove_ensures(i as int);
                    let rows1 = self.rows@;
                    let m1 = self.model@;
                    assert forall|j: int| 0 <= j < rows1.len() implies #[trigger] rows1[j] == rows0[
                        if j < i as int {
                            j
                        } else {
                            j + 1
                        }
                    ] by {
                        assert(rows1 == rows0.remove(i as int));
                    }
                    // no remaining row holds the removed key
                    assert forall|j: int| 0 <= j < rows1.len() implies (
                    #[trigger] rows1[j]).key@ != key@ by {
                        let j0 = if j < i as int {
                            j
                        } else {
                            j + 1
                        };
                        assert(rows1[j] == rows0[j0]);
                        assert(rows0[i as int].key@ == key@);
                    }
                    // rows still agree with the map
                    assert forall|j: int| 0 <= j < rows1.len() implies m1.contains_key(
                        (#[trigger] rows1[j]).key@,
                    ) && m1[rows1[j].key@] == rows1[j].entry() by {
                        let j0 = if j < i as int {
                            j
                        } else {
                            j + 1
                        };
                        assert(rows1[j] == rows0[j0]);
                        assert(m0.contains_key(rows0[j0].key@));
                        assert(m0[rows0[j0].key@] == rows0[j0].entry());
                    }
                    // every mapped key still has a row
                    assert forall|kk: Seq<char>| #[trigger] m1.contains_key(kk) implies exists|j: int|
                        0 <= j < rows1.len() && (#[trigger] rows1[j]).key@ == kk by {
                        assert(m0.contains_key(kk) && kk != key@);
                        let j0 = choose|j0: int|
                            0 <= j0 < rows0.len() && (#[trigger] rows0[j0]).key@ == kk;
                        let j1 = if j0 < i as int {
                            j0
                        } else {
                            j0 - 1
                        };
                        assert(rows1[j1] == rows0[j0]);
                    }
                    // keys stay pairwise distinct
                    assert forall|a: int, b: int| 0 <= a < b < rows1.len() implies (
                    #[trigger] rows1[a]).key@ != (#[trigger] rows1[b]).key@ by {
                        let a0 = if a < i as int {
                            a
                        } else {
                            a + 1
                        };
                        let b0 = if b < i as int {
                            b
                        } else {
                            b + 1
                        };
                        assert(rows1[a] == rows0[a0]);
                        assert(rows1[b] == rows0[b0]);
                    }
                }
                true
            },
            None => {
                proof {
                    if self.model@.contains_key(key@) {
                        let j = choose|j: int|
                            0 <= j < self.rows@.len() && (#[trigger] self.rows@[j]).key@ == key@;
                        assert(false);
                    }
                    assert(self.model@.remove(key@) =~= self.model@);
                }
                false
            },
        }
    }

    /// Upserts at a caller-supplied write time: inserts the key if it is
    /// absent, otherwise replaces both the value and the write time.
    /// `set` is the variant that stamps the store's own clock; this one is
    /// the time-explicit core it relies on.
    pub fn set_at(&mut self, key: &str, value: &str, now: i64)
        requires
            old(self).wf(),
        ensures
            final(self).wf(),
            final(self)@ == old(self)@.insert(
                key@,
                (EntryModel { value: value@, cached_at: now as int }),
            ),
    {
        let ghost e = EntryModel { value: value@, cached_at: now as int };
        self.take_row(key);
        let ghost rows1 = self.rows@;
        let ghost m1 = self.model@;
        proof {
            // after the removal no row holds the key
            assert forall|j: int| 0 <= j < rows1.len() implies (
            #[trigger] rows1[j]).key@ != key@ by {
                assert(m1.contains_key(rows1[j].key@));
            }
        }
        let row = Row { key: key.to_owned(), value: value.to_owned(), cached_at: now };
        self.rows.push(row);
        self.model = Ghost(self.model@.insert(key@, e));
        proof {
            let rows2 = self.rows@;
            let m2 = self.model@;
            assert(rows2[rows1.len() as int].key@ == key@);
            assert(rows2[rows1.len() as int].entry() == e);
            assert forall|j: int| 0 <= j < rows2.len() implies m2.contains_key(
                (#[trigger] rows2[j]).key@,
            ) && m2[rows2[j].key@] == rows2[j].entry() by {
                if j < rows1.len() {
                    assert(rows2[j] == rows1[j]);
                    assert(m1.contains_key(rows1[j].key@));
                    assert(m1[rows1[j].key@] == rows1[j].entry());
                }
            }
            assert forall|kk: Seq<char>| #[trigger] m2.contains_key(kk) implies exists|j: int|
                0 <= j < rows2.len() && (#[trigger] rows2[j]).key@ == kk by {
                if kk == key@ {
                    assert(rows2[rows1.len() as int].key@ == kk);
                } else {
                    assert(m1.contains_key(kk));
                    let j0 = choose|j0: int|
                        0 <= j0 < rows1.len() && (#[trigger] rows1[j0]).key@ == kk;
                    assert(rows2[j0] == rows1[j0]);
                }
            }
            assert forall|a: int, b: int| 0 <= a < b < rows2.len() implies (
            #[trigger] rows2[a]).key@ != (#[trigger] rows2[b]).key@ by {
                if b < rows1.len() {
                    assert(rows2[a] == rows1[a]);
                    assert(rows2[b] == rows1[b]);
                } else {
                    assert(rows2[a] == rows1[a]);
                    assert(rows2[b].key@ == key@);
                }
            }
            assert(m2 =~= old(self)@.insert(key@, e));
        }
    }

    /// Upserts, stamping the write time from the store's own clock rather
    /// than taking it from the caller, so a stale write cannot spoof
    /// freshness. Never fails.
    pub fn set(&mut self, key: &str, value: &str) -> (r: Result<(), StorageError>)
        requires
            old(self).wf(),
        ensures
            final(self).wf(),
            r.is_ok(),
            exists|t: int|
                final(self)@ == old(self)@.insert(
                    key@,
                    (EntryModel { value: value@, cached_at: t }),
                ),
    {
        let now = crate::clock::now_timestamp();
        self.set_at(key, value, now);
        proof {
            assert(self@ == old(self)@.insert(
                key@,
                EntryModel { value: value@, cached_at: now as int },
            ));
        }
        Ok(())
    }

    /// Removes every entry unconditionally.
    pub fn clear(&mut self) -> (r: Result<(), StorageError>)
        requires
            old(self).wf(),
        ensures
            final(self).wf(),
            final(self)@ == Map::<Seq<char>, EntryModel>::empty(),
            r.is_ok(),
    {
        self.rows = Vec::new();
        self.model = Ghost(Map::empty());
        Ok(())
    }

    /// Removes one key; reports how many entries went away.
    pub fn delete(&mut self, key: &str) -> (r: usize)
        requires
            old(self).wf(),
        ensures
            final(self).wf(),
            final(self)@ == old(self)@.remove(key@),
            old(self)@.contains_key(key@) ==> r == 1,
            !old(self)@.contains_key(key@) ==> r == 0,
    {
        if self.take_row(key) {
            1
        } else {
            0
        }
    }

    /// A liveness probe; the in-memory store is always live.
    pub fn health_check(&self) -> (r: Result<(), StorageError>)
        ensures
            r.is_ok(),
    {
        Ok(())
    }
}

/// Writing one key twice leaves exactly the second write: the first
/// insert is absorbed, and the key maps to the second value and time.
pub proof fn lemma_upsert_last_write_wins(
    m: Map<Seq<char>, EntryModel>,
    key: Seq<char>,
    first: EntryModel,
    second: EntryModel,
)
    ensures
        m.insert(key, first).insert(key, second) == m.insert(key, second),
        m.insert(key, first).insert(key, second)[key] == second,
{
    assert(m.insert(key, first).insert(key, second) =~= m.insert(key, second));
}

/// Clearing wipes every key: no key is ever present in the empty store.
pub proof fn lemma_clear_wipes_all(key: Seq<char>)
    ensures
        !Map::<Seq<char>, EntryModel>::empty().contains_key(key),
{
}

} // verus!
