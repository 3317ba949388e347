use vstd::prelude::*;
use std::collections::HashMap;
use crate::database::{Database, denotes_some_row};
use crate::db_object::{DBObjectSerializable, DBSchemaObject, DataStoreTrait, SchemaTransform};
use crate::errors::StoreError;
use crate::sql_value::SqlValue;

verus! {

broadcast use vstd::std_specs::hash::group_hash_axioms;

/// The version counter that follows `v`: one step up, wrapping on overflow
/// rather than failing.
pub open spec fn spec_bumped(v: u32) -> u32 {
    ((v + 1) % 0x1_0000_0000) as u32
}

/// A bumped version counter never equals the counter it came from, so a
/// consumer that remembers the version it rendered detects every successful
/// mutation by one comparison.
pub proof fn lemma_version_changes(v: u32)
    ensures
        spec_bumped(v) != v,
{
}

/// The cached store: a generic in-memory mirror of one entity type's full
/// row set, with constant-time identity lookup, ordered traversal, and a
/// version counter that changes on every successful mutation.
///
/// Its view is the ordered sequence of cached entities.
pub struct DataStore<T> {
    list: Vec<T>,
    map: HashMap<i64, usize>,
    data_version: u32,
}

impl<T: DBSchemaObject + DBObjectSerializable + DataStoreTrait> View for DataStore<T> {
    type V = Seq<T>;

    closed spec fn view(&self) -> Seq<T> {
        self.list.view()
    }
}

impl<T: DBSchemaObject + DBObjectSerializable + DataStoreTrait> DataStore<T> {
    /// Well-formedness: the index map and the ordered list agree. Every
    /// mapped identity points at a list position holding that identity, and
    /// every list position is mapped back from its entity's identity.
    pub closed spec fn wf(&self) -> bool {
        &&& forall|id: i64| #[trigger]
            self.map.view().contains_key(id) ==> self.map.view()[id] < self.list.view().len()
                && self.list.view()[self.map.view()[id] as int].spec_id() == id
        &&& forall|i: int|
            0 <= i < self.list.view().len() ==> self.map.view().contains_key(
                #[trigger] self.list.view()[i].spec_id(),
            ) && self.map.view()[self.list.view()[i].spec_id()] == i
    }

    /// Whether some cached entity carries the identity `id`.
    pub open spec fn spec_contains_id(&self, id: i64) -> bool {
        exists|i: int| 0 <= i < self.view().len() && (#[trigger] self.view()[i]).spec_id() == id
    }

    /// What `find_index_of` answers: the mapped position of `id`, if any.
    pub closed spec fn spec_find(&self, id: i64) -> Option<usize> {
        if self.map.view().contains_key(id) {
            Some(self.map.view()[id])
        } else {
            None
        }
    }

    /// The version counter's current value.
    pub closed spec fn spec_version(&self) -> u32 {
        self.data_version
    }

    /// In a well-formed store an identity names at most one position.
    pub proof fn lemma_id_index_unique(&self, i: int, j: int)
        requires
            self.wf(),
            0 <= i < self.view().len(),
            0 <= j < self.view().len(),
            self.view()[i].spec_id() == self.view()[j].spec_id(),
        ensures
            i == j,
    {
    }

    /// The index invariant: however the store was mutated, as long as it is
    /// well-formed, `find_index_of(id)` answers `Some(i)` exactly when
    /// position `i` holds an entity whose identity is `id` — that is,
    /// exactly when `get_by_index(i)` returns that entity.
    pub proof fn lemma_index_invariant(&self, id: i64, i: int)
        requires
            self.wf(),
        ensures
            self.spec_find(id) == Some(i as usize) && 0 <= i < usize::MAX ==> (0 <= i
                < self.view().len() && self.view()[i].spec_id() == id),
            0 <= i < self.view().len() && self.view()[i].spec_id() == id ==> self.spec_find(id)
                == Some(i as usize),
            self.spec_find(id) is None ==> !self.spec_contains_id(id),
    {
        if 0 <= i < self.view().len() && self.view()[i].spec_id() == id {
            assert(self.map.view().contains_key(self.view()[i].spec_id()));
        }
    }

    /// The version counter's current value; changes on every successful
    /// mutation and on nothing else.
    pub fn get_version(&self) -> (r: u32)
        ensures
            r == self.spec_version(),
    {
        self.data_version
    }

    /// The cached entities in order, for read-only traversal.
    pub fn iter(&self) -> (r: &Vec<T>)
        ensures
            r.view() == self.view(),
    {
        &self.list
    }

    /// How many entities the mirror holds.
    pub fn len(&self) -> (r: usize)
        ensures
            r == self.view().len(),
    {
        self.list.len()
    }

    /// Builds the store for `T`: registers its schema (replaying whatever
    /// migration steps are missing), loads the full row set, and mirrors it
    /// through `mirror`. `Ok` means registration and the load both
    /// succeeded and the loaded identities were distinct; a registration or
    /// load failure propagates its own error, and a duplicate loaded
    /// identity yields `DuplicateId`. The tie between the mirror and the
    /// loaded rows is `mirror`'s contract; what a loaded row can be is
    /// `select_all`'s.
    pub fn new<R: SchemaTransform>(db: &mut Database, runner: &mut R) -> (r: Result<
        Self,
        StoreError,
    >)
        requires
            T::spec_schema().len() <= u32::MAX,
        ensures
            r matches Ok(s) ==> {
                &&& s.wf()
                &&& s.spec_version() == 1
                &&& forall|i: int|
                    0 <= i < s.view().len() ==> denotes_some_row::<T>(#[trigger] s.view()[i])
            },
    {
        match db.register_type::<T, R>(runner) {
            Ok(_) => (),
            Err(e) => {
                return Err(e);
            },
        }
        let loaded = match db.select_all::<T>() {
            Ok(items) => items,
            Err(e) => {
                return Err(e);
            },
        };
        let ghost loaded_rows = loaded.view();
        let mirrored = Self::mirror(loaded);
        proof {
            if let Ok(s) = &mirrored {
                assert forall|i: int| 0 <= i < s.view().len() implies denotes_some_row::<T>(
                    #[trigger] s.view()[i],
                ) by {
                    assert(s.view()[i] == loaded_rows[i]);
                    assert(denotes_some_row::<T>(loaded_rows[i]));
                }
            }
        }
        mirrored
    }

    /// Builds the mirror from one loaded row set: the entities in load
    /// order, the identity index over them, and the version counter at its
    /// starting value. It succeeds exactly when no two loaded entities
    /// share an identity, and the only failure is `DuplicateId`.
    pub fn mirror(items: Vec<T>) -> (r: Result<Self, StoreError>)
        ensures
            r matches Ok(s) ==> {
                &&& s.wf()
                &&& s.view() == items.view()
                &&& s.spec_version() == 1
            },
            (r is Err) <==> exists|i: int, j: int|
                0 <= i < j < items.view().len() && (#[trigger] items.view()[i]).spec_id() == (
                #[trigger] items.view()[j]).spec_id(),
            r matches Err(e) ==> e is DuplicateId,
    {
        let mut inst = DataStore { list: items, map: HashMap::new(), data_version: 1 };
        let count = inst.list.len();
        let mut k: usize = 0;
        while k < count
            invariant
                0 <= k <= count,
                count == inst.list.view().len(),
                inst.list.view() == items.view(),
                inst.data_version == 1,
                forall|id: i64| #[trigger]
                    inst.map.view().contains_key(id) ==> inst.map.view()[id] < k
                        && inst.list.view()[inst.map.view()[id] as int].spec_id() == id,
                forall|i: int|
                    0 <= i < k ==> inst.map.view().contains_key(
                        #[trigger] inst.list.view()[i].spec_id(),
                    ) && inst.map.view()[inst.list.view()[i].spec_id()] == i,
            decreases count - k,
        {
            let id = inst.list[k].get_id();
            if inst.map.contains_key(&id) {
                proof {
                    let p = inst.map.view()[id] as int;
                    assert(items.view()[p].spec_id() == id);
                    assert(0 <= p < k < items.view().len());
                    assert(items.view()[p].spec_id() == items.view()[k as int].spec_id());
                }
                return Err(StoreError::DuplicateId);
            }
            inst.map.insert(id, k);
            k += 1;
        }
        proof {
            assert forall|i: int, j: int|
                0 <= i < j < items.view().len() implies (#[trigger] items.view()[i]).spec_id()
                    != (#[trigger] items.view()[j]).spec_id() by {
                assert(inst.map.view().contains_key(inst.list.view()[i].spec_id()));
                assert(inst.map.view().contains_key(inst.list.view()[j].spec_id()));
            }
        }
        Ok(inst)
    }

    /// Mirrors one entity at the end of the list and indexes its identity.
    fn add_internal(&mut self, item: T)
        requires
            old(self).wf(),
            !old(self).spec_contains_id(item.spec_id()),
        ensures
            final(self).wf(),
            final(self).view() == old(self).view().push(item),
            final(self).spec_version() == old(self).spec_version(),
    {
        proof {
            if self.map.view().contains_key(item.spec_id()) {
                let i = self.map.view()[item.spec_id()] as int;
                assert(0 <= i < self.view().len() && self.view()[i].spec_id() == item.spec_id());
            }
        }
        let item_id = item.get_id();
        self.list.push(item);
        self.map.insert(item_id, self.list.len() - 1);
    }

    /// Write-through creation: persists the entity first; only on success
    /// does it take the store-assigned identity, append the entity to the
    /// mirror, index it, and advance the version. On failure the cache is
    /// left untouched.
    pub fn add(&mut self, db: &mut Database, item: T) -> (r: Result<(), StoreError>)
        requires
            old(self).wf(),
        ensures
            final(self).wf(),
            r is Ok ==> exists|id: i64|
                !old(self).spec_contains_id(id) && final(self).view() == old(self).view().push(
                    item.with_id(id),
                ),
            r is Ok ==> final(self).spec_version() == spec_bumped(old(self).spec_version()),
            r is Ok ==> final(self).spec_version() != old(self).spec_version(),
            r is Err ==> *final(self) == *old(self),
    {
        let mut item = item;
        match db.insert(&mut item) {
            Ok(_) => (),
            Err(e) => {
                return Err(e);
            },
        }
        let id = item.get_id();
        if self.map.contains_key(&id) {
            // The engine handed back an identity the cache already mirrors:
            // an internal inconsistency the caller must treat as fatal.
            return Err(StoreError::DuplicateId);
        }
        proof {
            if self.spec_contains_id(item.spec_id()) {
                let i = choose|i: int|
                    0 <= i < self.view().len() && (#[trigger] self.view()[i]).spec_id()
                        == item.spec_id();
                assert(self.map.view().contains_key(self.view()[i].spec_id()));
            }
        }
        self.add_internal(item);
        self.data_version = self.data_version.wrapping_add(1);
        Ok(())
    }

    /// Write-through replacement: requires the entity's identity to be
    /// cached (a violation is the caller's programming error), persists the
    /// full row, then replaces the mirrored entry in place and advances the
    /// version. On failure the cache is left untouched.
    pub fn edit(&mut self, db: &mut Database, item: T) -> (r: Result<(), StoreError>)
        requires
            old(self).wf(),
            old(self).spec_contains_id(item.spec_id()),
        ensures
            final(self).wf(),
            r is Ok ==> exists|i: int|
                0 <= i < old(self).view().len() && old(self).view()[i].spec_id() == item.spec_id()
                    && final(self).view() == old(self).view().update(i, item),
            r is Ok ==> final(self).spec_version() == spec_bumped(old(self).spec_version()),
            r is Ok ==> final(self).spec_version() != old(self).spec_version(),
            r is Err ==> *final(self) == *old(self),
    {
        match db.update(&item) {
            Ok(_) => (),
            Err(e) => {
                return Err(e);
            },
        }
        let id = item.get_id();
        proof {
            let i = choose|i: int|
                0 <= i < self.view().len() && (#[trigger] self.view()[i]).spec_id()
                    == item.spec_id();
            assert(self.map.view().contains_key(self.view()[i].spec_id()));
        }
        let index = *self.map.get(&id).unwrap();
        self.list[index] = item;
        self.data_version = self.data_version.wrapping_add(1);
        Ok(())
    }

    /// Write-through removal: requires the identity to be cached (a
    /// violation is the caller's programming error), persists the deletion
    /// first, and only on success drops the entity from the mirror, rebuilds
    /// the index, and advances the version.
    pub fn remove(&mut self, db: &mut Database, id: i64) -> (r: Result<(), StoreError>)
        requires
            old(self).wf(),
            old(self).spec_contains_id(id),
        ensures
            final(self).wf(),
            r is Ok ==> exists|i: int|
                0 <= i < old(self).view().len() && old(self).view()[i].spec_id() == id
                    && final(self).view() == old(self).view().remove(i),
            r is Ok ==> final(self).spec_version() == spec_bumped(old(self).spec_version()),
            r is Ok ==> final(self).spec_version() != old(self).spec_version(),
            r is Err ==> *final(self) == *old(self),
    {
        proof {
            let i = choose|i: int|
                0 <= i < self.view().len() && (#[trigger] self.view()[i]).spec_id() == id;
            assert(self.map.view().contains_key(self.view()[i].spec_id()));
        }
        let index = *self.map.get(&id).unwrap();
        match db.delete(&self.list[index]) {
            Ok(_) => (),
            Err(e) => {
                return Err(e);
            },
        }
        let _removed = self.list.remove(index);
        self.rebuild_map();
        self.data_version = self.data_version.wrapping_add(1);
        Ok(())
    }

    /// Re-derives the identity index from the list after a compaction, as
    /// the index invariant demands.
    fn rebuild_map(&mut self)
        requires
            forall|i: int, j: int|
                0 <= i < j < old(self).view().len() ==> (#[trigger] old(self).view()[i]).spec_id()
                    != (#[trigger] old(self).view()[j]).spec_id(),
        ensures
            final(self).wf(),
            final(self).view() == old(self).view(),
            final(self).spec_version() == old(self).spec_version(),
    {
        self.map = HashMap::new();
        let n = self.list.len();
        let mut i: usize = 0;
        while i < n
            invariant
                0 <= i <= n,
                n == self.list.view().len(),
                self.list.view() == old(self).view(),
                self.data_version == old(self).spec_version(),
                forall|k: int, j: int|
                    0 <= k < j < old(self).view().len() ==> (
                    #[trigger] old(self).view()[k]).spec_id() != (
                    #[trigger] old(self).view()[j]).spec_id(),
                forall|id: i64| #[trigger]
                    self.map.view().contains_key(id) ==> self.map.view()[id] < i
                        && self.list.view()[self.map.view()[id] as int].spec_id() == id,
                forall|k: int|
                    0 <= k < i ==> self.map.view().contains_key(
                        #[trigger] self.list.view()[k].spec_id(),
                    ) && self.map.view()[self.list.view()[k].spec_id()] == k,
            decreases n - i,
        {
            let id = self.list[i].get_id();
            self.map.insert(id, i);
            i += 1;
        }
    }

    /// Constant-time identity lookup into the mirror.
    pub fn get(&self, id: i64) -> (r: Option<&T>)
        requires
            self.wf(),
        ensures
            match r {
                Some(v) => exists|i: int|
                    0 <= i < self.view().len() && (#[trigger] self.view()[i]).spec_id() == id && *v
                        == self.view()[i],
                None => !self.spec_contains_id(id),
            },
    {
        let index = match self.map.get(&id) {
            Some(i) => *i,
            None => {
                proof {
                    if self.spec_contains_id(id) {
                        let i = choose|i: int|
                            0 <= i < self.view().len() && (#[trigger] self.view()[i]).spec_id()
                                == id;
                        assert(self.map.view().contains_key(self.view()[i].spec_id()));
                    }
                }
                return None;
            },
        };
        Some(&self.list[index])
    }

    /// Positional lookup into the mirror's current order.
    pub fn get_by_index(&self, index: usize) -> (r: Option<&T>)
        ensures
            match r {
                Some(v) => index < self.view().len() && *v == self.view()[index as int],
                None => index >= self.view().len(),
            },
    {
        if index < self.list.len() {
            Some(&self.list[index])
        } else {
            None
        }
    }

    /// Where the entity carrying `id` currently stands in the mirror.
    pub fn find_index_of(&self, id: i64) -> (r: Option<usize>)
        requires
            self.wf(),
        ensures
            r == self.spec_find(id),
            match r {
                Some(i) => i < self.view().len() && self.view()[i as int].spec_id() == id,
                None => !self.spec_contains_id(id),
            },
    {
        match self.map.get(&id) {
            Some(i) => Some(*i),
            None => {
                proof {
                    if self.spec_contains_id(id) {
                        let i = choose|i: int|
                            0 <= i < self.view().len() && (#[trigger] self.view()[i]).spec_id()
                                == id;
                        assert(self.map.view().contains_key(self.view()[i].spec_id()));
                    }
                }
                None
            },
        }
    }

    /// An ad hoc filtered read against the backing table, bypassing the
    /// mirror: hands back freshly deserialized rows satisfying the
    /// predicate fragment.
    pub fn get_where(&self, db: &mut Database, where_clause: &str, params: &Vec<SqlValue>) -> (r:
        Result<Vec<T>, StoreError>)
        ensures
            r matches Ok(items) ==> forall|i: int|
                0 <= i < items.view().len() ==> denotes_some_row::<T>(#[trigger] items.view()[i]),
    {
        db.select_where::<T>(where_clause, params)
    }
}

} // verus!
