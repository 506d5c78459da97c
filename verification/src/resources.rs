//! Resource stores: the handle-keyed table and the descriptor-keyed cache.
//!
//! A [`GpuResourceMap`] owns live objects and hands out typed handles to
//! them.  A [`GpuResourceDescriptorMap`] layers a descriptor-to-handle
//! mapping over such a table: [`GpuResourceDescriptorMap::get_or_create`]
//! memoizes object construction so that at most one live object exists per
//! distinct descriptor value.
//!
//! Both stores are owned by a single writer; callers that share one across
//! threads wrap it in their own lock.

use vstd::prelude::*;

use std::collections::HashMap;

use crate::id::{Id, IdSource};

verus! {

broadcast use vstd::std_specs::hash::group_hash_axioms;

/// A mapping from typed handles to live resource objects.
///
/// `T` is the handle tag; `V` is what the table stores under each handle.
/// The view is the mapping from raw handle values to stored objects.
pub struct GpuResourceMap<T, V> {
    id_source: IdSource<T>,
    map: HashMap<u64, V>,
}

impl<T, V> View for GpuResourceMap<T, V> {
    type V = Map<u64, V>;

    closed spec fn view(&self) -> Map<u64, V> {
        self.map@
    }
}

impl<T, V> GpuResourceMap<T, V> {
    /// How many handles this table's source has minted.
    pub closed spec fn count(&self) -> u64 {
        self.id_source.count()
    }

    /// Every handle in the table was minted by this table's source, so a
    /// freshly minted handle never collides with a stored one.
    pub closed spec fn wf(&self) -> bool {
        forall|k: u64| self@.contains_key(k) ==> k < self.count()
    }

    /// Mints a handle without storing anything under it, for handles that
    /// must be communicated before their object exists.
    pub fn generate(&mut self) -> (id: Id<T>)
        requires
            old(self).count() < u64::MAX,
        ensures
            id@ == old(self).count(),
            final(self).count() == old(self).count() + 1,
            final(self)@ == old(self)@,
            old(self).wf() ==> final(self).wf() && !old(self)@.contains_key(id@),
    {
        self.id_source.generate()
    }

    /// Stores `resource` under a handle minted earlier by this table,
    /// returning what the handle was bound to before, if anything.
    pub fn insert(&mut self, id: Id<T>, resource: V) -> (previous: Option<V>)
        requires
            id@ < old(self).count(),
        ensures
            final(self)@ == old(self)@.insert(id@, resource),
            final(self).count() == old(self).count(),
            old(self).wf() ==> final(self).wf(),
            match previous {
                Some(v) => old(self)@.contains_key(id@) && v == old(self)@[id@],
                None => !old(self)@.contains_key(id@),
            },
    {
        let previous = self.map.insert(id.value(), resource);
        proof {
            if old(self).wf() {
                assert forall|k: u64| self@.contains_key(k) implies k < self.count() by {
                    if k != id@ {
                        assert(old(self)@.contains_key(k));
                    }
                }
            }
        }
        previous
    }

    /// Mints a fresh handle, stores `resource` under it, and returns it.
    pub fn push(&mut self, resource: V) -> (id: Id<T>)
        requires
            old(self).count() < u64::MAX,
        ensures
            id@ == old(self).count(),
            final(self).count() == old(self).count() + 1,
            final(self)@ == old(self)@.insert(id@, resource),
            old(self).wf() ==> final(self).wf() && !old(self)@.contains_key(id@),
    {
        let id = self.generate();
        self.map.insert(id.value(), resource);
        id
    }

    /// Whether the table holds an object under `id`.
    pub fn contains(&self, id: &Id<T>) -> (r: bool)
        ensures
            r == self@.contains_key(id@),
    {
        self.map.contains_key(&id.value())
    }

    /// The object stored under `id`, if any.  A handle that is absent
    /// yields `None`, never a fault.
    pub fn get(&self, id: &Id<T>) -> (r: Option<&V>)
        ensures
            match r {
                Some(v) => self@.contains_key(id@) && *v == self@[id@],
                None => !self@.contains_key(id@),
            },
    {
        self.map.get(&id.value())
    }

    /// Removes the object stored under `id`.  Removing an absent handle is
    /// a no-op, not an error.
    pub fn remove(&mut self, id: &Id<T>)
        ensures
            final(self)@ == old(self)@.remove(id@),
            final(self).count() == old(self).count(),
            old(self).wf() ==> final(self).wf(),
    {
        self.map.remove(&id.value());
    }
}

impl<T, V> Default for GpuResourceMap<T, V> {
    fn default() -> (r: Self)
        ensures
            r@ == Map::<u64, V>::empty(),
            r.count() == 0,
            r.wf(),
    {
        GpuResourceMap { id_source: IdSource::default(), map: HashMap::new() }
    }
}

/// A structural descriptor usable as a cache key.
///
/// The view is the descriptor's value as a mathematical key: descriptors
/// with equal views describe the same resource.  `Resource` is the handle
/// tag of the resource kind the descriptor creates.
pub trait GpuResourceDescriptor: View + Sized {
    type Resource;

    /// Structural equality of descriptors, matching view equality.
    fn desc_eq(&self, other: &Self) -> (r: bool)
        ensures
            r == (self@ == other@),
    ;
}

/// A descriptor-keyed cache over a resource table.
///
/// `T` is the descriptor type, `V` what the underlying table stores.  Its
/// contract guarantees structural deduplication: after the first creation
/// for a descriptor value, every lookup with an equal descriptor returns
/// the same handle and creates nothing.
pub struct GpuResourceDescriptorMap<T: GpuResourceDescriptor, V> {
    map: GpuResourceMap<T::Resource, V>,
    descriptors: Vec<(T, Id<T::Resource>)>,
}

/// The descriptor-to-handle mapping recorded in `entries`.
pub closed spec fn descs_of<T: GpuResourceDescriptor>(
    entries: Seq<(T, Id<<T as GpuResourceDescriptor>::Resource>)>,
) -> Map<<T as View>::V, u64>
    decreases entries.len(),
{
    if entries.len() == 0 {
        Map::empty()
    } else {
        descs_of::<T>(entries.drop_last()).insert(entries.last().0@, entries.last().1@)
    }
}

proof fn lemma_descs_of_contains<T: GpuResourceDescriptor>(
    entries: Seq<(T, Id<<T as GpuResourceDescriptor>::Resource>)>,
    k: <T as View>::V,
)
    ensures
        descs_of::<T>(entries).contains_key(k) <==> exists|i: int|
            0 <= i < entries.len() && entries[i].0@ == k,
    decreases entries.len(),
{
    if entries.len() > 0 {
        lemma_descs_of_contains::<T>(entries.drop_last(), k);
        if entries.last().0@ == k {
            assert(entries[entries.len() - 1].0@ == k);
        } else if descs_of::<T>(entries).contains_key(k) {
            let i = choose|i: int| 0 <= i < entries.drop_last().len() && entries.drop_last()[i].0@
                == k;
            assert(entries[i].0@ == k);
        } else if exists|i: int| 0 <= i < entries.len() && entries[i].0@ == k {
            let i = choose|i: int| 0 <= i < entries.len() && entries[i].0@ == k;
            assert(entries.drop_last()[i].0@ == k);
        }
    }
}

proof fn lemma_descs_of_index<T: GpuResourceDescriptor>(
    entries: Seq<(T, Id<<T as GpuResourceDescriptor>::Resource>)>,
    i: int,
)
    requires
        0 <= i < entries.len(),
        forall|a: int, b: int|
            0 <= a < b < entries.len() ==> entries[a].0@ != entries[b].0@,
    ensures
        descs_of::<T>(entries).contains_key(entries[i].0@),
        descs_of::<T>(entries)[entries[i].0@] == entries[i].1@,
    decreases entries.len(),
{
    lemma_descs_of_contains::<T>(entries, entries[i].0@);
    if i < entries.len() - 1 {
        assert(entries.drop_last()[i] == entries[i]);
        lemma_descs_of_index::<T>(entries.drop_last(), i);
    }
}

impl<T: GpuResourceDescriptor, V> GpuResourceDescriptorMap<T, V> {
    /// The handle-to-object table underneath the cache.
    pub closed spec fn table(&self) -> Map<u64, V> {
        self.map@
    }

    /// The descriptor-to-handle mapping, keyed by descriptor value.
    pub closed spec fn descs(&self) -> Map<<T as View>::V, u64> {
        descs_of::<T>(self.descriptors@)
    }

    /// How many handles the cache's source has minted.
    pub closed spec fn count(&self) -> u64 {
        self.map.count()
    }

    /// Whether some recorded descriptor is bound to the handle value `id`.
    pub closed spec fn binds_id(&self, id: u64) -> bool {
        exists|i: int| 0 <= i < self.descriptors@.len() && self.descriptors@[i].1@ == id
    }

    /// Recorded descriptors are pairwise distinct in value, each is bound
    /// to its own handle, and every recorded handle was minted here.
    pub closed spec fn wf(&self) -> bool {
        &&& self.map.wf()
        &&& forall|a: int, b: int|
            0 <= a < b < self.descriptors@.len() ==> self.descriptors@[a].0@
                != self.descriptors@[b].0@
        &&& forall|a: int, b: int|
            0 <= a < b < self.descriptors@.len() ==> self.descriptors@[a].1@
                != self.descriptors@[b].1@
        &&& forall|i: int|
            0 <= i < self.descriptors@.len() ==> self.descriptors@[i].1@ < self.count()
    }

    /// Finds the position recording a descriptor of equal value.
    fn find_desc(&self, desc: &T) -> (r: Option<usize>)
        ensures
            match r {
                Some(i) => i < self.descriptors@.len() && self.descriptors@[i as int].0@
                    == desc@,
                None => !self.descs().contains_key(desc@),
            },
    {
        let n = self.descriptors.len();
        let mut i: usize = 0;
        while i < n
            invariant
                n == self.descriptors@.len(),
                i <= n,
                forall|j: int| 0 <= j < i ==> self.descriptors@[j].0@ != desc@,
            decreases n - i,
        {
            if self.descriptors[i].0.desc_eq(desc) {
                return Some(i);
            }
            i = i + 1;
        }
        proof {
            lemma_descs_of_contains::<T>(self.descriptors@, desc@);
        }
        None
    }

    /// The handle recorded for a descriptor of equal value, if any.
    pub fn get_desc(&self, desc: &T) -> (r: Option<Id<<T as GpuResourceDescriptor>::Resource>>)
        requires
            self.wf(),
        ensures
            match r {
                Some(id) => self.descs().contains_key(desc@) && id@ == self.descs()[desc@],
                None => !self.descs().contains_key(desc@),
            },
    {
        match self.find_desc(desc) {
            Some(i) => {
                proof {
                    lemma_descs_of_index::<T>(self.descriptors@, i as int);
                }
                Some(self.descriptors[i].1)
            },
            None => None,
        }
    }

    /// The object cached for a descriptor of equal value, if any.
    pub fn get(&self, desc: &T) -> (r: Option<&V>)
        requires
            self.wf(),
        ensures
            match r {
                Some(v) => {
                    &&& self.descs().contains_key(desc@)
                    &&& self.table().contains_key(self.descs()[desc@])
                    &&& *v == self.table()[self.descs()[desc@]]
                },
                None => !self.descs().contains_key(desc@) || !self.table().contains_key(
                    self.descs()[desc@],
                ),
            },
    {
        match self.get_desc(desc) {
            Some(id) => self.map.get(&id),
            None => None,
        }
    }

    /// The object stored under a handle, if any.
    pub fn get_id(&self, id: &Id<<T as GpuResourceDescriptor>::Resource>) -> (r: Option<&V>)
        ensures
            match r {
                Some(v) => self.table().contains_key(id@) && *v == self.table()[id@],
                None => !self.table().contains_key(id@),
            },
    {
        self.map.get(id)
    }

    /// Mints a handle without storing anything under it.
    pub fn generate(&mut self) -> (id: Id<<T as GpuResourceDescriptor>::Resource>)
        requires
            old(self).count() < u64::MAX,
        ensures
            id@ == old(self).count(),
            final(self).count() == old(self).count() + 1,
            final(self).table() == old(self).table(),
            final(self).descs() == old(self).descs(),
            old(self).wf() ==> final(self).wf() && !old(self).table().contains_key(id@),
    {
        self.map.generate()
    }

    /// Stores `resource` under a handle minted earlier by this cache.
    pub fn insert(
        &mut self,
        id: Id<<T as GpuResourceDescriptor>::Resource>,
        resource: V,
    ) -> (previous: Option<V>)
        requires
            id@ < old(self).count(),
        ensures
            final(self).table() == old(self).table().insert(id@, resource),
            final(self).descs() == old(self).descs(),
            final(self).count() == old(self).count(),
            old(self).wf() ==> final(self).wf(),
            match previous {
                Some(v) => old(self).table().contains_key(id@) && v == old(self).table()[id@],
                None => !old(self).table().contains_key(id@),
            },
    {
        self.map.insert(id, resource)
    }

    /// Mints a fresh handle, stores `resource` under it, and returns it.
    pub fn push(&mut self, resource: V) -> (id: Id<<T as GpuResourceDescriptor>::Resource>)
        requires
            old(self).count() < u64::MAX,
        ensures
            id@ == old(self).count(),
            final(self).count() == old(self).count() + 1,
            final(self).table() == old(self).table().insert(id@, resource),
            final(self).descs() == old(self).descs(),
            old(self).wf() ==> final(self).wf() && !old(self).table().contains_key(id@),
    {
        self.map.push(resource)
    }

    /// Records that `desc` is realized by the object under `id`.
    ///
    /// The handle must have been minted here and must not already stand for
    /// a different descriptor: binding one handle to two descriptors is
    /// corrupted bookkeeping, not a recoverable state.
    pub fn insert_descriptor(&mut self, desc: T, id: Id<<T as GpuResourceDescriptor>::Resource>)
        requires
            old(self).wf(),
            id@ < old(self).count(),
            !old(self).descs().contains_key(desc@),
            !old(self).binds_id(id@),
        ensures
            final(self).wf(),
            final(self).descs() == old(self).descs().insert(desc@, id@),
            final(self).table() == old(self).table(),
            final(self).count() == old(self).count(),
    {
        proof {
            lemma_descs_of_contains::<T>(self.descriptors@, desc@);
        }
        self.descriptors.push((desc, id));
        proof {
            assert(self.descriptors@.drop_last() =~= old(self).descriptors@);
        }
    }

    /// Mints a fresh handle, stores `resource` under it, and records `desc`
    /// as realized by it.
    pub fn push_descriptor(&mut self, desc: T, resource: V) -> (id: Id<
        <T as GpuResourceDescriptor>::Resource,
    >)
        requires
            old(self).wf(),
            old(self).count() < u64::MAX,
            !old(self).descs().contains_key(desc@),
        ensures
            final(self).wf(),
            id@ == old(self).count(),
            final(self).descs() == old(self).descs().insert(desc@, id@),
            final(self).table() == old(self).table().insert(id@, resource),
            final(self).count() == old(self).count() + 1,
    {
        let id = self.map.push(resource);
        self.insert_descriptor(desc, id);
        id
    }

    /// Returns the handle cached for `desc`, creating the object first if
    /// no structurally equal descriptor is known.
    ///
    /// On a hit the cache is left untouched and `make` is not invoked; on a
    /// miss `make` is invoked exactly once and its result is stored under a
    /// fresh handle.  [`get_or_create_post`] names this relation between
    /// the cache before and after the call.
    pub fn get_or_create<F: FnOnce() -> V>(&mut self, desc: T, make: F) -> (id: Id<
        <T as GpuResourceDescriptor>::Resource,
    >)
        requires
            old(self).wf(),
            old(self).count() < u64::MAX,
            call_requires(make, ()),
        ensures
            final(self).wf(),
            get_or_create_post(old(self).descs(), final(self).descs(), desc@, id@),
            final(self).descs().contains_key(desc@) && final(self).descs()[desc@] == id@,
            old(self).descs().contains_key(desc@) ==> final(self).table() == old(self).table()
                && final(self).count() == old(self).count(),
            !old(self).descs().contains_key(desc@) ==> id@ == old(self).count() && exists|r: V|
                #[trigger] call_ensures(make, (), r) && final(self).table() == old(
                    self,
                ).table().insert(id@, r),
    {
        match self.get_desc(&desc) {
            Some(id) => id,
            None => {
                let resource = make();
                self.push_descriptor(desc, resource)
            },
        }
    }

    /// Like [`GpuResourceDescriptorMap::get_or_create`] for fallible
    /// construction: if `make` fails, the error is propagated and the cache
    /// entry is never written.
    pub fn try_get_or_create<E, F: FnOnce() -> Result<V, E>>(
        &mut self,
        desc: T,
        make: F,
    ) -> (r: Result<Id<<T as GpuResourceDescriptor>::Resource>, E>)
        requires
            old(self).wf(),
            old(self).count() < u64::MAX,
            call_requires(make, ()),
        ensures
            final(self).wf(),
            match r {
                Ok(id) => {
                    &&& get_or_create_post(old(self).descs(), final(self).descs(), desc@, id@)
                    &&& final(self).descs().contains_key(desc@) && final(self).descs()[desc@]
                        == id@
                    &&& old(self).descs().contains_key(desc@) ==> final(self).table() == old(
                        self,
                    ).table() && final(self).count() == old(self).count()
                    &&& !old(self).descs().contains_key(desc@) ==> id@ == old(self).count()
                        && exists|v: V|
                        #[trigger] call_ensures(make, (), Ok::<V, E>(v)) && final(self).table()
                            == old(self).table().insert(id@, v)
                },
                Err(e) => {
                    &&& !old(self).descs().contains_key(desc@)
                    &&& call_ensures(make, (), Err::<V, E>(e))
                    &&& final(self).descs() == old(self).descs()
                    &&& final(self).table() == old(self).table()
                    &&& final(self).count() == old(self).count()
                },
            },
    {
        match self.get_desc(&desc) {
            Some(id) => Ok(id),
            None => {
                match make() {
                    Ok(resource) => Ok(self.push_descriptor(desc, resource)),
                    Err(e) => Err(e),
                }
            },
        }
    }
}

impl<T: GpuResourceDescriptor, V> Default for GpuResourceDescriptorMap<T, V> {
    fn default() -> (r: Self)
        ensures
            r.wf(),
            r.descs() == Map::<<T as View>::V, u64>::empty(),
            r.table() == Map::<u64, V>::empty(),
            r.count() == 0,
    {
        GpuResourceDescriptorMap { map: GpuResourceMap::default(), descriptors: Vec::new() }
    }
}

/// What one [`GpuResourceDescriptorMap::get_or_create`] call does to the
/// descriptor-to-handle mapping: the key is bound to the returned handle,
/// and nothing else changes.
pub open spec fn get_or_create_post<K>(pre: Map<K, u64>, post: Map<K, u64>, key: K, id: u64) -> bool {
    &&& post.contains_key(key) && post[key] == id
    &&& pre.contains_key(key) ==> post == pre && id == pre[key]
    &&& !pre.contains_key(key) ==> post == pre.insert(key, id)
}

/// Deduplication: for two cache lookups with structurally equal
/// descriptors, the second returns the very handle the first did and leaves
/// the mapping unchanged, so construction ran at most once between them.
pub proof fn lemma_get_or_create_dedup<K>(
    m0: Map<K, u64>,
    m1: Map<K, u64>,
    m2: Map<K, u64>,
    k1: K,
    k2: K,
    id1: u64,
    id2: u64,
)
    requires
        k1 == k2,
        get_or_create_post(m0, m1, k1, id1),
        get_or_create_post(m1, m2, k2, id2),
    ensures
        id2 == id1,
        m2 == m1,
{
}

/// Distinct descriptor values are never bound to the same handle.
pub proof fn lemma_distinct_descriptors_distinct_handles<T: GpuResourceDescriptor, V>(
    m: GpuResourceDescriptorMap<T, V>,
    k1: <T as View>::V,
    k2: <T as View>::V,
)
    requires
        m.wf(),
        m.descs().contains_key(k1),
        m.descs().contains_key(k2),
        k1 != k2,
    ensures
        m.descs()[k1] != m.descs()[k2],
{
    lemma_descs_of_contains::<T>(m.descriptors@, k1);
    lemma_descs_of_contains::<T>(m.descriptors@, k2);
    let i = choose|i: int| 0 <= i < m.descriptors@.len() && m.descriptors@[i].0@ == k1;
    let j = choose|j: int| 0 <= j < m.descriptors@.len() && m.descriptors@[j].0@ == k2;
    lemma_descs_of_index::<T>(m.descriptors@, i);
    lemma_descs_of_index::<T>(m.descriptors@, j);
}

} // verus!
