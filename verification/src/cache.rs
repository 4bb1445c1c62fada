//! A cache of fixed capacity: an array of slots, filled from the front, and
//! once full replaced at the slot that was stored longest ago by the count of
//! hits.

use vstd::prelude::*;
use vstd::std_specs::cmp::PartialEqSpec;
use core::sync::atomic::AtomicUsize;
use core::sync::atomic::Ordering;
use spin::mutex::Mutex;
use spin::mutex::MutexGuard;
use spin::relax::Spin;

verus! {

/// One stored value with its key and the hit count at which it was stored.
#[derive(Clone, Copy)]
pub struct CacheEntry<K, V, const DATA_SIZE: usize> where K: Copy + PartialEq, V: Copy {
    pub key: K,
    pub data: [V; DATA_SIZE],
    pub access_count: usize,
}

/// A cache of `CACHE_SIZE` slots, each holding `DATA_SIZE` values under one
/// key.
pub struct FixedCache<K, V, const CACHE_SIZE: usize, const DATA_SIZE: usize> where
    K: Copy + PartialEq,
    V: Copy,
 {
    entries: [Option<CacheEntry<K, V, DATA_SIZE>>; CACHE_SIZE],
    lru_counter: AtomicUsize,
}

/// The data of the first slot at or after `from` whose key equals `key`.
pub open spec fn lookup_from<K: Copy + PartialEq, V: Copy, const DATA_SIZE: usize>(
    slots: Seq<Option<CacheEntry<K, V, DATA_SIZE>>>,
    key: K,
    from: int,
) -> Option<[V; DATA_SIZE]>
    decreases slots.len() - from,
{
    if from < 0 || from >= slots.len() {
        None
    } else {
        match slots[from] {
            Some(entry) if entry.key.eq_spec(&key) => Some(entry.data),
            _ => lookup_from(slots, key, from + 1),
        }
    }
}

/// The data of the first slot whose key equals `key`.
pub open spec fn lookup<K: Copy + PartialEq, V: Copy, const DATA_SIZE: usize>(
    slots: Seq<Option<CacheEntry<K, V, DATA_SIZE>>>,
    key: K,
) -> Option<[V; DATA_SIZE]> {
    lookup_from(slots, key, 0)
}

/// The first empty slot at or after `from`, or the number of slots if there is
/// none.
pub open spec fn first_empty_from<K: Copy + PartialEq, V: Copy, const DATA_SIZE: usize>(
    slots: Seq<Option<CacheEntry<K, V, DATA_SIZE>>>,
    from: int,
) -> int
    decreases slots.len() - from,
{
    if from < 0 || from >= slots.len() {
        slots.len() as int
    } else if slots[from] is None {
        from
    } else {
        first_empty_from(slots, from + 1)
    }
}

/// Slot `i` is the first of the slots with the lowest hit count, in a cache
/// without an empty slot.
pub open spec fn is_oldest<K: Copy + PartialEq, V: Copy, const DATA_SIZE: usize>(
    slots: Seq<Option<CacheEntry<K, V, DATA_SIZE>>>,
    i: int,
) -> bool {
    &&& 0 <= i < slots.len()
    &&& forall|j: int| 0 <= j < i ==> (#[trigger] slots[j])->0.access_count > slots[i]->0.access_count
    &&& forall|j: int|
        i <= j < slots.len() ==> (#[trigger] slots[j])->0.access_count >= slots[i]->0.access_count
}

/// The slot that an insertion fills: the first empty one, or the oldest where
/// none is empty.
pub open spec fn is_victim<K: Copy + PartialEq, V: Copy, const DATA_SIZE: usize>(
    slots: Seq<Option<CacheEntry<K, V, DATA_SIZE>>>,
    i: int,
) -> bool {
    if first_empty_from(slots, 0) < slots.len() {
        i == first_empty_from(slots, 0)
    } else {
        is_oldest(slots, i)
    }
}

/// `after` is `before` with `data` stored under `key` in slot `i`, and the
/// other slots as they were.
pub open spec fn stores_at<K: Copy + PartialEq, V: Copy, const DATA_SIZE: usize>(
    before: Seq<Option<CacheEntry<K, V, DATA_SIZE>>>,
    after: Seq<Option<CacheEntry<K, V, DATA_SIZE>>>,
    i: int,
    key: K,
    data: [V; DATA_SIZE],
) -> bool {
    &&& 0 <= i < before.len()
    &&& after.len() == before.len()
    &&& after[i] is Some
    &&& after[i]->0.key == key
    &&& after[i]->0.data == data
    &&& forall|j: int| 0 <= j < before.len() && j != i ==> after[j] == before[j]
}

/// The number of filled slots among the first `n`.
pub open spec fn filled_upto<K: Copy + PartialEq, V: Copy, const DATA_SIZE: usize>(
    slots: Seq<Option<CacheEntry<K, V, DATA_SIZE>>>,
    n: int,
) -> nat
    decreases n,
{
    if n <= 0 {
        0
    } else {
        filled_upto(slots, n - 1) + if slots[n - 1] is Some {
            1nat
        } else {
            0nat
        }
    }
}

/// After a key that was not in the cache has been stored in some slot, looking
/// it up finds the data stored; this holds for a key that equals itself.
pub proof fn lemma_stored_is_found<K: Copy + PartialEq, V: Copy, const DATA_SIZE: usize>(
    before: Seq<Option<CacheEntry<K, V, DATA_SIZE>>>,
    after: Seq<Option<CacheEntry<K, V, DATA_SIZE>>>,
    i: int,
    key: K,
    data: [V; DATA_SIZE],
)
    requires
        stores_at(before, after, i, key, data),
        lookup(before, key) is None,
        key.eq_spec(&key),
    ensures
        lookup(after, key) == Some(data),
{
    lemma_stored_is_found_from(before, after, i, key, data, 0);
}

proof fn lemma_stored_is_found_from<K: Copy + PartialEq, V: Copy, const DATA_SIZE: usize>(
    before: Seq<Option<CacheEntry<K, V, DATA_SIZE>>>,
    after: Seq<Option<CacheEntry<K, V, DATA_SIZE>>>,
    i: int,
    key: K,
    data: [V; DATA_SIZE],
    from: int,
)
    requires
        stores_at(before, after, i, key, data),
        0 <= from <= i,
        lookup_from(before, key, from) is None,
        key.eq_spec(&key),
    ensures
        lookup_from(after, key, from) == Some(data),
    decreases i - from,
{
    if from < i {
        lemma_stored_is_found_from(before, after, i, key, data, from + 1);
    }
}

/// Storing under one key leaves what is found under a key that differs from
/// it, where equality of keys is symmetric for the two.
pub proof fn lemma_stored_keeps_others<K: Copy + PartialEq, V: Copy, const DATA_SIZE: usize>(
    before: Seq<Option<CacheEntry<K, V, DATA_SIZE>>>,
    after: Seq<Option<CacheEntry<K, V, DATA_SIZE>>>,
    i: int,
    key: K,
    data: [V; DATA_SIZE],
    other: K,
)
    requires
        stores_at(before, after, i, key, data),
        before[i] is None,
        !key.eq_spec(&other),
    ensures
        lookup(after, other) == lookup(before, other),
{
    lemma_stored_keeps_others_from(before, after, i, key, data, other, 0);
}

proof fn lemma_stored_keeps_others_from<K: Copy + PartialEq, V: Copy, const DATA_SIZE: usize>(
    before: Seq<Option<CacheEntry<K, V, DATA_SIZE>>>,
    after: Seq<Option<CacheEntry<K, V, DATA_SIZE>>>,
    i: int,
    key: K,
    data: [V; DATA_SIZE],
    other: K,
    from: int,
)
    requires
        stores_at(before, after, i, key, data),
        before[i] is None,
        !key.eq_spec(&other),
        0 <= from,
    ensures
        lookup_from(after, other, from) == lookup_from(before, other, from),
    decreases before.len() - from,
{
    if from < before.len() {
        lemma_stored_keeps_others_from(before, after, i, key, data, other, from + 1);
    }
}

impl<K, V, const CACHE_SIZE: usize, const DATA_SIZE: usize> FixedCache<
    K,
    V,
    CACHE_SIZE,
    DATA_SIZE,
> where K: Copy + PartialEq, V: Copy {
    /// The slots of the cache, in order.
    pub closed spec fn view(&self) -> Seq<Option<CacheEntry<K, V, DATA_SIZE>>> {
        self.entries@
    }

    /// A cache has as many slots as its size says.
    pub proof fn lemma_size(&self)
        ensures
            self@.len() == CACHE_SIZE,
    {
    }

    /// An empty cache.
    pub fn new() -> (cache: Self)
        ensures
            cache@.len() == CACHE_SIZE,
            forall|i: int| 0 <= i < CACHE_SIZE ==> cache@[i] is None,
    {
        Self { entries: [None;CACHE_SIZE], lru_counter: AtomicUsize::new(0) }
    }

    /// Counts one hit.
    fn count_hit(&self) {
        self.lru_counter.fetch_add(1, Ordering::Relaxed);
    }

    /// The hits counted so far.
    fn hits(&self) -> usize {
        self.lru_counter.load(Ordering::Relaxed)
    }

    /// Starts the hit count again.
    fn reset_hits(&self) {
        self.lru_counter.store(0, Ordering::Relaxed);
    }

    /// The data stored under `key`: that of the first slot whose key equals
    /// it. A hit is counted.
    pub fn get(&self, key: K) -> (found: Option<[V; DATA_SIZE]>)
        requires
            K::obeys_eq_spec(),
        ensures
            found == lookup(self@, key),
    {
        let mut i: usize = 0;
        while i < CACHE_SIZE
            invariant
                K::obeys_eq_spec(),
                i <= CACHE_SIZE,
                self@.len() == CACHE_SIZE,
                lookup(self@, key) == lookup_from(self@, key, i as int),
            decreases CACHE_SIZE - i,
        {
            if let Some(entry) = self.entries[i] {
                if entry.key == key {
                    self.count_hit();
                    return Some(entry.data);
                }
            }
            i = i + 1;
        }
        None
    }

    /// Stores `data` under `key` in the first empty slot, or over the oldest
    /// entry where no slot is empty. The other slots stay as they are; an entry
    /// already stored under an equal key is not looked for.
    pub fn insert(&mut self, key: K, data: [V; DATA_SIZE])
        requires
            CACHE_SIZE > 0,
        ensures
            final(self)@.len() == CACHE_SIZE,
            exists|i: int|
                is_victim(old(self)@, i) && #[trigger] stores_at(
                    old(self)@,
                    final(self)@,
                    i,
                    key,
                    data,
                ),
    {
        let new_entry = CacheEntry { key, data, access_count: self.hits() };
        let mut replace_index: usize = 0;
        let mut oldest_access: usize = usize::MAX;
        let mut i: usize = 0;
        while i < CACHE_SIZE
            invariant
                CACHE_SIZE > 0,
                i <= CACHE_SIZE,
                self@.len() == CACHE_SIZE,
                self@ == old(self)@,
                new_entry.key == key,
                new_entry.data == data,
                first_empty_from(self@, 0) == first_empty_from(self@, i as int),
                forall|j: int| 0 <= j < i ==> self@[j] is Some,
                replace_index < CACHE_SIZE,
                i > 0 ==> replace_index < i,
                i == 0 ==> replace_index == 0,
                i > 0 ==> oldest_access <= self@[replace_index as int]->0.access_count,
                oldest_access < usize::MAX ==> oldest_access == self@[replace_index
                    as int]->0.access_count,
                oldest_access == usize::MAX ==> replace_index == 0,
                forall|j: int|
                    0 <= j < replace_index ==> (#[trigger] self@[j])->0.access_count
                        > oldest_access || (oldest_access == usize::MAX && replace_index == 0),
                forall|j: int| 0 <= j < i ==> (#[trigger] self@[j])->0.access_count >= oldest_access,
            decreases CACHE_SIZE - i,
        {
            match self.entries[i] {
                None => {
                    self.entries[i] = Some(new_entry);
                    assert(is_victim(old(self)@, i as int));
                    assert(stores_at(old(self)@, self@, i as int, key, data));
                    return ;
                },
                Some(entry) => {
                    if entry.access_count < oldest_access {
                        oldest_access = entry.access_count;
                        replace_index = i;
                    }
                },
            }
            i = i + 1;
        }
        assert(is_oldest(old(self)@, replace_index as int));
        self.entries[replace_index] = Some(new_entry);
        assert(stores_at(old(self)@, self@, replace_index as int, key, data));
    }

    /// Empties every slot and starts the hit count again.
    pub fn clear(&mut self)
        ensures
            final(self)@.len() == CACHE_SIZE,
            forall|i: int| 0 <= i < CACHE_SIZE ==> final(self)@[i] is None,
    {
        self.entries = [None;CACHE_SIZE];
        self.reset_hits();
    }

    /// The number of filled slots.
    pub fn len(&self) -> (n: usize)
        ensures
            n == filled_upto(self@, CACHE_SIZE as int),
            n <= CACHE_SIZE,
    {
        let mut n: usize = 0;
        let mut i: usize = 0;
        while i < CACHE_SIZE
            invariant
                i <= CACHE_SIZE,
                self@.len() == CACHE_SIZE,
                n == filled_upto(self@, i as int),
                n <= i,
            decreases CACHE_SIZE - i,
        {
            if self.entries[i].is_some() {
                n = n + 1;
            }
            i = i + 1;
        }
        n
    }

    /// Whether no slot is filled.
    pub fn is_empty(&self) -> (empty: bool)
        ensures
            empty == (forall|i: int| 0 <= i < CACHE_SIZE ==> self@[i] is None),
    {
        let mut i: usize = 0;
        while i < CACHE_SIZE
            invariant
                i <= CACHE_SIZE,
                self@.len() == CACHE_SIZE,
                forall|j: int| 0 <= j < i ==> self@[j] is None,
            decreases CACHE_SIZE - i,
        {
            if self.entries[i].is_some() {
                return false;
            }
            i = i + 1;
        }
        true
    }
}

/// The spin lock of the `spin` crate. Nothing is known of what it guards
/// until it is locked.
#[verifier::external_type_specification]
#[verifier::external_body]
#[verifier::reject_recursive_types(T)]
#[verifier::reject_recursive_types(R)]
pub struct ExMutex<T: ?Sized, R>(Mutex<T, R>);

/// The guard that holds a `spin` lock.
#[verifier::external_type_specification]
#[verifier::external_body]
#[verifier::reject_recursive_types(T)]
pub struct ExMutexGuard<'a, T: 'a + ?Sized>(MutexGuard<'a, T>);

/// The busy-waiting strategy of the `spin` crate.
#[verifier::external_type_specification]
#[verifier::external_body]
pub struct ExSpin(Spin);

/// `Mutex::new`: a lock around `value`. What it guards may change whenever
/// the lock is free, so nothing is claimed of it.
#[verifier::external_body]
fn guard_new<T>(value: T) -> Mutex<T, Spin> {
    Mutex::new(value)
}

/// `Mutex::lock`: waits until the lock is free and returns its guard. What the
/// guard holds is whatever the last holder left. A caller that still holds a
/// guard of the same lock would wait for itself: every method below lets its
/// guard go before it returns.
#[verifier::external_body]
fn guard_lock<'a, T>(lock: &'a Mutex<T, Spin>) -> MutexGuard<'a, T> {
    lock.lock()
}

/// The guard's `Deref`: the value under the lock, to read.
#[verifier::external_body]
fn guarded<'a, 'b, T>(guard: &'b MutexGuard<'a, T>) -> &'b T {
    &**guard
}

/// The guard's `DerefMut`: the value under the lock, to change.
#[verifier::external_body]
fn guarded_mut<'a, 'b, T>(guard: &'b mut MutexGuard<'a, T>) -> &'b mut T {
    &mut **guard
}

/// A `FixedCache` behind a spin lock, for callers that share it. Between two
/// calls another caller may change the cache, so a call says nothing of what
/// an earlier one stored.
#[verifier::reject_recursive_types(K)]
#[verifier::reject_recursive_types(V)]
#[verifier::reject_recursive_types(CACHE_SIZE)]
#[verifier::reject_recursive_types(DATA_SIZE)]
pub struct ThreadSafeCache<K, V, const CACHE_SIZE: usize, const DATA_SIZE: usize> where
    K: Copy + PartialEq,
    V: Copy,
 {
    cache: Mutex<FixedCache<K, V, CACHE_SIZE, DATA_SIZE>, Spin>,
}

/// Whether `found` is what looking `key` up gives in some cache of `size`
/// slots. A shared cache is read as it is when the lock is taken, and what it
/// holds then is not known beforehand: this is what a lookup in it comes to
/// all the same. In a cache without slots nothing is found.
pub open spec fn found_in_some_cache<K: Copy + PartialEq, V: Copy, const DATA_SIZE: usize>(
    size: nat,
    key: K,
    found: Option<[V; DATA_SIZE]>,
) -> bool {
    exists|slots: Seq<Option<CacheEntry<K, V, DATA_SIZE>>>|
        slots.len() == size && #[trigger] lookup(slots, key) == found
}

/// Whether no slot of `slots` is filled.
pub open spec fn no_slot_filled<K: Copy + PartialEq, V: Copy, const DATA_SIZE: usize>(
    slots: Seq<Option<CacheEntry<K, V, DATA_SIZE>>>,
) -> bool {
    forall|i: int| 0 <= i < slots.len() ==> slots[i] is None
}

/// What a lookup comes to: the data found, or on a miss the data that
/// `compute_fn` gives, which is then to be stored. The computation runs on a
/// miss only, and once.
pub fn found_or_computed<V: Copy, F: FnOnce() -> [V; DATA_SIZE], const DATA_SIZE: usize>(
    found: Option<[V; DATA_SIZE]>,
    compute_fn: F,
) -> (settled: ([V; DATA_SIZE], bool))
    requires
        found is None ==> compute_fn.requires(()),
    ensures
        found is Some ==> settled == (found->0, false),
        found is None ==> settled.1 && compute_fn.ensures((), settled.0),
{
    match found {
        Some(data) => (data, false),
        None => (compute_fn(), true),
    }
}

impl<K, V, const CACHE_SIZE: usize, const DATA_SIZE: usize> ThreadSafeCache<
    K,
    V,
    CACHE_SIZE,
    DATA_SIZE,
> where K: Copy + PartialEq, V: Copy {
    /// An empty shared cache.
    pub fn new() -> Self {
        Self { cache: guard_new(FixedCache::new()) }
    }

    /// The data stored under `key`, if any, read under the lock: what looking
    /// the key up gives in the cache as it is then.
    pub fn get(&self, key: K) -> (found: Option<[V; DATA_SIZE]>)
        requires
            K::obeys_eq_spec(),
        ensures
            found_in_some_cache(CACHE_SIZE as nat, key, found),
    {
        let guard = guard_lock(&self.cache);
        let cache = guarded(&guard);
        proof {
            cache.lemma_size();
        }
        let found = cache.get(key);
        assert(lookup(cache@, key) == found);
        found
    }

    /// Stores `data` under `key`, under the lock.
    pub fn insert(&self, key: K, data: [V; DATA_SIZE])
        requires
            CACHE_SIZE > 0,
    {
        let mut guard = guard_lock(&self.cache);
        guarded_mut(&mut guard).insert(key, data);
    }

    /// The data stored under `key`; on a miss, what `compute_fn` gives, which
    /// is stored before it is returned. The computation runs outside the lock.
    /// What is found is what the cache holds when it is read.
    pub fn get_or_compute<F: FnOnce() -> [V; DATA_SIZE]>(&self, key: K, compute_fn: F) -> (data:
        [V; DATA_SIZE])
        requires
            K::obeys_eq_spec(),
            CACHE_SIZE > 0,
            compute_fn.requires(()),
        ensures
            exists|found: Option<[V; DATA_SIZE]>|
                {
                    &&& #[trigger] found_in_some_cache(CACHE_SIZE as nat, key, found)
                    &&& found is Some ==> data == found->0
                    &&& found is None ==> compute_fn.ensures((), data)
                },
    {
        let found = self.get(key);
        let (data, computed) = found_or_computed(found, compute_fn);
        if computed {
            self.insert(key, data);
        }
        data
    }

    /// Empties the cache, under the lock.
    pub fn clear(&self) {
        let mut guard = guard_lock(&self.cache);
        guarded_mut(&mut guard).clear();
    }

    /// The number of filled slots at the time of the call.
    pub fn len(&self) -> (n: usize)
        ensures
            n <= CACHE_SIZE,
    {
        let guard = guard_lock(&self.cache);
        guarded(&guard).len()
    }

    /// Whether no slot was filled at the time of the call: the answer for the
    /// cache as it is then, so that a cache without slots is always empty.
    pub fn is_empty(&self) -> (empty: bool)
        ensures
            exists|slots: Seq<Option<CacheEntry<K, V, DATA_SIZE>>>|
                slots.len() == CACHE_SIZE && empty == #[trigger] no_slot_filled(slots),
    {
        let guard = guard_lock(&self.cache);
        let cache = guarded(&guard);
        proof {
            cache.lemma_size();
        }
        let empty = cache.is_empty();
        assert(empty == no_slot_filled(cache@));
        empty
    }
}

} // verus!
