//! A bounded map with strict least-recently-used eviction.
//!
//! The cache is modelled by the sequence of its entries, least recently used
//! first. A lookup that hits and an insertion are both uses: they move the
//! entry to the most recently used end. Whenever the cache holds more entries
//! than its bound, entries leave from the least recently used end.

use std::sync::Arc;
use vstd::prelude::*;

verus! {

/// A key of a cache: a value that can be compared and copied, identified in
/// contracts by its view.
pub trait CacheKey: View + Sized {
    /// Whether two keys are the same key.
    fn same_key(&self, other: &Self) -> (same: bool)
        ensures
            same == (self@ == other@),
    ;

    /// A copy of the key.
    fn copy_key(&self) -> (copy: Self)
        ensures
            copy@ == self@,
    ;
}

/// Whether some entry of `entries` has the key `key`.
pub open spec fn has_key<I, V>(entries: Seq<(I, V)>, key: I) -> bool {
    exists|i: int| 0 <= i < entries.len() && (#[trigger] entries[i]).0 == key
}

/// The index of an entry with the key `key`, where there is one.
pub open spec fn position_of<I, V>(entries: Seq<(I, V)>, key: I) -> int {
    choose|i: int| 0 <= i < entries.len() && (#[trigger] entries[i]).0 == key
}

/// No two entries share a key.
pub open spec fn distinct_keys<I, V>(entries: Seq<(I, V)>) -> bool {
    forall|i: int, j: int|
        0 <= i < entries.len() && 0 <= j < entries.len() && i != j ==> (#[trigger] entries[i]).0
            != (#[trigger] entries[j]).0
}

/// The entries without the one that has the key `key`.
pub open spec fn without_key<I, V>(entries: Seq<(I, V)>, key: I) -> Seq<(I, V)> {
    if has_key(entries, key) {
        entries.remove(position_of(entries, key))
    } else {
        entries
    }
}

/// The entries after a use of `key`: its entry, if there is one, has moved to
/// the most recently used end.
pub open spec fn touched<I, V>(entries: Seq<(I, V)>, key: I) -> Seq<(I, V)> {
    if has_key(entries, key) {
        without_key(entries, key).push(entries[position_of(entries, key)])
    } else {
        entries
    }
}

/// The `bound` most recently used entries.
pub open spec fn keep_recent<I, V>(entries: Seq<(I, V)>, bound: nat) -> Seq<(I, V)> {
    if entries.len() > bound {
        entries.skip(entries.len() - bound)
    } else {
        entries
    }
}

/// The entries after `value` was stored under `key` in a cache bounded by
/// `bound`: any earlier entry of the key is gone, the new one is the most
/// recently used, and the least recently used entries beyond the bound have
/// left.
pub open spec fn stored<I, V>(entries: Seq<(I, V)>, key: I, value: V, bound: nat) -> Seq<(I, V)> {
    keep_recent(without_key(entries, key).push((key, value)), bound)
}

/// What one `get_or_create` does to the entries: a hit moves the entry of
/// the key to the most recently used end; a miss stores `value`, the value
/// that was created, there and evicts down to the bound.
pub open spec fn used<I, V>(entries: Seq<(I, V)>, key: I, value: V, bound: nat) -> Seq<(I, V)> {
    if has_key(entries, key) {
        touched(entries, key)
    } else {
        stored(entries, key, value, bound)
    }
}

/// The entries after a sequence of uses, each a key and the value that is
/// created if the key is missing.
pub open spec fn replayed<I, V>(entries: Seq<(I, V)>, uses: Seq<(I, V)>, bound: nat) -> Seq<(I, V)>
    decreases uses.len(),
{
    if uses.len() == 0 {
        entries
    } else {
        used(replayed(entries, uses.drop_last(), bound), uses.last().0, uses.last().1, bound)
    }
}

/// Whether `after` is what a cache holds after its keys were used as `keys`
/// says, in order, starting from `before`: each key found or, where it was
/// missing, stored with some value.
pub open spec fn follows<I, V>(before: Seq<(I, V)>, after: Seq<(I, V)>, keys: Seq<I>, bound: nat) -> bool {
    exists|uses: Seq<(I, V)>| keys_of(uses) == keys && after == #[trigger] replayed(before, uses, bound)
}

/// The value under `key`, where there is one.
pub open spec fn value_of<I, V>(entries: Seq<(I, V)>, key: I) -> V {
    entries[position_of(entries, key)].1
}

/// The entries as a map from key to value.
pub open spec fn as_map<I, V>(entries: Seq<(I, V)>) -> Map<I, V> {
    Map::new(|key: I| has_key(entries, key), |key: I| value_of(entries, key))
}

/// The keys of the entries, least recently used first.
pub open spec fn keys_of<I, V>(entries: Seq<(I, V)>) -> Seq<I> {
    Seq::new(entries.len(), |i: int| entries[i].0)
}

/// One entry of a cache.
struct Entry<K, T> {
    key: K,
    value: Arc<T>,
}

/// A cache of shared values of type `T` under keys of type `K`.
pub struct LruCache<K: CacheKey, T> {
    /// Least recently used first.
    entries: Vec<Entry<K, T>>,
    max_size: usize,
}

impl<K: CacheKey, T> LruCache<K, T> {
    /// The entries, least recently used first, each a key's view and the
    /// value stored under it.
    pub closed spec fn entries(&self) -> Seq<(K::V, Arc<T>)> {
        Seq::new(self.entries@.len(), |i: int| (self.entries@[i].key@, self.entries@[i].value))
    }

    /// The bound on the number of entries.
    pub closed spec fn bound(&self) -> nat {
        self.max_size as nat
    }

    /// The cache holds no key twice and no more entries than its bound.
    pub open spec fn wf(&self) -> bool {
        &&& distinct_keys(self.entries())
        &&& self.entries().len() <= self.bound()
    }

    /// An empty cache that holds at most `max_size` entries.
    pub fn new(max_size: usize) -> (cache: Self)
        ensures
            cache.wf(),
            cache.entries() == Seq::<(K::V, Arc<T>)>::empty(),
            cache.bound() == max_size,
    {
        let cache = LruCache { entries: Vec::new(), max_size };
        assert(cache.entries() =~= Seq::<(K::V, Arc<T>)>::empty());
        cache
    }

    /// The bound on the number of entries.
    pub fn max_size(&self) -> (size: usize)
        ensures
            size == self.bound(),
    {
        self.max_size
    }

    /// The number of entries.
    pub fn len(&self) -> (len: usize)
        ensures
            len == self.entries().len(),
    {
        self.entries.len()
    }

    /// The index of the entry of `key`, if the cache has one.
    fn find(&self, key: &K) -> (found: Option<usize>)
        requires
            self.wf(),
        ensures
            match found {
                Some(i) => has_key(self.entries(), key@) && i == position_of(
                    self.entries(),
                    key@,
                ) && i < self.entries().len(),
                None => !has_key(self.entries(), key@),
            },
    {
        let mut i: usize = 0;
        while i < self.entries.len()
            invariant
                self.wf(),
                i <= self.entries@.len(),
                self.entries().len() == self.entries@.len(),
                forall|j: int| 0 <= j < i ==> (#[trigger] self.entries()[j]).0 != key@,
            decreases self.entries.len() - i,
        {
            if self.entries[i].key.same_key(key) {
                proof {
                    let entries = self.entries();
                    assert(entries[i as int].0 == key@);
                    let p = position_of(entries, key@);
                    assert(0 <= p < entries.len() && entries[p].0 == key@);
                }
                return Some(i);
            }
            i = i + 1;
        }
        None
    }

    /// Whether the cache holds `key`. This is no use of the key.
    pub fn contains(&self, key: &K) -> (held: bool)
        requires
            self.wf(),
        ensures
            held == has_key(self.entries(), key@),
    {
        self.find(key).is_some()
    }

    /// Copies of the keys, least recently used first. This is no use of any
    /// key.
    pub fn keys(&self) -> (keys: Vec<K>)
        ensures
            keys@.len() == self.entries().len(),
            forall|i: int| 0 <= i < keys@.len() ==> (#[trigger] keys@[i])@ == self.entries()[i].0,
    {
        let mut keys: Vec<K> = Vec::with_capacity(self.entries.len());
        let mut i: usize = 0;
        while i < self.entries.len()
            invariant
                i <= self.entries@.len(),
                keys@.len() == i,
                self.entries().len() == self.entries@.len(),
                forall|j: int| 0 <= j < i ==> (#[trigger] keys@[j])@ == self.entries()[j].0,
            decreases self.entries@.len() - i,
        {
            keys.push(self.entries[i].key.copy_key());
            i = i + 1;
        }
        keys
    }

    /// Drops least recently used entries until the cache is within its bound.
    fn evict(&mut self)
        requires
            distinct_keys(old(self).entries()),
        ensures
            final(self).wf(),
            final(self).bound() == old(self).bound(),
            final(self).entries() == keep_recent(old(self).entries(), old(self).bound()),
    {
        while self.entries.len() > self.max_size
            invariant
                self.max_size == old(self).max_size,
                self.entries@.len() <= old(self).entries@.len(),
                self.entries@ == old(self).entries@.skip(
                    old(self).entries@.len() - self.entries@.len(),
                ),
                self.entries@.len() >= old(self).bound() || self.entries@.len() == old(
                    self,
                ).entries@.len(),
            decreases self.entries@.len(),
        {
            let ghost before = self.entries@;
            self.entries.remove(0);
            assert(self.entries@ =~= before.skip(1));
            assert(before.skip(1) =~= old(self).entries@.skip(
                old(self).entries@.len() - self.entries@.len(),
            ));
        }
        assert(self.entries() =~= keep_recent(old(self).entries(), old(self).bound()));
    }

    /// Sets the bound, and drops least recently used entries down to it.
    pub fn set_max_size(&mut self, size: usize)
        requires
            old(self).wf(),
        ensures
            final(self).wf(),
            final(self).bound() == size,
            final(self).entries() == keep_recent(old(self).entries(), size as nat),
    {
        self.max_size = size;
        self.evict();
    }

    /// Looks `key` up. A hit is a use: the entry becomes the most recently
    /// used one, and its value is returned. A miss changes nothing.
    pub fn lookup(&mut self, key: &K) -> (hit: Option<Arc<T>>)
        requires
            old(self).wf(),
        ensures
            final(self).wf(),
            final(self).bound() == old(self).bound(),
            final(self).entries() == touched(old(self).entries(), key@),
            hit.is_some() == has_key(old(self).entries(), key@),
            hit.is_some() ==> hit.unwrap() == value_of(old(self).entries(), key@),
    {
        match self.find(key) {
            Some(i) => {
                let ghost before = self.entries();
                let entry = self.entries.remove(i);
                let value = entry.value.clone();
                self.entries.push(entry);
                assert(self.entries() =~= before.remove(i as int).push(before[i as int]));
                proof {
                    lemma_touched_keeps_distinct(before, key@);
                }
                Some(value)
            },
            None => None,
        }
    }

    /// The value under `key`; where there is none, the value that `factory`
    /// makes, stored as the most recently used entry.
    ///
    /// This is one use of the key, as `used` says. On a hit the factory is
    /// not called. On a miss it is called once; if it fails, its error comes
    /// back and the cache is as it was.
    pub fn get_or_create<E, F: FnOnce() -> Result<T, E>>(&mut self, key: &K, factory: F) -> (found:
        Result<Arc<T>, E>)
        requires
            old(self).wf(),
            factory.requires(()),
        ensures
            final(self).wf(),
            final(self).bound() == old(self).bound(),
            match found {
                Ok(value) => {
                    &&& final(self).entries() == used(
                        old(self).entries(),
                        key@,
                        value,
                        old(self).bound(),
                    )
                    &&& has_key(old(self).entries(), key@) ==> value == value_of(
                        old(self).entries(),
                        key@,
                    )
                    &&& !has_key(old(self).entries(), key@) ==> factory.ensures(
                        (),
                        Ok::<T, E>(*value),
                    )
                },
                Err(error) => {
                    &&& !has_key(old(self).entries(), key@)
                    &&& final(self).entries() == old(self).entries()
                    &&& factory.ensures((), Err::<T, E>(error))
                },
            },
    {
        match self.lookup(key) {
            Some(value) => Ok(value),
            None => {
                match factory() {
                    Ok(made) => {
                        let value = Arc::new(made);
                        self.insert(key.copy_key(), Arc::clone(&value));
                        Ok(value)
                    },
                    Err(error) => Err(error),
                }
            },
        }
    }

    /// Stores `value` under `key` as the most recently used entry, in place of
    /// any entry the key had, and evicts down to the bound.
    pub fn insert(&mut self, key: K, value: Arc<T>)
        requires
            old(self).wf(),
        ensures
            final(self).wf(),
            final(self).bound() == old(self).bound(),
            final(self).entries() == stored(
                old(self).entries(),
                key@,
                value,
                old(self).bound(),
            ),
    {
        let ghost before = self.entries();
        match self.find(&key) {
            Some(i) => {
                self.entries.remove(i);
                assert(self.entries() =~= before.remove(i as int));
            },
            None => {},
        }
        let ghost rest = self.entries();
        assert(rest == without_key(before, key@));
        proof {
            lemma_without_key_has_none(before, key@);
        }
        self.entries.push(Entry { key, value });
        assert(self.entries() =~= rest.push((key@, value)));
        self.evict();
    }
}

/// Whether every entry is one that `good` holds of.
pub open spec fn all_entries<I, V>(entries: Seq<(I, V)>, good: spec_fn((I, V)) -> bool) -> bool {
    forall|i: int| 0 <= i < entries.len() ==> good(#[trigger] entries[i])
}

/// A use brings no entry into a cache but the one of its key and value: what
/// holds of every entry before and of that one holds of every entry after.
pub proof fn lemma_used_keeps<I, V>(
    before: Seq<(I, V)>,
    key: I,
    value: V,
    bound: nat,
    good: spec_fn((I, V)) -> bool,
)
    requires
        all_entries(before, good),
        good((key, value)),
    ensures
        all_entries(used(before, key, value, bound), good),
        has_key(before, key) ==> good((key, value_of(before, key))),
{
    let after = used(before, key, value, bound);
    if has_key(before, key) {
        let p = position_of(before, key);
        assert(0 <= p < before.len() && before[p].0 == key);
        assert(before[p] == (key, value_of(before, key)));
        assert forall|i: int| 0 <= i < after.len() implies good(#[trigger] after[i]) by {
            if i == after.len() - 1 {
                assert(after[i] == before[p]);
            } else if i < p {
                assert(after[i] == before[i]);
            } else {
                assert(after[i] == before[i + 1]);
            }
        }
    } else {
        let pushed = before.push((key, value));
        assert(without_key(before, key) == before);
        let dropped = if pushed.len() > bound {
            pushed.len() - bound
        } else {
            0
        };
        assert(after =~= pushed.skip(dropped));
        assert forall|i: int| 0 <= i < after.len() implies good(#[trigger] after[i]) by {
            let j = i + dropped;
            assert(after[i] == pushed[j]);
            if j < before.len() {
                assert(pushed[j] == before[j]);
            }
        }
    }
}

/// Eviction brings no entry into a cache.
pub proof fn lemma_keep_recent_keeps<I, V>(
    before: Seq<(I, V)>,
    bound: nat,
    good: spec_fn((I, V)) -> bool,
)
    requires
        all_entries(before, good),
    ensures
        all_entries(keep_recent(before, bound), good),
{
    let after = keep_recent(before, bound);
    if before.len() > bound {
        let dropped = before.len() - bound;
        assert forall|i: int| 0 <= i < after.len() implies good(#[trigger] after[i]) by {
            assert(after[i] == before[i + dropped]);
        }
    }
}

/// No use leaves a cache as it is.
pub proof fn lemma_follows_nothing<I, V>(entries: Seq<(I, V)>, bound: nat)
    ensures
        follows(entries, entries, Seq::<I>::empty(), bound),
{
    let uses = Seq::<(I, V)>::empty();
    assert(keys_of(uses) =~= Seq::<I>::empty());
    assert(entries == replayed(entries, uses, bound));
}

/// One use is a sequence of one use.
pub proof fn lemma_follows_one<I, V>(before: Seq<(I, V)>, key: I, value: V, bound: nat)
    ensures
        follows(before, used(before, key, value, bound), seq![key], bound),
{
    let uses = seq![(key, value)];
    assert(uses.drop_last() =~= Seq::<(I, V)>::empty());
    assert(replayed(before, uses.drop_last(), bound) == before);
    assert(keys_of(uses) =~= seq![key]);
    assert(used(before, key, value, bound) == replayed(before, uses, bound));
}

/// Uses after uses are the uses in a row.
pub proof fn lemma_replayed_in_a_row<I, V>(
    entries: Seq<(I, V)>,
    first: Seq<(I, V)>,
    second: Seq<(I, V)>,
    bound: nat,
)
    ensures
        replayed(entries, first + second, bound) == replayed(
            replayed(entries, first, bound),
            second,
            bound,
        ),
    decreases second.len(),
{
    if second.len() == 0 {
        assert(first + second =~= first);
    } else {
        let all = first + second;
        assert(all.drop_last() =~= first + second.drop_last());
        assert(all.last() == second.last());
        lemma_replayed_in_a_row(entries, first, second.drop_last(), bound);
    }
}

/// What follows what follows, follows: the keys used first, then the keys used
/// second.
pub proof fn lemma_follows_in_a_row<I, V>(
    before: Seq<(I, V)>,
    between: Seq<(I, V)>,
    after: Seq<(I, V)>,
    first: Seq<I>,
    second: Seq<I>,
    bound: nat,
)
    requires
        follows(before, between, first, bound),
        follows(between, after, second, bound),
    ensures
        follows(before, after, first + second, bound),
{
    let one = choose|uses: Seq<(I, V)>|
        keys_of(uses) == first && between == #[trigger] replayed(before, uses, bound);
    let two = choose|uses: Seq<(I, V)>|
        keys_of(uses) == second && after == #[trigger] replayed(between, uses, bound);
    lemma_replayed_in_a_row(before, one, two, bound);
    assert(keys_of(one + two) =~= first + second);
    assert(after == replayed(before, one + two, bound));
}

/// Removing a key's entry leaves the other entries distinct, and none of them
/// has the key.
pub proof fn lemma_without_key_has_none<I, V>(entries: Seq<(I, V)>, key: I)
    requires
        distinct_keys(entries),
    ensures
        distinct_keys(without_key(entries, key)),
        !has_key(without_key(entries, key), key),
        distinct_keys(without_key(entries, key).push((key, arbitrary::<V>()))),
        forall|value: V| distinct_keys(#[trigger] without_key(entries, key).push((key, value))),
{
    let rest = without_key(entries, key);
    if has_key(entries, key) {
        let p = position_of(entries, key);
        assert forall|i: int| 0 <= i < rest.len() implies (#[trigger] rest[i]).0 != key by {
            if i < p {
                assert(rest[i] == entries[i]);
            } else {
                assert(rest[i] == entries[i + 1]);
            }
        }
        assert forall|i: int, j: int|
            0 <= i < rest.len() && 0 <= j < rest.len() && i != j implies (#[trigger] rest[i]).0
            != (#[trigger] rest[j]).0 by {
            let si = if i < p {
                i
            } else {
                i + 1
            };
            let sj = if j < p {
                j
            } else {
                j + 1
            };
            assert(rest[i] == entries[si]);
            assert(rest[j] == entries[sj]);
        }
    }
    assert forall|value: V| distinct_keys(#[trigger] rest.push((key, value))) by {
        let pushed = rest.push((key, value));
        assert forall|i: int, j: int|
            0 <= i < pushed.len() && 0 <= j < pushed.len() && i != j implies (
        #[trigger] pushed[i]).0 != (#[trigger] pushed[j]).0 by {
            if i < rest.len() {
                assert(pushed[i] == rest[i]);
            }
            if j < rest.len() {
                assert(pushed[j] == rest[j]);
            }
        }
    }
}

/// A use of a key keeps the entries distinct and their number.
pub proof fn lemma_touched_keeps_distinct<I, V>(entries: Seq<(I, V)>, key: I)
    requires
        distinct_keys(entries),
    ensures
        distinct_keys(touched(entries, key)),
        touched(entries, key).len() == entries.len(),
{
    if has_key(entries, key) {
        lemma_without_key_has_none(entries, key);
        let p = position_of(entries, key);
        let moved = entries[p];
        assert(moved.0 == key);
        assert(touched(entries, key) == without_key(entries, key).push((key, moved.1)));
    }
}

/// Keeping the most recent entries keeps them distinct.
pub proof fn lemma_keep_recent_distinct<I, V>(entries: Seq<(I, V)>, bound: nat)
    requires
        distinct_keys(entries),
    ensures
        distinct_keys(keep_recent(entries, bound)),
        keep_recent(entries, bound).len() <= bound,
        keep_recent(entries, bound).len() <= entries.len(),
{
    let kept = keep_recent(entries, bound);
    if entries.len() > bound {
        let d = entries.len() - bound;
        assert forall|i: int, j: int|
            0 <= i < kept.len() && 0 <= j < kept.len() && i != j implies (#[trigger] kept[i]).0
            != (#[trigger] kept[j]).0 by {
            assert(kept[i] == entries[i + d]);
            assert(kept[j] == entries[j + d]);
        }
    }
}

} // verus!
