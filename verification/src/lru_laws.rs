//! What holds of every cache: the laws of least-recently-used eviction,
//! stated over the entries of a cache and proved from the definitions of
//! `lru_cache`.

use crate::lru_cache::{
    as_map, distinct_keys, follows, has_key, keys_of, position_of, replayed, touched, used,
    value_of, without_key,
};
use vstd::prelude::*;

verus! {

/// The keys that were used more recently than `key`.
pub open spec fn newer_keys<I, V>(entries: Seq<(I, V)>, key: I) -> Set<I> {
    keys_of(entries).skip(position_of(entries, key) + 1).to_set()
}

/// With distinct keys, the entry at an index is the one its key is found at.
pub proof fn lemma_position<I, V>(entries: Seq<(I, V)>, index: int)
    requires
        distinct_keys(entries),
        0 <= index < entries.len(),
    ensures
        has_key(entries, entries[index].0),
        position_of(entries, entries[index].0) == index,
        value_of(entries, entries[index].0) == entries[index].1,
{
    let key = entries[index].0;
    let found = position_of(entries, key);
    assert(0 <= found < entries.len() && entries[found].0 == key);
}

/// Where a key is found lies an entry of that key.
pub proof fn lemma_found<I, V>(entries: Seq<(I, V)>, key: I)
    requires
        has_key(entries, key),
    ensures
        0 <= position_of(entries, key) < entries.len(),
        entries[position_of(entries, key)].0 == key,
{
}

/// The order list is a permutation of the keys of the map: no key stands
/// twice in the order, the keys in the order are the keys of the map, the map
/// has as many keys as the order has entries, which is no more than the
/// bound, and every entry is found in the map under its key.
pub proof fn lemma_order_is_permutation_of_keys<I, V>(entries: Seq<(I, V)>, bound: nat)
    requires
        distinct_keys(entries),
        entries.len() <= bound,
    ensures
        keys_of(entries).no_duplicates(),
        as_map(entries).dom() == keys_of(entries).to_set(),
        as_map(entries).dom().finite(),
        as_map(entries).dom().len() == entries.len(),
        as_map(entries).dom().len() <= bound,
        forall|i: int|
            0 <= i < entries.len() ==> as_map(entries).contains_key((#[trigger] entries[i]).0)
                && as_map(entries)[entries[i].0] == entries[i].1,
{
    let keys = keys_of(entries);
    assert forall|i: int, j: int| 0 <= i < keys.len() && 0 <= j < keys.len() && i != j implies keys[i]
        != keys[j] by {
        assert(keys[i] == entries[i].0 && keys[j] == entries[j].0);
    }
    assert forall|key: I| as_map(entries).dom().contains(key) <==> keys.to_set().contains(key) by {
        if has_key(entries, key) {
            let p = position_of(entries, key);
            assert(keys[p] == key);
        }
        if keys.to_set().contains(key) {
            let i = choose|i: int| 0 <= i < keys.len() && keys[i] == key;
            assert(entries[i].0 == key);
        }
    }
    assert(as_map(entries).dom() =~= keys.to_set());
    vstd::seq_lib::seq_to_set_is_finite(keys);
    keys.unique_seq_to_set();
    assert forall|i: int| 0 <= i < entries.len() implies as_map(entries).contains_key(
        (#[trigger] entries[i]).0,
    ) && as_map(entries)[entries[i].0] == entries[i].1 by {
        lemma_position(entries, i);
    }
}

/// A use leaves a cache a cache: the keys stay distinct and within the
/// bound.
pub proof fn lemma_use_keeps_cache<I, V>(entries: Seq<(I, V)>, key: I, value: V, bound: nat)
    requires
        distinct_keys(entries),
        entries.len() <= bound,
    ensures
        distinct_keys(used(entries, key, value, bound)),
        used(entries, key, value, bound).len() <= bound,
{
    crate::lru_cache::lemma_without_key_has_none(entries, key);
    crate::lru_cache::lemma_touched_keeps_distinct(entries, key);
    crate::lru_cache::lemma_keep_recent_distinct(without_key(entries, key).push((key, value)), bound);
}

/// After a use the key is the most recently used one, under the value it had
/// before or, if it was missing, under the value that was created; and the
/// next lookup of the key is a hit that finds the same value and changes
/// nothing. This needs a cache that can hold an entry at all.
pub proof fn lemma_use_then_hit<I, V>(entries: Seq<(I, V)>, key: I, value: V, bound: nat)
    requires
        distinct_keys(entries),
        entries.len() <= bound,
        bound >= 1,
    ensures
        ({
            let after = used(entries, key, value, bound);
            let held = if has_key(entries, key) {
                value_of(entries, key)
            } else {
                value
            };
            &&& has_key(after, key)
            &&& after.last() == (key, held)
            &&& value_of(after, key) == held
            &&& touched(after, key) == after
        }),
{
    let after = used(entries, key, value, bound);
    lemma_use_keeps_cache(entries, key, value, bound);
    if has_key(entries, key) {
        lemma_found(entries, key);
        let p = position_of(entries, key);
        assert(after == entries.remove(p).push(entries[p]));
    } else {
        let pushed = entries.push((key, value));
        assert(without_key(entries, key) == entries);
        if pushed.len() > bound {
            assert(after == pushed.skip(pushed.len() - bound));
            assert(after.last() == pushed.last());
        }
    }
    let last = after.len() - 1;
    assert(after[last].0 == key);
    lemma_position(after, last);
    assert(touched(after, key) =~= after);
}

/// One use of another key keeps an entry that is recent enough: if the keys
/// used more recently than `kept`, together with the key that is used now,
/// are fewer than the bound, then `kept` is still there afterwards, under the
/// same value, and no key but the one used now has become more recent than
/// it.
pub proof fn lemma_other_use_keeps<I, V>(
    entries: Seq<(I, V)>,
    kept: I,
    key: I,
    value: V,
    bound: nat,
)
    requires
        distinct_keys(entries),
        entries.len() <= bound,
        has_key(entries, kept),
        key != kept,
        newer_keys(entries, kept).insert(key).len() < bound,
    ensures
        has_key(used(entries, key, value, bound), kept),
        value_of(used(entries, key, value, bound), kept) == value_of(entries, kept),
        newer_keys(used(entries, key, value, bound), kept).subset_of(
            newer_keys(entries, kept).insert(key),
        ),
{
    let after = used(entries, key, value, bound);
    let keys = keys_of(entries);
    let p = position_of(entries, kept);
    lemma_found(entries, kept);
    lemma_use_keeps_cache(entries, key, value, bound);
    let newer = keys.skip(p + 1);
    lemma_order_is_permutation_of_keys(entries, bound);
    assert forall|i: int, j: int|
        0 <= i < newer.len() && 0 <= j < newer.len() && i != j implies newer[i] != newer[j] by {
        assert(newer[i] == keys[p + 1 + i] && newer[j] == keys[p + 1 + j]);
    }
    newer.unique_seq_to_set();
    vstd::seq_lib::seq_to_set_is_finite(newer);
    assert(newer_keys(entries, kept).len() == entries.len() - 1 - p);
    if has_key(entries, key) {
        lemma_found(entries, key);
        let q = position_of(entries, key);
        let moved = entries[q];
        assert(after == entries.remove(q).push(moved));
        let at = if q < p {
            p - 1
        } else {
            p
        };
        assert(after[at] == entries[p]);
        lemma_position(after, at);
        assert forall|k: I| newer_keys(after, kept).contains(k) implies newer_keys(entries, kept).insert(
            key,
        ).contains(k) by {
            let after_newer = keys_of(after).skip(at + 1);
            let i = choose|i: int| 0 <= i < after_newer.len() && after_newer[i] == k;
            let index = at + 1 + i;
            assert(keys_of(after)[index] == k);
            if index == after.len() - 1 {
                assert(k == key);
            } else {
                let source = if index < q {
                    index
                } else {
                    index + 1
                };
                assert(after[index] == entries[source]);
                assert(newer[source - p - 1] == k);
            }
        }
    } else {
        assert(without_key(entries, key) == entries);
        let pushed = entries.push((key, value));
        assert(!newer_keys(entries, kept).contains(key)) by {
            if newer.to_set().contains(key) {
                let i = choose|i: int| 0 <= i < newer.len() && newer[i] == key;
                assert(entries[p + 1 + i].0 == key);
            }
        }
        assert(newer_keys(entries, kept).insert(key).len() == entries.len() - p);
        let dropped = if pushed.len() > bound {
            pushed.len() - bound
        } else {
            0
        };
        assert(after =~= pushed.skip(dropped));
        assert(dropped <= p);
        let at = p - dropped;
        assert(after[at] == entries[p]);
        lemma_position(after, at);
        assert forall|k: I| newer_keys(after, kept).contains(k) implies newer_keys(entries, kept).insert(
            key,
        ).contains(k) by {
            let after_newer = keys_of(after).skip(at + 1);
            let i = choose|i: int| 0 <= i < after_newer.len() && after_newer[i] == k;
            let index = at + 1 + i;
            assert(keys_of(after)[index] == k);
            let source = index + dropped;
            assert(after[index] == pushed[source]);
            if source == entries.len() {
                assert(k == key);
            } else {
                assert(pushed[source] == entries[source]);
                assert(newer[source - p - 1] == k);
            }
        }
    }
}

/// The keys of a sequence of uses.
pub open spec fn used_keys<I, V>(uses: Seq<(I, V)>) -> Set<I> {
    keys_of(uses).to_set()
}

/// A key is evicted only after as many distinct other keys as the bound were
/// used since its own last use.
///
/// If the keys that were used more recently than `kept`, together with the
/// other keys of the uses that follow, are fewer than the bound, then after
/// those uses `kept` is still in the cache under the same value. Straight
/// after a use of `kept` no key is more recent, so that it stays through the
/// uses of any `bound - 1` distinct other keys, however often each is used.
pub proof fn lemma_survives_uses<I, V>(entries: Seq<(I, V)>, kept: I, uses: Seq<(I, V)>, bound: nat)
    requires
        distinct_keys(entries),
        entries.len() <= bound,
        has_key(entries, kept),
        (newer_keys(entries, kept) + used_keys(uses).remove(kept)).len() < bound,
    ensures
        has_key(replayed(entries, uses, bound), kept),
        value_of(replayed(entries, uses, bound), kept) == value_of(entries, kept),
        distinct_keys(replayed(entries, uses, bound)),
        replayed(entries, uses, bound).len() <= bound,
        newer_keys(replayed(entries, uses, bound), kept).subset_of(
            newer_keys(entries, kept) + used_keys(uses).remove(kept),
        ),
    decreases uses.len(),
{
    if uses.len() > 0 {
        let earlier = uses.drop_last();
        let key = uses.last().0;
        let value = uses.last().1;
        let all = newer_keys(entries, kept) + used_keys(uses).remove(kept);
        let most = newer_keys(entries, kept) + used_keys(earlier).remove(kept);
        vstd::seq_lib::seq_to_set_is_finite(keys_of(uses));
        vstd::seq_lib::seq_to_set_is_finite(
            keys_of(entries).skip(position_of(entries, kept) + 1),
        );
        assert(all.finite());
        assert forall|k: I| most.contains(k) implies all.contains(k) by {
            if used_keys(earlier).contains(k) {
                let i = choose|i: int| 0 <= i < keys_of(earlier).len() && keys_of(earlier)[i] == k;
                assert(keys_of(uses)[i] == k);
            }
        }
        vstd::set_lib::lemma_len_subset(most, all);
        lemma_survives_uses(entries, kept, earlier, bound);
        let before = replayed(entries, earlier, bound);
        assert(keys_of(uses)[uses.len() - 1] == key);
        if key == kept {
            lemma_use_then_hit(before, kept, value, bound);
            let after = used(before, kept, value, bound);
            let last = after.len() - 1;
            lemma_use_keeps_cache(before, kept, value, bound);
            lemma_position(after, last);
            assert(keys_of(after).skip(last + 1) =~= Seq::<I>::empty());
            assert(newer_keys(after, kept) =~= Set::<I>::empty());
        } else {
            let grown = newer_keys(before, kept).insert(key);
            assert(grown.subset_of(all));
            vstd::set_lib::lemma_len_subset(grown, all);
            lemma_other_use_keeps(before, kept, key, value, bound);
            lemma_use_keeps_cache(before, key, value, bound);
        }
    }
}

/// Any sequence of uses leaves a cache a cache: no key twice, and no more
/// entries than the bound.
pub proof fn lemma_uses_keep_cache<I, V>(entries: Seq<(I, V)>, uses: Seq<(I, V)>, bound: nat)
    requires
        distinct_keys(entries),
        entries.len() <= bound,
    ensures
        distinct_keys(replayed(entries, uses, bound)),
        replayed(entries, uses, bound).len() <= bound,
    decreases uses.len(),
{
    if uses.len() > 0 {
        lemma_uses_keep_cache(entries, uses.drop_last(), bound);
        lemma_use_keeps_cache(
            replayed(entries, uses.drop_last(), bound),
            uses.last().0,
            uses.last().1,
            bound,
        );
    }
}

/// Consecutive lookups of a key find the same value until the key is
/// evicted, and it is evicted only after as many distinct other keys as the
/// bound were used since.
///
/// After a use of `kept`, and then any uses among which fewer distinct other
/// keys than the bound occur, `kept` is still in the cache, under the value
/// that its own use found or created.
pub proof fn lemma_recent_key_survives<I, V>(
    entries: Seq<(I, V)>,
    kept: I,
    value: V,
    uses: Seq<(I, V)>,
    bound: nat,
)
    requires
        distinct_keys(entries),
        entries.len() <= bound,
        used_keys(uses).remove(kept).len() < bound,
    ensures
        ({
            let first = used(entries, kept, value, bound);
            let after = replayed(first, uses, bound);
            &&& has_key(first, kept)
            &&& has_key(after, kept)
            &&& value_of(after, kept) == value_of(first, kept)
            &&& value_of(first, kept) == (if has_key(entries, kept) {
                value_of(entries, kept)
            } else {
                value
            })
        }),
{
    let first = used(entries, kept, value, bound);
    vstd::seq_lib::seq_to_set_is_finite(keys_of(uses));
    assert(bound >= 1);
    lemma_use_then_hit(entries, kept, value, bound);
    lemma_use_keeps_cache(entries, kept, value, bound);
    let last = first.len() - 1;
    lemma_position(first, last);
    assert(keys_of(first).skip(last + 1) =~= Seq::<I>::empty());
    assert(newer_keys(first, kept) =~= Set::<I>::empty());
    assert(newer_keys(first, kept) + used_keys(uses).remove(kept) =~= used_keys(uses).remove(kept));
    lemma_survives_uses(first, kept, uses, bound);
}

/// After any uses a cache is a cache, and the key used last is the most
/// recently used one, if the cache can hold an entry at all.
pub proof fn lemma_follows_keeps_cache<I, V>(
    before: Seq<(I, V)>,
    after: Seq<(I, V)>,
    keys: Seq<I>,
    bound: nat,
)
    requires
        distinct_keys(before),
        before.len() <= bound,
        follows(before, after, keys, bound),
    ensures
        distinct_keys(after),
        after.len() <= bound,
        keys.len() > 0 && bound >= 1 ==> after.len() > 0 && after.last().0 == keys.last(),
        keys.len() == 0 ==> after == before,
{
    let uses = choose|uses: Seq<(I, V)>|
        keys_of(uses) == keys && after == #[trigger] replayed(before, uses, bound);
    lemma_uses_keep_cache(before, uses, bound);
    assert(uses.len() == keys.len());
    if keys.len() > 0 && bound >= 1 {
        let earlier = replayed(before, uses.drop_last(), bound);
        lemma_uses_keep_cache(before, uses.drop_last(), bound);
        lemma_use_then_hit(earlier, uses.last().0, uses.last().1, bound);
        assert(keys_of(uses)[uses.len() - 1] == uses.last().0);
    }
}

} // verus!
