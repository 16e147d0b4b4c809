//! Which key leaves the cache, and when: the laws of eviction.

use crate::recency::{other_keys, Lookup, Recency};
use vstd::prelude::*;

verus! {

/// Every lookup of `lookups` finds its key missing at the moment it is made,
/// the series starting from `start`.
pub open spec fn all_misses(start: Recency, lookups: Seq<Lookup>) -> bool {
    forall|i: int|
        0 <= i < lookups.len() ==> !(#[trigger] start.replay(lookups.take(i))).hit(lookups[i].key)
}

/// No two lookups of `lookups` ask for the same key.
pub open spec fn distinct_keys(lookups: Seq<Lookup>) -> bool {
    forall|i: int, j: int| 0 <= i < j < lookups.len() ==> lookups[i].key != lookups[j].key
}

/// Replaying one lookup more is one more `resolve`.
proof fn lemma_replay_step(start: Recency, lookups: Seq<Lookup>, n: int)
    requires
        0 < n <= lookups.len(),
    ensures
        start.replay(lookups.take(n)) == start.replay(lookups.take(n - 1)).resolve(
            lookups[n - 1].key,
            lookups[n - 1].stored,
        ),
{
    assert(lookups.take(n).drop_last() =~= lookups.take(n - 1));
}

/// After the first `n` of a series of misses on distinct keys, the first key,
/// if still cached, has at least `n - 1` keys behind it.
proof fn lemma_misses_push_front(start: Recency, lookups: Seq<Lookup>, n: int)
    requires
        start.wf(),
        distinct_keys(lookups),
        all_misses(start, lookups),
        0 < n <= lookups.len(),
    ensures
        ({
            let now = start.replay(lookups.take(n));
            &&& now.wf()
            &&& now.capacity == start.capacity
            &&& forall|i: int|
                0 <= i < now.order.len() && now.order[i] == lookups[0].key ==> i + n
                    <= now.order.len()
        }),
    decreases n,
{
    let before = start.replay(lookups.take(n - 1));
    lemma_replay_step(start, lookups, n);
    start.lemma_replay_wf(lookups.take(n - 1));
    // The lookup is a miss, so its key goes to the back, and every key that
    // stays keeps its place or moves one place to the front.
    before.lemma_install(lookups[n - 1].key, lookups[n - 1].stored);
    if n > 1 {
        lemma_misses_push_front(start, lookups, n - 1);
    }
}

/// After misses on one key more than the cache can hold, all distinct, the
/// key that was missed first is no longer cached: asking for it again is a
/// miss, answered by the store.
pub proof fn lemma_earliest_miss_is_evicted(start: Recency, lookups: Seq<Lookup>)
    requires
        start.wf(),
        lookups.len() == start.capacity + 1,
        distinct_keys(lookups),
        all_misses(start, lookups),
    ensures
        !start.replay(lookups).hit(lookups[0].key),
        forall|stored: Option<Seq<char>>|
            start.replay(lookups).answer(lookups[0].key, stored) == stored,
{
    let n = lookups.len() as int;
    assert(lookups.take(n) =~= lookups);
    // Were the first key still cached, it would stand in front of `capacity`
    // others.
    lemma_misses_push_front(start, lookups, n);
    start.replay(lookups).lemma_hit_iff_ordered(lookups[0].key);
}

/// The keys of a series grow with the series.
proof fn lemma_other_keys_grow(lookups: Seq<Lookup>, key: Seq<char>)
    requires
        lookups.len() > 0,
    ensures
        other_keys(lookups, key).finite(),
        other_keys(lookups.drop_last(), key).subset_of(other_keys(lookups, key)),
        other_keys(lookups.drop_last(), key).len() <= other_keys(lookups, key).len(),
        lookups.last().key != key ==> other_keys(lookups, key).contains(lookups.last().key),
{
    let all = lookups.map_values(|l: Lookup| l.key);
    let front = lookups.drop_last().map_values(|l: Lookup| l.key);
    vstd::seq_lib::seq_to_set_is_finite(all);
    assert forall|k: Seq<char>| front.to_set().contains(k) implies all.to_set().contains(k) by {
        let i = choose|i: int| 0 <= i < front.len() && front[i] == k;
        assert(all[i] == k);
    }
    assert(all[all.len() - 1] == lookups.last().key);
    vstd::set_lib::lemma_len_subset(other_keys(lookups.drop_last(), key), other_keys(lookups, key));
}

/// Where `key` stands in `cache` with nothing behind it but keys of `seen`.
spec fn sheltered(cache: Recency, key: Seq<char>, seen: Set<Seq<char>>) -> bool {
    exists|i: int|
        0 <= i < cache.order.len() && cache.order[i] == key && forall|j: int|
            i < j < cache.order.len() ==> seen.contains(#[trigger] cache.order[j])
}

/// After a lookup of `key` and any further lookups, either `key` is cached
/// with only later-asked keys behind it, or as many other keys were asked for
/// as the cache can hold.
proof fn lemma_shelter(
    start: Recency,
    key: Seq<char>,
    stored: Option<Seq<char>>,
    later: Seq<Lookup>,
)
    requires
        start.wf(),
    ensures
        ({
            let now = start.resolve(key, stored).replay(later);
            &&& now.wf()
            &&& now.capacity == start.capacity
            &&& other_keys(later, key).finite()
            &&& (other_keys(later, key).len() >= start.capacity || sheltered(
                now,
                key,
                other_keys(later, key),
            ))
        }),
    decreases later.len(),
{
    let begun = start.resolve(key, stored);
    start.lemma_resolve_wf(key, stored);
    begun.lemma_replay_wf(later);
    let now = begun.replay(later);
    let seen = other_keys(later, key);
    if later.len() == 0 {
        // The lookup of `key` itself has put it at the back.
        vstd::seq_lib::seq_to_set_is_finite(later.map_values(|l: Lookup| l.key));
        if start.hit(key) {
            start.lemma_promote(key);
        } else {
            start.lemma_install(key, stored);
        }
    } else {
        let before = begun.replay(later.drop_last());
        let asked = later.last().key;
        let had = other_keys(later.drop_last(), key);
        lemma_shelter(start, key, stored, later.drop_last());
        lemma_other_keys_grow(later, key);
        if had.len() < start.capacity {
            let i = choose|i: int|
                0 <= i < before.order.len() && before.order[i] == key && forall|j: int|
                    i < j < before.order.len() ==> had.contains(#[trigger] before.order[j]);
            before.lemma_hit_iff_ordered(asked);
            if before.hit(asked) {
                // A hit moves `asked` to the back: `key` keeps its place or
                // moves one to the front, and only `asked` is new behind it.
                before.lemma_promote(asked);
                if asked != key {
                    let p = before.order.index_of(asked);
                    let at = if p < i {
                        i - 1
                    } else {
                        i
                    };
                    assert(now.order[at] == key);
                    assert forall|j: int| at < j < now.order.len() implies seen.contains(
                        #[trigger] now.order[j],
                    ) by {
                        if j < now.order.len() - 1 {
                            let from = if j < p {
                                j
                            } else {
                                j + 1
                            };
                            assert(now.order[j] == before.order[from]);
                        }
                    }
                }
            } else {
                before.lemma_install(asked, later.last().stored);
                if before.order.len() == before.capacity && i == 0 {
                    // `key` is evicted. What stays are the keys that stood
                    // behind it and `asked`: as many other keys as the cache
                    // holds, all of them asked for since.
                    assert forall|k: Seq<char>| now.order.to_set().contains(k) implies seen.contains(
                        k,
                    ) by {
                        let j = choose|j: int| 0 <= j < now.order.len() && now.order[j] == k;
                        if j < now.order.len() - 1 {
                            assert(now.order[j] == before.order[j + 1]);
                        }
                    }
                    now.order.unique_seq_to_set();
                    vstd::set_lib::lemma_len_subset(now.order.to_set(), seen);
                } else {
                    // `key` stays, one place to the front if the front key
                    // was evicted, and only `asked` is new behind it.
                    let shift: int = if before.order.len() == before.capacity {
                        1
                    } else {
                        0
                    };
                    assert(now.order[i - shift] == key);
                    assert forall|j: int| i - shift < j < now.order.len() implies seen.contains(
                        #[trigger] now.order[j],
                    ) by {
                        if j < now.order.len() - 1 {
                            assert(now.order[j] == before.order[j + shift]);
                        }
                    }
                }
            }
        }
    }
}

/// A key that was just looked up stays cached until as many other keys as
/// the cache can hold have been asked for: with fewer, no eviction reaches it.
pub proof fn lemma_promoted_key_survives(
    start: Recency,
    key: Seq<char>,
    stored: Option<Seq<char>>,
    later: Seq<Lookup>,
)
    requires
        start.wf(),
        other_keys(later, key).len() < start.capacity,
    ensures
        start.resolve(key, stored).replay(later).hit(key),
{
    lemma_shelter(start, key, stored, later);
    let now = start.resolve(key, stored).replay(later);
    now.lemma_hit_iff_ordered(key);
}

} // verus!
