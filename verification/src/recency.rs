//! The mathematical model of the recency cache: what it holds, how a lookup
//! changes it, and the laws that follow.

use vstd::prelude::*;

verus! {

/// The cache as a value: a bound, the cached answers, and the keys from the
/// least recently used (front) to the most recently used (back).
///
/// An answer of `None` records that the store has no link for the key.
pub struct Recency {
    pub capacity: nat,
    pub entries: Map<Seq<char>, Option<Seq<char>>>,
    pub order: Seq<Seq<char>>,
}

/// One lookup as the cache sees it: the key asked for, and what the store
/// holds for that key at that moment.
pub struct Lookup {
    pub key: Seq<char>,
    pub stored: Option<Seq<char>>,
}

/// The keys of `lookups` other than `key`.
pub open spec fn other_keys(lookups: Seq<Lookup>, key: Seq<char>) -> Set<Seq<char>> {
    lookups.map_values(|l: Lookup| l.key).to_set().remove(key)
}

impl Recency {
    /// The cache with nothing in it.
    pub open spec fn empty(capacity: nat) -> Recency {
        Recency { capacity, entries: Map::empty(), order: Seq::empty() }
    }

    /// Every cached key stands exactly once in `order`, every key of `order`
    /// is cached, and there are at most `capacity` of them.
    pub open spec fn wf(self) -> bool {
        &&& self.order.no_duplicates()
        &&& self.order.len() <= self.capacity
        &&& self.entries.dom() =~= self.order.to_set()
    }

    /// Whether the cache has an answer for `key`.
    pub open spec fn hit(self, key: Seq<char>) -> bool {
        self.entries.contains_key(key)
    }

    /// `key` taken from its place in `order` and put at the back.
    pub open spec fn promote(self, key: Seq<char>) -> Recency {
        Recency { order: self.order.remove(self.order.index_of(key)).push(key), ..self }
    }

    /// The cache after a miss on `key` that the store answered with `stored`:
    /// unchanged if it caches nothing, else with the new entry at the back,
    /// in place of the front entry if it was full.
    pub open spec fn install(self, key: Seq<char>, stored: Option<Seq<char>>) -> Recency {
        if self.capacity == 0 {
            self
        } else if self.order.len() == self.capacity {
            Recency {
                capacity: self.capacity,
                entries: self.entries.remove(self.order[0]).insert(key, stored),
                order: self.order.drop_first().push(key),
            }
        } else {
            Recency {
                capacity: self.capacity,
                entries: self.entries.insert(key, stored),
                order: self.order.push(key),
            }
        }
    }

    /// The cache after one lookup.
    pub open spec fn resolve(self, key: Seq<char>, stored: Option<Seq<char>>) -> Recency {
        if self.hit(key) {
            self.promote(key)
        } else {
            self.install(key, stored)
        }
    }

    /// What one lookup returns: the cached answer on a hit, else the store's.
    pub open spec fn answer(self, key: Seq<char>, stored: Option<Seq<char>>) -> Option<Seq<char>> {
        if self.hit(key) {
            self.entries[key]
        } else {
            stored
        }
    }

    /// The cache after a series of lookups, the first one first.
    pub open spec fn replay(self, lookups: Seq<Lookup>) -> Recency
        decreases lookups.len(),
    {
        if lookups.len() == 0 {
            self
        } else {
            self.replay(lookups.drop_last()).resolve(lookups.last().key, lookups.last().stored)
        }
    }

    /// In a well-formed cache a key is cached exactly when it stands in `order`.
    pub proof fn lemma_hit_iff_ordered(self, key: Seq<char>)
        requires
            self.wf(),
        ensures
            self.hit(key) <==> self.order.contains(key),
    {
    }

    /// A well-formed cache holds as many answers as keys, at most `capacity`,
    /// and none at all when the capacity is zero.
    pub proof fn lemma_sizes(self)
        requires
            self.wf(),
        ensures
            self.entries.dom().finite(),
            self.entries.len() == self.order.len(),
            self.order.len() <= self.capacity,
            self.capacity == 0 ==> self.entries == Map::<Seq<char>, Option<Seq<char>>>::empty()
                && self.order == Seq::<Seq<char>>::empty(),
    {
        self.order.unique_seq_to_set();
        vstd::seq_lib::seq_to_set_is_finite(self.order);
    }

    /// Promotion keeps a cache well formed and puts the key at the back.
    pub proof fn lemma_promote(self, key: Seq<char>)
        requires
            self.wf(),
            self.hit(key),
        ensures
            self.promote(key).wf(),
            self.promote(key).entries == self.entries,
            self.promote(key).order.len() == self.order.len(),
            self.promote(key).order.last() == key,
    {
        self.lemma_hit_iff_ordered(key);
        let p = self.order.index_of(key);
        let after = self.promote(key).order;
        assert(after.no_duplicates());
        assert forall|k: Seq<char>| self.order.contains(k) implies after.contains(k) by {
            let i = choose|i: int| 0 <= i < self.order.len() && self.order[i] == k;
            let to = if i == p {
                after.len() - 1
            } else if i < p {
                i
            } else {
                i - 1
            };
            assert(after[to] == k);
        }
    }

    /// Installing an answer after a miss keeps a cache well formed; unless
    /// the capacity is zero, the key is then cached, with the store's answer,
    /// at the back.
    pub proof fn lemma_install(self, key: Seq<char>, stored: Option<Seq<char>>)
        requires
            self.wf(),
            !self.hit(key),
        ensures
            self.install(key, stored).wf(),
            self.capacity > 0 ==> {
                &&& self.install(key, stored).hit(key)
                &&& self.install(key, stored).entries[key] == stored
                &&& self.install(key, stored).order.last() == key
            },
    {
        self.lemma_hit_iff_ordered(key);
        let after = self.install(key, stored);
        if self.capacity > 0 {
            let shift: int = if self.order.len() == self.capacity {
                1
            } else {
                0
            };
            assert(after.order.no_duplicates());
            assert(after.order[after.order.len() - 1] == key);
            assert forall|k: Seq<char>| after.entries.dom().contains(k) implies after.order.contains(
                k,
            ) by {
                if k != key {
                    let i = choose|i: int| 0 <= i < self.order.len() && self.order[i] == k;
                    assert(after.order[i - shift] == k);
                }
            }
        }
    }

    /// A lookup keeps a cache well formed.
    pub proof fn lemma_resolve_wf(self, key: Seq<char>, stored: Option<Seq<char>>)
        requires
            self.wf(),
        ensures
            self.resolve(key, stored).wf(),
            self.resolve(key, stored).capacity == self.capacity,
    {
        if self.hit(key) {
            self.lemma_promote(key);
        } else {
            self.lemma_install(key, stored);
        }
    }

    /// Any series of lookups keeps a cache well formed.
    pub proof fn lemma_replay_wf(self, lookups: Seq<Lookup>)
        requires
            self.wf(),
        ensures
            self.replay(lookups).wf(),
            self.replay(lookups).capacity == self.capacity,
        decreases lookups.len(),
    {
        if lookups.len() > 0 {
            self.lemma_replay_wf(lookups.drop_last());
            self.replay(lookups.drop_last()).lemma_resolve_wf(
                lookups.last().key,
                lookups.last().stored,
            );
        }
    }

    /// Once a key has been looked up in a cache that caches anything, the next
    /// lookup of it is a hit and returns the same answer, whatever the store
    /// holds by then: the store is asked once.
    pub proof fn lemma_second_lookup_hits(
        self,
        key: Seq<char>,
        stored: Option<Seq<char>>,
        later: Option<Seq<char>>,
    )
        requires
            self.wf(),
            self.capacity > 0,
        ensures
            self.resolve(key, stored).hit(key),
            self.resolve(key, stored).answer(key, later) == self.answer(key, stored),
    {
        if self.hit(key) {
            self.lemma_promote(key);
        } else {
            self.lemma_install(key, stored);
        }
    }

    /// Whatever is looked up, in whatever order, a cache that started empty
    /// holds as many answers as keys and never more than its capacity; with
    /// capacity zero it stays empty.
    pub proof fn lemma_capacity_invariant(capacity: nat, lookups: Seq<Lookup>)
        ensures
            ({
                let c = Recency::empty(capacity).replay(lookups);
                &&& c.wf()
                &&& c.entries.dom().finite()
                &&& c.entries.len() == c.order.len()
                &&& c.order.len() <= capacity
                &&& capacity == 0 ==> c == Recency::empty(0)
            }),
    {
        let start = Recency::empty(capacity);
        start.lemma_replay_wf(lookups);
        start.replay(lookups).lemma_sizes();
    }
}

} // verus!
