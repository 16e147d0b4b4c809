//! The recency cache: a bounded map from key to answer that forgets the least
//! recently used key first.

use crate::recency::Recency;
use vstd::hash_map::StringHashMap;
use vstd::prelude::*;

verus! {

/// An answer as a value: the link's characters, or `None` for a key that the
/// store does not know.
pub open spec fn link_view(link: Option<String>) -> Option<Seq<char>> {
    match link {
        Some(l) => Some(l@),
        None => None,
    }
}

/// The keys of `keys` as values, in the same order.
pub open spec fn keys_view(keys: Seq<String>) -> Seq<Seq<char>> {
    keys.map_values(|k: String| k@)
}

/// A cache of at most `capacity` answers. `map` holds the answers, `keys` the
/// cached keys from the least recently used to the most recently used.
pub struct Lru {
    capacity: usize,
    map: StringHashMap<Option<String>>,
    keys: Vec<String>,
}

impl View for Lru {
    type V = Recency;

    closed spec fn view(&self) -> Recency {
        Recency {
            capacity: self.capacity as nat,
            entries: self.map@.map_values(|l: Option<String>| link_view(l)),
            order: keys_view(self.keys@),
        }
    }
}

/// A copy of an answer.
fn copy_link(link: &Option<String>) -> (copy: Option<String>)
    ensures
        copy == *link,
{
    match link {
        Some(l) => Some(l.clone()),
        None => None,
    }
}

/// The place of `key` among `keys`, searched from the back.
fn position(keys: &Vec<String>, key: &String) -> (at: usize)
    requires
        keys_view(keys@).contains(key@),
    ensures
        at < keys.len(),
        keys[at as int]@ == key@,
        forall|j: int| at < j < keys.len() ==> keys[j]@ != key@,
{
    let ghost found = choose|i: int| 0 <= i < keys.len() && keys_view(keys@)[i] == key@;
    let mut i: usize = keys.len();
    while i > 0
        invariant
            0 <= found < keys.len(),
            keys_view(keys@)[found] == key@,
            i <= keys.len(),
            forall|j: int| i <= j < keys.len() ==> keys[j]@ != key@,
        decreases i,
    {
        i -= 1;
        if keys[i] == *key {
            return i;
        }
    }
    0
}

impl Lru {
    /// Holds of every cache at all times: its model is well formed.
    #[verifier::type_invariant]
    spec fn well_formed(self) -> bool {
        self@.wf()
    }

    /// An empty cache that will hold at most `size` answers. Nothing is
    /// allocated up front, so any size is accepted.
    pub fn new(size: usize) -> (cache: Lru)
        ensures
            cache@ == Recency::empty(size as nat),
            cache@.wf(),
    {
        let cache = Lru { capacity: size, map: StringHashMap::new(), keys: Vec::new() };
        proof {
            assert(cache@.entries =~= Map::empty());
            assert(cache@.order =~= Seq::empty());
        }
        cache
    }

    /// The bound that the cache was made with.
    pub fn capacity(&self) -> (n: usize)
        ensures
            n == self@.capacity,
            self@.wf(),
    {
        proof {
            use_type_invariant(self);
        }
        self.capacity
    }

    /// How many answers are cached.
    pub fn len(&self) -> (n: usize)
        ensures
            n == self@.order.len(),
            n == self@.entries.len(),
            n <= self@.capacity,
            self@.wf(),
    {
        proof {
            use_type_invariant(self);
            self@.lemma_sizes();
        }
        self.keys.len()
    }

    /// Whether `key` is cached. The recency order is left as it is.
    pub fn contains(&self, key: &String) -> (cached: bool)
        ensures
            cached == self@.hit(key@),
            self@.wf(),
    {
        proof {
            use_type_invariant(self);
        }
        self.map.contains_key(key.as_str())
    }

    /// The cached keys, from the least recently used to the most recently used.
    pub fn keys(&self) -> (keys: Vec<String>)
        ensures
            keys_view(keys@) == self@.order,
            self@.wf(),
    {
        proof {
            use_type_invariant(self);
        }
        let mut keys: Vec<String> = Vec::new();
        let mut i: usize = 0;
        while i < self.keys.len()
            invariant
                i <= self.keys.len(),
                keys.len() == i,
                forall|j: int| 0 <= j < i ==> keys[j]@ == self.keys[j]@,
            decreases self.keys.len() - i,
        {
            keys.push(self.keys[i].clone());
            i += 1;
        }
        keys
    }

    /// Moves a cached key to the most recently used end of the order.
    pub fn lift_up(&mut self, key: &String)
        requires
            old(self)@.hit(key@),
        ensures
            final(self)@ == old(self)@.promote(key@),
            final(self)@.wf(),
    {
        proof {
            use_type_invariant(&*self);
            self@.lemma_hit_iff_ordered(key@);
            self@.lemma_promote(key@);
        }
        let mut taken = Lru::new(self.capacity);
        core::mem::swap(self, &mut taken);
        let Lru { capacity, map, mut keys } = taken;
        let ghost before = keys@;
        let at = position(&keys, key);
        let moved = keys.remove(at);
        keys.push(moved);
        proof {
            let order = keys_view(before);
            let p = order.index_of(key@);
            assert(order[at as int] == key@);
            assert(keys_view(keys@) =~= order.remove(p).push(key@));
        }
        *self = Lru { capacity, map, keys };
    }

    /// Looks `key` up without asking the store. On a hit the key becomes the
    /// most recently used one and its answer is returned inside `Some`; on a
    /// miss the cache stays as it is and `None` is returned.
    pub fn lookup(&mut self, key: &String) -> (found: Option<Option<String>>)
        ensures
            final(self)@.wf(),
            old(self)@.hit(key@) ==> {
                &&& found.is_some()
                &&& link_view(found.unwrap()) == old(self)@.entries[key@]
                &&& final(self)@ == old(self)@.promote(key@)
            },
            !old(self)@.hit(key@) ==> {
                &&& found.is_none()
                &&& final(self)@ == old(self)@
            },
    {
        proof {
            use_type_invariant(&*self);
        }
        let cached = match self.map.get(key.as_str()) {
            Some(link) => Some(copy_link(link)),
            None => None,
        };
        if cached.is_some() {
            self.lift_up(key);
        }
        cached
    }

    /// Caches the store's answer for a key that was missed. A cache of
    /// capacity zero stays empty; a full one first drops its least recently
    /// used key.
    pub fn install(&mut self, key: String, link: Option<String>)
        requires
            !old(self)@.hit(key@),
        ensures
            final(self)@ == old(self)@.install(key@, link_view(link)),
            final(self)@.wf(),
    {
        proof {
            use_type_invariant(&*self);
            self@.lemma_install(key@, link_view(link));
        }
        if self.capacity == 0 {
            return ;
        }
        let mut taken = Lru::new(self.capacity);
        core::mem::swap(self, &mut taken);
        let Lru { capacity, mut map, mut keys } = taken;
        let ghost before = keys@;
        if keys.len() == capacity {
            let removed = keys.remove(0);
            keys.push(key.clone());
            map.insert(key, link);
            map.remove(removed.as_str());
            proof {
                assert(keys_view(keys@) =~= keys_view(before).drop_first().push(key@));
                assert(removed@ != key@) by {
                    old(self)@.lemma_hit_iff_ordered(removed@);
                }
            }
        } else {
            keys.push(key.clone());
            map.insert(key, link);
            proof {
                assert(keys_view(keys@) =~= keys_view(before).push(key@));
            }
        }
        let next = Lru { capacity, map, keys };
        proof {
            assert(next@.entries =~= old(self)@.install(key@, link_view(link)).entries);
        }
        *self = next;
    }

    /// Resolves `key`: the cached answer on a hit, else the answer that `load`
    /// gives for it, which is then cached. `load` is called on a miss only.
    pub fn fetch<F>(&mut self, key: String, load: F) -> (link: Option<String>) where
        F: FnOnce(String) -> Option<String>,

        requires
            !old(self)@.hit(key@) ==> load.requires((key,)),
        ensures
            final(self)@.wf(),
            final(self)@ == old(self)@.resolve(key@, link_view(link)),
            old(self)@.hit(key@) ==> link_view(link) == old(self)@.entries[key@],
            !old(self)@.hit(key@) ==> load.ensures((key,), link),
    {
        match self.lookup(&key) {
            Some(link) => link,
            None => {
                let link = load(key.clone());
                self.install(key, copy_link(&link));
                link
            },
        }
    }
}

} // verus!
