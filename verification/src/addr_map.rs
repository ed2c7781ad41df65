//! A map and a set keyed by socket addresses.

use crate::addr::SocketAddr;
use vstd::prelude::*;

verus! {

/// Whether `values` lists what a map holds: one value for each key, in any order.
pub open spec fn lists_values<V>(values: Seq<V>, map: Map<SocketAddr, V>) -> bool {
    exists|keys: Seq<SocketAddr>| #[trigger]
        lists_keys(keys, map.dom()) && values == keys.map_values(|k: SocketAddr| map[k])
}

/// Whether `keys` lists a set of addresses: each once, in any order.
pub open spec fn lists_keys(keys: Seq<SocketAddr>, set: Set<SocketAddr>) -> bool {
    &&& keys.no_duplicates()
    &&& forall|k: SocketAddr| keys.contains(k) <==> set.contains(k)
}

/// A map from socket addresses. Its entries stand in a list in which no address occurs twice.
pub struct AddrMap<V> {
    entries: Vec<(SocketAddr, V)>,
}

/// The addresses of a list of entries.
spec fn keys_of<V>(entries: Seq<(SocketAddr, V)>) -> Seq<SocketAddr> {
    entries.map_values(|e: (SocketAddr, V)| e.0)
}

/// The map that a list of entries without a repeated address stands for.
spec fn map_of<V>(entries: Seq<(SocketAddr, V)>) -> Map<SocketAddr, V> {
    Map::new(
        |k: SocketAddr| keys_of(entries).contains(k),
        |k: SocketAddr| entries[keys_of(entries).index_of(k)].1,
    )
}

/// What `map_of` says of one entry.
proof fn lemma_map_of<V>(entries: Seq<(SocketAddr, V)>, i: int)
    requires
        keys_of(entries).no_duplicates(),
        0 <= i < entries.len(),
    ensures
        map_of(entries).contains_key(entries[i].0),
        map_of(entries)[entries[i].0] == entries[i].1,
{
    assert(keys_of(entries)[i] == entries[i].0);
}

impl<V> AddrMap<V> {
    /// Whether no address has two entries.
    pub closed spec fn wf(&self) -> bool {
        keys_of(self.entries@).no_duplicates()
    }

    /// What the map holds.
    pub closed spec fn view(&self) -> Map<SocketAddr, V> {
        map_of(self.entries@)
    }

    /// An empty map.
    pub fn new() -> (m: AddrMap<V>)
        ensures
            m.wf(),
            m@ == Map::<SocketAddr, V>::empty(),
    {
        AddrMap { entries: Vec::new() }
    }

    /// The index of an address's entry, or the number of entries where it has none.
    fn find(&self, addr: &SocketAddr) -> (i: usize)
        requires
            self.wf(),
        ensures
            i <= self.entries@.len(),
            i < self.entries@.len() ==> self.entries@[i as int].0 == *addr && self@.contains_key(
                *addr,
            ) && self@[*addr] == self.entries@[i as int].1,
            i == self.entries@.len() ==> !self@.contains_key(*addr),
    {
        let mut i: usize = 0;
        while i < self.entries.len()
            invariant
                self.wf(),
                i <= self.entries@.len(),
                forall|j: int| 0 <= j < i ==> (#[trigger] self.entries@[j]).0 != *addr,
            decreases self.entries@.len() - i,
        {
            if self.entries[i].0 == *addr {
                proof {
                    lemma_map_of(self.entries@, i as int);
                }
                return i;
            }
            i += 1;
        }
        i
    }

    /// Whether an address has an entry.
    pub fn contains(&self, addr: &SocketAddr) -> (b: bool)
        requires
            self.wf(),
        ensures
            b == self@.contains_key(*addr),
    {
        self.find(addr) < self.entries.len()
    }

    /// The value of an address, where it has one.
    pub fn get(&self, addr: &SocketAddr) -> (v: Option<&V>)
        requires
            self.wf(),
        ensures
            v == (if self@.contains_key(*addr) {
                Some(&self@[*addr])
            } else {
                None
            }),
    {
        let i = self.find(addr);
        if i < self.entries.len() {
            Some(&self.entries[i].1)
        } else {
            None
        }
    }

    /// Gives an address a value, and hands back the one that it had.
    pub fn insert(&mut self, addr: SocketAddr, value: V) -> (replaced: Option<V>)
        requires
            old(self).wf(),
        ensures
            final(self).wf(),
            final(self)@ == old(self)@.insert(addr, value),
            replaced == (if old(self)@.contains_key(addr) {
                Some(old(self)@[addr])
            } else {
                None
            }),
    {
        let replaced = self.remove(&addr);
        let ghost before = self.entries@;
        self.entries.push((addr, value));
        proof {
            let after = self.entries@;
            let keys = keys_of(before);
            assert(keys_of(after) =~= keys.push(addr));
            assert(!keys.contains(addr)) by {
                assert(!map_of(before).contains_key(addr));
            }
            lemma_map_of(after, before.len() as int);
            assert forall|k: SocketAddr| k != addr implies #[trigger] map_of(after).contains_key(k)
                == map_of(before).contains_key(k) by {
                if keys.contains(k) {
                    let j = keys.index_of(k);
                    assert(keys_of(after)[j] == k);
                }
            }
            assert forall|k: SocketAddr|
                k != addr && map_of(before).contains_key(k) implies #[trigger] map_of(after)[k]
                == map_of(before)[k] by {
                let j = keys.index_of(k);
                lemma_map_of(before, j);
                lemma_map_of(after, j);
            }
        }
        replaced
    }

    /// Takes out an address's value, where it has one.
    pub fn remove(&mut self, addr: &SocketAddr) -> (removed: Option<V>)
        requires
            old(self).wf(),
        ensures
            final(self).wf(),
            final(self)@ == old(self)@.remove(*addr),
            removed == (if old(self)@.contains_key(*addr) {
                Some(old(self)@[*addr])
            } else {
                None
            }),
    {
        let i = self.find(addr);
        if i == self.entries.len() {
            return None;
        }
        let ghost before = self.entries@;
        let (_, value) = self.entries.remove(i);
        proof {
            let after = self.entries@;
            let keys = keys_of(before);
            assert(keys_of(after) =~= keys.remove(i as int));
            assert(keys[i as int] == *addr);
            assert forall|k: SocketAddr| #[trigger]
                map_of(after).contains_key(k) == (k != *addr && map_of(before).contains_key(k)) by {
                if k != *addr && keys.contains(k) {
                    let j = keys.index_of(k);
                    let j1 = if j < i { j } else { j - 1 };
                    assert(keys_of(after)[j1] == k);
                }
            }
            assert forall|k: SocketAddr| map_of(after).contains_key(k) implies #[trigger] map_of(
                after,
            )[k] == map_of(before)[k] by {
                let j = keys_of(after).index_of(k);
                let j0 = if j < i { j } else { j + 1 };
                lemma_map_of(after, j);
                lemma_map_of(before, j0);
            }
        }
        Some(value)
    }

    /// Takes out all values.
    pub fn drain(&mut self) -> (values: Vec<V>)
        requires
            old(self).wf(),
        ensures
            final(self).wf(),
            final(self)@ == Map::<SocketAddr, V>::empty(),
            lists_values(values@, old(self)@),
    {
        let ghost all = self.entries@;
        let ghost keys = keys_of(all);
        let mut values: Vec<V> = Vec::new();
        while self.entries.len() > 0
            invariant
                all == old(self).entries@,
                keys == keys_of(all),
                values@.len() + self.entries@.len() == all.len(),
                self.entries@ =~= all.skip(values@.len() as int),
                forall|i: int| 0 <= i < values@.len() ==> values@[i] == (#[trigger] all[i]).1,
            decreases self.entries@.len(),
        {
            let (_, v) = self.entries.remove(0);
            values.push(v);
        }
        proof {
            let m = map_of(all);
            assert forall|i: int| 0 <= i < all.len() implies m[#[trigger] keys[i]] == all[i].1 by {
                lemma_map_of(all, i);
            }
            assert(values@ =~= keys.map_values(|k: SocketAddr| m[k]));
            assert(lists_keys(keys, m.dom()));
        }
        values
    }
}

/// A set of socket addresses, kept as a list in which none occurs twice.
pub struct AddrSet {
    map: AddrMap<()>,
}

impl AddrSet {
    /// Whether no address is listed twice.
    pub closed spec fn wf(&self) -> bool {
        self.map.wf()
    }

    /// The addresses in the set.
    pub closed spec fn view(&self) -> Set<SocketAddr> {
        self.map@.dom()
    }

    /// An empty set.
    pub fn new() -> (s: AddrSet)
        ensures
            s.wf(),
            s@ == Set::<SocketAddr>::empty(),
    {
        AddrSet { map: AddrMap::new() }
    }

    /// Whether an address is in the set.
    pub fn contains(&self, addr: &SocketAddr) -> (b: bool)
        requires
            self.wf(),
        ensures
            b == self@.contains(*addr),
    {
        self.map.contains(addr)
    }

    /// Puts an address into the set, and says whether it was not in it.
    pub fn insert(&mut self, addr: SocketAddr) -> (new: bool)
        requires
            old(self).wf(),
        ensures
            final(self).wf(),
            final(self)@ == old(self)@.insert(addr),
            new == !old(self)@.contains(addr),
    {
        let replaced = self.map.insert(addr, ());
        replaced.is_none()
    }

    /// Takes an address out of the set, and says whether it was in it.
    pub fn remove(&mut self, addr: &SocketAddr) -> (found: bool)
        requires
            old(self).wf(),
        ensures
            final(self).wf(),
            final(self)@ == old(self)@.remove(*addr),
            found == old(self)@.contains(*addr),
    {
        let removed = self.map.remove(addr);
        removed.is_some()
    }
}

impl Clone for AddrSet {
    /// A set of the same addresses.
    fn clone(&self) -> (copy: Self)
        ensures
            self.wf() ==> copy.wf(),
            copy@ == self@,
    {
        let mut entries: Vec<(SocketAddr, ())> = Vec::new();
        let mut i: usize = 0;
        while i < self.map.entries.len()
            invariant
                i <= self.map.entries@.len(),
                entries@ =~= self.map.entries@.take(i as int),
            decreases self.map.entries@.len() - i,
        {
            entries.push(self.map.entries[i]);
            i += 1;
        }
        assert(entries@ =~= self.map.entries@);
        AddrSet { map: AddrMap { entries } }
    }
}

} // verus!
