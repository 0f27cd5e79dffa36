use vstd::prelude::*;

use crate::text::str_eq;

verus! {

/// Whether some entry of `s` has key `k`.
pub open spec fn has_key<V>(s: Seq<(Seq<char>, V)>, k: Seq<char>) -> bool {
    exists|i: int| 0 <= i < s.len() && #[trigger] s[i].0 == k
}

/// The position of key `k` in `s` (meaningful where `has_key(s, k)`).
pub open spec fn key_index<V>(s: Seq<(Seq<char>, V)>, k: Seq<char>) -> int {
    choose|i: int| 0 <= i < s.len() && #[trigger] s[i].0 == k
}

/// No key occurs twice.
pub open spec fn keys_unique<V>(s: Seq<(Seq<char>, V)>) -> bool {
    forall|i: int, j: int|
        0 <= i < s.len() && 0 <= j < s.len() && #[trigger] s[i].0 == #[trigger] s[j].0 ==> i == j
}

/// The value stored under `k`, if any.
pub open spec fn lookup<V>(s: Seq<(Seq<char>, V)>, k: Seq<char>) -> Option<V> {
    if has_key(s, k) {
        Some(s[key_index(s, k)].1)
    } else {
        None
    }
}

/// A use of key `k`: its entry becomes the most recently used one.
pub open spec fn touch_spec<V>(s: Seq<(Seq<char>, V)>, k: Seq<char>) -> Seq<(Seq<char>, V)> {
    if has_key(s, k) {
        let i = key_index(s, k);
        s.remove(i).push(s[i])
    } else {
        s
    }
}

/// Storing `v` under `k` in a table of capacity `cap`: an existing entry is
/// replaced and becomes the most recent one; a new one evicts the least
/// recently used entry (the first) when the table is full.
pub open spec fn put_spec<V>(s: Seq<(Seq<char>, V)>, cap: nat, k: Seq<char>, v: V) -> Seq<
    (Seq<char>, V),
> {
    if has_key(s, k) {
        s.remove(key_index(s, k)).push((k, v))
    } else if cap == 0 {
        s
    } else if s.len() >= cap {
        s.drop_first().push((k, v))
    } else {
        s.push((k, v))
    }
}

/// A map from string keys to values, bounded in size, that evicts its least
/// recently used entry. Entries run from the least to the most recently used.
#[derive(Debug)]
pub struct LruMap<V> {
    entries: Vec<(String, V)>,
    capacity: usize,
}

pub struct LruView<V> {
    pub entries: Seq<(Seq<char>, V)>,
    pub capacity: nat,
}

impl<V> LruView<V> {
    pub open spec fn wf(self) -> bool {
        &&& self.entries.len() <= self.capacity
        &&& keys_unique(self.entries)
    }
}

proof fn lemma_unique_index<V>(s: Seq<(Seq<char>, V)>, k: Seq<char>, i: int)
    requires
        keys_unique(s),
        0 <= i < s.len(),
        s[i].0 == k,
    ensures
        has_key(s, k),
        key_index(s, k) == i,
{
    assert(has_key(s, k));
}

proof fn lemma_remove_push_unique<V>(s: Seq<(Seq<char>, V)>, i: int, e: (Seq<char>, V))
    requires
        keys_unique(s),
        0 <= i < s.len(),
        s[i].0 == e.0,
    ensures
        keys_unique(s.remove(i).push(e)),
{
    let t = s.remove(i).push(e);
    assert forall|a: int, b: int|
        0 <= a < t.len() && 0 <= b < t.len() && #[trigger] t[a].0 == #[trigger] t[b].0 implies a
        == b by {
        let sa = if a == t.len() - 1 {
            i
        } else if a < i {
            a
        } else {
            a + 1
        };
        let sb = if b == t.len() - 1 {
            i
        } else if b < i {
            b
        } else {
            b + 1
        };
        assert(t[a].0 == s[sa].0);
        assert(t[b].0 == s[sb].0);
    }
}

proof fn lemma_push_fresh_unique<V>(s: Seq<(Seq<char>, V)>, e: (Seq<char>, V))
    requires
        keys_unique(s),
        !has_key(s, e.0),
    ensures
        keys_unique(s.push(e)),
        s.len() > 0 ==> keys_unique(s.drop_first().push(e)),
{
    let t = s.push(e);
    assert forall|a: int, b: int|
        0 <= a < t.len() && 0 <= b < t.len() && #[trigger] t[a].0 == #[trigger] t[b].0 implies a
        == b by {
        if a < s.len() && b == s.len() {
            assert(s[a].0 == e.0);
        }
        if b < s.len() && a == s.len() {
            assert(s[b].0 == e.0);
        }
    }
    if s.len() > 0 {
        let u = s.drop_first().push(e);
        assert forall|a: int, b: int|
            0 <= a < u.len() && 0 <= b < u.len() && #[trigger] u[a].0 == #[trigger] u[b].0 implies a
            == b by {
            if a < u.len() - 1 && b == u.len() - 1 {
                assert(s[a + 1].0 == e.0);
            }
            if b < u.len() - 1 && a == u.len() - 1 {
                assert(s[b + 1].0 == e.0);
            }
            if a < u.len() - 1 && b < u.len() - 1 {
                assert(s[a + 1].0 == s[b + 1].0);
            }
        }
    }
}

impl<V> View for LruMap<V> {
    type V = LruView<V>;

    closed spec fn view(&self) -> LruView<V> {
        LruView {
            entries: self.entries@.map_values(|e: (String, V)| (e.0@, e.1)),
            capacity: self.capacity as nat,
        }
    }
}

impl<V> LruMap<V> {
    /// An empty map that holds at most `capacity` entries.
    pub fn new(capacity: usize) -> (r: LruMap<V>)
        ensures
            r@.entries.len() == 0,
            r@.capacity == capacity,
            r@.wf(),
    {
        let r = LruMap { entries: Vec::new(), capacity };
        assert(r@.entries =~= Seq::<(Seq<char>, V)>::empty());
        r
    }

    pub fn len(&self) -> (r: usize)
        ensures
            r == self@.entries.len(),
    {
        self.entries.len()
    }

    pub fn capacity(&self) -> (r: usize)
        ensures
            r == self@.capacity,
    {
        self.capacity
    }

    /// The position of `key`, without marking it as used.
    pub fn find(&self, key: &str) -> (r: Option<usize>)
        ensures
            r matches Some(i) ==> i < self@.entries.len() && self@.entries[i as int].0 == key@,
            r is None <==> !has_key(self@.entries, key@),
    {
        let mut i: usize = 0;
        while i < self.entries.len()
            invariant
                i <= self.entries@.len(),
                self@.entries.len() == self.entries@.len(),
                forall|j: int| 0 <= j < i ==> self@.entries[j].0 != key@,
            decreases self.entries@.len() - i,
        {
            if str_eq(self.entries[i].0.as_str(), key) {
                assert(self@.entries[i as int].0 == key@);
                return Some(i);
            }
            i = i + 1;
        }
        None
    }

    /// The value at position `i`.
    pub fn value(&self, i: usize) -> (r: &V)
        requires
            i < self@.entries.len(),
        ensures
            *r == self@.entries[i as int].1,
    {
        &self.entries[i].1
    }

    /// Looks `key` up and marks it as the most recently used; returns its new
    /// position.
    pub fn get(&mut self, key: &str) -> (r: Option<usize>)
        requires
            old(self)@.wf(),
        ensures
            final(self)@.wf(),
            final(self)@.capacity == old(self)@.capacity,
            final(self)@.entries == touch_spec(old(self)@.entries, key@),
            r is None <==> !has_key(old(self)@.entries, key@),
            r matches Some(i) ==> i + 1 == final(self)@.entries.len()
                && final(self)@.entries[i as int] == old(self)@.entries[key_index(
                old(self)@.entries,
                key@,
            )],
    {
        match self.find(key) {
            None => None,
            Some(i) => {
                let ghost s = self@.entries;
                proof {
                    lemma_unique_index(s, key@, i as int);
                    lemma_remove_push_unique(s, i as int, s[i as int]);
                }
                let e = self.entries.remove(i);
                self.entries.push(e);
                assert(self@.entries =~= s.remove(i as int).push(s[i as int]));
                Some(self.entries.len() - 1)
            },
        }
    }

    /// Stores `value` under `key`, evicting the least recently used entry when
    /// a new key arrives at a full map.
    pub fn put(&mut self, key: String, value: V)
        requires
            old(self)@.wf(),
        ensures
            final(self)@.wf(),
            final(self)@.capacity == old(self)@.capacity,
            final(self)@.entries == put_spec(
                old(self)@.entries,
                old(self)@.capacity,
                key@,
                value,
            ),
    {
        let ghost s = self@.entries;
        let ghost k = key@;
        match self.find(key.as_str()) {
            Some(i) => {
                proof {
                    lemma_unique_index(s, k, i as int);
                    lemma_remove_push_unique(s, i as int, (k, value));
                }
                self.entries.remove(i);
                self.entries.push((key, value));
                assert(self@.entries =~= s.remove(i as int).push((k, value)));
            },
            None => {
                if self.capacity == 0 {
                    return ;
                }
                proof {
                    lemma_push_fresh_unique(s, (k, value));
                }
                if self.entries.len() >= self.capacity {
                    self.entries.remove(0);
                    self.entries.push((key, value));
                    assert(self@.entries =~= s.drop_first().push((k, value)));
                } else {
                    self.entries.push((key, value));
                    assert(self@.entries =~= s.push((k, value)));
                }
            },
        }
    }
}

/// Putting a new key into a full map evicts the least recently used key, which
/// afterwards is unknown to the map; the map stays within its capacity.
pub proof fn lemma_put_evicts_least_recent<V>(m: LruView<V>, k: Seq<char>, v: V)
    requires
        m.wf(),
        m.capacity > 0,
        m.entries.len() == m.capacity,
        !has_key(m.entries, k),
    ensures
        ({
            let after = put_spec(m.entries, m.capacity, k, v);
            &&& after.len() == m.capacity
            &&& !has_key(after, m.entries[0].0)
            &&& lookup(after, m.entries[0].0) is None
            &&& lookup(after, k) == Some(v)
            &&& LruView { entries: after, capacity: m.capacity }.wf()
        }),
{
    let s = m.entries;
    let after = put_spec(s, m.capacity, k, v);
    lemma_push_fresh_unique(s, (k, v));
    assert(after == s.drop_first().push((k, v)));
    if has_key(after, s[0].0) {
        let j = choose|j: int| 0 <= j < after.len() && #[trigger] after[j].0 == s[0].0;
        if j < after.len() - 1 {
            assert(s[j + 1].0 == s[0].0);
        } else {
            assert(s[0].0 == k);
        }
    }
    lemma_unique_index(after, k, after.len() - 1);
}

} // verus!
