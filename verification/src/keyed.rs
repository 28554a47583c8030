//! Per-session maps keyed by session id, with optional least-recently-used
//! bounding.
//!
//! Entries live in one vector in recency order (least recent first); keys
//! are distinct. The view is the map from key characters to values, and
//! `order()` is the recency sequence of keys.

use vstd::prelude::*;
use crate::json::eq_str;

verus! {

/// Entry `j` carries key `k`.
pub open spec fn has_key_at<V>(s: Seq<(String, V)>, k: Seq<char>, j: int) -> bool {
    0 <= j < s.len() && s[j].0@ == k
}

/// No two entries share a key.
pub open spec fn distinct_keys<V>(s: Seq<(String, V)>) -> bool {
    forall|i: int, j: int| 0 <= i < s.len() && 0 <= j < s.len() && i != j ==> s[i].0@ != s[j].0@
}

/// The map the entries denote.
pub open spec fn entries_map<V>(s: Seq<(String, V)>) -> Map<Seq<char>, V> {
    Map::new(
        |k: Seq<char>| exists|j: int| has_key_at(s, k, j),
        |k: Seq<char>| s[choose|j: int| has_key_at(s, k, j)].1,
    )
}

/// The keys in recency order.
/// `after` is `before` with key `k` (found at some position) moved to the
/// most recent end.
pub open spec fn moved_last(before: Seq<Seq<char>>, after: Seq<Seq<char>>, k: Seq<char>) -> bool {
    exists|j: int| 0 <= j < before.len() && before[j] == k && after == before.remove(j).push(k)
}

pub open spec fn entries_keys<V>(s: Seq<(String, V)>) -> Seq<Seq<char>> {
    s.map_values(|e: (String, V)| e.0@)
}

/// A session-keyed map whose entries keep recency order.
pub struct SessionMap<V> {
    entries: Vec<(String, V)>,
    capacity: usize,
}

proof fn lemma_lookup<V>(s: Seq<(String, V)>, j: int)
    requires
        distinct_keys(s),
        0 <= j < s.len(),
    ensures
        entries_map(s).contains_key(s[j].0@),
        entries_map(s)[s[j].0@] == s[j].1,
{
    let k = s[j].0@;
    assert(has_key_at(s, k, j));
    let c = choose|i: int| has_key_at(s, k, i);
    assert(c == j);
}

impl<V> View for SessionMap<V> {
    type V = Map<Seq<char>, V>;

    closed spec fn view(&self) -> Map<Seq<char>, V> {
        entries_map(self.entries@)
    }
}

impl<V> SessionMap<V> {
    /// Keys are distinct.
    pub closed spec fn wf(&self) -> bool {
        &&& distinct_keys(self.entries@)
        &&& self.capacity > 0
        &&& self.entries@.len() <= self.capacity
    }

    /// Most entries the map holds.
    pub closed spec fn capacity_spec(&self) -> nat {
        self.capacity as nat
    }

    /// Keys in recency order, least recent first.
    pub closed spec fn order(&self) -> Seq<Seq<char>> {
        entries_keys(self.entries@)
    }

    pub closed spec fn len_spec(&self) -> nat {
        self.entries@.len()
    }

    /// Law: the recency order lists exactly the keys of the map, each once,
    /// so the map holds as many entries as the order is long.
    pub proof fn order_lists_each_key_once(&self)
        requires
            self.wf(),
        ensures
            self.order().len() == self.len_spec(),
            forall|k: Seq<char>| self@.contains_key(k) <==> self.order().contains(k),
            self.order().no_duplicates(),
            self@.dom().finite(),
            self@.dom().len() == self.len_spec(),
    {
        let s = self.entries@;
        let o = self.order();
        assert forall|k: Seq<char>| self@.contains_key(k) <==> o.contains(k) by {
            if self@.contains_key(k) {
                let j = choose|j: int| has_key_at(s, k, j);
                assert(o[j] == k);
            }
            if o.contains(k) {
                let j = choose|j: int| 0 <= j < o.len() && o[j] == k;
                assert(has_key_at(s, k, j));
            }
        }
        assert(o.no_duplicates());
        o.unique_seq_to_set();
        assert(self@.dom() =~= o.to_set());
    }

    /// An empty map without a practical bound.
    pub fn new() -> (r: SessionMap<V>)
        ensures
            r.wf(),
            r@ == Map::<Seq<char>, V>::empty(),
            r.order() == Seq::<Seq<char>>::empty(),
            r.capacity_spec() == usize::MAX,
    {
        Self::with_capacity(usize::MAX)
    }

    /// An empty map holding at most `capacity` entries.
    pub fn with_capacity(capacity: usize) -> (r: SessionMap<V>)
        requires
            capacity > 0,
        ensures
            r.wf(),
            r@ == Map::<Seq<char>, V>::empty(),
            r.order() == Seq::<Seq<char>>::empty(),
            r.capacity_spec() == capacity,
    {
        let r = SessionMap { entries: Vec::new(), capacity };
        assert(r@ =~= Map::<Seq<char>, V>::empty());
        assert(r.order() =~= Seq::<Seq<char>>::empty());
        r
    }

    /// Number of entries.
    pub fn len(&self) -> (r: usize)
        ensures
            r == self.len_spec(),
    {
        self.entries.len()
    }

    /// A well-formed map holds at most its capacity.
    pub proof fn lemma_len_bounded(&self)
        requires
            self.wf(),
        ensures
            self.len_spec() <= self.capacity_spec(),
    {
    }

    fn find(&self, key: &str) -> (r: Option<usize>)
        requires
            self.wf(),
        ensures
            match r {
                Some(j) => has_key_at(self.entries@, key@, j as int),
                None => !self@.contains_key(key@),
            },
    {
        let mut i: usize = 0;
        while i < self.entries.len()
            invariant
                i <= self.entries@.len(),
                forall|j: int| 0 <= j < i ==> !has_key_at(self.entries@, key@, j),
            decreases self.entries.len() - i,
        {
            if eq_str(self.entries[i].0.as_str(), key) {
                return Some(i);
            }
            i += 1;
        }
        None
    }

    /// The value stored under `key`.
    pub fn get(&self, key: &str) -> (r: Option<&V>)
        requires
            self.wf(),
        ensures
            match r {
                Some(v) => self@.contains_key(key@) && self@[key@] == *v,
                None => !self@.contains_key(key@),
            },
    {
        match self.find(key) {
            Some(j) => {
                proof {
                    lemma_lookup(self.entries@, j as int);
                }
                Some(&self.entries[j].1)
            },
            None => None,
        }
    }

    /// `key` is present.
    pub fn contains_key(&self, key: &str) -> (r: bool)
        requires
            self.wf(),
        ensures
            r == self@.contains_key(key@),
    {
        match self.find(key) {
            Some(j) => {
                proof {
                    lemma_lookup(self.entries@, j as int);
                }
                true
            },
            None => false,
        }
    }

    /// Set `key` to `value`; a present key keeps its recency position, a new
    /// key becomes the most recent.
    pub fn insert(&mut self, key: String, value: V)
        requires
            old(self).wf(),
            old(self)@.contains_key(key@) || old(self).len_spec() < old(self).capacity_spec()
                || old(self).capacity_spec() == usize::MAX,
        ensures
            final(self).wf(),
            final(self).capacity_spec() == old(self).capacity_spec(),
            final(self).len_spec() == old(self).len_spec() + if old(self)@.contains_key(key@) {
                0int
            } else {
                1
            },
            final(self)@ == old(self)@.insert(key@, value),
            old(self)@.contains_key(key@) ==> final(self).order() == old(self).order(),
            !old(self)@.contains_key(key@) ==> final(self).order() == old(self).order().push(key@),
    {
        let ghost old_s = self.entries@;
        let ghost k = key@;
        match self.find(key.as_str()) {
            Some(j) => {
                self.entries.set(j, (key, value));
                proof {
                    let s = self.entries@;
                    assert(s == old_s.update(j as int, (s[j as int].0, value)));
                    assert(distinct_keys(s));
                    assert forall|q: Seq<char>| #[trigger] entries_map(s).contains_key(q)
                        <==> entries_map(old_s).insert(k, value).contains_key(q) by {
                        if q == k {
                            assert(has_key_at(s, q, j as int));
                        } else {
                            if entries_map(old_s).contains_key(q) {
                                let i = choose|i: int| has_key_at(old_s, q, i);
                                assert(has_key_at(s, q, i));
                            }
                            if entries_map(s).contains_key(q) {
                                let i = choose|i: int| has_key_at(s, q, i);
                                assert(has_key_at(old_s, q, i));
                            }
                        }
                    }
                    assert forall|q: Seq<char>| #[trigger] entries_map(s).contains_key(q) implies entries_map(s)[q] == entries_map(old_s).insert(k, value)[q] by {
                        let i = choose|i: int| has_key_at(s, q, i);
                        lemma_lookup(s, i);
                        if q != k {
                            assert(has_key_at(old_s, q, i));
                            lemma_lookup(old_s, i);
                        }
                    }
                    assert(entries_map(s) =~= entries_map(old_s).insert(k, value));
                    assert(entries_keys(s) =~= entries_keys(old_s));
                }
            },
            None => {
                self.entries.push((key, value));
                let new_len = self.entries.len();
                proof {
                    assert(new_len == self.entries@.len());
                    let s = self.entries@;
                    assert(s == old_s.push(s[s.len() - 1]));
                    assert(distinct_keys(s)) by {
                        assert forall|i: int, j: int|
                            0 <= i < s.len() && 0 <= j < s.len() && i != j implies s[i].0@
                            != s[j].0@ by {
                            if i == s.len() - 1 && j < old_s.len() {
                                assert(!has_key_at(old_s, k, j));
                            }
                            if j == s.len() - 1 && i < old_s.len() {
                                assert(!has_key_at(old_s, k, i));
                            }
                        }
                    }
                    assert forall|q: Seq<char>| #[trigger] entries_map(s).contains_key(q)
                        <==> entries_map(old_s).insert(k, value).contains_key(q) by {
                        if q == k {
                            assert(has_key_at(s, q, s.len() - 1));
                        } else {
                            if entries_map(old_s).contains_key(q) {
                                let i = choose|i: int| has_key_at(old_s, q, i);
                                assert(has_key_at(s, q, i));
                            }
                            if entries_map(s).contains_key(q) {
                                let i = choose|i: int| has_key_at(s, q, i);
                                assert(has_key_at(old_s, q, i));
                            }
                        }
                    }
                    assert forall|q: Seq<char>| #[trigger] entries_map(s).contains_key(q) implies entries_map(s)[q] == entries_map(old_s).insert(k, value)[q] by {
                        let i = choose|i: int| has_key_at(s, q, i);
                        lemma_lookup(s, i);
                        if q != k {
                            assert(has_key_at(old_s, q, i));
                            lemma_lookup(old_s, i);
                        }
                    }
                    assert(entries_map(s) =~= entries_map(old_s).insert(k, value));
                    assert(entries_keys(s) =~= entries_keys(old_s).push(k));
                }
            },
        }
    }

    /// Remove `key`, returning its value; the others keep their relative order.
    pub fn remove(&mut self, key: &str) -> (r: Option<V>)
        requires
            old(self).wf(),
        ensures
            final(self).wf(),
            final(self).capacity_spec() == old(self).capacity_spec(),
            final(self).len_spec() == old(self).len_spec() - if old(self)@.contains_key(key@) {
                1int
            } else {
                0
            },
            final(self)@ == old(self)@.remove(key@),
            match r {
                Some(v) => old(self)@.contains_key(key@) && old(self)@[key@] == v,
                None => !old(self)@.contains_key(key@),
            },
            old(self)@.contains_key(key@) ==> exists|j: int|
                0 <= j < old(self).order().len() && old(self).order()[j] == key@ && final(self).order() == old(self).order().remove(j),
            !old(self)@.contains_key(key@) ==> final(self).order() == old(self).order(),
    {
        let ghost old_s = self.entries@;
        let ghost k = key@;
        match self.find(key) {
            Some(j) => {
                proof {
                    lemma_lookup(old_s, j as int);
                }
                let (_, v) = self.entries.remove(j);
                proof {
                    let s = self.entries@;
                    assert(s == old_s.remove(j as int));
                    assert(distinct_keys(s)) by {
                        assert forall|a: int, b: int|
                            0 <= a < s.len() && 0 <= b < s.len() && a != b implies s[a].0@
                            != s[b].0@ by {
                            let a2 = if a < j { a } else { a + 1 };
                            let b2 = if b < j { b } else { b + 1 };
                            assert(s[a] == old_s[a2]);
                            assert(s[b] == old_s[b2]);
                        }
                    }
                    assert forall|q: Seq<char>| #[trigger] entries_map(s).contains_key(q)
                        <==> entries_map(old_s).remove(k).contains_key(q) by {
                        if entries_map(s).contains_key(q) {
                            let i = choose|i: int| has_key_at(s, q, i);
                            let i2 = if i < j { i } else { i + 1 };
                            assert(s[i] == old_s[i2]);
                            assert(has_key_at(old_s, q, i2));
                            assert(q != k);
                        }
                        if entries_map(old_s).remove(k).contains_key(q) {
                            let i = choose|i: int| has_key_at(old_s, q, i);
                            assert(i != j);
                            let i2 = if i < j { i } else { i - 1 };
                            assert(s[i2] == old_s[i]);
                            assert(has_key_at(s, q, i2));
                        }
                    }
                    assert forall|q: Seq<char>| #[trigger] entries_map(s).contains_key(q) implies entries_map(s)[q] == entries_map(old_s).remove(k)[q] by {
                        let i = choose|i: int| has_key_at(s, q, i);
                        lemma_lookup(s, i);
                        let i2 = if i < j { i } else { i + 1 };
                        assert(s[i] == old_s[i2]);
                        lemma_lookup(old_s, i2);
                    }
                    assert(entries_map(s) =~= entries_map(old_s).remove(k));
                    assert(entries_keys(s) =~= entries_keys(old_s).remove(j as int));
                    assert(entries_keys(old_s)[j as int] == k);
                    assert(self.order() == entries_keys(s));
                    assert(old(self).order() == entries_keys(old_s));
                    assert(0 <= j < old(self).order().len() && old(self).order()[j as int] == key@
                        && self.order() == old(self).order().remove(j as int));
                }
                Some(v)
            },
            None => {
                proof {
                    assert(entries_map(old_s) =~= entries_map(old_s).remove(k));
                }
                None
            },
        }
    }

    /// Move `key` to the most recent position (no change when absent).
    pub fn touch(&mut self, key: &str)
        requires
            old(self).wf(),
        ensures
            final(self).wf(),
            final(self).capacity_spec() == old(self).capacity_spec(),
            final(self).len_spec() == old(self).len_spec(),
            final(self)@ == old(self)@,
            old(self)@.contains_key(key@) ==> moved_last(old(self).order(), final(self).order(), key@),
            !old(self)@.contains_key(key@) ==> final(self).order() == old(self).order(),
    {
        let ghost old_map = self@;
        match self.remove(key) {
            Some(v) => {
                self.insert(key.to_owned(), v);
                proof {
                    assert(old_map.remove(key@).insert(key@, v) =~= old_map);
                }
            },
            None => {},
        }
    }

    /// Set `key` to `value` as the most recently used entry. When `key` is
    /// new and the map is full, the least recently used entry is evicted
    /// first, so the map never exceeds its capacity.
    pub fn insert_lru(&mut self, key: String, value: V)
        requires
            old(self).wf(),
        ensures
            final(self).wf(),
            final(self).capacity_spec() == old(self).capacity_spec(),
            final(self).len_spec() <= final(self).capacity_spec(),
            final(self).order().last() == key@,
            old(self)@.contains_key(key@) ==> final(self)@ == old(self)@.insert(key@, value)
                && final(self).len_spec() == old(self).len_spec() && moved_last(old(self).order(), final(self).order(), key@),
            !old(self)@.contains_key(key@) && old(self).len_spec() < old(self).capacity_spec()
                ==> final(self)@ == old(self)@.insert(key@, value) && final(self).order() == old(
                self,
            ).order().push(key@),
            !old(self)@.contains_key(key@) && old(self).len_spec() >= old(self).capacity_spec()
                ==> final(self)@ == old(self)@.remove(old(self).order()[0]).insert(key@, value)
                && final(self).order() == old(self).order().skip(1).push(key@),
    {
        let ghost old_map = self@;
        let ghost old_order = self.order();
        match self.remove(key.as_str()) {
            Some(_) => {
                self.insert(key, value);
                proof {
                    assert(old_map.remove(key@).insert(key@, value) =~= old_map.insert(key@, value));
                }
            },
            None => {
                if self.entries.len() >= self.capacity {
                    let oldest = self.entries[0].0.clone();
                    proof {
                        assert(self.order()[0] == oldest@);
                        lemma_lookup(self.entries@, 0);
                    }
                    let _ = self.remove(oldest.as_str());
                    proof {
                        let j = choose|j: int| 0 <= j < old_order.len() && old_order[j] == oldest@
                            && self.order() == old_order.remove(j);
                        if j != 0 {
                            assert(old_order[j] == old(self).entries@[j].0@);
                            assert(old_order[0] == old(self).entries@[0].0@);
                        }
                        assert(j == 0);
                        assert(old_order.remove(0) =~= old_order.skip(1));
                    }
                    self.insert(key, value);
                } else {
                    self.insert(key, value);
                }
            },
        }
    }
}

} // verus!
