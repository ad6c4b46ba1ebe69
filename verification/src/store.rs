//! A keyed store that lists its keys in ascending byte order, as the
//! contract's per-address records are kept and listed.

use vstd::prelude::*;
use crate::keyorder::{KeyOrder, compare_keys, key_lt, lemma_key_lt_total, lemma_key_lt_transitive};

verus! {

/// Keys listed in strictly ascending key order (hence without repeats).
pub open spec fn strictly_ascending(keys: Seq<Seq<char>>) -> bool {
    forall|i: int, j: int| 0 <= i < j < keys.len() ==> #[trigger] key_lt(keys[i], keys[j])
}

/// The keys of `m`, listed in ascending key order.
pub open spec fn sorted_keys<V>(m: Map<Seq<char>, V>) -> Seq<Seq<char>> {
    choose|s: Seq<Seq<char>>| lists_keys_of(s, m)
}

/// `s` lists the keys of `m`, each once, in ascending key order.
pub open spec fn lists_keys_of<V>(s: Seq<Seq<char>>, m: Map<Seq<char>, V>) -> bool {
    &&& strictly_ascending(s)
    &&& forall|k: Seq<char>| s.contains(k) <==> #[trigger] m.contains_key(k)
}

/// Two ascending listings of the same keys are the same listing.
pub proof fn lemma_ascending_listing_unique(a: Seq<Seq<char>>, b: Seq<Seq<char>>)
    requires
        strictly_ascending(a),
        strictly_ascending(b),
        forall|k: Seq<char>| a.contains(k) <==> b.contains(k),
    ensures
        a == b,
    decreases a.len(),
{
    if a.len() == 0 {
        if b.len() > 0 {
            assert(b.contains(b[0]));
        }
        assert(a =~= b);
    } else {
        assert(a.contains(a[0]));
        let j: int = choose|j: int| 0 <= j < b.len() && b[j] == a[0];
        assert(b.contains(b[0]));
        let i: int = choose|i: int| 0 <= i < a.len() && a[i] == b[0];
        if i > 0 && j > 0 {
            assert(key_lt(a[0], a[i]));
            assert(key_lt(b[0], b[j]));
            lemma_key_lt_total(a[0], b[0]);
        } else if i > 0 {
            assert(b[0] == a[0]);
        }
        assert(a[0] == b[0]);
        let a1 = a.drop_first();
        let b1 = b.drop_first();
        assert forall|k: Seq<char>| a1.contains(k) <==> b1.contains(k) by {
            if a1.contains(k) {
                let m: int = choose|m: int| 0 <= m < a1.len() && a1[m] == k;
                assert(a[m + 1] == k);
                assert(key_lt(a[0], a[m + 1]));
                lemma_key_lt_total(k, k);
                assert(b.contains(k));
                let n: int = choose|n: int| 0 <= n < b.len() && b[n] == k;
                assert(n != 0);
                assert(b1[n - 1] == k);
            }
            if b1.contains(k) {
                let m: int = choose|m: int| 0 <= m < b1.len() && b1[m] == k;
                assert(b[m + 1] == k);
                assert(key_lt(b[0], b[m + 1]));
                lemma_key_lt_total(k, k);
                assert(a.contains(k));
                let n: int = choose|n: int| 0 <= n < a.len() && a[n] == k;
                assert(n != 0);
                assert(a1[n - 1] == k);
            }
        }
        assert(strictly_ascending(a1)) by {
            assert forall|x: int, y: int| 0 <= x < y < a1.len() implies #[trigger] key_lt(a1[x], a1[y]) by {
                assert(key_lt(a[x + 1], a[y + 1]));
            }
        }
        assert(strictly_ascending(b1)) by {
            assert forall|x: int, y: int| 0 <= x < y < b1.len() implies #[trigger] key_lt(b1[x], b1[y]) by {
                assert(key_lt(b[x + 1], b[y + 1]));
            }
        }
        lemma_ascending_listing_unique(a1, b1);
        assert forall|x: int| 0 <= x < a.len() implies a[x] == b[x] by {
            if x > 0 {
                assert(a[x] == a1[x - 1]);
                assert(b[x] == b1[x - 1]);
            }
        }
        assert(a =~= b);
    }
}

/// `s` with `k` put in its place in key order.
pub open spec fn insert_sorted(s: Seq<Seq<char>>, k: Seq<char>) -> Seq<Seq<char>>
    decreases s.len(),
{
    if s.len() == 0 {
        seq![k]
    } else if key_lt(k, s[0]) {
        seq![k] + s
    } else {
        seq![s[0]] + insert_sorted(s.drop_first(), k)
    }
}

proof fn lemma_insert_sorted(s: Seq<Seq<char>>, k: Seq<char>)
    requires
        strictly_ascending(s),
        !s.contains(k),
    ensures
        strictly_ascending(insert_sorted(s, k)),
        forall|x: Seq<char>| #[trigger] insert_sorted(s, k).contains(x) <==> (s.contains(x) || x == k),
    decreases s.len(),
{
    let r = insert_sorted(s, k);
    if s.len() == 0 {
        assert(r =~= seq![k]);
        assert forall|x: Seq<char>| #[trigger] r.contains(x) <==> (s.contains(x) || x == k) by {
            if r.contains(x) {
                assert(r[0] == x);
            }
            if x == k {
                assert(r[0] == k);
            }
        }
    } else if key_lt(k, s[0]) {
        assert forall|i: int, j: int| 0 <= i < j < r.len() implies #[trigger] key_lt(r[i], r[j]) by {
            if i == 0 {
                if j > 1 {
                    assert(key_lt(s[0], s[j - 1]));
                    lemma_key_lt_transitive(k, s[0], s[j - 1]);
                }
            } else {
                assert(key_lt(s[i - 1], s[j - 1]));
            }
        }
        assert forall|x: Seq<char>| #[trigger] r.contains(x) <==> (s.contains(x) || x == k) by {
            if r.contains(x) {
                let i: int = choose|i: int| 0 <= i < r.len() && r[i] == x;
                if i > 0 {
                    assert(s[i - 1] == x);
                }
            }
            if s.contains(x) {
                let i: int = choose|i: int| 0 <= i < s.len() && s[i] == x;
                assert(r[i + 1] == x);
            }
            if x == k {
                assert(r[0] == k);
            }
        }
    } else {
        let s1 = s.drop_first();
        assert(k != s[0]) by {
            assert(s[0] == s[0]);
        }
        lemma_key_lt_total(k, s[0]);
        assert(key_lt(s[0], k));
        assert(strictly_ascending(s1)) by {
            assert forall|i: int, j: int| 0 <= i < j < s1.len() implies #[trigger] key_lt(s1[i], s1[j]) by {
                assert(key_lt(s[i + 1], s[j + 1]));
            }
        }
        assert(!s1.contains(k)) by {
            if s1.contains(k) {
                let i: int = choose|i: int| 0 <= i < s1.len() && s1[i] == k;
                assert(s[i + 1] == k);
            }
        }
        lemma_insert_sorted(s1, k);
        let r1 = insert_sorted(s1, k);
        assert(r == seq![s[0]] + r1);
        assert forall|j: int| 0 <= j < r1.len() implies key_lt(s[0], #[trigger] r1[j]) by {
            assert(r1.contains(r1[j]));
            if r1[j] != k {
                let m: int = choose|m: int| 0 <= m < s1.len() && s1[m] == r1[j];
                assert(key_lt(s[0], s[m + 1]));
            }
        }
        assert forall|i: int, j: int| 0 <= i < j < r.len() implies #[trigger] key_lt(r[i], r[j]) by {
            if i == 0 {
                assert(r[j] == r1[j - 1]);
            } else {
                assert(key_lt(r1[i - 1], r1[j - 1]));
            }
        }
        assert forall|x: Seq<char>| #[trigger] r.contains(x) <==> (s.contains(x) || x == k) by {
            if r.contains(x) {
                let i: int = choose|i: int| 0 <= i < r.len() && r[i] == x;
                if i > 0 {
                    assert(r1[i - 1] == x);
                    assert(r1.contains(x));
                    if x != k {
                        let m: int = choose|m: int| 0 <= m < s1.len() && s1[m] == x;
                        assert(s[m + 1] == x);
                    }
                }
            }
            if s.contains(x) {
                let i: int = choose|i: int| 0 <= i < s.len() && s[i] == x;
                if i == 0 {
                    assert(r[0] == x);
                } else {
                    assert(s1[i - 1] == x);
                    assert(r1.contains(x));
                    let m: int = choose|m: int| 0 <= m < r1.len() && r1[m] == x;
                    assert(r[m + 1] == x);
                }
            }
            if x == k {
                assert(r1.contains(k));
                let m: int = choose|m: int| 0 <= m < r1.len() && r1[m] == k;
                assert(r[m + 1] == k);
            }
        }
    }
}

/// Every map with finitely many keys has an ascending listing of them.
pub proof fn lemma_sorted_keys_exist<V>(m: Map<Seq<char>, V>)
    requires
        m.dom().finite(),
    ensures
        lists_keys_of(sorted_keys(m), m),
    decreases m.dom().len(),
{
    if m.dom().len() == 0 {
        m.dom().lemma_len0_is_empty();
        let e = Seq::<Seq<char>>::empty();
        assert(lists_keys_of(e, m));
    } else {
        let k = m.dom().choose();
        assert(m.dom().contains(k)) by {
            vstd::set::axiom_set_choose_len(m.dom());
        }
        let m2 = m.remove(k);
        assert(m2.dom() =~= m.dom().remove(k));
        lemma_sorted_keys_exist(m2);
        let s = sorted_keys(m2);
        assert(!s.contains(k));
        lemma_insert_sorted(s, k);
        let t = insert_sorted(s, k);
        assert forall|x: Seq<char>| t.contains(x) <==> #[trigger] m.contains_key(x) by {
            assert(t.contains(x) <==> (s.contains(x) || x == k));
            assert(s.contains(x) <==> m2.contains_key(x));
        }
        assert(lists_keys_of(t, m));
    }
}

/// The views of a list of strings.
pub open spec fn string_views(v: Seq<String>) -> Seq<Seq<char>> {
    Seq::new(v.len(), |i: int| v[i]@)
}

/// Records keyed by address, kept sorted by key.
pub struct KeyedStore<V> {
    entries: Vec<(String, V)>,
}

impl<V: View> KeyedStore<V> {
    /// The stored keys, in the order in which they are listed.
    pub closed spec fn keys(&self) -> Seq<Seq<char>> {
        Seq::new(self.entries@.len(), |i: int| self.entries@[i].0@)
    }

    /// The store's invariant: keys are strictly ascending.
    pub closed spec fn wf(&self) -> bool {
        strictly_ascending(self.keys())
    }

    closed spec fn key_index(&self, k: Seq<char>) -> int {
        choose|i: int| 0 <= i < self.keys().len() && self.keys()[i] == k
    }

    /// The records as a map from key to value.
    pub closed spec fn as_map(&self) -> Map<Seq<char>, V::V> {
        Map::new(
            |k: Seq<char>| self.keys().contains(k),
            |k: Seq<char>| self.entries@[self.key_index(k)].1@,
        )
    }

    proof fn lemma_key_index(&self, i: int)
        requires
            self.wf(),
            0 <= i < self.keys().len(),
        ensures
            self.key_index(self.keys()[i]) == i,
            self.as_map().contains_key(self.keys()[i]),
            self.as_map()[self.keys()[i]] == self.entries@[i].1@,
    {
        let k = self.keys()[i];
        assert(self.keys().contains(k));
        let j = self.key_index(k);
        lemma_key_lt_total(k, k);
        if j < i {
            assert(key_lt(self.keys()[j], self.keys()[i]));
        } else if i < j {
            assert(key_lt(self.keys()[i], self.keys()[j]));
        }
    }

    /// The listed keys are the keys of the map in ascending order.
    pub proof fn lemma_keys_are_sorted_domain(&self)
        requires
            self.wf(),
        ensures
            self.keys() == sorted_keys(self.as_map()),
            lists_keys_of(self.keys(), self.as_map()),
            self.as_map().dom().finite(),
    {
        let m = self.as_map();
        assert(m.dom() =~= self.keys().to_set());
        assert(lists_keys_of(self.keys(), m));
        let s = sorted_keys(m);
        assert(lists_keys_of(s, m));
        assert forall|k: Seq<char>| self.keys().contains(k) <==> s.contains(k) by {
            assert(self.keys().contains(k) <==> m.contains_key(k));
            assert(s.contains(k) <==> m.contains_key(k));
        }
        lemma_ascending_listing_unique(self.keys(), s);
    }

    proof fn lemma_keys_no_duplicates(&self)
        requires
            self.wf(),
        ensures
            self.keys().no_duplicates(),
    {
        assert forall|i: int, j: int|
            0 <= i < self.keys().len() && 0 <= j < self.keys().len() && i != j implies
            self.keys()[i] != self.keys()[j] by {
            lemma_key_lt_total(self.keys()[i], self.keys()[i]);
            if i < j {
                assert(key_lt(self.keys()[i], self.keys()[j]));
            } else {
                assert(key_lt(self.keys()[j], self.keys()[i]));
            }
        }
    }

    /// An empty store.
    pub fn new() -> (s: Self)
        ensures
            s.wf(),
            s.as_map() == Map::<Seq<char>, V::V>::empty(),
            s.keys() == Seq::<Seq<char>>::empty(),
    {
        let s = KeyedStore { entries: Vec::new() };
        assert(s.keys() =~= Seq::<Seq<char>>::empty());
        assert(s.as_map() =~= Map::<Seq<char>, V::V>::empty());
        s
    }

    /// The number of records.
    pub fn len(&self) -> (n: usize)
        ensures
            n == self.keys().len(),
    {
        self.entries.len()
    }

    /// Where `key` is, or where it would go: every key before the returned
    /// position is smaller, and a missing key is smaller than the key at
    /// the position.
    fn search(&self, key: &str) -> (r: (usize, bool))
        requires
            self.wf(),
        ensures
            r.0 <= self.keys().len(),
            forall|j: int| 0 <= j < r.0 ==> key_lt(#[trigger] self.keys()[j], key@),
            r.1 ==> r.0 < self.keys().len() && self.keys()[r.0 as int] == key@,
            !r.1 ==> forall|j: int|
                r.0 <= j < self.keys().len() ==> key_lt(key@, #[trigger] self.keys()[j]),
            r.1 <==> self.keys().contains(key@),
    {
        let mut i: usize = 0;
        while i < self.entries.len()
            invariant
                self.wf(),
                i <= self.keys().len(),
                self.keys().len() == self.entries@.len(),
                forall|j: int| 0 <= j < i ==> key_lt(#[trigger] self.keys()[j], key@),
            decreases self.entries@.len() - i,
        {
            let c = compare_keys(self.entries[i].0.as_str(), key);
            assert(self.keys()[i as int] == self.entries@[i as int].0@);
            match c {
                KeyOrder::Less => {},
                KeyOrder::Equal => {
                    assert(self.keys().contains(key@));
                    return (i, true);
                },
                KeyOrder::Greater => {
                    assert forall|j: int| i <= j < self.keys().len() implies key_lt(
                        key@,
                        #[trigger] self.keys()[j],
                    ) by {
                        if j > i {
                            lemma_key_lt_transitive(key@, self.keys()[i as int], self.keys()[j]);
                        }
                    }
                    assert forall|j: int| 0 <= j < self.keys().len() implies self.keys()[j]
                        != key@ by {
                        lemma_key_lt_total(key@, key@);
                    }
                    return (i, false);
                },
            }
            i = i + 1;
        }
        assert forall|j: int| 0 <= j < self.keys().len() implies self.keys()[j] != key@ by {
            lemma_key_lt_total(key@, key@);
        }
        (i, false)
    }

    /// The value stored under `key`, if any.
    pub fn get(&self, key: &str) -> (r: Option<&V>)
        requires
            self.wf(),
        ensures
            r is Some <==> self.as_map().contains_key(key@),
            r matches Some(v) ==> v@ == self.as_map()[key@],
    {
        let (i, found) = self.search(key);
        if found {
            proof {
                self.lemma_key_index(i as int);
            }
            Some(&self.entries[i].1)
        } else {
            None
        }
    }

    /// Stores `value` under `key`, replacing what was there.
    pub fn insert(&mut self, key: String, value: V)
        requires
            old(self).wf(),
        ensures
            final(self).wf(),
            final(self).as_map() == old(self).as_map().insert(key@, value@),
    {
        let (i, found) = self.search(key.as_str());
        let ghost k = key@;
        let ghost v = value@;
        let ghost old_keys = self.keys();
        let ghost old_entries = self.entries@;
        if found {
            self.entries.set(i, (key, value));
            assert(self.keys() =~= old_keys);
        } else {
            self.entries.insert(i, (key, value));
            assert(self.keys() =~= old_keys.insert(i as int, k));
            assert forall|a: int, b: int| 0 <= a < b < self.keys().len() implies #[trigger] key_lt(
                self.keys()[a],
                self.keys()[b],
            ) by {
                if b < i {
                    assert(key_lt(old_keys[a], old_keys[b]));
                } else if b == i {
                    assert(key_lt(old_keys[a], k));
                } else if a < i {
                    assert(key_lt(old_keys[a], k));
                    assert(key_lt(k, old_keys[b - 1]));
                    lemma_key_lt_transitive(old_keys[a], k, old_keys[b - 1]);
                } else if a == i {
                    assert(key_lt(k, old_keys[b - 1]));
                } else {
                    assert(key_lt(old_keys[a - 1], old_keys[b - 1]));
                }
            }
        }
        proof {
            let om = old(self).as_map().insert(k, v);
            let nm = self.as_map();
            assert forall|kk: Seq<char>| #[trigger] nm.contains_key(kk) <==> om.contains_key(kk) by {
                if om.contains_key(kk) && kk != k {
                    let q: int = choose|q: int| 0 <= q < old_keys.len() && old_keys[q] == kk;
                    if found || q < i {
                        assert(self.keys()[q] == kk);
                    } else {
                        assert(self.keys()[q + 1] == kk);
                    }
                }
                if kk == k {
                    assert(self.keys()[i as int] == k);
                }
            }
            assert forall|kk: Seq<char>| #[trigger] nm.contains_key(kk) implies nm[kk] == om[kk] by {
                if kk == k {
                    assert(self.keys()[i as int] == k);
                    self.lemma_key_index(i as int);
                } else {
                    let q: int = choose|q: int| 0 <= q < old_keys.len() && old_keys[q] == kk;
                    old(self).lemma_key_index(q);
                    if found || q < i {
                        assert(self.keys()[q] == kk);
                        self.lemma_key_index(q);
                    } else {
                        assert(self.keys()[q + 1] == kk);
                        self.lemma_key_index(q + 1);
                    }
                }
            }
            assert(nm =~= om);
        }
    }

    /// Removes the record under `key`, if there is one.
    pub fn remove(&mut self, key: &str)
        requires
            old(self).wf(),
        ensures
            final(self).wf(),
            final(self).as_map() == old(self).as_map().remove(key@),
    {
        let (i, found) = self.search(key);
        if found {
            let ghost old_keys = self.keys();
            self.entries.remove(i);
            assert(self.keys() =~= old_keys.remove(i as int));
            assert forall|a: int, b: int| 0 <= a < b < self.keys().len() implies #[trigger] key_lt(
                self.keys()[a],
                self.keys()[b],
            ) by {
                if b < i {
                    assert(key_lt(old_keys[a], old_keys[b]));
                } else if a < i {
                    assert(key_lt(old_keys[a], old_keys[b + 1]));
                } else {
                    assert(key_lt(old_keys[a + 1], old_keys[b + 1]));
                }
            }
            proof {
                let om = old(self).as_map().remove(key@);
                let nm = self.as_map();
                old(self).lemma_keys_no_duplicates();
                assert forall|kk: Seq<char>| #[trigger] nm.contains_key(kk) <==> om.contains_key(kk) by {
                    if om.contains_key(kk) {
                        let q: int = choose|q: int| 0 <= q < old_keys.len() && old_keys[q] == kk;
                        if q < i {
                            assert(self.keys()[q] == kk);
                        } else {
                            assert(q != i);
                            assert(self.keys()[q - 1] == kk);
                        }
                    }
                    if nm.contains_key(kk) {
                        let q: int = choose|q: int| 0 <= q < self.keys().len() && self.keys()[q] == kk;
                        if q < i {
                            assert(old_keys[q] == kk);
                        } else {
                            assert(old_keys[q + 1] == kk);
                        }
                        assert(old_keys.contains(kk));
                    }
                }
                assert forall|kk: Seq<char>| #[trigger] nm.contains_key(kk) implies nm[kk] == om[kk] by {
                    let q: int = choose|q: int| 0 <= q < old_keys.len() && old_keys[q] == kk;
                    old(self).lemma_key_index(q);
                    if q < i {
                        assert(self.keys()[q] == kk);
                        self.lemma_key_index(q);
                    } else {
                        assert(self.keys()[q - 1] == kk);
                        self.lemma_key_index(q - 1);
                    }
                }
                assert(nm =~= om);
            }
        } else {
            assert(old(self).as_map().remove(key@) =~= old(self).as_map());
        }
    }

    /// The keys, in ascending order.
    pub fn key_list(&self) -> (r: Vec<String>)
        requires
            self.wf(),
        ensures
            string_views(r@) == self.keys(),
            string_views(r@) == sorted_keys(self.as_map()),
    {
        proof {
            self.lemma_keys_are_sorted_domain();
        }
        let mut r: Vec<String> = Vec::new();
        let mut i: usize = 0;
        while i < self.entries.len()
            invariant
                i <= self.entries@.len(),
                r@.len() == i,
                forall|j: int| 0 <= j < i ==> #[trigger] r@[j]@ == self.keys()[j],
            decreases self.entries@.len() - i,
        {
            r.push(self.entries[i].0.clone());
            i = i + 1;
        }
        assert(string_views(r@) =~= self.keys());
        r
    }
}

} // verus!
