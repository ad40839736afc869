//! A map keyed by strings, kept in ascending key order.
use vstd::prelude::*;

use crate::text::to_chars;

verus! {

/// Lexicographic order on character sequences (by code point), as `String`'s `Ord`.
pub open spec fn str_lt(a: Seq<char>, b: Seq<char>) -> bool
    decreases a.len(),
{
    if a.len() == 0 {
        b.len() > 0
    } else if b.len() == 0 {
        false
    } else if a[0] < b[0] {
        true
    } else if a[0] == b[0] {
        str_lt(a.drop_first(), b.drop_first())
    } else {
        false
    }
}

/// `str_lt` is irreflexive.
pub proof fn lemma_str_lt_irreflexive(a: Seq<char>)
    ensures
        !str_lt(a, a),
    decreases a.len(),
{
    if a.len() > 0 {
        lemma_str_lt_irreflexive(a.drop_first());
    }
}

/// `str_lt` is transitive.
pub proof fn lemma_str_lt_transitive(a: Seq<char>, b: Seq<char>, c: Seq<char>)
    requires
        str_lt(a, b),
        str_lt(b, c),
    ensures
        str_lt(a, c),
    decreases a.len(),
{
    if a.len() > 0 && b.len() > 0 && c.len() > 0 {
        if a[0] == b[0] && b[0] == c[0] {
            lemma_str_lt_transitive(a.drop_first(), b.drop_first(), c.drop_first());
        }
    }
}

/// `str_lt` is total on distinct sequences.
pub proof fn lemma_str_lt_total(a: Seq<char>, b: Seq<char>)
    ensures
        a == b || str_lt(a, b) || str_lt(b, a),
    decreases a.len(),
{
    if a.len() > 0 && b.len() > 0 {
        if a[0] == b[0] {
            lemma_str_lt_total(a.drop_first(), b.drop_first());
            if a.drop_first() == b.drop_first() {
                assert(a =~= seq![a[0]] + a.drop_first());
                assert(b =~= seq![b[0]] + b.drop_first());
            }
        }
    } else if a.len() == 0 && b.len() == 0 {
        assert(a =~= b);
    }
}

/// `str_lt` is asymmetric.
pub proof fn lemma_str_lt_asymmetric(a: Seq<char>, b: Seq<char>)
    requires
        str_lt(a, b),
    ensures
        !str_lt(b, a),
{
    if str_lt(b, a) {
        lemma_str_lt_transitive(a, b, a);
        lemma_str_lt_irreflexive(a);
    }
}

/// Lexicographic comparison of two character slices: `Some(true)` when `a < b`,
/// `Some(false)` when `b < a`, `None` when equal.
pub fn compare_chars(a: &[char], b: &[char]) -> (r: Option<bool>)
    ensures
        r == Some(true) <==> str_lt(a@, b@),
        r == Some(false) <==> str_lt(b@, a@),
        r is None <==> a@ == b@,
{
    let mut i: usize = 0;
    assert(a@.skip(0) =~= a@);
    assert(b@.skip(0) =~= b@);
    while i < a.len() && i < b.len()
        invariant
            i <= a.len(),
            i <= b.len(),
            a@.take(i as int) == b@.take(i as int),
            str_lt(a@, b@) == str_lt(a@.skip(i as int), b@.skip(i as int)),
            str_lt(b@, a@) == str_lt(b@.skip(i as int), a@.skip(i as int)),
        decreases a.len() - i,
    {
        if a[i] != b[i] {
            proof {
                assert(a@.skip(i as int)[0] == a@[i as int]);
                assert(b@.skip(i as int)[0] == b@[i as int]);
                lemma_prefix_differs(a@, b@, i as int);
            }
            if a[i] < b[i] {
                return Some(true);
            } else {
                return Some(false);
            }
        }
        proof {
            assert(a@.skip(i as int).drop_first() =~= a@.skip(i + 1));
            assert(b@.skip(i as int).drop_first() =~= b@.skip(i + 1));
            assert(a@.take(i + 1) =~= a@.take(i as int).push(a@[i as int]));
            assert(b@.take(i + 1) =~= b@.take(i as int).push(b@[i as int]));
        }
        i = i + 1;
    }
    if a.len() < b.len() {
        proof { lemma_prefix_differs(a@, b@, i as int); }
        Some(true)
    } else if b.len() < a.len() {
        proof { lemma_prefix_differs(a@, b@, i as int); }
        Some(false)
    } else {
        assert(a@ =~= a@.take(i as int));
        assert(b@ =~= b@.take(i as int));
        proof { lemma_str_lt_irreflexive(a@); }
        None
    }
}

/// Sequences with a common prefix that differ after it are not equal.
proof fn lemma_prefix_differs(a: Seq<char>, b: Seq<char>, i: int)
    requires
        0 <= i <= a.len(),
        i <= b.len(),
        a.take(i) == b.take(i),
        (i < a.len() && i < b.len() && a[i] != b[i]) || a.len() != b.len(),
    ensures
        a != b,
{
    if i < a.len() && i < b.len() && a[i] != b[i] {
        assert(a[i] != b[i]);
    }
}

/// Keys in strictly ascending order.
pub open spec fn keys_sorted(keys: Seq<Seq<char>>) -> bool {
    forall|i: int, j: int| 0 <= i < j < keys.len() ==> str_lt(keys[i], keys[j])
}

/// The keys of a list of entries.
pub open spec fn keys_of<V>(e: Seq<(String, V)>) -> Seq<Seq<char>> {
    Seq::new(e.len(), |i: int| e[i].0@)
}

/// The values of a list of entries.
pub open spec fn values_of<V>(e: Seq<(String, V)>) -> Seq<V> {
    Seq::new(e.len(), |i: int| e[i].1)
}

/// The mathematical map of a list of entries.
pub open spec fn map_of<V>(e: Seq<(String, V)>) -> Map<Seq<char>, V> {
    Map::new(
        |k: Seq<char>| keys_of(e).contains(k),
        |k: Seq<char>| values_of(e)[keys_of(e).index_of(k)],
    )
}

/// Sorted keys have no duplicates.
pub proof fn lemma_sorted_no_duplicates(ks: Seq<Seq<char>>)
    requires
        keys_sorted(ks),
    ensures
        ks.no_duplicates(),
{
    assert forall|a: int, b: int| 0 <= a < ks.len() && 0 <= b < ks.len() && a != b implies ks[a]
        != ks[b] by {
        if a < b {
            lemma_str_lt_irreflexive(ks[a]);
        } else {
            lemma_str_lt_irreflexive(ks[b]);
        }
    }
}

/// In a sorted key list, the position of the key at `i` is `i`.
pub proof fn lemma_index_of(ks: Seq<Seq<char>>, i: int)
    requires
        0 <= i < ks.len(),
        keys_sorted(ks),
    ensures
        ks.index_of(ks[i]) == i,
{
    lemma_sorted_no_duplicates(ks);
    assert(ks.contains(ks[i]));
}

/// Storing at the position found by a lower-bound search keeps keys sorted and
/// gives the map with the entry added or replaced.
proof fn lemma_insert_at<V>(e: Seq<(String, V)>, i: int, key: String, value: V, replace: bool)
    requires
        keys_sorted(keys_of(e)),
        0 <= i <= e.len(),
        forall|j: int| 0 <= j < i ==> str_lt(keys_of(e)[j], key@),
        replace ==> i < e.len() && keys_of(e)[i] == key@,
        !replace && i < e.len() ==> str_lt(key@, keys_of(e)[i]),
    ensures
        ({
            let ne = if replace { e.update(i, (key, value)) } else { e.insert(i, (key, value)) };
            &&& keys_sorted(keys_of(ne))
            &&& map_of(ne) == map_of(e).insert(key@, value)
        }),
{
    let ks = keys_of(e);
    let vs = values_of(e);
    let old_map = map_of(e);
    lemma_sorted_no_duplicates(ks);
    if replace {
        let ne = e.update(i, (key, value));
        let nks = keys_of(ne);
        assert(nks =~= ks);
        assert(values_of(ne) =~= vs.update(i, value));
        assert forall|kk: Seq<char>| #[trigger] map_of(ne).contains_key(kk) == old_map.insert(
            key@, value).contains_key(kk) by {}
        assert forall|kk: Seq<char>| map_of(ne).contains_key(kk) implies #[trigger] map_of(ne)[kk]
            == old_map.insert(key@, value)[kk] by {
            let j = ks.index_of(kk);
            assert(ks.contains(kk));
            lemma_index_of(ks, j);
            lemma_index_of(ks, i);
        }
        assert(map_of(ne) =~= old_map.insert(key@, value));
    } else {
        let ne = e.insert(i, (key, value));
        let nks = keys_of(ne);
        assert(nks =~= ks.insert(i, key@));
        assert(values_of(ne) =~= vs.insert(i, value));
        assert forall|a: int, b: int| 0 <= a < b < nks.len() implies str_lt(nks[a], nks[b]) by {
            if b == i {
            } else if a == i {
                if b - 1 > i {
                    lemma_str_lt_transitive(key@, ks[i], ks[b - 1]);
                }
            } else if a < i && b > i {
                if b - 1 > i {
                    lemma_str_lt_transitive(key@, ks[i], ks[b - 1]);
                }
                lemma_str_lt_transitive(ks[a], key@, ks[b - 1]);
            }
        }
        assert(!ks.contains(key@)) by {
            if ks.contains(key@) {
                let j = choose|j: int| 0 <= j < ks.len() && ks[j] == key@;
                if j < i {
                    lemma_str_lt_irreflexive(key@);
                } else {
                    if j > i {
                        lemma_str_lt_transitive(key@, ks[i], ks[j]);
                    }
                    lemma_str_lt_irreflexive(key@);
                }
            }
        }
        lemma_sorted_no_duplicates(nks);
        assert forall|kk: Seq<char>| #[trigger] map_of(ne).contains_key(kk) == old_map.insert(
            key@, value).contains_key(kk) by {
            if kk != key@ && nks.contains(kk) {
                let j = choose|j: int| 0 <= j < nks.len() && nks[j] == kk;
                if j < i {
                    assert(ks[j] == kk);
                } else {
                    assert(ks[j - 1] == kk);
                }
            }
            if ks.contains(kk) {
                let j = choose|j: int| 0 <= j < ks.len() && ks[j] == kk;
                if j < i {
                    assert(nks[j] == kk);
                } else {
                    assert(nks[j + 1] == kk);
                }
            }
            if kk == key@ {
                assert(nks[i] == kk);
            }
        }
        assert forall|kk: Seq<char>| map_of(ne).contains_key(kk) implies #[trigger] map_of(ne)[kk]
            == old_map.insert(key@, value)[kk] by {
            let j = nks.index_of(kk);
            assert(nks.contains(kk));
            lemma_index_of(nks, j);
            if kk == key@ {
                lemma_index_of(nks, i);
            } else if j < i {
                assert(ks[j] == kk);
                lemma_index_of(ks, j);
            } else {
                assert(j != i);
                assert(ks[j - 1] == kk);
                lemma_index_of(ks, j - 1);
            }
        }
        assert(map_of(ne) =~= old_map.insert(key@, value));
    }
}

/// Removing the entry at `i` keeps keys sorted and removes its key from the map.
proof fn lemma_remove_at<V>(e: Seq<(String, V)>, i: int)
    requires
        keys_sorted(keys_of(e)),
        0 <= i < e.len(),
    ensures
        keys_sorted(keys_of(e.remove(i))),
        map_of(e.remove(i)) == map_of(e).remove(keys_of(e)[i]),
{
    let ks = keys_of(e);
    let vs = values_of(e);
    let key = ks[i];
    let old_map = map_of(e);
    let ne = e.remove(i);
    let nks = keys_of(ne);
    assert(nks =~= ks.remove(i));
    assert(values_of(ne) =~= vs.remove(i));
    assert forall|a: int, b: int| 0 <= a < b < nks.len() implies str_lt(nks[a], nks[b]) by {
        if a < i && b >= i {
            assert(nks[b] == ks[b + 1]);
        }
    }
    lemma_sorted_no_duplicates(ks);
    lemma_sorted_no_duplicates(nks);
    assert forall|kk: Seq<char>| #[trigger] map_of(ne).contains_key(kk) == old_map.remove(key).contains_key(
        kk,
    ) by {
        if nks.contains(kk) {
            let j = choose|j: int| 0 <= j < nks.len() && nks[j] == kk;
            if j < i {
                assert(ks[j] == kk);
            } else {
                assert(ks[j + 1] == kk);
            }
        }
        if ks.contains(kk) && kk != key {
            let j = choose|j: int| 0 <= j < ks.len() && ks[j] == kk;
            if j < i {
                assert(nks[j] == kk);
            } else {
                assert(nks[j - 1] == kk);
            }
        }
    }
    assert forall|kk: Seq<char>| map_of(ne).contains_key(kk) implies #[trigger] map_of(ne)[kk]
        == old_map.remove(key)[kk] by {
        let j = nks.index_of(kk);
        assert(nks.contains(kk));
        lemma_index_of(nks, j);
        if j < i {
            assert(ks[j] == kk);
            lemma_index_of(ks, j);
        } else {
            assert(ks[j + 1] == kk);
            lemma_index_of(ks, j + 1);
        }
    }
    assert(map_of(ne) =~= old_map.remove(key));
}

/// Values that can be copied exactly.
pub trait Duplicate: Sized {
    /// An equal copy.
    fn duplicate(&self) -> (r: Self)
        ensures
            r == *self,
    ;
}

/// A map from strings to values, iterated in ascending key order.
#[derive(Debug)]
pub struct StrMap<V> {
    entries: Vec<(String, V)>,
}

impl<V> StrMap<V> {
    /// Keys are strictly ascending.
    #[verifier::type_invariant]
    spec fn inv(self) -> bool {
        keys_sorted(keys_of(self.entries@))
    }

    /// The keys, in order.
    pub closed spec fn keys(self) -> Seq<Seq<char>> {
        keys_of(self.entries@)
    }

    /// The values, in key order.
    pub closed spec fn values(self) -> Seq<V> {
        values_of(self.entries@)
    }

    /// The map as a mathematical map.
    pub closed spec fn to_map(self) -> Map<Seq<char>, V> {
        map_of(self.entries@)
    }

    /// The map agrees with its keys and values.
    pub proof fn lemma_view(self)
        requires
            keys_sorted(self.keys()),
        ensures
            self.keys().len() == self.values().len(),
            self.keys().no_duplicates(),
            forall|i: int| 0 <= i < self.keys().len() ==> #[trigger] self.to_map().contains_key(self.keys()[i])
                && self.to_map()[self.keys()[i]] == self.values()[i],
            forall|k: Seq<char>| #[trigger] self.to_map().contains_key(k) <==> self.keys().contains(k),
    {
        lemma_sorted_no_duplicates(self.keys());
        assert forall|i: int| 0 <= i < self.keys().len() implies #[trigger] self.to_map().contains_key(self.keys()[i])
            && self.to_map()[self.keys()[i]] == self.values()[i] by {
            lemma_index_of(self.keys(), i);
        }
    }

    /// A value stored in the map is smaller than the map.
    pub proof fn lemma_value_decreases(self, k: Seq<char>)
        requires
            self.to_map().contains_key(k),
        ensures
            decreases_to!(self => self.to_map()[k]),
    {
        let e = self.entries@;
        let i = keys_of(e).index_of(k);
        assert(keys_of(e).contains(k));
        assert(decreases_to!(self => self.entries));
        assert(decreases_to!(self.entries => e));
        assert(decreases_to!(e => e[i]));
        assert(decreases_to!(e[i] => e[i].1));
        assert(values_of(e)[i] == e[i].1);
    }

    /// Keys are sorted (the type's invariant, stated for callers).
    pub fn sorted(&self) -> (r: bool)
        ensures
            r,
            keys_sorted(self.keys()),
    {
        proof { use_type_invariant(self); }
        true
    }

    /// An empty map.
    pub fn new() -> (r: Self)
        ensures
            r.keys().len() == 0,
            r.values().len() == 0,
            r.to_map() == Map::<Seq<char>, V>::empty(),
    {
        let r = StrMap { entries: Vec::new() };
        assert(r.to_map() =~= Map::<Seq<char>, V>::empty());
        r
    }

    /// The number of entries.
    pub fn len(&self) -> (r: usize)
        ensures
            r == self.keys().len(),
            r == self.values().len(),
    {
        self.entries.len()
    }

    /// No entries.
    pub fn is_empty(&self) -> (r: bool)
        ensures
            r == (self.keys().len() == 0),
    {
        self.entries.len() == 0
    }

    /// The key at position `i`.
    pub fn key_at(&self, i: usize) -> (r: &String)
        requires
            i < self.keys().len(),
        ensures
            r@ == self.keys()[i as int],
    {
        &self.entries[i].0
    }

    /// The value at position `i`.
    pub fn value_at(&self, i: usize) -> (r: &V)
        requires
            i < self.keys().len(),
        ensures
            *r == self.values()[i as int],
    {
        &self.entries[i].1
    }

    /// The position of `key`, if present.
    pub fn position(&self, key: &str) -> (r: Option<usize>)
        ensures
            self.keys().len() == self.values().len(),
            keys_sorted(self.keys()),
            match r {
                Some(i) => i < self.keys().len() && self.keys()[i as int] == key@,
                None => !self.keys().contains(key@),
            },
    {
        proof { use_type_invariant(self); }
        let k = to_chars(key);
        let mut i: usize = 0;
        while i < self.entries.len()
            invariant
                k@ == key@,
                i <= self.entries.len(),
                keys_sorted(self.keys()),
                forall|j: int| 0 <= j < i ==> self.keys()[j] != key@,
            decreases self.entries.len() - i,
        {
            let e = to_chars(self.entries[i].0.as_str());
            if compare_chars(e.as_slice(), k.as_slice()).is_none() {
                return Some(i);
            }
            i = i + 1;
        }
        None
    }

    /// The value stored for `key`.
    pub fn get(&self, key: &str) -> (r: Option<&V>)
        ensures
            match r {
                Some(v) => self.to_map().contains_key(key@) && *v == self.to_map()[key@],
                None => !self.to_map().contains_key(key@),
            },
    {
        match self.position(key) {
            Some(i) => {
                proof { lemma_index_of(self.keys(), i as int); }
                Some(&self.entries[i].1)
            },
            None => None,
        }
    }

    /// `key` has an entry.
    pub fn contains_key(&self, key: &str) -> (r: bool)
        ensures
            r == self.to_map().contains_key(key@),
    {
        self.position(key).is_some()
    }

    /// The first position whose key is not below `k`.
    fn lower_bound(&self, k: &[char]) -> (r: usize)
        ensures
            r <= self.keys().len(),
            forall|j: int| 0 <= j < r ==> str_lt(self.keys()[j], k@),
            r < self.keys().len() ==> (self.keys()[r as int] == k@ || str_lt(k@, self.keys()[r as int])),
    {
        let mut i: usize = 0;
        while i < self.entries.len()
            invariant
                i <= self.entries.len(),
                forall|j: int| 0 <= j < i ==> str_lt(self.keys()[j], k@),
            decreases self.entries.len() - i,
        {
            let e = to_chars(self.entries[i].0.as_str());
            match compare_chars(e.as_slice(), k) {
                Some(true) => {},
                Some(false) => return i,
                None => return i,
            }
            i = i + 1;
        }
        i
    }

    /// Stores `value` for `key`, replacing any earlier value.
    pub fn insert(&mut self, key: String, value: V)
        ensures
            final(self).to_map() == old(self).to_map().insert(key@, value),
    {
        proof { use_type_invariant(&*self); }
        let k = to_chars(key.as_str());
        let i = self.lower_bound(k.as_slice());
        let mut v: Vec<(String, V)> = Vec::new();
        std::mem::swap(&mut v, &mut self.entries);
        let ghost e = v@;
        let replace = i < v.len() && compare_chars(to_chars(v[i].0.as_str()).as_slice(), k.as_slice()).is_none();
        if replace {
            v.set(i, (key, value));
        } else {
            v.insert(i, (key, value));
        }
        proof { lemma_insert_at(e, i as int, key, value, replace); }
        self.entries = v;
    }

    /// An equal copy of the map.
    pub fn duplicate(&self) -> (r: Self)
        where V: Duplicate,
        ensures
            r.keys() == self.keys(),
            r.values() == self.values(),
            r.to_map() == self.to_map(),
    {
        proof { use_type_invariant(self); }
        let mut v: Vec<(String, V)> = Vec::new();
        let mut i: usize = 0;
        while i < self.entries.len()
            invariant
                i <= self.entries.len(),
                v@ == self.entries@.take(i as int),
            decreases self.entries.len() - i,
        {
            let k = self.entries[i].0.clone();
            let x = self.entries[i].1.duplicate();
            v.push((k, x));
            i = i + 1;
            assert(v@ =~= self.entries@.take(i as int));
        }
        assert(self.entries@.take(self.entries.len() as int) =~= self.entries@);
        let r = StrMap { entries: v };
        assert(r.keys() =~= self.keys());
        assert(r.values() =~= self.values());
        assert(r.to_map() =~= self.to_map());
        r
    }

    /// Takes out the entry with the least key, if there is one.
    pub fn pop_first(&mut self) -> (r: Option<(String, V)>)
        ensures
            match r {
                Some((k, v)) => {
                    &&& old(self).keys().len() > 0
                    &&& k@ == old(self).keys()[0]
                    &&& old(self).to_map().contains_key(k@)
                    &&& v == old(self).to_map()[k@]
                    &&& final(self).to_map() == old(self).to_map().remove(k@)
                    &&& final(self).keys().len() + 1 == old(self).keys().len()
                },
                None => old(self).keys().len() == 0 && final(self).to_map() == old(self).to_map(),
            },
    {
        proof { use_type_invariant(&*self); }
        if self.entries.len() == 0 {
            return None;
        }
        let mut v: Vec<(String, V)> = Vec::new();
        std::mem::swap(&mut v, &mut self.entries);
        let ghost e = v@;
        proof {
            lemma_index_of(keys_of(e), 0);
            lemma_remove_at(e, 0);
        }
        let first = v.remove(0);
        self.entries = v;
        assert(keys_of(e)[0] == first.0@);
        Some(first)
    }

    /// Removes the entry for `key`, if any, and hands out its value.
    pub fn take(&mut self, key: &str) -> (r: Option<V>)
        ensures
            match r {
                Some(v) => old(self).to_map().contains_key(key@) && v == old(self).to_map()[key@],
                None => !old(self).to_map().contains_key(key@),
            },
            final(self).to_map() == old(self).to_map().remove(key@),
    {
        proof { use_type_invariant(&*self); }
        let ghost old_map = self.to_map();
        match self.position(key) {
            Some(i) => {
                let mut v: Vec<(String, V)> = Vec::new();
                std::mem::swap(&mut v, &mut self.entries);
                let ghost e = v@;
                proof {
                    lemma_index_of(keys_of(e), i as int);
                    lemma_remove_at(e, i as int);
                }
                let (_, value) = v.remove(i);
                self.entries = v;
                Some(value)
            },
            None => {
                assert(self.to_map() =~= old_map.remove(key@));
                None
            },
        }
    }

    /// Removes the entry for `key`, if any; returns whether one was removed.
    pub fn remove(&mut self, key: &str) -> (r: bool)
        ensures
            r == old(self).to_map().contains_key(key@),
            final(self).to_map() == old(self).to_map().remove(key@),
    {
        proof { use_type_invariant(&*self); }
        let ghost old_map = self.to_map();
        match self.position(key) {
            Some(i) => {
                let mut v: Vec<(String, V)> = Vec::new();
                std::mem::swap(&mut v, &mut self.entries);
                let ghost e = v@;
                v.remove(i);
                proof { lemma_remove_at(e, i as int); }
                self.entries = v;
                true
            },
            None => {
                assert(self.to_map() =~= old_map.remove(key@));
                false
            },
        }
    }
}

/// The views of a list of strings.
pub open spec fn str_views(v: Seq<String>) -> Seq<Seq<char>> {
    Seq::new(v.len(), |i: int| v[i]@)
}

/// In ascending order (equal neighbours allowed).
pub open spec fn sorted_strs(s: Seq<Seq<char>>) -> bool {
    forall|i: int, j: int| 0 <= i < j < s.len() ==> !str_lt(s[j], s[i])
}

/// The strings in ascending order, as `sort` orders them.
pub fn sort_strings(v: Vec<String>) -> (r: Vec<String>)
    ensures
        sorted_strs(str_views(r@)),
        str_views(r@).to_multiset() == str_views(v@).to_multiset(),
{
    broadcast use vstd::seq_lib::group_to_multiset_ensures;
    broadcast use vstd::multiset::group_multiset_axioms;

    let mut out: Vec<String> = Vec::new();
    let mut i: usize = 0;
    assert(str_views(v@).take(0) =~= Seq::<Seq<char>>::empty());
    assert(str_views(out@) =~= Seq::<Seq<char>>::empty());
    while i < v.len()
        invariant
            i <= v@.len(),
            sorted_strs(str_views(out@)),
            str_views(out@).to_multiset() == str_views(v@).take(i as int).to_multiset(),
        decreases v@.len() - i,
    {
        let x = v[i].clone();
        let xc = to_chars(x.as_str());
        let ghost ov = str_views(out@);
        let mut j: usize = 0;
        while j < out.len()
            invariant
                j <= out@.len(),
                ov == str_views(out@),
                xc@ == x@,
                forall|k: int| 0 <= k < j ==> !str_lt(x@, ov[k]),
            ensures
                j <= out@.len(),
                forall|k: int| 0 <= k < j ==> !str_lt(x@, ov[k]),
                j < out@.len() ==> str_lt(x@, ov[j as int]),
            decreases out@.len() - j,
        {
            let oc = to_chars(out[j].as_str());
            if compare_chars(xc.as_slice(), oc.as_slice()) == Some(true) {
                break;
            }
            j = j + 1;
        }
        out.insert(j, x);
        let ghost nv = str_views(out@);
        assert(nv =~= ov.insert(j as int, x@));
        assert(sorted_strs(nv)) by {
            assert forall|a: int, b: int| 0 <= a < b < nv.len() implies !str_lt(nv[b], nv[a]) by {
                if a < j && b == j {
                } else if a == j && b > j {
                    let y = ov[b - 1];
                    if str_lt(y, x@) {
                        lemma_str_lt_total(ov[j as int], y);
                        if ov[j as int] != y {
                            if str_lt(y, ov[j as int]) {
                                assert(!str_lt(ov[b - 1], ov[j as int]));
                            } else {
                                lemma_str_lt_transitive(x@, ov[j as int], y);
                                lemma_str_lt_asymmetric(x@, y);
                            }
                        } else {
                            lemma_str_lt_asymmetric(x@, y);
                        }
                    }
                } else if a < j && b > j {
                    assert(!str_lt(ov[b - 1], ov[a]));
                } else if a > j {
                    assert(!str_lt(ov[b - 1], ov[a - 1]));
                } else {
                    assert(!str_lt(ov[b], ov[a]));
                }
            }
        }
        assert(nv.remove(j as int) =~= ov);
        assert(nv[j as int] == x@);
        assert(nv.to_multiset() =~= ov.to_multiset().insert(x@)) by {
            nv.to_multiset_ensures();
            assert(nv.remove(j as int).to_multiset() =~= nv.to_multiset().remove(x@));
            assert(nv.contains(x@));
        }
        assert(str_views(v@).take(i + 1) =~= str_views(v@).take(i as int).push(x@));
        proof {
            str_views(v@).take(i as int).to_multiset_ensures();
        }
        assert(str_views(v@).take(i + 1).to_multiset() =~= str_views(v@).take(i as int).to_multiset().insert(x@));
        i = i + 1;
    }
    assert(str_views(v@).take(i as int) =~= str_views(v@));
    out
}

} // verus!
