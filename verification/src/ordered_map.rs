//! A map from text keys to values that keeps its entries in key order, so that
//! walking it always visits the same entries in the same order.

use vstd::prelude::*;
use vstd::string::*;
use crate::text::{
    lemma_lex_asymmetric, lemma_lex_irreflexive, lemma_lex_total, lemma_lex_transitive, lex_less,
    text_eq, text_less,
};

verus! {

/// Whether the keys of the entries strictly increase.
pub open spec fn sorted<V>(s: Seq<(Seq<char>, V)>) -> bool {
    forall|i: int, j: int| 0 <= i < j < s.len() ==> lex_less(#[trigger] s[i].0, #[trigger] s[j].0)
}

/// The index of the first entry at or after `i` whose key does not come
/// before `k`, or the number of entries where there is none.
pub open spec fn position_from<V>(s: Seq<(Seq<char>, V)>, k: Seq<char>, i: int) -> int
    decreases s.len() - i,
{
    if i < 0 || i >= s.len() {
        s.len() as int
    } else if !lex_less(s[i].0, k) {
        i
    } else {
        position_from(s, k, i + 1)
    }
}

/// Where the key `k` stands, or would stand, among the entries.
pub open spec fn position<V>(s: Seq<(Seq<char>, V)>, k: Seq<char>) -> int {
    position_from(s, k, 0)
}

/// Whether an entry with the key `k` stands where `k` belongs.
pub open spec fn has_key<V>(s: Seq<(Seq<char>, V)>, k: Seq<char>) -> bool {
    position(s, k) < s.len() && s[position(s, k)].0 == k
}

/// The value under the key `k`.
pub open spec fn lookup<V>(s: Seq<(Seq<char>, V)>, k: Seq<char>) -> Option<V> {
    if has_key(s, k) {
        Some(s[position(s, k)].1)
    } else {
        None
    }
}

/// The entries with `v` under the key `k`: in place of the value that was
/// there, or as a new entry where `k` belongs.
pub open spec fn upsert<V>(s: Seq<(Seq<char>, V)>, k: Seq<char>, v: V) -> Seq<(Seq<char>, V)> {
    if has_key(s, k) {
        s.update(position(s, k), (k, v))
    } else {
        s.insert(position(s, k), (k, v))
    }
}

/// The entries without the one under the key `k`.
pub open spec fn without<V>(s: Seq<(Seq<char>, V)>, k: Seq<char>) -> Seq<(Seq<char>, V)> {
    if has_key(s, k) {
        s.remove(position(s, k))
    } else {
        s
    }
}

/// What `position_from` finds: every key before it comes before `k`, and the
/// key at it does not.
pub proof fn lemma_position_from<V>(s: Seq<(Seq<char>, V)>, k: Seq<char>, i: int)
    requires
        0 <= i <= s.len(),
    ensures
        i <= position_from(s, k, i) <= s.len(),
        forall|j: int| i <= j < position_from(s, k, i) ==> lex_less(#[trigger] s[j].0, k),
        position_from(s, k, i) < s.len() ==> !lex_less(s[position_from(s, k, i)].0, k),
    decreases s.len() - i,
{
    if i < s.len() && lex_less(s[i].0, k) {
        lemma_position_from(s, k, i + 1);
    }
}

/// In sorted entries the key at `position` is `k` or comes behind it, and so
/// does every later key.
pub proof fn lemma_position_sorted<V>(s: Seq<(Seq<char>, V)>, k: Seq<char>)
    requires
        sorted(s),
    ensures
        0 <= position(s, k) <= s.len(),
        forall|j: int| 0 <= j < position(s, k) ==> lex_less(#[trigger] s[j].0, k),
        forall|j: int|
            position(s, k) <= j < s.len() ==> #[trigger] s[j].0 == k && j == position(s, k)
                || lex_less(k, s[j].0),
{
    lemma_position_from(s, k, 0);
    let p = position(s, k);
    assert forall|j: int| p <= j < s.len() implies #[trigger] s[j].0 == k && j == p || lex_less(
        k,
        s[j].0,
    ) by {
        lemma_lex_total(s[p].0, k);
        if s[p].0 == k {
            if j > p {
                assert(lex_less(s[p].0, s[j].0));
            }
        } else {
            if j > p {
                assert(lex_less(s[p].0, s[j].0));
                lemma_lex_transitive(k, s[p].0, s[j].0);
            }
        }
    }
}

/// In sorted entries a key is present exactly when some entry carries it, and
/// that entry is the one that `lookup` gives.
pub proof fn lemma_lookup_sorted<V>(s: Seq<(Seq<char>, V)>, k: Seq<char>)
    requires
        sorted(s),
    ensures
        has_key(s, k) <==> exists|i: int| 0 <= i < s.len() && #[trigger] s[i].0 == k,
        forall|i: int| 0 <= i < s.len() && #[trigger] s[i].0 == k ==> lookup(s, k) == Some(s[i].1),
{
    lemma_position_sorted(s, k);
    let p = position(s, k);
    assert forall|i: int| 0 <= i < s.len() && #[trigger] s[i].0 == k implies i == p by {
        lemma_lex_irreflexive(k);
        if i < p {
            assert(lex_less(s[i].0, k));
        }
    }
    if has_key(s, k) {
        assert(s[p].0 == k);
    }
}

/// Putting a value under a key keeps the entries sorted.
pub proof fn lemma_upsert_sorted<V>(s: Seq<(Seq<char>, V)>, k: Seq<char>, v: V)
    requires
        sorted(s),
    ensures
        sorted(upsert(s, k, v)),
{
    lemma_position_sorted(s, k);
    let p = position(s, k);
    let r = upsert(s, k, v);
    if has_key(s, k) {
        assert forall|i: int, j: int| 0 <= i < j < r.len() implies lex_less(
            #[trigger] r[i].0,
            #[trigger] r[j].0,
        ) by {
            assert(r[i].0 == s[i].0);
            assert(r[j].0 == s[j].0);
        }
    } else {
        assert forall|i: int, j: int| 0 <= i < j < r.len() implies lex_less(
            #[trigger] r[i].0,
            #[trigger] r[j].0,
        ) by {
            let si = if i < p { i } else { i - 1 };
            let sj = if j < p { j } else { j - 1 };
            if i == p {
                assert(r[j] == s[sj]);
                assert(s[sj].0 == k && sj == p || lex_less(k, s[sj].0));
            } else if j == p {
                assert(r[i] == s[si]);
                assert(lex_less(s[si].0, k));
            } else {
                assert(r[i] == s[si]);
                assert(r[j] == s[sj]);
                assert(lex_less(s[si].0, s[sj].0));
            }
        }
    }
}

/// Taking a key out keeps the entries sorted.
pub proof fn lemma_without_sorted<V>(s: Seq<(Seq<char>, V)>, k: Seq<char>)
    requires
        sorted(s),
    ensures
        sorted(without(s, k)),
{
    lemma_position_from(s, k, 0);
    let p = position(s, k);
    let r = without(s, k);
    if has_key(s, k) {
        assert forall|i: int, j: int| 0 <= i < j < r.len() implies lex_less(
            #[trigger] r[i].0,
            #[trigger] r[j].0,
        ) by {
            let si = if i < p { i } else { i + 1 };
            let sj = if j < p { j } else { j + 1 };
            assert(r[i] == s[si]);
            assert(r[j] == s[sj]);
            assert(lex_less(s[si].0, s[sj].0));
        }
    }
}

/// After `upsert` the key holds the new value and every other key holds what
/// it held before.
pub proof fn lemma_upsert_lookup<V>(s: Seq<(Seq<char>, V)>, k: Seq<char>, v: V, other: Seq<char>)
    requires
        sorted(s),
    ensures
        lookup(upsert(s, k, v), other) == if other == k {
            Some(v)
        } else {
            lookup(s, other)
        },
{
    let r = upsert(s, k, v);
    let p = position(s, k);
    lemma_upsert_sorted(s, k, v);
    lemma_position_sorted(s, k);
    lemma_lookup_sorted(r, other);
    lemma_lookup_sorted(s, other);
    lemma_position_from(s, other, 0);
    lemma_position_from(r, other, 0);
    if other == k {
        assert(r[p] == (k, v));
        assert(r[p].0 == k);
    } else if has_key(s, k) {
        if has_key(s, other) {
            let q = position(s, other);
            assert(s[q].0 == other);
            assert(r[q] == s[q]);
            assert(r[q].0 == other);
        } else if has_key(r, other) {
            let q = position(r, other);
            assert(r[q].0 == other);
            assert(q != p);
            assert(s[q].0 == other);
        }
    } else {
        if has_key(s, other) {
            let q = position(s, other);
            assert(s[q].0 == other);
            let rq = if q < p { q } else { q + 1 };
            assert(r[rq] == s[q]);
            assert(r[rq].0 == other);
        } else if has_key(r, other) {
            let q = position(r, other);
            assert(r[q].0 == other);
            assert(q != p);
            let sq = if q < p { q } else { q - 1 };
            assert(r[q] == s[sq]);
            assert(s[sq].0 == other);
        }
    }
}

/// Putting a value under a key that was taken out before gives the same as
/// putting it there at once.
pub proof fn lemma_upsert_without<V>(s: Seq<(Seq<char>, V)>, k: Seq<char>, v: V)
    requires
        sorted(s),
    ensures
        upsert(without(s, k), k, v) == upsert(s, k, v),
{
    lemma_position_sorted(s, k);
    let p = position(s, k);
    if has_key(s, k) {
        let w = without(s, k);
        lemma_without_sorted(s, k);
        lemma_position_from(w, k, 0);
        lemma_position_sorted(w, k);
        let q = position(w, k);
        lemma_lex_irreflexive(k);
        assert(q == p) by {
            if q < p {
                assert(w[q] == s[q]);
                assert(lex_less(s[q].0, k));
            } else if q > p {
                assert(w[p] == s[p + 1]);
                assert(lex_less(w[p].0, k));
                assert(lex_less(s[p].0, s[p + 1].0));
                lemma_lex_asymmetric(k, s[p + 1].0);
            }
        }
        assert(!has_key(w, k)) by {
            if q < w.len() {
                assert(w[q] == s[q + 1]);
                assert(lex_less(s[p].0, s[q + 1].0));
            }
        }
        assert(w.insert(p, (k, v)) =~= s.update(p, (k, v)));
    }
}

/// Every entry that is there after `upsert` is the new one or was there
/// before.
pub proof fn lemma_upsert_entries<V>(s: Seq<(Seq<char>, V)>, k: Seq<char>, v: V)
    ensures
        forall|i: int|
            0 <= i < upsert(s, k, v).len() ==> #[trigger] upsert(s, k, v)[i] == (k, v)
                || s.contains(upsert(s, k, v)[i]),
{
    lemma_position_from(s, k, 0);
    let p = position(s, k);
    let r = upsert(s, k, v);
    assert forall|i: int| 0 <= i < r.len() implies #[trigger] r[i] == (k, v) || s.contains(
        r[i],
    ) by {
        if i != p {
            if has_key(s, k) {
                assert(r[i] == s[i]);
            } else if i < p {
                assert(r[i] == s[i]);
            } else {
                assert(r[i] == s[i - 1]);
            }
        }
    }
}

/// Putting a value under a key that comes behind every key present appends it.
pub proof fn lemma_upsert_greatest<V>(s: Seq<(Seq<char>, V)>, k: Seq<char>, v: V)
    requires
        forall|i: int| 0 <= i < s.len() ==> lex_less(#[trigger] s[i].0, k),
    ensures
        upsert(s, k, v) == s.push((k, v)),
{
    lemma_position_from(s, k, 0);
    let p = position(s, k);
    if p < s.len() {
        assert(lex_less(s[p].0, k));
    }
    assert(s.insert(p, (k, v)) =~= s.push((k, v)));
}

proof fn lemma_same_keys_position_from<A, B>(
    s: Seq<(Seq<char>, A)>,
    t: Seq<(Seq<char>, B)>,
    k: Seq<char>,
    i: int,
)
    requires
        s.len() == t.len(),
        forall|j: int| 0 <= j < s.len() ==> (#[trigger] s[j]).0 == t[j].0,
    ensures
        position_from(t, k, i) == position_from(s, k, i),
    decreases s.len() - i,
{
    if 0 <= i < s.len() {
        assert(s[i].0 == t[i].0);
        if lex_less(s[i].0, k) {
            lemma_same_keys_position_from(s, t, k, i + 1);
        }
    }
}

/// Two lists of entries with the same keys in the same order have every key
/// at the same place.
pub proof fn lemma_same_keys<A, B>(s: Seq<(Seq<char>, A)>, t: Seq<(Seq<char>, B)>, k: Seq<char>)
    requires
        s.len() == t.len(),
        forall|j: int| 0 <= j < s.len() ==> (#[trigger] s[j]).0 == t[j].0,
    ensures
        position(t, k) == position(s, k),
        has_key(t, k) == has_key(s, k),
        sorted(s) ==> sorted(t),
{
    lemma_same_keys_position_from(s, t, k, 0);
    lemma_position_from(s, k, 0);
    if has_key(s, k) {
        assert(s[position(s, k)].0 == t[position(s, k)].0);
    }
    if has_key(t, k) {
        assert(s[position(t, k)].0 == t[position(t, k)].0);
    }
    if sorted(s) {
        assert forall|i: int, j: int| 0 <= i < j < t.len() implies lex_less(
            #[trigger] t[i].0,
            #[trigger] t[j].0,
        ) by {
            assert(s[i].0 == t[i].0);
            assert(s[j].0 == t[j].0);
        }
    }
}

/// The entries with each value replaced by its view.
pub open spec fn view_entries<V: DeepView>(s: Seq<(Seq<char>, V)>) -> Seq<(Seq<char>, V::V)> {
    Seq::new(s.len(), |i: int| (s[i].0, s[i].1.deep_view()))
}

/// Taking the views of the values changes neither the order of the entries
/// nor where a key stands, and `lookup`, `upsert` and `without` give the views
/// of what they gave before.
pub proof fn lemma_view_entries<V: DeepView>(s: Seq<(Seq<char>, V)>, k: Seq<char>)
    ensures
        sorted(s) ==> sorted(view_entries(s)),
        position(view_entries(s), k) == position(s, k),
        has_key(view_entries(s), k) == has_key(s, k),
        lookup(view_entries(s), k) == lookup(s, k).deep_view(),
        view_entries(without(s, k)) == without(view_entries(s), k),
{
    lemma_same_keys(s, view_entries(s), k);
    lemma_position_from(s, k, 0);
    assert(view_entries(without(s, k)) =~= without(view_entries(s), k));
}

/// Putting a value under a key and then taking views gives the same as
/// taking views and then putting the view of the value under the key.
pub proof fn lemma_view_upsert<V: DeepView>(s: Seq<(Seq<char>, V)>, k: Seq<char>, v: V)
    ensures
        view_entries(upsert(s, k, v)) == upsert(view_entries(s), k, v.deep_view()),
{
    lemma_same_keys(s, view_entries(s), k);
    lemma_position_from(s, k, 0);
    assert(view_entries(upsert(s, k, v)) =~= upsert(view_entries(s), k, v.deep_view()));
}

/// A map from text keys to values whose entries stand in key order.
#[derive(Debug, PartialEq)]
pub struct OrderedMap<V> {
    entries: Vec<(String, V)>,
}

impl<V> OrderedMap<V> {
    #[verifier::type_invariant]
    spec fn well_formed(&self) -> bool {
        sorted(self.entries())
    }

    /// The entries in key order, each key as its characters.
    pub closed spec fn entries(&self) -> Seq<(Seq<char>, V)> {
        Seq::new(self.entries@.len(), |i: int| (self.entries@[i].0@, self.entries@[i].1))
    }

    /// Every value of a map is smaller than the map, so that a definition may
    /// recur from a map into its values.
    pub proof fn lemma_value_decreases(&self, i: int)
        requires
            0 <= i < self.entries().len(),
        ensures
            decreases_to!(*self => self.entries()[i].1),
    {
        broadcast use vstd::std_specs::vec::axiom_vec_index_decreases;

        assert(decreases_to!(self.entries => self.entries[i]));
        assert(decreases_to!(self.entries[i] => self.entries[i].1));
    }
}

impl<V: DeepView> OrderedMap<V> {
    /// A map without entries.
    pub fn new() -> (r: Self)
        ensures
            r.entries() == Seq::<(Seq<char>, V)>::empty(),
            r.deep_view() == Seq::<(Seq<char>, V::V)>::empty(),
    {
        let r = OrderedMap { entries: Vec::new() };
        assert(r.entries() =~= Seq::<(Seq<char>, V)>::empty());
        assert(r.deep_view() =~= Seq::<(Seq<char>, V::V)>::empty());
        r
    }

    /// The number of entries. The entries of a map are always sorted.
    pub fn len(&self) -> (r: usize)
        ensures
            r == self.entries().len(),
            r == self.deep_view().len(),
            sorted(self.entries()),
            sorted(self.deep_view()),
    {
        proof {
            use_type_invariant(self);
            lemma_view_entries(self.entries(), Seq::empty());
        }
        self.entries.len()
    }

    /// Whether the map has no entries.
    pub fn is_empty(&self) -> (r: bool)
        ensures
            r == (self.entries().len() == 0),
            r == (self.deep_view().len() == 0),
    {
        self.entries.len() == 0
    }

    /// The key of the entry at `i`.
    pub fn key(&self, i: usize) -> (r: &String)
        requires
            i < self.entries().len(),
        ensures
            r@ == self.entries()[i as int].0,
            r@ == self.deep_view()[i as int].0,
    {
        &self.entries[i].0
    }

    /// The value of the entry at `i`.
    pub fn value(&self, i: usize) -> (r: &V)
        requires
            i < self.entries().len(),
        ensures
            *r == self.entries()[i as int].1,
            r.deep_view() == self.deep_view()[i as int].1,
    {
        &self.entries[i].1
    }

    fn position_of(&self, key: &str) -> (r: usize)
        ensures
            r == position(self.entries(), key@),
            r <= self.entries().len(),
    {
        let mut i: usize = 0;
        while i < self.entries.len()
            invariant
                i <= self.entries@.len(),
                position(self.entries(), key@) == position_from(self.entries(), key@, i as int),
            decreases self.entries@.len() - i,
        {
            if !text_less(self.entries[i].0.as_str(), key) {
                return i;
            }
            i = i + 1;
        }
        i
    }

    /// The index of the entry under `key`, where there is one.
    pub fn index_of(&self, key: &str) -> (r: Option<usize>)
        ensures
            r is Some <==> has_key(self.entries(), key@),
            r is Some <==> has_key(self.deep_view(), key@),
            r matches Some(i) ==> i == position(self.entries(), key@) && i < self.entries().len()
                && i == position(self.deep_view(), key@),
    {
        proof {
            lemma_view_entries(self.entries(), key@);
        }
        let i = self.position_of(key);
        if i < self.entries.len() && text_eq(self.entries[i].0.as_str(), key) {
            Some(i)
        } else {
            None
        }
    }

    /// Whether the map holds an entry under `key`.
    pub fn contains_key(&self, key: &str) -> (r: bool)
        ensures
            r == has_key(self.entries(), key@),
            r == has_key(self.deep_view(), key@),
    {
        self.index_of(key).is_some()
    }

    /// The value under `key`, where there is one.
    pub fn get(&self, key: &str) -> (r: Option<&V>)
        ensures
            r matches Some(v) ==> lookup(self.entries(), key@) == Some(*v),
            r is None ==> lookup(self.entries(), key@) is None,
            r.deep_view() == lookup(self.deep_view(), key@),
    {
        proof {
            lemma_view_entries(self.entries(), key@);
        }
        match self.index_of(key) {
            Some(i) => Some(&self.entries[i].1),
            None => None,
        }
    }

    /// Puts `value` under `key`, in place of the value that was there if
    /// there was one.
    pub fn insert(&mut self, key: String, value: V)
        ensures
            final(self).entries() == upsert(old(self).entries(), key@, value),
            final(self).deep_view() == upsert(old(self).deep_view(), key@, value.deep_view()),
    {
        proof {
            use_type_invariant(&*self);
            lemma_upsert_sorted(self.entries(), key@, value);
            lemma_view_upsert(self.entries(), key@, value);
        }
        let i = self.position_of(key.as_str());
        let ghost before = self.entries();
        let replace = i < self.entries.len() && text_eq(self.entries[i].0.as_str(), key.as_str());
        let mut entries: Vec<(String, V)> = Vec::new();
        std::mem::swap(&mut self.entries, &mut entries);
        if replace {
            entries.set(i, (key, value));
        } else {
            entries.insert(i, (key, value));
        }
        assert(Seq::new(entries@.len(), |j: int| (entries@[j].0@, entries@[j].1)) =~= upsert(
            before,
            key@,
            value,
        ));
        self.entries = entries;
    }

    /// The entries of the map, in key order.
    pub fn into_entries(self) -> (r: Vec<(String, V)>)
        ensures
            r@.len() == self.entries().len(),
            forall|i: int|
                0 <= i < r@.len() ==> ((#[trigger] r@[i]).0@, r@[i].1) == self.entries()[i],
            r.deep_view() == self.deep_view(),
    {
        assert(self.entries.deep_view() =~= self.deep_view());
        self.entries
    }

    /// Takes the entry under `key` out of the map and returns its value,
    /// where there is one.
    pub fn remove(&mut self, key: &str) -> (r: Option<V>)
        ensures
            final(self).entries() == without(old(self).entries(), key@),
            r == lookup(old(self).entries(), key@),
            final(self).deep_view() == without(old(self).deep_view(), key@),
            r.deep_view() == lookup(old(self).deep_view(), key@),
    {
        proof {
            use_type_invariant(&*self);
            lemma_without_sorted(self.entries(), key@);
            lemma_view_entries(self.entries(), key@);
        }
        let ghost before = self.entries();
        match self.index_of(key) {
            Some(i) => {
                let mut entries: Vec<(String, V)> = Vec::new();
                std::mem::swap(&mut self.entries, &mut entries);
                let entry = entries.remove(i);
                assert(Seq::new(entries@.len(), |j: int| (entries@[j].0@, entries@[j].1))
                    =~= without(before, key@));
                self.entries = entries;
                Some(entry.1)
            },
            None => None,
        }
    }
}

impl<V: Clone> Clone for OrderedMap<V> {
    /// A map with the same keys, each with a clone of its value.
    fn clone(&self) -> (r: Self)
        ensures
            r.entries().len() == self.entries().len(),
            forall|i: int|
                0 <= i < self.entries().len() ==> (#[trigger] r.entries()[i]).0
                    == self.entries()[i].0 && cloned(self.entries()[i].1, r.entries()[i].1),
    {
        proof {
            use_type_invariant(self);
        }
        let mut entries: Vec<(String, V)> = Vec::new();
        let mut i: usize = 0;
        while i < self.entries.len()
            invariant
                i <= self.entries@.len(),
                entries@.len() == i,
                forall|j: int|
                    0 <= j < i ==> (#[trigger] entries@[j]).0@ == self.entries@[j].0@ && cloned(
                        self.entries@[j].1,
                        entries@[j].1,
                    ),
            decreases self.entries@.len() - i,
        {
            let key = self.entries[i].0.clone();
            let value = self.entries[i].1.clone();
            entries.push((key, value));
            i = i + 1;
        }
        let ghost copy = Seq::new(entries@.len(), |j: int| (entries@[j].0@, entries@[j].1));
        assert forall|a: int, b: int| 0 <= a < b < copy.len() implies lex_less(
            #[trigger] copy[a].0,
            #[trigger] copy[b].0,
        ) by {
            assert(copy[a].0 == self.entries()[a].0);
            assert(copy[b].0 == self.entries()[b].0);
        }
        OrderedMap { entries }
    }
}

impl<V: DeepView> DeepView for OrderedMap<V> {
    type V = Seq<(Seq<char>, V::V)>;

    open spec fn deep_view(&self) -> Seq<(Seq<char>, V::V)> {
        view_entries(self.entries())
    }
}

} // verus!
