//! An ordered map from text keys to text values.

use vstd::prelude::*;

use crate::text::{compare_text, lemma_bytes_less_irreflexive, lemma_bytes_less_transitive, text_less, Order};

verus! {

/// The map that a sequence of key/value pairs describes; a later pair
/// replaces an earlier one with the same key.
pub open spec fn pairs_map(s: Seq<(Seq<char>, Seq<char>)>) -> Map<Seq<char>, Seq<char>>
    decreases s.len(),
{
    if s.len() == 0 {
        Map::empty()
    } else {
        pairs_map(s.drop_last()).insert(s.last().0, s.last().1)
    }
}

/// The keys of the pairs come in strictly increasing order.
pub open spec fn keys_increasing(s: Seq<(Seq<char>, Seq<char>)>) -> bool {
    forall|i: int, j: int| 0 <= i < j < s.len() ==> text_less(#[trigger] s[i].0, #[trigger] s[j].0)
}

/// No two pairs share a key.
pub open spec fn keys_distinct(s: Seq<(Seq<char>, Seq<char>)>) -> bool {
    forall|i: int, j: int| 0 <= i < j < s.len() ==> #[trigger] s[i].0 != #[trigger] s[j].0
}

/// Increasing keys are distinct.
pub proof fn lemma_increasing_distinct(s: Seq<(Seq<char>, Seq<char>)>)
    requires
        keys_increasing(s),
    ensures
        keys_distinct(s),
{
    assert forall|i: int, j: int| 0 <= i < j < s.len() implies #[trigger] s[i].0 != #[trigger] s[j].0 by {
        assert(text_less(s[i].0, s[j].0));
        if s[i].0 == s[j].0 {
            lemma_bytes_less_irreflexive(crate::text::utf8_bytes(s[i].0));
        }
    }
}

/// A key is in the map exactly when some pair has it.
pub proof fn lemma_pairs_map_contains(s: Seq<(Seq<char>, Seq<char>)>, k: Seq<char>)
    ensures
        pairs_map(s).contains_key(k) <==> exists|i: int| 0 <= i < s.len() && #[trigger] s[i].0 == k,
    decreases s.len(),
{
    if s.len() > 0 {
        let t = s.drop_last();
        lemma_pairs_map_contains(t, k);
        if pairs_map(t).contains_key(k) {
            let i = choose|i: int| 0 <= i < t.len() && #[trigger] t[i].0 == k;
            assert(s[i].0 == k);
        }
        if exists|i: int| 0 <= i < s.len() && #[trigger] s[i].0 == k {
            let i = choose|i: int| 0 <= i < s.len() && #[trigger] s[i].0 == k;
            if i < s.len() - 1 {
                assert(t[i].0 == k);
            }
        }
    }
}

/// With distinct keys, each pair's key maps to that pair's value.
pub proof fn lemma_pairs_map_value(s: Seq<(Seq<char>, Seq<char>)>, i: int)
    requires
        keys_distinct(s),
        0 <= i < s.len(),
    ensures
        pairs_map(s).contains_key(s[i].0),
        pairs_map(s)[s[i].0] == s[i].1,
    decreases s.len(),
{
    let t = s.drop_last();
    if i < s.len() - 1 {
        assert(t[i] == s[i]);
        assert(s[i].0 != s[s.len() - 1].0);
        lemma_pairs_map_value(t, i);
    }
}

/// The pairs of a map in increasing key order.
pub open spec fn ordered_pairs(m: Map<Seq<char>, Seq<char>>) -> Seq<(Seq<char>, Seq<char>)> {
    choose|s: Seq<(Seq<char>, Seq<char>)>| keys_increasing(s) && pairs_map(s) == m
}

/// Dropping the last of distinct pairs removes its key from the map.
proof fn lemma_pairs_map_drop_last(s: Seq<(Seq<char>, Seq<char>)>)
    requires
        keys_distinct(s),
        s.len() > 0,
    ensures
        pairs_map(s.drop_last()) == pairs_map(s).remove(s.last().0),
{
    let t = s.drop_last();
    let k = s.last().0;
    assert forall|q: Seq<char>| #[trigger] pairs_map(t).contains_key(q) <==> pairs_map(s).remove(k).contains_key(q) by {
        lemma_pairs_map_contains(t, q);
        lemma_pairs_map_contains(s, q);
        if exists|i: int| 0 <= i < t.len() && #[trigger] t[i].0 == q {
            let i = choose|i: int| 0 <= i < t.len() && #[trigger] t[i].0 == q;
            assert(s[i].0 == q);
            assert(s[i].0 != s[s.len() - 1].0);
        }
        if q != k && exists|i: int| 0 <= i < s.len() && #[trigger] s[i].0 == q {
            let i = choose|i: int| 0 <= i < s.len() && #[trigger] s[i].0 == q;
            assert(i != s.len() - 1);
            assert(t[i].0 == q);
        }
    }
    assert(pairs_map(t) =~= pairs_map(s).remove(k));
}

/// Two sequences of pairs with increasing keys that describe the same map
/// are the same sequence: a map's iteration order is fixed by its contents.
pub proof fn lemma_ordered_pairs_unique(s1: Seq<(Seq<char>, Seq<char>)>, s2: Seq<(Seq<char>, Seq<char>)>)
    requires
        keys_increasing(s1),
        keys_increasing(s2),
        pairs_map(s1) == pairs_map(s2),
    ensures
        s1 == s2,
    decreases s1.len(),
{
    lemma_increasing_distinct(s1);
    lemma_increasing_distinct(s2);
    if s1.len() == 0 {
        if s2.len() > 0 {
            lemma_pairs_map_value(s2, s2.len() - 1);
        }
        assert(s1 =~= s2);
    } else if s2.len() == 0 {
        lemma_pairs_map_value(s1, s1.len() - 1);
    } else {
        let n1 = s1.len() - 1;
        let n2 = s2.len() - 1;
        let k1 = s1[n1].0;
        let k2 = s2[n2].0;
        lemma_pairs_map_value(s1, n1);
        lemma_pairs_map_value(s2, n2);
        lemma_pairs_map_contains(s2, k1);
        lemma_pairs_map_contains(s1, k2);
        let j = choose|j: int| 0 <= j < s2.len() && #[trigger] s2[j].0 == k1;
        let i = choose|i: int| 0 <= i < s1.len() && #[trigger] s1[i].0 == k2;
        if j < n2 {
            assert(text_less(s2[j].0, s2[n2].0));
            if i < n1 {
                assert(text_less(s1[i].0, s1[n1].0));
                lemma_bytes_less_transitive(
                    crate::text::utf8_bytes(k1),
                    crate::text::utf8_bytes(k2),
                    crate::text::utf8_bytes(k1),
                );
                lemma_bytes_less_irreflexive(crate::text::utf8_bytes(k1));
            } else {
                lemma_bytes_less_irreflexive(crate::text::utf8_bytes(k1));
            }
        }
        assert(j == n2);
        assert(k1 == k2);
        lemma_pairs_map_value(s1, n1);
        lemma_pairs_map_value(s2, n2);
        assert(s1[n1] == s2[n2]);
        lemma_pairs_map_drop_last(s1);
        lemma_pairs_map_drop_last(s2);
        let t1 = s1.drop_last();
        let t2 = s2.drop_last();
        assert(keys_increasing(t1));
        assert(keys_increasing(t2));
        lemma_ordered_pairs_unique(t1, t2);
        assert(s1 =~= t1.push(s1[n1]));
        assert(s2 =~= t2.push(s2[n2]));
    }
}

/// Reading a key back after storing a value under it gives that value, and
/// every other key keeps its presence and value: what `StringMap::get`
/// returns after `StringMap::insert`.
pub proof fn law_read_after_write(
    before: Map<Seq<char>, Seq<char>>,
    after: Map<Seq<char>, Seq<char>>,
    key: Seq<char>,
    value: Seq<char>,
)
    requires
        after == before.insert(key, value),
    ensures
        after.contains_key(key),
        after[key] == value,
        forall|q: Seq<char>|
            q != key ==> (#[trigger] after.contains_key(q) <==> before.contains_key(q)),
        forall|q: Seq<char>| q != key && before.contains_key(q) ==> #[trigger] after[q] == before[q],
{
}

/// An ordered map from text keys to text values.
///
/// Iteration visits the keys in increasing byte order, as a
/// `BTreeMap<String, String>` does, and no key occurs twice.
#[derive(Debug, PartialEq, Eq)]
pub struct StringMap {
    entries: Vec<(String, String)>,
}

impl View for StringMap {
    type V = Map<Seq<char>, Seq<char>>;

    open spec fn view(&self) -> Map<Seq<char>, Seq<char>> {
        pairs_map(self.pairs())
    }
}

impl Default for StringMap {
    /// An empty map.
    fn default() -> (m: Self)
        ensures
            m.pairs() == Seq::<(Seq<char>, Seq<char>)>::empty(),
            m@ == Map::<Seq<char>, Seq<char>>::empty(),
    {
        StringMap::new()
    }
}

impl Clone for StringMap {
    /// A copy with the same pairs.
    fn clone(&self) -> (m: Self)
        ensures
            m.pairs() == self.pairs(),
            m@ == self@,
    {
        proof {
            use_type_invariant(self);
        }
        let mut entries: Vec<(String, String)> = Vec::new();
        let mut i: usize = 0;
        while i < self.entries.len()
            invariant
                0 <= i <= self.entries@.len(),
                entries@.len() == i,
                forall|j: int|
                    0 <= j < i ==> (#[trigger] entries@[j]).0@ == self.entries@[j].0@ && entries@[j].1@
                        == self.entries@[j].1@,
            decreases self.entries@.len() - i,
        {
            let k = self.entries[i].0.clone();
            let v = self.entries[i].1.clone();
            entries.push((k, v));
            i = i + 1;
        }
        assert(entries@.map_values(|e: (String, String)| (e.0@, e.1@)) =~= self.pairs());
        let m = StringMap { entries };
        m
    }
}

impl StringMap {
    /// The key/value pairs in iteration order.
    pub closed spec fn pairs(&self) -> Seq<(Seq<char>, Seq<char>)> {
        self.entries@.map_values(|e: (String, String)| (e.0@, e.1@))
    }

    #[verifier::type_invariant]
    spec fn ordered(&self) -> bool {
        keys_increasing(self.pairs())
    }

    /// Pairs in strictly increasing key order hold no key twice, and the map
    /// holds exactly the pairs.
    pub proof fn lemma_ordered(&self)
        requires
            keys_increasing(self.pairs()),
        ensures
            keys_increasing(self.pairs()),
            keys_distinct(self.pairs()),
            forall|k: Seq<char>|
                self@.contains_key(k) <==> exists|i: int|
                    0 <= i < self.pairs().len() && #[trigger] self.pairs()[i].0 == k,
            forall|i: int|
                0 <= i < self.pairs().len() ==> #[trigger] self@[self.pairs()[i].0] == self.pairs()[i].1,
    {
        lemma_increasing_distinct(self.pairs());
        assert forall|k: Seq<char>|
            self@.contains_key(k) <==> exists|i: int|
                0 <= i < self.pairs().len() && #[trigger] self.pairs()[i].0 == k by {
            lemma_pairs_map_contains(self.pairs(), k);
        }
        assert forall|i: int| 0 <= i < self.pairs().len() implies #[trigger] self@[self.pairs()[i].0]
            == self.pairs()[i].1 by {
            lemma_pairs_map_value(self.pairs(), i);
        }
    }

    /// An empty map.
    pub fn new() -> (m: StringMap)
        ensures
            m.pairs() == Seq::<(Seq<char>, Seq<char>)>::empty(),
            m@ == Map::<Seq<char>, Seq<char>>::empty(),
    {
        let m = StringMap { entries: Vec::new() };
        assert(m.pairs() =~= Seq::<(Seq<char>, Seq<char>)>::empty());
        m
    }

    /// Number of keys.
    pub fn len(&self) -> (n: usize)
        ensures
            n == self.pairs().len(),
            n == self@.dom().len(),
    {
        proof {
            use_type_invariant(self);
            self.lemma_ordered();
            let keys = self.pairs().map_values(|p: (Seq<char>, Seq<char>)| p.0);
            assert(keys.no_duplicates()) by {
                assert forall|i: int, j: int| 0 <= i < keys.len() && 0 <= j < keys.len() && i != j implies keys[i]
                    != keys[j] by {
                    if i < j {
                        assert(self.pairs()[i].0 != self.pairs()[j].0);
                    } else {
                        assert(self.pairs()[j].0 != self.pairs()[i].0);
                    }
                }
            }
            assert forall|k: Seq<char>| #[trigger] self@.dom().contains(k) <==> keys.to_set().contains(k) by {
                if self@.contains_key(k) {
                    let i = choose|i: int| 0 <= i < self.pairs().len() && #[trigger] self.pairs()[i].0 == k;
                    assert(keys[i] == k);
                }
                if keys.to_set().contains(k) {
                    let i = choose|i: int| 0 <= i < keys.len() && keys[i] == k;
                    assert(self.pairs()[i].0 == k);
                }
            }
            assert(self@.dom() =~= keys.to_set());
            keys.unique_seq_to_set();
        }
        self.entries.len()
    }

    /// Whether the map holds no key.
    pub fn is_empty(&self) -> (b: bool)
        ensures
            b == (self.pairs().len() == 0),
            b == (self@ == Map::<Seq<char>, Seq<char>>::empty()),
    {
        proof {
            use_type_invariant(self);
            self.lemma_ordered();
            if self.pairs().len() > 0 {
                assert(self@.contains_key(self.pairs()[0].0));
            } else {
                assert(self@ =~= Map::<Seq<char>, Seq<char>>::empty());
            }
        }
        self.entries.len() == 0
    }

    /// The key/value pairs, in increasing key order.
    pub fn entries(&self) -> (r: &[(String, String)])
        ensures
            keys_increasing(self.pairs()),
            self.pairs() == ordered_pairs(self@),
            r@.len() == self.pairs().len(),
            forall|i: int|
                0 <= i < r@.len() ==> (#[trigger] r@[i]).0@ == self.pairs()[i].0 && r@[i].1@
                    == self.pairs()[i].1,
    {
        proof {
            use_type_invariant(self);
            let s = ordered_pairs(self@);
            assert(keys_increasing(self.pairs()) && pairs_map(self.pairs()) == self@);
            assert(keys_increasing(s) && pairs_map(s) == self@);
            lemma_ordered_pairs_unique(self.pairs(), s);
        }
        self.entries.as_slice()
    }

    /// Index of the pair with key `key`, if any.
    fn position(&self, key: &str) -> (r: Option<usize>)
        ensures
            r matches Some(i) ==> i < self.pairs().len() && self.pairs()[i as int].0 == key@,
            r is None ==> !self@.contains_key(key@),
    {
        proof {
            use_type_invariant(self);
            self.lemma_ordered();
        }
        let mut i: usize = 0;
        while i < self.entries.len()
            invariant
                0 <= i <= self.entries@.len(),
                self.entries@.len() == self.pairs().len(),
                forall|j: int| 0 <= j < i ==> self.pairs()[j].0 != key@,
            decreases self.entries@.len() - i,
        {
            if compare_text(self.entries[i].0.as_str(), key) == Order::Equal {
                return Some(i);
            }
            i = i + 1;
        }
        None
    }

    /// The value stored under `key`.
    pub fn get(&self, key: &str) -> (r: Option<&String>)
        ensures
            r is Some <==> self@.contains_key(key@),
            r matches Some(v) ==> v@ == self@[key@],
    {
        proof {
            use_type_invariant(self);
            self.lemma_ordered();
        }
        match self.position(key) {
            Some(i) => Some(&self.entries[i].1),
            None => None,
        }
    }

    /// Whether `key` is in the map.
    pub fn contains_key(&self, key: &str) -> (b: bool)
        ensures
            b == self@.contains_key(key@),
    {
        proof {
            use_type_invariant(self);
            self.lemma_ordered();
        }
        self.position(key).is_some()
    }

    /// Stores `value` under `key`, replacing any earlier value.
    pub fn insert(&mut self, key: String, value: String)
        ensures
            final(self)@ == old(self)@.insert(key@, value@),
            keys_increasing(final(self).pairs()),
    {
        proof {
            use_type_invariant(&*self);
            self.lemma_ordered();
        }
        let ghost old_pairs = self.pairs();
        let ghost k = key@;
        let ghost v = value@;
        let mut i: usize = 0;
        let n = self.entries.len();
        while i < n && compare_text(self.entries[i].0.as_str(), key.as_str()) == Order::Less
            invariant
                0 <= i <= n,
                n == self.entries@.len(),
                n == old_pairs.len(),
                old_pairs == self.pairs(),
                k == key@,
                forall|j: int| 0 <= j < i ==> text_less(#[trigger] old_pairs[j].0, k),
            decreases n - i,
        {
            i = i + 1;
        }
        let equal = i < n && compare_text(self.entries[i].0.as_str(), key.as_str()) == Order::Equal;
        proof {
            if i < n && !equal {
                assert(text_less(k, old_pairs[i as int].0));
            }
        }
        if equal {
            let mut entries = Vec::new();
            std::mem::swap(&mut entries, &mut self.entries);
            entries.set(i, (key, value));
            let new_entries = entries;
            let ghost new_pairs = new_entries@.map_values(|e: (String, String)| (e.0@, e.1@));
            proof {
                assert(new_pairs =~= old_pairs.update(i as int, (k, v)));
                assert(old_pairs[i as int].0 == k);
                assert forall|a: int, b: int| 0 <= a < b < new_pairs.len() implies text_less(
                    #[trigger] new_pairs[a].0,
                    #[trigger] new_pairs[b].0,
                ) by {
                    assert(new_pairs[a].0 == old_pairs[a].0);
                    assert(new_pairs[b].0 == old_pairs[b].0);
                    assert(text_less(old_pairs[a].0, old_pairs[b].0));
                }
                lemma_increasing_distinct(new_pairs);
                assert forall|q: Seq<char>| #[trigger] pairs_map(new_pairs).contains_key(q)
                    <==> pairs_map(old_pairs).insert(k, v).contains_key(q) by {
                    lemma_pairs_map_contains(new_pairs, q);
                    lemma_pairs_map_contains(old_pairs, q);
                    if exists|j: int| 0 <= j < new_pairs.len() && #[trigger] new_pairs[j].0 == q {
                        let j = choose|j: int| 0 <= j < new_pairs.len() && #[trigger] new_pairs[j].0 == q;
                        assert(old_pairs[j].0 == q);
                    }
                    if exists|j: int| 0 <= j < old_pairs.len() && #[trigger] old_pairs[j].0 == q {
                        let j = choose|j: int| 0 <= j < old_pairs.len() && #[trigger] old_pairs[j].0 == q;
                        assert(new_pairs[j].0 == q);
                    }
                }
                assert forall|q: Seq<char>| #[trigger] pairs_map(new_pairs).contains_key(q)
                    implies pairs_map(new_pairs)[q] == pairs_map(old_pairs).insert(k, v)[q] by {
                    lemma_pairs_map_contains(new_pairs, q);
                    let j = choose|j: int| 0 <= j < new_pairs.len() && #[trigger] new_pairs[j].0 == q;
                    lemma_pairs_map_value(new_pairs, j);
                    if j != i {
                        assert(old_pairs[j] == new_pairs[j]);
                        lemma_pairs_map_value(old_pairs, j);
                    }
                }
                assert(pairs_map(new_pairs) =~= pairs_map(old_pairs).insert(k, v));
            }
            self.entries = new_entries;
        } else {
            let mut entries = Vec::new();
            std::mem::swap(&mut entries, &mut self.entries);
            entries.insert(i, (key, value));
            let new_entries = entries;
            let ghost new_pairs = new_entries@.map_values(|e: (String, String)| (e.0@, e.1@));
            proof {
                assert(new_pairs =~= old_pairs.insert(i as int, (k, v)));
                assert forall|a: int, b: int| 0 <= a < b < new_pairs.len() implies text_less(
                    #[trigger] new_pairs[a].0,
                    #[trigger] new_pairs[b].0,
                ) by {
                    if b < i {
                        assert(text_less(old_pairs[a].0, old_pairs[b].0));
                    } else if b == i {
                        assert(text_less(old_pairs[a].0, k));
                    } else if a == i {
                        assert(new_pairs[b].0 == old_pairs[b - 1].0);
                        if b - 1 > i {
                            assert(text_less(old_pairs[i as int].0, old_pairs[b - 1].0));
                            lemma_bytes_less_transitive(
                                crate::text::utf8_bytes(k),
                                crate::text::utf8_bytes(old_pairs[i as int].0),
                                crate::text::utf8_bytes(old_pairs[b - 1].0),
                            );
                        }
                    } else if a < i {
                        assert(text_less(old_pairs[a].0, old_pairs[b - 1].0));
                    } else {
                        assert(text_less(old_pairs[a - 1].0, old_pairs[b - 1].0));
                    }
                }
                lemma_increasing_distinct(new_pairs);
                assert forall|q: Seq<char>| #[trigger] pairs_map(new_pairs).contains_key(q)
                    <==> pairs_map(old_pairs).insert(k, v).contains_key(q) by {
                    lemma_pairs_map_contains(new_pairs, q);
                    lemma_pairs_map_contains(old_pairs, q);
                    if exists|j: int| 0 <= j < new_pairs.len() && #[trigger] new_pairs[j].0 == q {
                        let j = choose|j: int| 0 <= j < new_pairs.len() && #[trigger] new_pairs[j].0 == q;
                        if j < i {
                            assert(old_pairs[j].0 == q);
                        } else if j > i {
                            assert(old_pairs[j - 1].0 == q);
                        }
                    }
                    if exists|j: int| 0 <= j < old_pairs.len() && #[trigger] old_pairs[j].0 == q {
                        let j = choose|j: int| 0 <= j < old_pairs.len() && #[trigger] old_pairs[j].0 == q;
                        if j < i {
                            assert(new_pairs[j].0 == q);
                        } else {
                            assert(new_pairs[j + 1].0 == q);
                        }
                    }
                    if q == k {
                        assert(new_pairs[i as int].0 == q);
                    }
                }
                assert forall|q: Seq<char>| #[trigger] pairs_map(new_pairs).contains_key(q)
                    implies pairs_map(new_pairs)[q] == pairs_map(old_pairs).insert(k, v)[q] by {
                    lemma_pairs_map_contains(new_pairs, q);
                    let j = choose|j: int| 0 <= j < new_pairs.len() && #[trigger] new_pairs[j].0 == q;
                    lemma_pairs_map_value(new_pairs, j);
                    if j < i {
                        assert(old_pairs[j] == new_pairs[j]);
                        lemma_pairs_map_value(old_pairs, j);
                        assert(text_less(old_pairs[j].0, k));
                        if q == k {
                            lemma_bytes_less_irreflexive(crate::text::utf8_bytes(k));
                        }
                    } else if j > i {
                        assert(old_pairs[j - 1] == new_pairs[j]);
                        lemma_pairs_map_value(old_pairs, j - 1);
                        assert(new_pairs[i as int].0 == k);
                    }
                }
                assert(pairs_map(new_pairs) =~= pairs_map(old_pairs).insert(k, v));
            }
            self.entries = new_entries;
        }
    }
}

} // verus!
