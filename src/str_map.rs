//! A map from strings to strings whose entries are kept sorted by key, so that
//! the order in which its entries are listed depends on its contents alone.
//! Keys are compared exactly: header names are case-sensitive, as received.
use vstd::prelude::*;
use vstd::string::*;

use crate::text::str_eq;

verus! {

/// Lexicographic order on character sequences, from position `i` on, by code point.
pub open spec fn key_lt_from(a: Seq<char>, b: Seq<char>, i: int) -> bool
    decreases a.len() - i,
{
    if i < 0 || i >= a.len() {
        i >= 0 && b.len() > i
    } else if i >= b.len() {
        false
    } else if a[i] != b[i] {
        (a[i] as u32) < (b[i] as u32)
    } else {
        key_lt_from(a, b, i + 1)
    }
}

/// Lexicographic order on character sequences, by code point.
pub open spec fn key_lt(a: Seq<char>, b: Seq<char>) -> bool {
    key_lt_from(a, b, 0)
}

/// Keys strictly increase along the sequence (so no key occurs twice).
pub open spec fn sorted_keys(s: Seq<(Seq<char>, Seq<char>)>) -> bool {
    forall|i: int, j: int| 0 <= i < j < s.len() ==> key_lt(#[trigger] s[i].0, #[trigger] s[j].0)
}

/// The map that a sequence of entries describes; a later entry wins over an earlier one.
pub open spec fn entries_map(s: Seq<(Seq<char>, Seq<char>)>) -> Map<Seq<char>, Seq<char>>
    decreases s.len(),
{
    if s.len() == 0 {
        Map::empty()
    } else {
        entries_map(s.drop_last()).insert(s.last().0, s.last().1)
    }
}

/// The entries of a map in increasing key order.
pub open spec fn sorted_entries(m: Map<Seq<char>, Seq<char>>) -> Seq<(Seq<char>, Seq<char>)> {
    choose|s: Seq<(Seq<char>, Seq<char>)>| sorted_keys(s) && entries_map(s) == m
}

proof fn lemma_lt_irreflexive(a: Seq<char>, i: int)
    requires
        0 <= i,
    ensures
        !key_lt_from(a, a, i),
    decreases a.len() - i,
{
    if i < a.len() {
        lemma_lt_irreflexive(a, i + 1);
    }
}

proof fn lemma_lt_transitive(a: Seq<char>, b: Seq<char>, c: Seq<char>, i: int)
    requires
        0 <= i,
        key_lt_from(a, b, i),
        key_lt_from(b, c, i),
    ensures
        key_lt_from(a, c, i),
    decreases a.len() - i,
{
    if i < a.len() && i < b.len() && i < c.len() && a[i] == b[i] && b[i] == c[i] {
        lemma_lt_transitive(a, b, c, i + 1);
    }
}

proof fn lemma_lt_total(a: Seq<char>, b: Seq<char>, i: int)
    requires
        0 <= i <= a.len(),
        i <= b.len(),
        a.subrange(0, i) == b.subrange(0, i),
        a != b,
    ensures
        key_lt_from(a, b, i) || key_lt_from(b, a, i),
    decreases a.len() - i,
{
    if i == a.len() && i == b.len() {
        assert(a =~= a.subrange(0, i));
        assert(b =~= b.subrange(0, i));
    } else if i < a.len() && i < b.len() && a[i] == b[i] {
        assert(a.subrange(0, i + 1) =~= a.subrange(0, i).push(a[i]));
        assert(b.subrange(0, i + 1) =~= b.subrange(0, i).push(b[i]));
        lemma_lt_total(a, b, i + 1);
    } else if i < a.len() && i < b.len() {
        vstd::utf8::char_u32_cast(a[i], a[i] as u32);
        vstd::utf8::char_u32_cast(b[i], b[i] as u32);
    }
}

/// Any two distinct keys are ordered one way or the other.
pub proof fn lemma_key_order(a: Seq<char>, b: Seq<char>, c: Seq<char>)
    ensures
        !key_lt(a, a),
        key_lt(a, b) && key_lt(b, c) ==> key_lt(a, c),
        a != b ==> key_lt(a, b) || key_lt(b, a),
{
    lemma_lt_irreflexive(a, 0);
    if key_lt(a, b) && key_lt(b, c) {
        lemma_lt_transitive(a, b, c, 0);
    }
    if a != b {
        assert(a.subrange(0, 0) =~= b.subrange(0, 0));
        lemma_lt_total(a, b, 0);
    }
}

/// In a sorted sequence, the map holds exactly the listed keys, each with its listed value.
pub proof fn lemma_entries_map(s: Seq<(Seq<char>, Seq<char>)>)
    requires
        sorted_keys(s),
    ensures
        forall|k: Seq<char>|
            #[trigger] entries_map(s).contains_key(k) <==> exists|i: int|
                0 <= i < s.len() && s[i].0 == k,
        forall|i: int| 0 <= i < s.len() ==> #[trigger] entries_map(s)[s[i].0] == s[i].1,
    decreases s.len(),
{
    if s.len() > 0 {
        let t = s.drop_last();
        assert(sorted_keys(t));
        lemma_entries_map(t);
        assert forall|k: Seq<char>|
            #[trigger] entries_map(s).contains_key(k) <==> exists|i: int|
                0 <= i < s.len() && s[i].0 == k by {
            assert(entries_map(s) == entries_map(t).insert(s.last().0, s.last().1));
            if entries_map(s).contains_key(k) && k != s.last().0 {
                assert(entries_map(t).contains_key(k));
                let i = choose|i: int| 0 <= i < t.len() && t[i].0 == k;
                assert(s[i].0 == k);
            }
            if k == s.last().0 {
                assert(s[s.len() - 1].0 == k);
            }
            if exists|i: int| 0 <= i < s.len() && s[i].0 == k {
                let i = choose|i: int| 0 <= i < s.len() && s[i].0 == k;
                if i < t.len() {
                    assert(t[i].0 == k);
                    assert(entries_map(t).contains_key(k));
                }
            }
        }
        assert forall|i: int| 0 <= i < s.len() implies #[trigger] entries_map(s)[s[i].0]
            == s[i].1 by {
            if i < t.len() {
                assert(t[i] == s[i]);
                assert(key_lt(s[i].0, s[s.len() - 1].0));
                lemma_key_order(s[i].0, s[s.len() - 1].0, s[i].0);
                assert(entries_map(t)[t[i].0] == t[i].1);
                assert(entries_map(s) == entries_map(t).insert(s.last().0, s.last().1));
            }
        }
    }
}

/// Two sorted sequences that describe the same map are equal.
pub proof fn lemma_sorted_unique(s1: Seq<(Seq<char>, Seq<char>)>, s2: Seq<(Seq<char>, Seq<char>)>)
    requires
        sorted_keys(s1),
        sorted_keys(s2),
        entries_map(s1) == entries_map(s2),
    ensures
        s1 == s2,
    decreases s1.len(),
{
    lemma_entries_map(s1);
    lemma_entries_map(s2);
    if s1.len() == 0 {
        if s2.len() > 0 {
            assert(entries_map(s2).contains_key(s2[0].0));
        }
        assert(s1 =~= s2);
    } else {
        if s2.len() == 0 {
            assert(entries_map(s1).contains_key(s1[0].0));
        }
        let n1 = s1.len() - 1;
        let n2 = s2.len() - 1;
        let k1 = s1[n1].0;
        let k2 = s2[n2].0;
        assert(entries_map(s2).contains_key(k1));
        assert(entries_map(s1).contains_key(k2));
        let j = choose|j: int| 0 <= j < s2.len() && s2[j].0 == k1;
        let i = choose|i: int| 0 <= i < s1.len() && s1[i].0 == k2;
        lemma_key_order(k1, k2, k1);
        if k1 != k2 {
            assert(j < n2);
            assert(i < n1);
            assert(key_lt(k1, k2));
            assert(key_lt(k2, k1));
            assert(false);
        }
        assert(s1[n1].1 == entries_map(s1)[k1]);
        assert(s2[n2].1 == entries_map(s2)[k2]);
        let t1 = s1.drop_last();
        let t2 = s2.drop_last();
        assert(sorted_keys(t1));
        assert(sorted_keys(t2));
        lemma_entries_map(t1);
        lemma_entries_map(t2);
        assert(!entries_map(t1).contains_key(k1)) by {
            if entries_map(t1).contains_key(k1) {
                let x = choose|x: int| 0 <= x < t1.len() && t1[x].0 == k1;
                assert(key_lt(s1[x].0, s1[n1].0));
                lemma_key_order(k1, k1, k1);
            }
        }
        assert(!entries_map(t2).contains_key(k1)) by {
            if entries_map(t2).contains_key(k1) {
                let x = choose|x: int| 0 <= x < t2.len() && t2[x].0 == k1;
                assert(key_lt(s2[x].0, s2[n2].0));
                lemma_key_order(k1, k1, k1);
            }
        }
        assert(entries_map(t1) =~= entries_map(s1).remove(k1));
        assert(entries_map(t2) =~= entries_map(s2).remove(k1));
        lemma_sorted_unique(t1, t2);
        assert(s1 =~= t1.push(s1[n1]));
        assert(s2 =~= t2.push(s2[n2]));
    }
}

/// The sorted entries of the map that a sorted sequence describes are that sequence.
pub proof fn lemma_sorted_entries(s: Seq<(Seq<char>, Seq<char>)>)
    requires
        sorted_keys(s),
    ensures
        sorted_entries(entries_map(s)) == s,
{
    let m = entries_map(s);
    assert(sorted_keys(s) && entries_map(s) == m);
    let c = sorted_entries(m);
    lemma_sorted_unique(c, s);
}

/// Whether `a` comes before `b` in key order.
fn key_less(a: &str, b: &str) -> (r: bool)
    ensures
        r == key_lt(a@, b@),
{
    let na = a.unicode_len();
    let nb = b.unicode_len();
    let mut i: usize = 0;
    while i < na && i < nb
        invariant
            na == a@.len(),
            nb == b@.len(),
            i <= na,
            i <= nb,
            key_lt(a@, b@) == key_lt_from(a@, b@, i as int),
        decreases na - i,
    {
        let ca = a.get_char(i);
        let cb = b.get_char(i);
        if ca != cb {
            return (ca as u32) < (cb as u32);
        }
        i = i + 1;
    }
    nb > i
}

/// String pairs as character-sequence pairs.
pub open spec fn pairs_of(v: Seq<(String, String)>) -> Seq<(Seq<char>, Seq<char>)> {
    v.map_values(|e: (String, String)| (e.0@, e.1@))
}

/// A map from strings to strings, listed in increasing key order.
#[derive(Debug)]
pub struct StrMap {
    entries: Vec<(String, String)>,
}

impl StrMap {
    /// The entries as character sequences, in stored order.
    pub closed spec fn pairs(&self) -> Seq<(Seq<char>, Seq<char>)> {
        pairs_of(self.entries@)
    }

    #[verifier::type_invariant]
    spec fn inv(&self) -> bool {
        sorted_keys(self.pairs())
    }

    /// The empty map.
    pub fn new() -> (r: StrMap)
        ensures
            r@ == Map::<Seq<char>, Seq<char>>::empty(),
    {
        let r = StrMap { entries: Vec::new() };
        assert(r.pairs() =~= Seq::<(Seq<char>, Seq<char>)>::empty());
        r
    }

    /// The entries, in increasing key order.
    pub fn entries(&self) -> (r: &Vec<(String, String)>)
        ensures
            r@.map_values(|e: (String, String)| (e.0@, e.1@)) == sorted_entries(self@),
            sorted_keys(sorted_entries(self@)),
            entries_map(sorted_entries(self@)) == self@,
    {
        proof {
            use_type_invariant(self);
            lemma_sorted_entries(self.pairs());
        }
        &self.entries
    }

    /// The position of `key`, if it is present.
    fn find(&self, key: &str) -> (r: Option<usize>)
        ensures
            match r {
                Some(i) => i < self.pairs().len() && self.pairs()[i as int].0 == key@,
                None => forall|i: int| 0 <= i < self.pairs().len() ==> self.pairs()[i].0 != key@,
            },
    {
        let mut i: usize = 0;
        while i < self.entries.len()
            invariant
                i <= self.entries@.len(),
                forall|j: int| 0 <= j < i ==> self.pairs()[j].0 != key@,
            decreases self.entries@.len() - i,
        {
            if str_eq(self.entries[i].0.as_str(), key) {
                return Some(i);
            }
            i = i + 1;
        }
        None
    }

    /// The value stored under `key`.
    pub fn get(&self, key: &str) -> (r: Option<String>)
        ensures
            match r {
                Some(v) => self@.contains_key(key@) && v@ == self@[key@],
                None => !self@.contains_key(key@),
            },
    {
        proof {
            use_type_invariant(self);
            lemma_entries_map(self.pairs());
        }
        match self.find(key) {
            Some(i) => Some(self.entries[i].1.clone()),
            None => None,
        }
    }

    /// Whether `key` is present.
    pub fn contains_key(&self, key: &str) -> (r: bool)
        ensures
            r == self@.contains_key(key@),
    {
        proof {
            use_type_invariant(self);
            lemma_entries_map(self.pairs());
        }
        self.find(key).is_some()
    }

    /// Stores `value` under `key`, replacing any earlier value.
    pub fn insert(&mut self, key: &str, value: &str)
        ensures
            final(self)@ == old(self)@.insert(key@, value@),
    {
        proof {
            use_type_invariant(&*self);
        }
        let ghost s = self.pairs();
        let mut p: usize = 0;
        while p < self.entries.len() && key_less(self.entries[p].0.as_str(), key)
            invariant
                p <= self.entries@.len(),
                s == self.pairs(),
                sorted_keys(s),
                forall|j: int| 0 <= j < p ==> key_lt(#[trigger] s[j].0, key@),
            decreases self.entries@.len() - p,
        {
            p = p + 1;
        }
        let ghost k = key@;
        let ghost v = value@;
        proof {
            lemma_entries_map(s);
        }
        let pair = (key.to_owned(), value.to_owned());
        let found = p < self.entries.len() && str_eq(self.entries[p].0.as_str(), key);
        let mut e: Vec<(String, String)> = Vec::new();
        std::mem::swap(&mut self.entries, &mut e);
        assert(pairs_of(e@) == s);
        if found {
            e.set(p, pair);
            let ghost t = pairs_of(e@);
            assert(t =~= s.update(p as int, (k, v)));
            assert(s[p as int].0 == k);
            assert(forall|i: int| 0 <= i < t.len() ==> (#[trigger] t[i]).0 == s[i].0);
            assert(sorted_keys(t));
            proof {
                lemma_entries_map(t);
                assert forall|q: Seq<char>| #[trigger] entries_map(t).contains_key(q)
                    <==> entries_map(s).insert(k, v).contains_key(q) by {
                    if entries_map(s).contains_key(q) {
                        let i = choose|i: int| 0 <= i < s.len() && s[i].0 == q;
                        assert(t[i].0 == q);
                    }
                    if entries_map(t).contains_key(q) {
                        let i = choose|i: int| 0 <= i < t.len() && t[i].0 == q;
                        assert(s[i].0 == q);
                    }
                }
                assert forall|q: Seq<char>| #[trigger] entries_map(t).contains_key(q)
                    implies entries_map(t)[q] == entries_map(s).insert(k, v)[q] by {
                    let i = choose|i: int| 0 <= i < t.len() && t[i].0 == q;
                    assert(entries_map(t)[t[i].0] == t[i].1);
                    if i != p {
                        assert(entries_map(s)[s[i].0] == s[i].1);
                    }
                }
                assert(entries_map(t) =~= entries_map(s).insert(k, v));
            }
        } else {
            proof {
                if p < s.len() {
                    lemma_key_order(s[p as int].0, k, s[p as int].0);
                    assert(key_lt(k, s[p as int].0));
                }
            }
            e.insert(p, pair);
            let ghost t = pairs_of(e@);
            assert(t =~= s.insert(p as int, (k, v)));
            assert forall|i: int, j: int| 0 <= i < j < t.len() implies key_lt(
                #[trigger] t[i].0,
                #[trigger] t[j].0,
            ) by {
                if j == p {
                } else if i == p {
                    if j - 1 > p {
                        assert(key_lt(s[p as int].0, s[j - 1].0));
                        lemma_key_order(k, s[p as int].0, s[j - 1].0);
                    }
                } else if i < p && j > p {
                    assert(key_lt(s[i].0, k));
                    assert(key_lt(k, s[p as int].0));
                    lemma_key_order(s[i].0, k, s[p as int].0);
                    if j - 1 > p {
                        assert(key_lt(s[p as int].0, s[j - 1].0));
                        lemma_key_order(s[i].0, s[p as int].0, s[j - 1].0);
                    }
                } else if j < p {
                    assert(key_lt(s[i].0, s[j].0));
                } else {
                    assert(key_lt(s[i - 1].0, s[j - 1].0));
                }
            }
            proof {
                lemma_entries_map(t);
                assert forall|i: int| 0 <= i < s.len() implies s[i].0 != k by {
                    if i < p {
                        lemma_key_order(k, k, k);
                    } else {
                        assert(key_lt(k, s[p as int].0));
                        if i > p {
                            assert(key_lt(s[p as int].0, s[i].0));
                            lemma_key_order(k, s[p as int].0, s[i].0);
                        }
                        lemma_key_order(k, k, k);
                    }
                }
                assert forall|q: Seq<char>| #[trigger] entries_map(t).contains_key(q)
                    <==> entries_map(s).insert(k, v).contains_key(q) by {
                    if entries_map(s).contains_key(q) {
                        let i = choose|i: int| 0 <= i < s.len() && s[i].0 == q;
                        if i < p {
                            assert(t[i].0 == q);
                        } else {
                            assert(t[i + 1].0 == q);
                        }
                    }
                    if q == k {
                        assert(t[p as int].0 == q);
                    }
                    if entries_map(t).contains_key(q) && q != k {
                        let i = choose|i: int| 0 <= i < t.len() && t[i].0 == q;
                        if i < p {
                            assert(s[i].0 == q);
                        } else {
                            assert(s[i - 1].0 == q);
                        }
                    }
                }
                assert forall|q: Seq<char>| #[trigger] entries_map(t).contains_key(q)
                    implies entries_map(t)[q] == entries_map(s).insert(k, v)[q] by {
                    let i = choose|i: int| 0 <= i < t.len() && t[i].0 == q;
                    assert(entries_map(t)[t[i].0] == t[i].1);
                    if i < p {
                        assert(entries_map(s)[s[i].0] == s[i].1);
                    } else if i > p {
                        assert(entries_map(s)[s[i - 1].0] == s[i - 1].1);
                    }
                }
                assert(entries_map(t) =~= entries_map(s).insert(k, v));
            }
        }
        self.entries = e;
    }
}

/// For a map that has a sorted listing (every `StrMap` view has one, see `StrMap::entries`),
/// `sorted_entries` is sorted by key and holds exactly the map: each key once, with its value.
pub proof fn lemma_sorted_entries_list(m: Map<Seq<char>, Seq<char>>)
    requires
        exists|s: Seq<(Seq<char>, Seq<char>)>| sorted_keys(s) && entries_map(s) == m,
    ensures
        sorted_keys(sorted_entries(m)),
        entries_map(sorted_entries(m)) == m,
        forall|k: Seq<char>|
            #[trigger] m.contains_key(k) <==> exists|i: int|
                0 <= i < sorted_entries(m).len() && sorted_entries(m)[i].0 == k,
        forall|i: int|
            0 <= i < sorted_entries(m).len() ==> #[trigger] m[sorted_entries(m)[i].0]
                == sorted_entries(m)[i].1,
{
    let s = choose|s: Seq<(Seq<char>, Seq<char>)>| sorted_keys(s) && entries_map(s) == m;
    lemma_sorted_entries(s);
    lemma_entries_map(s);
}

impl Clone for StrMap {
    /// A copy with the same entries.
    fn clone(&self) -> (r: StrMap)
        ensures
            r@ == self@,
    {
        proof {
            use_type_invariant(self);
        }
        let mut entries: Vec<(String, String)> = Vec::new();
        let mut i: usize = 0;
        while i < self.entries.len()
            invariant
                i <= self.entries@.len(),
                entries@.len() == i,
                forall|j: int| 0 <= j < i ==> pairs_of(entries@)[j] == self.pairs()[j],
            decreases self.entries@.len() - i,
        {
            let k = self.entries[i].0.clone();
            let v = self.entries[i].1.clone();
            entries.push((k, v));
            i = i + 1;
        }
        assert(pairs_of(entries@) =~= self.pairs());
        StrMap { entries }
    }
}

impl View for StrMap {
    type V = Map<Seq<char>, Seq<char>>;

    closed spec fn view(&self) -> Map<Seq<char>, Seq<char>> {
        entries_map(self.pairs())
    }
}

} // verus!
