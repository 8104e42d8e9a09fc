//! An ordered map from strings to strings, kept as an association list sorted by key.
use crate::text::{compare_chars, lemma_seq_lt_asymmetric, lemma_seq_lt_transitive, seq_lt, to_chars, str_views};
use vstd::prelude::*;

verus! {

/// The key and value of every entry, as character sequences.
pub open spec fn entry_views(v: Seq<(String, String)>) -> Seq<(Seq<char>, Seq<char>)> {
    v.map_values(|e: (String, String)| (e.0@, e.1@))
}

/// Keys strictly ascending in `String` order, so no key occurs twice.
pub open spec fn keys_ascending(s: Seq<(Seq<char>, Seq<char>)>) -> bool {
    forall|i: int, j: int| 0 <= i < j < s.len() ==> seq_lt(#[trigger] s[i].0, #[trigger] s[j].0)
}

/// The value stored under `k`, found at its first occurrence.
pub open spec fn assoc_get(s: Seq<(Seq<char>, Seq<char>)>, k: Seq<char>) -> Option<Seq<char>>
    decreases s.len(),
{
    if s.len() == 0 {
        None
    } else if s[0].0 == k {
        Some(s[0].1)
    } else {
        assoc_get(s.drop_first(), k)
    }
}

/// The entries after storing `v` under `k`: an entry with that key is replaced,
/// otherwise the new entry goes before the first greater key.
pub open spec fn assoc_insert(s: Seq<(Seq<char>, Seq<char>)>, k: Seq<char>, v: Seq<char>) -> Seq<
    (Seq<char>, Seq<char>),
>
    decreases s.len(),
{
    if s.len() == 0 {
        seq![(k, v)]
    } else if s[0].0 == k {
        s.update(0, (k, v))
    } else if seq_lt(k, s[0].0) {
        seq![(k, v)] + s
    } else {
        seq![s[0]] + assoc_insert(s.drop_first(), k, v)
    }
}

/// The keys of the entries, in order.
pub open spec fn assoc_keys(s: Seq<(Seq<char>, Seq<char>)>) -> Seq<Seq<char>> {
    s.map_values(|e: (Seq<char>, Seq<char>)| e.0)
}

/// The entries of `pairs` stored one after the other into an empty map.
pub open spec fn assoc_from(pairs: Seq<(Seq<char>, Seq<char>)>) -> Seq<(Seq<char>, Seq<char>)>
    decreases pairs.len(),
{
    if pairs.len() == 0 {
        Seq::empty()
    } else {
        let rest = assoc_from(pairs.drop_last());
        assoc_insert(rest, pairs.last().0, pairs.last().1)
    }
}

/// Storing a key greater than every key present appends it.
pub proof fn lemma_insert_greatest(s: Seq<(Seq<char>, Seq<char>)>, k: Seq<char>, v: Seq<char>)
    requires
        forall|j: int| 0 <= j < s.len() ==> crate::text::seq_lt(#[trigger] s[j].0, k),
    ensures
        assoc_insert(s, k, v) == s.push((k, v)),
    decreases s.len(),
{
    if s.len() > 0 {
        crate::text::lemma_seq_lt_irreflexive(k);
        crate::text::lemma_seq_lt_asymmetric(s[0].0, k);
        let t = s.drop_first();
        assert forall|j: int| 0 <= j < t.len() implies crate::text::seq_lt(#[trigger] t[j].0, k) by {
            assert(t[j] == s[j + 1]);
        }
        lemma_insert_greatest(t, k, v);
        assert(seq![s[0]] + t.push((k, v)) =~= s.push((k, v)));
    }
}

proof fn lemma_insert_at(s: Seq<(Seq<char>, Seq<char>)>, k: Seq<char>, v: Seq<char>, i: int)
    requires
        0 <= i <= s.len(),
        forall|j: int| 0 <= j < i ==> seq_lt(#[trigger] s[j].0, k),
        i < s.len() ==> !seq_lt(s[i].0, k),
    ensures
        i < s.len() && s[i].0 == k ==> assoc_insert(s, k, v) == s.update(i, (k, v)),
        !(i < s.len() && s[i].0 == k) ==> assoc_insert(s, k, v) == s.subrange(0, i) + seq![(k, v)]
            + s.subrange(i, s.len() as int),
    decreases i,
{
    if i == 0 {
        if s.len() > 0 && s[0].0 != k {
            crate::text::lemma_seq_lt_total(s[0].0, k);
            assert(s.subrange(0, 0) + seq![(k, v)] + s.subrange(0, s.len() as int) =~= seq![(k, v)]
                + s);
        } else if s.len() == 0 {
            assert(s.subrange(0, 0) + seq![(k, v)] + s.subrange(0, 0) =~= seq![(k, v)]);
        }
    } else {
        let t = s.drop_first();
        assert(seq_lt(s[0].0, k));
        lemma_seq_lt_asymmetric(s[0].0, k);
        crate::text::lemma_seq_lt_irreflexive(k);
        assert(s[0].0 != k);
        assert forall|j: int| 0 <= j < i - 1 implies seq_lt(#[trigger] t[j].0, k) by {
            assert(t[j] == s[j + 1]);
        }
        lemma_insert_at(t, k, v, i - 1);
        if i < s.len() && s[i].0 == k {
            assert(seq![s[0]] + t.update(i - 1, (k, v)) =~= s.update(i, (k, v)));
        } else {
            assert(seq![s[0]] + (t.subrange(0, i - 1) + seq![(k, v)] + t.subrange(
                i - 1,
                t.len() as int,
            )) =~= s.subrange(0, i) + seq![(k, v)] + s.subrange(i, s.len() as int));
        }
    }
}

proof fn lemma_get_at(s: Seq<(Seq<char>, Seq<char>)>, k: Seq<char>, i: int)
    requires
        0 <= i <= s.len(),
        forall|j: int| 0 <= j < i ==> #[trigger] s[j].0 != k,
    ensures
        i < s.len() && s[i].0 == k ==> assoc_get(s, k) == Some(s[i].1),
        i == s.len() ==> assoc_get(s, k) is None,
    decreases i,
{
    if i > 0 {
        let t = s.drop_first();
        assert forall|j: int| 0 <= j < i - 1 implies #[trigger] t[j].0 != k by {
            assert(t[j] == s[j + 1]);
        }
        lemma_get_at(t, k, i - 1);
    }
}

/// A map from strings to strings that keeps its keys in ascending order.
#[derive(Debug, Clone, PartialEq, Eq)]
pub struct StringMap {
    entries: Vec<(String, String)>,
}

impl View for StringMap {
    type V = Seq<(Seq<char>, Seq<char>)>;

    closed spec fn view(&self) -> Seq<(Seq<char>, Seq<char>)> {
        entry_views(self.entries@)
    }
}

impl StringMap {
    /// The entries are sorted by key, with no key twice.
    pub open spec fn well_formed(&self) -> bool {
        keys_ascending(self@)
    }

    pub fn new() -> (r: Self)
        ensures
            r@ == Seq::<(Seq<char>, Seq<char>)>::empty(),
            r.well_formed(),
    {
        StringMap { entries: Vec::new() }
    }

    pub fn len(&self) -> (r: usize)
        ensures
            r == self@.len(),
    {
        self.entries.len()
    }

    pub fn is_empty(&self) -> (r: bool)
        ensures
            r == (self@.len() == 0),
    {
        self.entries.len() == 0
    }

    /// The key of the entry at position `i`.
    pub fn key_at(&self, i: usize) -> (r: &String)
        requires
            i < self@.len(),
        ensures
            r@ == self@[i as int].0,
    {
        &self.entries[i].0
    }

    /// The value of the entry at position `i`.
    pub fn value_at(&self, i: usize) -> (r: &String)
        requires
            i < self@.len(),
        ensures
            r@ == self@[i as int].1,
    {
        &self.entries[i].1
    }

    fn index_not_less(&self, key: &Vec<char>) -> (r: usize)
        ensures
            r <= self@.len(),
            forall|j: int| 0 <= j < r ==> seq_lt(#[trigger] self@[j].0, key@),
            r < self@.len() ==> !seq_lt(self@[r as int].0, key@),
    {
        let mut i: usize = 0;
        while i < self.entries.len()
            invariant
                i <= self.entries.len(),
                self@ == entry_views(self.entries@),
                forall|j: int| 0 <= j < i ==> seq_lt(#[trigger] self@[j].0, key@),
            decreases self.entries.len() - i,
        {
            let k = to_chars(self.entries[i].0.as_str());
            assert(self@[i as int] == (self.entries@[i as int].0@, self.entries@[i as int].1@));
            if compare_chars(&k, key) >= 0 {
                return i;
            }
            i = i + 1;
        }
        i
    }

    /// The value stored under `key`.
    pub fn get(&self, key: &str) -> (r: Option<String>)
        ensures
            r matches Some(v) ==> assoc_get(self@, key@) == Some(v@),
            r is None ==> assoc_get(self@, key@) is None,
    {
        let kc = to_chars(key);
        let mut i: usize = 0;
        while i < self.entries.len()
            invariant
                i <= self.entries.len(),
                self@ == entry_views(self.entries@),
                kc@ == key@,
                forall|j: int| 0 <= j < i ==> #[trigger] self@[j].0 != key@,
            decreases self.entries.len() - i,
        {
            let k = to_chars(self.entries[i].0.as_str());
            assert(self@[i as int] == (self.entries@[i as int].0@, self.entries@[i as int].1@));
            if crate::text::chars_eq(&k, &kc) {
                proof {
                    lemma_get_at(self@, key@, i as int);
                }
                return Some(self.entries[i].1.clone());
            }
            i = i + 1;
        }
        proof {
            lemma_get_at(self@, key@, i as int);
        }
        None
    }

    pub fn contains_key(&self, key: &str) -> (r: bool)
        ensures
            r == assoc_get(self@, key@) is Some,
    {
        self.get(key).is_some()
    }

    /// Stores `value` under `key`, replacing the value stored there before.
    pub fn insert(&mut self, key: String, value: String)
        ensures
            final(self)@ == assoc_insert(old(self)@, key@, value@),
            old(self).well_formed() ==> final(self).well_formed(),
    {
        let kc = to_chars(key.as_str());
        let i = self.index_not_less(&kc);
        let ghost s = self@;
        proof {
            lemma_insert_at(s, key@, value@, i as int);
        }
        if i < self.entries.len() {
            let k = to_chars(self.entries[i].0.as_str());
            if crate::text::chars_eq(&k, &kc) {
                self.entries.set(i, (key, value));
                assert(self@ =~= s.update(i as int, (key@, value@)));
                proof {
                    if keys_ascending(s) {
                        assert forall|a: int, b: int| 0 <= a < b < self@.len() implies seq_lt(
                            #[trigger] self@[a].0,
                            #[trigger] self@[b].0,
                        ) by {
                            assert(s[a].0 == self@[a].0 && s[b].0 == self@[b].0);
                        }
                    }
                }
                return ;
            }
        }
        self.entries.insert(i, (key, value));
        assert(self@ =~= s.subrange(0, i as int) + seq![(key@, value@)] + s.subrange(
            i as int,
            s.len() as int,
        ));
        proof {
            if keys_ascending(s) {
                let n = self@;
                if i < s.len() {
                    crate::text::lemma_seq_lt_total(s[i as int].0, key@);
                }
                assert forall|a: int, b: int| 0 <= a < b < n.len() implies seq_lt(
                    #[trigger] n[a].0,
                    #[trigger] n[b].0,
                ) by {
                    if b < i {
                        assert(n[a] == s[a] && n[b] == s[b]);
                    } else if b == i {
                        assert(n[a] == s[a]);
                    } else if a == i {
                        assert(n[b] == s[b - 1]);
                        if b - 1 > i {
                            lemma_seq_lt_transitive(key@, s[i as int].0, s[b - 1].0);
                        }
                    } else if a < i {
                        assert(n[a] == s[a] && n[b] == s[b - 1]);
                    } else {
                        assert(n[a] == s[a - 1] && n[b] == s[b - 1]);
                    }
                }
            }
        }
    }

    /// The map holding `pairs`, each stored in turn.
    pub fn from_pairs(pairs: Vec<(String, String)>) -> (r: Self)
        ensures
            r@ == assoc_from(entry_views(pairs@)),
            r.well_formed(),
    {
        let mut m = StringMap::new();
        let mut i: usize = 0;
        while i < pairs.len()
            invariant
                i <= pairs.len(),
                m@ == assoc_from(entry_views(pairs@).subrange(0, i as int)),
                m.well_formed(),
            decreases pairs.len() - i,
        {
            let k = pairs[i].0.clone();
            let v = pairs[i].1.clone();
            assert(entry_views(pairs@).subrange(0, i + 1).drop_last() == entry_views(pairs@).subrange(
                0,
                i as int,
            ));
            m.insert(k, v);
            i = i + 1;
        }
        assert(entry_views(pairs@).subrange(0, pairs.len() as int) == entry_views(pairs@));
        m
    }

    /// The keys, in ascending order.
    pub fn keys(&self) -> (r: Vec<String>)
        ensures
            str_views(r@) == assoc_keys(self@),
    {
        let mut r: Vec<String> = Vec::new();
        let mut i: usize = 0;
        while i < self.entries.len()
            invariant
                i <= self.entries.len(),
                self@ == entry_views(self.entries@),
                str_views(r@) == assoc_keys(self@).subrange(0, i as int),
            decreases self.entries.len() - i,
        {
            let k = self.entries[i].0.clone();
            assert(self@[i as int] == (self.entries@[i as int].0@, self.entries@[i as int].1@));
            let ghost old_r = r@;
            r.push(k);
            proof {
                crate::text::lemma_str_views_push(old_r, k);
            }
            assert(str_views(r@) =~= assoc_keys(self@).subrange(0, i + 1));
            i = i + 1;
        }
        assert(assoc_keys(self@).subrange(0, i as int) =~= assoc_keys(self@));
        r
    }

    pub fn duplicate(&self) -> (r: Self)
        ensures
            r@ == self@,
    {
        let mut e: Vec<(String, String)> = Vec::new();
        let mut i: usize = 0;
        while i < self.entries.len()
            invariant
                i <= self.entries.len(),
                entry_views(e@) == entry_views(self.entries@).subrange(0, i as int),
            decreases self.entries.len() - i,
        {
            let k = self.entries[i].0.clone();
            let v = self.entries[i].1.clone();
            let ghost old_e = e@;
            e.push((k, v));
            assert(entry_views(e@) =~= entry_views(old_e).push((k@, v@)));
            assert(entry_views(self.entries@)[i as int] == (self.entries@[i as int].0@, self.entries@[i as int].1@));
            assert(entry_views(e@) =~= entry_views(self.entries@).subrange(0, i + 1));
            i = i + 1;
        }
        assert(entry_views(self.entries@).subrange(0, i as int) =~= entry_views(self.entries@));
        StringMap { entries: e }
    }
}

} // verus!
