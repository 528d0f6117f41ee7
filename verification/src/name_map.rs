//! An association list keyed by unique names, the in-memory form of the
//! configuration mappings (containers by name, applications by name).

use vstd::prelude::*;

use crate::text::str_eq;

verus! {

/// First value stored under key `k`, if any.
pub open spec fn spec_get<K, V>(s: Seq<(K, V)>, k: K) -> Option<V>
    decreases s.len(),
{
    if s.len() == 0 {
        None
    } else if s[0].0 == k {
        Some(s[0].1)
    } else {
        spec_get(s.skip(1), k)
    }
}

/// Whether some entry carries key `k`.
pub open spec fn keys_contain<K, V>(s: Seq<(K, V)>, k: K) -> bool {
    exists|i: int| 0 <= i < s.len() && s[i].0 == k
}

/// Keys are pairwise distinct.
pub open spec fn keys_distinct<K, V>(s: Seq<(K, V)>) -> bool {
    forall|i: int, j: int| 0 <= i < j < s.len() ==> s[i].0 != s[j].0
}

pub proof fn lemma_spec_get_at<K, V>(s: Seq<(K, V)>, k: K, i: int)
    requires
        0 <= i < s.len(),
        s[i].0 == k,
        forall|j: int| 0 <= j < i ==> s[j].0 != k,
    ensures
        spec_get(s, k) == Some(s[i].1),
    decreases i,
{
    if i == 0 {
    } else {
        assert(forall|j: int| 0 <= j < i - 1 ==> s.skip(1)[j] == s[j + 1]);
        lemma_spec_get_at(s.skip(1), k, i - 1);
    }
}

pub proof fn lemma_spec_get_none<K, V>(s: Seq<(K, V)>, k: K)
    requires
        forall|j: int| 0 <= j < s.len() ==> s[j].0 != k,
    ensures
        spec_get(s, k) is None,
    decreases s.len(),
{
    if s.len() > 0 {
        assert(forall|j: int| 0 <= j < s.len() - 1 ==> s.skip(1)[j] == s[j + 1]);
        lemma_spec_get_none(s.skip(1), k);
    }
}

pub proof fn lemma_spec_get_some_implies_contains<K, V>(s: Seq<(K, V)>, k: K)
    requires
        spec_get(s, k) is Some,
    ensures
        keys_contain(s, k),
    decreases s.len(),
{
    if s.len() > 0 {
        if s[0].0 == k {
            assert(keys_contain(s, k)) by {
                assert(s[0].0 == k);
            }
        } else {
            lemma_spec_get_some_implies_contains(s.skip(1), k);
            let i = choose|i: int| 0 <= i < s.skip(1).len() && s.skip(1)[i].0 == k;
            assert(s[i + 1].0 == k);
        }
    }
}

/// Appending a fresh key makes it the one a lookup finds.
pub proof fn lemma_spec_get_push<K, V>(s: Seq<(K, V)>, k: K, v: V)
    requires
        !keys_contain(s, k),
    ensures
        spec_get(s.push((k, v)), k) == Some(v),
{
    let t = s.push((k, v));
    assert(t[s.len() as int].0 == k);
    assert(forall|j: int| 0 <= j < s.len() ==> t[j] == s[j]);
    lemma_spec_get_at(t, k, s.len() as int);
}

/// A mapping from names to values. Names are unique: looking one up
/// finds at most one entry.
pub struct NameMap<V> {
    entries: Vec<(String, V)>,
}

impl<V> View for NameMap<V> {
    type V = Seq<(Seq<char>, V)>;

    closed spec fn view(&self) -> Seq<(Seq<char>, V)> {
        self.entries@.map_values(|e: (String, V)| (e.0@, e.1))
    }
}

impl<V> NameMap<V> {
    /// Names are unique. Constructors establish this and `insert`
    /// preserves it.
    pub open spec fn wf(self) -> bool {
        keys_distinct(self@)
    }

    pub fn new() -> (m: Self)
        ensures
            m@.len() == 0,
            m.wf(),
    {
        NameMap { entries: Vec::new() }
    }

    pub fn len(&self) -> (n: usize)
        ensures
            n == self@.len(),
    {
        self.entries.len()
    }

    /// Adds an entry under a name not yet present.
    pub fn insert(&mut self, name: String, value: V)
        requires
            old(self).wf(),
            !keys_contain(old(self)@, name@),
        ensures
            final(self)@ == old(self)@.push((name@, value)),
            final(self).wf(),
    {
        let ghost pre = self@;
        self.entries.push((name, value));
        proof {
            assert(self@ =~= pre.push((name@, value)));
            assert forall|i: int, j: int| 0 <= i < j < self@.len() implies self@[i].0
                != self@[j].0 by {
                if j < pre.len() {
                } else {
                    assert(self@[j].0 == name@);
                    assert(!keys_contain(pre, name@));
                }
            }
        }
    }

    /// Looks a name up.
    pub fn get(&self, name: &str) -> (r: Option<&V>)
        ensures
            match r {
                Some(v) => spec_get(self@, name@) == Some(*v),
                None => spec_get(self@, name@) is None,
            },
    {
        let mut i: usize = 0;
        while i < self.entries.len()
            invariant
                i <= self@.len(),
                self@.len() == self.entries@.len(),
                forall|j: int| 0 <= j < self@.len() ==> self@[j] == (
                self.entries@[j].0@,
                self.entries@[j].1,
                ),
                forall|j: int| 0 <= j < i ==> self@[j].0 != name@,
            decreases self@.len() - i,
        {
            if str_eq(self.entries[i].0.as_str(), name) {
                proof {
                    lemma_spec_get_at(self@, name@, i as int);
                }
                return Some(&self.entries[i].1);
            }
            i = i + 1;
        }
        proof {
            lemma_spec_get_none(self@, name@);
        }
        None
    }

    /// Consumes the mapping, yielding its entries in storage order.
    pub fn into_entries(self) -> (v: Vec<(String, V)>)
        ensures
            v@.len() == self@.len(),
            forall|i: int| 0 <= i < v@.len() ==> (v@[i].0@, v@[i].1) == self@[i],
    {
        self.entries
    }
}

} // verus!
