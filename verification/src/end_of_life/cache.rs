//! The lifecycle-record cache: a store keyed by product and version,
//! with an exact lookup, an idempotent conditional insert, and a full
//! clear. Records enter it only through `insert_cycle`, which never
//! overwrites an existing entry.

use vstd::prelude::*;

use crate::end_of_life::{Cycle, CycleView};
use crate::name_map::{
    keys_contain,
    keys_distinct,
    lemma_spec_get_at,
    lemma_spec_get_none,
    spec_get,
};
use crate::text::str_eq;

verus! {

/// One cached record, under its derived key.
struct CachedCycle {
    product: String,
    cycle: String,
    data: Cycle,
}

/// The cache store. Keys are (product, version) pairs, derived from the
/// records' own identity rather than assigned.
pub struct CycleCache {
    entries: Vec<CachedCycle>,
}

impl View for CycleCache {
    type V = Seq<((Seq<char>, Seq<char>), CycleView)>;

    closed spec fn view(&self) -> Seq<((Seq<char>, Seq<char>), CycleView)> {
        self.entries@.map_values(|e: CachedCycle| ((e.product@, e.cycle@), e.data@))
    }
}

impl CycleCache {
    /// Keys are unique: an entry is never duplicated, so a lookup finds
    /// at most one record.
    pub open spec fn wf(self) -> bool {
        keys_distinct(self@)
    }

    /// An empty cache.
    pub fn new() -> (c: Self)
        ensures
            c@.len() == 0,
            c.wf(),
    {
        CycleCache { entries: Vec::new() }
    }

    pub fn len(&self) -> (n: usize)
        ensures
            n == self@.len(),
    {
        self.entries.len()
    }

    /// Borrows the entry at a position, for walking the whole store —
    /// for instance to persist it.
    pub fn entry_at(&self, i: usize) -> (e: (&String, &String, &Cycle))
        requires
            i < self@.len(),
        ensures
            ((e.0@, e.1@), e.2@) == self@[i as int],
    {
        let entry = &self.entries[i];
        (&entry.product, &entry.cycle, &entry.data)
    }
}

/// Retrieves the cached record for a product and version, if present;
/// absence is not an error.
pub fn get_cycle(store: &CycleCache, product: &str, cycle: &str) -> (r: Option<Cycle>)
    ensures
        match r {
            Some(c) => spec_get(store@, (product@, cycle@)) == Some(c@),
            None => spec_get(store@, (product@, cycle@)) is None,
        },
{
    let mut i: usize = 0;
    while i < store.entries.len()
        invariant
            i <= store@.len(),
            store@.len() == store.entries@.len(),
            forall|j: int| 0 <= j < store@.len() ==> store@[j] == (
            (store.entries@[j].product@, store.entries@[j].cycle@),
            store.entries@[j].data@,
            ),
            forall|j: int| 0 <= j < i ==> store@[j].0 != (product@, cycle@),
        decreases store@.len() - i,
    {
        let entry = &store.entries[i];
        if str_eq(entry.product.as_str(), product) && str_eq(entry.cycle.as_str(), cycle) {
            proof {
                lemma_spec_get_at(store@, (product@, cycle@), i as int);
            }
            return Some(entry.data.duplicate());
        }
        i = i + 1;
    }
    proof {
        lemma_spec_get_none(store@, (product@, cycle@));
    }
    None
}

/// Stores a record under a product and version unless one is already
/// present; returns the record the cache holds afterwards. Re-insertion
/// under an existing key is a no-op that returns the first-stored
/// record unchanged, never an overwrite.
pub fn insert_cycle(store: &mut CycleCache, product: &str, cycle: &str, data: Cycle) -> (r: Cycle)
    requires
        old(store).wf(),
    ensures
        final(store).wf(),
        match spec_get(old(store)@, (product@, cycle@)) {
            Some(stored) => final(store)@ == old(store)@ && r@ == stored,
            None => final(store)@ == old(store)@.push(((product@, cycle@), data@)) && r@ == data@,
        },
{
    let mut i: usize = 0;
    while i < store.entries.len()
        invariant
            *store == *old(store),
            old(store).wf(),
            i <= store@.len(),
            store@.len() == store.entries@.len(),
            forall|j: int| 0 <= j < store@.len() ==> store@[j] == (
            (store.entries@[j].product@, store.entries@[j].cycle@),
            store.entries@[j].data@,
            ),
            forall|j: int| 0 <= j < i ==> store@[j].0 != (product@, cycle@),
        decreases store@.len() - i,
    {
        let entry = &store.entries[i];
        if str_eq(entry.product.as_str(), product) && str_eq(entry.cycle.as_str(), cycle) {
            proof {
                lemma_spec_get_at(store@, (product@, cycle@), i as int);
            }
            return store.entries[i].data.duplicate();
        }
        i = i + 1;
    }
    proof {
        lemma_spec_get_none(store@, (product@, cycle@));
    }
    let ghost pre = store@;
    let r = data.duplicate();
    store.entries.push(
        CachedCycle { product: product.to_owned(), cycle: cycle.to_owned(), data },
    );
    proof {
        assert(store@ =~= pre.push(((product@, cycle@), data@)));
        assert forall|a: int, b: int| 0 <= a < b < store@.len() implies store@[a].0
            != store@[b].0 by {
            if b < pre.len() {
            } else {
                assert(store@[b].0 == (product@, cycle@));
                assert(!keys_contain(pre, (product@, cycle@)));
            }
        }
    }
    r
}

/// Deletes every entry; the pre-run reset an external caller may ask
/// for.
pub fn clear(store: &mut CycleCache)
    ensures
        final(store)@.len() == 0,
        final(store).wf(),
{
    store.entries.clear();
}

/// Law: the conditional insert is idempotent. Once a record `c1` has
/// been stored under a fresh key, a lookup of that key finds exactly
/// `c1`; by `insert_cycle`'s contract every later insert under the same
/// key — whatever record it carries — therefore returns `c1` and
/// leaves the store unchanged, so the stored value never changes after
/// first insertion.
pub proof fn lemma_insert_idempotent(
    pre: Seq<((Seq<char>, Seq<char>), CycleView)>,
    k: (Seq<char>, Seq<char>),
    c1: CycleView,
)
    requires
        !keys_contain(pre, k),
    ensures
        spec_get(pre.push((k, c1)), k) == Some(c1),
{
    crate::name_map::lemma_spec_get_push(pre, k, c1);
}

} // verus!
