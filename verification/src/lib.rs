//! Audits a fleet of container images: for each configured container it
//! runs version-detection commands for a set of named applications,
//! extracts version strings by pattern matching, and resolves each
//! version's end-of-life status through a cache-first lookup protocol.
//! Results are aggregated into a report sorted by container name, so
//! that the output is a function of the configuration alone and not of
//! the order in which concurrent workers finish.

use vstd::prelude::*;

pub mod application;
pub mod container;
pub mod docker;
pub mod end_of_life;
pub mod name_map;
pub mod text;
pub mod worker;

use crate::application::Application;
use crate::container::Container;
use crate::name_map::{keys_contain, keys_distinct, NameMap};
use crate::text::{names_contain, seq_char_le, str_le};
use crate::worker::Worker;

verus! {

/// The configured containers, by name.
pub type ContainerMap = NameMap<Container>;

/// The configured applications, by name.
pub type ApplicationMap = NameMap<Application>;

/// How a tag filter combines its tags.
#[derive(Clone, Copy, Debug, PartialEq, Eq, Structural)]
pub enum FilterFunction {
    /// A container matches if it carries at least one requested tag.
    Any,
    /// A container matches only if it carries every requested tag.
    All,
}

impl Default for FilterFunction {
    fn default() -> (f: Self)
        ensures
            f == FilterFunction::Any,
    {
        FilterFunction::Any
    }
}

/// Runtime options for one audit.
pub struct Options {
    /// Remove the container image after its audit.
    pub clean_after_query: bool,
    /// Container tags to filter by.
    pub tags: Option<Vec<String>>,
    /// How the tag filter combines its tags.
    pub filter_function: FilterFunction,
    /// Container names to filter by.
    pub names: Option<Vec<String>>,
}

impl Options {
    pub fn new(
        clean_after_query: bool,
        tags: Option<Vec<String>>,
        names: Option<Vec<String>>,
        filter_function: FilterFunction,
    ) -> (o: Self)
        ensures
            o.clean_after_query == clean_after_query,
            o.tags == tags,
            o.names == names,
            o.filter_function == filter_function,
    {
        Options { clean_after_query, tags, names, filter_function }
    }
}

impl Default for Options {
    /// No cleanup and no filtering.
    fn default() -> (o: Self)
        ensures
            o.clean_after_query == false,
            o.tags is None,
            o.filter_function == FilterFunction::Any,
            o.names is None,
    {
        Options {
            clean_after_query: false,
            tags: None,
            filter_function: FilterFunction::Any,
            names: None,
        }
    }
}

/// Whether a container's tags satisfy a tag filter. A container with
/// no tags never matches.
pub open spec fn tags_match(
    tags: Option<Vec<String>>,
    filter: Seq<String>,
    ff: FilterFunction,
) -> bool {
    match tags {
        Some(t) => match ff {
            FilterFunction::Any => exists|i: int|
                0 <= i < t@.len() && #[trigger] names_contain(filter, t@[i]@),
            FilterFunction::All => forall|i: int|
                0 <= i < filter.len() ==> #[trigger] names_contain(t@, filter[i]@),
        },
        None => false,
    }
}

/// The container entries whose tags satisfy the filter, in order.
pub open spec fn spec_filter_by_tags(
    s: Seq<(Seq<char>, Container)>,
    filter: Seq<String>,
    ff: FilterFunction,
) -> Seq<(Seq<char>, Container)>
    decreases s.len(),
{
    if s.len() == 0 {
        Seq::empty()
    } else {
        let rest = spec_filter_by_tags(s.drop_last(), filter, ff);
        if tags_match(s.last().1.tags, filter, ff) {
            rest.push(s.last())
        } else {
            rest
        }
    }
}

/// The container entries whose name is in the allow-list, in order.
pub open spec fn spec_filter_by_names(
    s: Seq<(Seq<char>, Container)>,
    filter: Seq<String>,
) -> Seq<(Seq<char>, Container)>
    decreases s.len(),
{
    if s.len() == 0 {
        Seq::empty()
    } else {
        let rest = spec_filter_by_names(s.drop_last(), filter);
        if names_contain(filter, s.last().0) {
            rest.push(s.last())
        } else {
            rest
        }
    }
}

proof fn lemma_filter_by_tags_element(
    s: Seq<(Seq<char>, Container)>,
    filter: Seq<String>,
    ff: FilterFunction,
    x: (Seq<char>, Container),
)
    requires
        spec_filter_by_tags(s, filter, ff).contains(x),
    ensures
        s.contains(x),
    decreases s.len(),
{
    if s.len() > 0 {
        let rest = spec_filter_by_tags(s.drop_last(), filter, ff);
        if tags_match(s.last().1.tags, filter, ff) && x == s.last() {
            assert(s[s.len() - 1] == x);
        } else {
            if tags_match(s.last().1.tags, filter, ff) {
                let whole = rest.push(s.last());
                let i = choose|i: int| 0 <= i < whole.len() && whole[i] == x;
                assert(rest[i] == x);
            }
            lemma_filter_by_tags_element(s.drop_last(), filter, ff, x);
            let j = choose|j: int| 0 <= j < s.drop_last().len() && s.drop_last()[j] == x;
            assert(s[j] == x);
        }
    }
}

proof fn lemma_filter_by_names_element(
    s: Seq<(Seq<char>, Container)>,
    filter: Seq<String>,
    x: (Seq<char>, Container),
)
    requires
        spec_filter_by_names(s, filter).contains(x),
    ensures
        s.contains(x),
    decreases s.len(),
{
    if s.len() > 0 {
        let rest = spec_filter_by_names(s.drop_last(), filter);
        if names_contain(filter, s.last().0) && x == s.last() {
            assert(s[s.len() - 1] == x);
        } else {
            if names_contain(filter, s.last().0) {
                let whole = rest.push(s.last());
                let i = choose|i: int| 0 <= i < whole.len() && whole[i] == x;
                assert(rest[i] == x);
            }
            lemma_filter_by_names_element(s.drop_last(), filter, x);
            let j = choose|j: int| 0 <= j < s.drop_last().len() && s.drop_last()[j] == x;
            assert(s[j] == x);
        }
    }
}

/// Decides `tags_match` for one container.
fn tags_match_exec(tags: &Option<Vec<String>>, filter: &Vec<String>, ff: &FilterFunction) -> (r:
    bool)
    ensures
        r == tags_match(*tags, filter@, *ff),
{
    match tags {
        None => false,
        Some(t) => match ff {
            FilterFunction::Any => {
                let mut i: usize = 0;
                while i < t.len()
                    invariant
                        i <= t@.len(),
                        *tags == Some(*t),
                        *ff == FilterFunction::Any,
                        forall|j: int| 0 <= j < i ==> !names_contain(filter@, t@[j]@),
                    decreases t@.len() - i,
                {
                    if crate::text::vec_contains_str(filter, t[i].as_str()) {
                        proof {
                            let tv = *t;
                            assert((i as int) < tv@.len() && names_contain(
                                filter@,
                                tv@[i as int]@,
                            ));
                            let o = *tags;
                            assert(o matches Some(tt) && tt == tv);
                            assert(tags_match(o, filter@, FilterFunction::Any));
                        }
                        return true;
                    }
                    i = i + 1;
                }
                proof {
                    let o = *tags;
                    assert(o matches Some(tt) && tt == *t);
                    assert(!tags_match(o, filter@, FilterFunction::Any));
                }
                false
            },
            FilterFunction::All => {
                let mut i: usize = 0;
                while i < filter.len()
                    invariant
                        i <= filter@.len(),
                        *tags == Some(*t),
                        *ff == FilterFunction::All,
                        forall|j: int| 0 <= j < i ==> names_contain(t@, filter@[j]@),
                    decreases filter@.len() - i,
                {
                    if !crate::text::vec_contains_str(t, filter[i].as_str()) {
                        proof {
                            let o = *tags;
                            assert(o matches Some(tt) && tt == *t);
                            assert(!names_contain(t@, filter@[i as int]@));
                            assert(!tags_match(o, filter@, FilterFunction::All));
                        }
                        return false;
                    }
                    i = i + 1;
                }
                proof {
                    let o = *tags;
                    assert(o matches Some(tt) && tt == *t);
                    assert(tags_match(o, filter@, FilterFunction::All));
                }
                true
            },
        },
    }
}

/// The runtime configuration of one audit: which containers to audit,
/// which applications they carry, and the options. Construction
/// applies the name and tag filters, so the containers held here are
/// exactly those the audit will process.
pub struct Config {
    pub containers: ContainerMap,
    pub applications: ApplicationMap,
    pub options: Options,
}

impl Config {
    /// Builds a runtime configuration, filtering the containers by the
    /// options' name allow-list first and tag filter second.
    pub fn new(containers: ContainerMap, applications: ApplicationMap, options: Options) -> (c:
        Config)
        requires
            containers.wf(),
        ensures
            c.containers.wf(),
            c.containers@ == ({
                let by_names = match options.names {
                    Some(f) => spec_filter_by_names(containers@, f@),
                    None => containers@,
                };
                match options.tags {
                    Some(f) => spec_filter_by_tags(by_names, f@, options.filter_function),
                    None => by_names,
                }
            }),
            c.applications == applications,
            c.options == options,
    {
        let containers = Self::filter_by_names(containers, &options.names);
        let containers = Self::filter_by_tags(containers, &options.tags, &options.filter_function);
        Config { containers, applications, options }
    }

    /// Keeps the containers whose tags satisfy the filter; without a
    /// filter, keeps everything.
    pub fn filter_by_tags(
        containers: ContainerMap,
        tags: &Option<Vec<String>>,
        filter_function: &FilterFunction,
    ) -> (r: ContainerMap)
        requires
            containers.wf(),
        ensures
            r.wf(),
            r@ == match *tags {
                Some(f) => spec_filter_by_tags(containers@, f@, *filter_function),
                None => containers@,
            },
    {
        match tags {
            None => containers,
            Some(f) => {
                let ghost orig = containers@;
                let mut entries = containers.into_entries();
                let mut out = ContainerMap::new();
                proof {
                    assert(orig.take(0) =~= Seq::empty());
                    assert(out@ =~= Seq::empty());
                }
                while entries.len() > 0
                    invariant
                        keys_distinct(orig),
                        entries@.len() <= orig.len(),
                        forall|j: int|
                            0 <= j < entries@.len() ==> (entries@[j].0@, entries@[j].1) == orig[(
                            orig.len() - entries@.len()) + j],
                        out.wf(),
                        out@ == spec_filter_by_tags(
                            orig.take(orig.len() - entries@.len()),
                            f@,
                            *filter_function,
                        ),
                    decreases entries@.len(),
                {
                    let ghost k = orig.len() - entries@.len();
                    let e = entries.remove(0);
                    proof {
                        assert((e.0@, e.1) == orig[k]);
                        assert(forall|j: int|
                            0 <= j < entries@.len() ==> (entries@[j].0@, entries@[j].1) == orig[k
                                + 1 + j]);
                        assert(orig.take(k + 1).drop_last() =~= orig.take(k));
                        assert(orig.take(k + 1).last() == orig[k]);
                    }
                    let keep = tags_match_exec(&e.1.tags, f, filter_function);
                    if keep {
                        proof {
                            assert(!keys_contain(out@, e.0@)) by {
                                if keys_contain(out@, e.0@) {
                                    let idx = choose|idx: int|
                                        0 <= idx < out@.len() && out@[idx].0 == e.0@;
                                    assert(out@.contains(out@[idx]));
                                    lemma_filter_by_tags_element(
                                        orig.take(k),
                                        f@,
                                        *filter_function,
                                        out@[idx],
                                    );
                                    let j = choose|j: int|
                                        0 <= j < orig.take(k).len() && orig.take(k)[j]
                                            == out@[idx];
                                    assert(orig[j].0 == orig[k].0);
                                }
                            }
                        }
                        let ghost out_pre = out@;
                        out.insert(e.0, e.1);
                        proof {
                            assert(tags_match(orig[k].1.tags, f@, *filter_function));
                            assert(out@ == spec_filter_by_tags(
                                orig.take(k + 1),
                                f@,
                                *filter_function,
                            ));
                        }
                    } else {
                        proof {
                            assert(!tags_match(orig[k].1.tags, f@, *filter_function));
                            assert(out@ == spec_filter_by_tags(
                                orig.take(k + 1),
                                f@,
                                *filter_function,
                            ));
                        }
                    }
                }
                proof {
                    assert(orig.take(orig.len() - 0) =~= orig);
                }
                out
            },
        }
    }

    /// Keeps the containers whose name is in the allow-list; without a
    /// list, keeps everything.
    pub fn filter_by_names(containers: ContainerMap, names: &Option<Vec<String>>) -> (r:
        ContainerMap)
        requires
            containers.wf(),
        ensures
            r.wf(),
            r@ == match *names {
                Some(f) => spec_filter_by_names(containers@, f@),
                None => containers@,
            },
    {
        match names {
            None => containers,
            Some(f) => {
                let ghost orig = containers@;
                let mut entries = containers.into_entries();
                let mut out = ContainerMap::new();
                proof {
                    assert(orig.take(0) =~= Seq::empty());
                    assert(out@ =~= Seq::empty());
                }
                while entries.len() > 0
                    invariant
                        keys_distinct(orig),
                        entries@.len() <= orig.len(),
                        forall|j: int|
                            0 <= j < entries@.len() ==> (entries@[j].0@, entries@[j].1) == orig[(
                            orig.len() - entries@.len()) + j],
                        out.wf(),
                        out@ == spec_filter_by_names(orig.take(orig.len() - entries@.len()), f@),
                    decreases entries@.len(),
                {
                    let ghost k = orig.len() - entries@.len();
                    let e = entries.remove(0);
                    proof {
                        assert((e.0@, e.1) == orig[k]);
                        assert(forall|j: int|
                            0 <= j < entries@.len() ==> (entries@[j].0@, entries@[j].1) == orig[k
                                + 1 + j]);
                        assert(orig.take(k + 1).drop_last() =~= orig.take(k));
                        assert(orig.take(k + 1).last() == orig[k]);
                    }
                    let keep = crate::text::vec_contains_str(f, e.0.as_str());
                    if keep {
                        proof {
                            assert(!keys_contain(out@, e.0@)) by {
                                if keys_contain(out@, e.0@) {
                                    let idx = choose|idx: int|
                                        0 <= idx < out@.len() && out@[idx].0 == e.0@;
                                    assert(out@.contains(out@[idx]));
                                    lemma_filter_by_names_element(orig.take(k), f@, out@[idx]);
                                    let j = choose|j: int|
                                        0 <= j < orig.take(k).len() && orig.take(k)[j]
                                            == out@[idx];
                                    assert(orig[j].0 == orig[k].0);
                                }
                            }
                        }
                        out.insert(e.0, e.1);
                        proof {
                            assert(names_contain(f@, orig[k].0));
                            assert(out@ == spec_filter_by_names(orig.take(k + 1), f@));
                        }
                    } else {
                        proof {
                            assert(!names_contain(f@, orig[k].0));
                            assert(out@ == spec_filter_by_names(orig.take(k + 1), f@));
                        }
                    }
                }
                proof {
                    assert(orig.take(orig.len() - 0) =~= orig);
                }
                out
            },
        }
    }

    /// Consumes this configuration and lays out the audit: one worker
    /// per remaining container, sharing the application mapping. The
    /// driver runs the workers — concurrently if it likes — and hands
    /// the collected statuses to `finalize_report`.
    pub fn run(self) -> (r: AuditRun)
        requires
            self.containers.wf(),
        ensures
            r.applications == self.applications,
            r.workers@.len() == self.containers@.len(),
            forall|i: int|
                0 <= i < r.workers@.len() ==> (#[trigger] r.workers@[i]).initialized_for(
                    self.containers@[i].0,
                    self.containers@[i].1,
                    self.options.clean_after_query,
                ),
    {
        let ghost orig = self.containers@;
        let clean = self.options.clean_after_query;
        let mut entries = self.containers.into_entries();
        let mut workers: Vec<Worker> = Vec::new();
        while entries.len() > 0
            invariant
                entries@.len() <= orig.len(),
                forall|j: int|
                    0 <= j < entries@.len() ==> (entries@[j].0@, entries@[j].1) == orig[(orig.len()
                        - entries@.len()) + j],
                workers@.len() == orig.len() - entries@.len(),
                forall|i: int|
                    0 <= i < workers@.len() ==> (#[trigger] workers@[i]).initialized_for(
                        orig[i].0,
                        orig[i].1,
                        clean,
                    ),
            decreases entries@.len(),
        {
            let ghost k = orig.len() - entries@.len();
            let e = entries.remove(0);
            proof {
                assert((e.0@, e.1) == orig[k]);
                assert(forall|j: int|
                    0 <= j < entries@.len() ==> (entries@[j].0@, entries@[j].1) == orig[k + 1
                        + j]);
            }
            let w = Worker::new(e.0, e.1, clean);
            workers.push(w);
        }
        AuditRun { workers, applications: self.applications }
    }
}

/// A laid-out audit: the workers to drive and the shared application
/// mapping they read.
pub struct AuditRun {
    pub workers: Vec<Worker>,
    pub applications: ApplicationMap,
}

/// Whether container statuses are sorted by container name.
pub open spec fn statuses_sorted(s: Seq<container::Status>) -> bool {
    forall|i: int, j: int| 0 <= i <= j < s.len() ==> seq_char_le(s[i].name@, s[j].name@)
}

/// Sorts collected container statuses by container name. Whatever
/// order concurrent workers finished in, the report holds exactly the
/// collected statuses, ordered by name.
pub fn finalize_report(statuses: Vec<container::Status>) -> (r: Vec<container::Status>)
    ensures
        statuses_sorted(r@),
        r@.to_multiset() == statuses@.to_multiset(),
{
    let mut v = statuses;
    if v.len() == 0 {
        return v;
    }
    proof {
        crate::text::lemma_seq_char_le_reflexive(v@[0].name@);
    }
    let mut i: usize = 1;
    while i < v.len()
        invariant
            1 <= i <= v@.len(),
            forall|p: int, q: int| 0 <= p <= q < i ==> seq_char_le(v@[p].name@, v@[q].name@),
            v@.to_multiset() == statuses@.to_multiset(),
        decreases v@.len() - i,
    {
        let ghost pre = v@;
        let x = v.remove(i);
        let ghost v_mid = v@;
        proof {
            broadcast use vstd::seq_lib::group_to_multiset_ensures;

            assert(v@ == pre.remove(i as int));
            assert(v@.to_multiset() =~= pre.to_multiset().remove(x));
            assert(forall|j: int| 0 <= j < i ==> v@[j] == pre[j]);
        }
        let mut j: usize = i;
        loop
            invariant
                j <= i,
                i <= v@.len(),
                v@ == v_mid,
                forall|k: int| j <= k < i ==> seq_char_le(x.name@, v@[k].name@),
            ensures
                j <= i,
                v@ == v_mid,
                forall|k: int| j <= k < i ==> seq_char_le(x.name@, v@[k].name@),
                j > 0 ==> seq_char_le(v@[j - 1].name@, x.name@),
            decreases j,
        {
            if j == 0 {
                break ;
            }
            if str_le(v[j - 1].name.as_str(), x.name.as_str()) {
                break ;
            }
            proof {
                crate::text::lemma_seq_char_le_total(v@[j - 1].name@, x.name@);
            }
            j = j - 1;
        }
        let ghost jj = j as int;
        v.insert(j, x);
        proof {
            broadcast use vstd::seq_lib::group_to_multiset_ensures;

            assert(v@ == v_mid.insert(jj, x));
            assert(pre.contains(x)) by {
                assert(pre[i as int] == x);
            }
            assert(pre.to_multiset().count(x) > 0);
            assert(v@.to_multiset() =~= v_mid.to_multiset().insert(x));
            assert(v@.to_multiset() =~= pre.to_multiset()) by {
                assert(v_mid.to_multiset().insert(x) =~= pre.to_multiset());
            }
            assert forall|p: int, q: int| 0 <= p <= q < i + 1 implies seq_char_le(
                v@[p].name@,
                v@[q].name@,
            ) by {
                if p == q {
                    crate::text::lemma_seq_char_le_reflexive(v@[p].name@);
                } else if q < jj {
                    assert(v@[p] == v_mid[p] && v@[q] == v_mid[q]);
                } else if p < jj && q == jj {
                    assert(v@[p] == v_mid[p]);
                    assert(v@[q] == x);
                    assert(seq_char_le(v_mid[jj - 1].name@, x.name@));
                    if p < jj - 1 {
                        crate::text::lemma_seq_char_le_transitive(
                            v_mid[p].name@,
                            v_mid[jj - 1].name@,
                            x.name@,
                        );
                    }
                } else if p < jj && q > jj {
                    assert(v@[p] == v_mid[p] && v@[q] == v_mid[q - 1]);
                } else if p == jj && q > jj {
                    assert(v@[p] == x);
                    assert(v@[q] == v_mid[q - 1]);
                    assert(seq_char_le(x.name@, v_mid[q - 1].name@));
                } else {
                    assert(v@[p] == v_mid[p - 1] && v@[q] == v_mid[q - 1]);
                }
            }
        }
        i = i + 1;
    }
    v
}

/// Whether container names are pairwise distinct, as they are when the
/// containers come from one configuration mapping.
pub open spec fn status_names_distinct(s: Seq<container::Status>) -> bool {
    forall|i: int, j: int| 0 <= i < j < s.len() ==> s[i].name@ != s[j].name@
}

/// Reordering a collection of statuses cannot introduce a duplicate
/// container name.
pub proof fn lemma_distinct_names_preserved(a: Seq<container::Status>, b: Seq<container::Status>)
    requires
        a.to_multiset() == b.to_multiset(),
        status_names_distinct(a),
    ensures
        status_names_distinct(b),
{
    broadcast use vstd::seq_lib::group_to_multiset_ensures;

    assert forall|i: int, j: int| 0 <= i < j < b.len() implies b[i].name@ != b[j].name@ by {
        if b[i].name@ == b[j].name@ {
            if b[i] == b[j] {
                // The one value occurs twice in `b`, hence twice in the
                // multiset, hence twice in `a`.
                let b1 = b.remove(i);
                assert(b1.to_multiset() =~= b.to_multiset().remove(b[i]));
                assert(b1[j - 1] == b[j]);
                assert(b1.contains(b[j]));
                assert(b1.to_multiset().count(b[j]) > 0);
                assert(b.to_multiset().count(b[i]) >= 2);
                assert(a.to_multiset().count(b[i]) >= 2);
                assert(a.contains(b[i]));
                let p = choose|p: int| 0 <= p < a.len() && a[p] == b[i];
                let a1 = a.remove(p);
                assert(a1.to_multiset() =~= a.to_multiset().remove(a[p]));
                assert(a1.to_multiset().count(b[i]) > 0);
                assert(a1.contains(b[i]));
                let q1 = choose|q1: int| 0 <= q1 < a1.len() && a1[q1] == b[i];
                let q = if q1 < p {
                    q1
                } else {
                    q1 + 1
                };
                assert(a[q] == b[i]);
                assert(p != q && a[p].name@ == a[q].name@);
            } else {
                // Two different values share a name; both occur in `a`.
                assert(b.contains(b[i]) && b.contains(b[j]));
                assert(a.to_multiset().count(b[i]) > 0);
                assert(a.to_multiset().count(b[j]) > 0);
                assert(a.contains(b[i]) && a.contains(b[j]));
                let p = choose|p: int| 0 <= p < a.len() && a[p] == b[i];
                let q = choose|q: int| 0 <= q < a.len() && a[q] == b[j];
                assert(p != q && a[p].name@ == a[q].name@);
            }
        }
    }
}

/// Law: the report is deterministic. Two sorted reports that hold the
/// same statuses — however the workers' completion order interleaved
/// them before sorting — are identical, provided container names are
/// unique, as they are when containers come from one configuration
/// mapping.
pub proof fn lemma_report_deterministic(a: Seq<container::Status>, b: Seq<container::Status>)
    requires
        statuses_sorted(a),
        statuses_sorted(b),
        a.to_multiset() == b.to_multiset(),
        status_names_distinct(a),
    ensures
        a == b,
    decreases a.len(),
{
    broadcast use vstd::seq_lib::group_to_multiset_ensures;

    if a.len() == 0 {
        assert(a.to_multiset().len() == a.len());
        assert(b.to_multiset().len() == b.len());
        assert(b.len() == 0);
        assert(a =~= b);
    } else {
        assert(a.contains(a[0]));
        assert(b.to_multiset().count(a[0]) > 0);
        assert(b.contains(a[0]));
        let bj = choose|bj: int| 0 <= bj < b.len() && b[bj] == a[0];
        assert(b.len() > 0);
        assert(b.contains(b[0]));
        assert(a.to_multiset().count(b[0]) > 0);
        assert(a.contains(b[0]));
        let ai = choose|ai: int| 0 <= ai < a.len() && a[ai] == b[0];
        assert(seq_char_le(b[0].name@, b[bj].name@));
        assert(seq_char_le(a[0].name@, a[ai].name@));
        crate::text::lemma_seq_char_le_antisymmetric(a[0].name@, b[0].name@);
        assert(a[0].name@ == b[0].name@);
        assert(a[ai].name@ == a[0].name@);
        assert(ai == 0);
        assert(a[0] == b[0]);
        let a1 = a.drop_first();
        let b1 = b.drop_first();
        assert(a.remove(0) =~= a1);
        assert(b.remove(0) =~= b1);
        assert(a1.to_multiset() =~= a.to_multiset().remove(a[0]));
        assert(b1.to_multiset() =~= b.to_multiset().remove(b[0]));
        assert(a1.to_multiset() == b1.to_multiset());
        assert(forall|i: int| 0 <= i < a1.len() ==> a1[i] == a[i + 1]);
        assert(forall|i: int| 0 <= i < b1.len() ==> b1[i] == b[i + 1]);
        lemma_report_deterministic(a1, b1);
        assert(a =~= b) by {
            assert(forall|i: int| 0 < i < a.len() ==> a[i] == a1[i - 1] && b[i] == b1[i - 1]);
        }
    }
}

/// Law: running the audit twice on the same configuration yields
/// identical reports, however the workers' completion orders
/// interleaved the collected statuses. The premises are exactly what
/// `finalize_report` ensures of each run and what one configuration
/// guarantees of its container names.
pub proof fn lemma_orchestration_deterministic(
    collected1: Seq<container::Status>,
    collected2: Seq<container::Status>,
    report1: Seq<container::Status>,
    report2: Seq<container::Status>,
)
    requires
        collected1.to_multiset() == collected2.to_multiset(),
        status_names_distinct(collected1),
        statuses_sorted(report1),
        statuses_sorted(report2),
        report1.to_multiset() == collected1.to_multiset(),
        report2.to_multiset() == collected2.to_multiset(),
    ensures
        report1 == report2,
{
    lemma_distinct_names_preserved(collected1, report1);
    lemma_report_deterministic(report1, report2);
}

} // verus!
