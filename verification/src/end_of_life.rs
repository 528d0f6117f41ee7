//! End-of-life resolution: normalizing an extracted version to a
//! canonical token, consulting the cache first, and applying the
//! asymmetric caching policy to looked-up lifecycle records.

use vstd::prelude::*;
use vstd::string::StringExecFns;

use crate::name_map::{keys_contain, lemma_spec_get_push, spec_get};

pub mod cache;

verus! {

/// The lookup service had no matching product/version entry, or could
/// not be reached.
#[derive(Debug, PartialEq, Eq)]
pub struct EndOfLifeApiError;

impl EndOfLifeApiError {
    /// A short operator-facing description of the failure.
    pub fn message(&self) -> (m: &'static str)
        ensures
            m@ == "Unable to find a matching product/version match from endoflife.date"@,
    {
        "Unable to find a matching product/version match from endoflife.date"
    }
}

/// Why resolving a version's end-of-life status failed.
#[derive(Debug, PartialEq, Eq)]
pub enum EolError {
    /// The secondary pattern did not match the extracted version, so no
    /// canonical version token could be formed.
    VersionNormalizationFailed,
    /// The lookup did not produce a lifecycle record.
    LookupFailed(EndOfLifeApiError),
}

/// Configuration details for an end-of-life lookup.
pub struct EolConfig {
    /// The product name the lookup service knows the application by.
    pub product_name: String,
    /// A secondary pattern applied to the already-extracted version to
    /// normalize it to the canonical version token.
    pub version_pattern: String,
}

impl EolConfig {
    /// A field-for-field copy.
    pub fn duplicate(&self) -> (r: EolConfig)
        ensures
            r.product_name@ == self.product_name@,
            r.version_pattern@ == self.version_pattern@,
    {
        EolConfig {
            product_name: self.product_name.clone(),
            version_pattern: self.version_pattern.clone(),
        }
    }
}

/// The first substring of `text` matched by `pattern`, as a function of
/// the two alone; `None` both when the pattern is invalid and when
/// nothing matches.
pub uninterp spec fn first_match_of(pattern: Seq<char>, text: Seq<char>) -> Option<Seq<char>>;

/// Relies on `regex::Regex::find`: the text of the leftmost match
/// depends only on the pattern and the input.
#[verifier::external_body]
fn regex_find_first(pattern: &str, input: &str) -> (r: Option<String>)
    ensures
        match r {
            Some(s) => first_match_of(pattern@, input@) == Some(s@),
            None => first_match_of(pattern@, input@) is None,
        },
{
    let re = match regex::Regex::new(pattern) {
        Ok(re) => re,
        Err(_) => return None,
    };
    match re.find(input) {
        Some(m) => Some(m.as_str().to_owned()),
        None => None,
    }
}

/// A calendar date rendered in month/day/year order, as a function of
/// the `YYYY-MM-DD` input alone; `None` when the input is not a valid
/// date in that form.
pub uninterp spec fn reformatted_date(s: Seq<char>) -> Option<Seq<char>>;

/// Relies on `chrono::NaiveDate::parse_from_str` with `%Y-%m-%d` and
/// its `%x` formatting, which render a valid date as `MM/DD/YY`; the
/// result depends on the input alone.
#[verifier::external_body]
fn chrono_reformat_date(s: &str) -> (r: Option<String>)
    ensures
        match r {
            Some(t) => reformatted_date(s@) == Some(t@),
            None => reformatted_date(s@) is None,
        },
{
    match chrono::NaiveDate::parse_from_str(s, "%Y-%m-%d") {
        Ok(d) => Some(d.format("%x").to_string()),
        Err(_) => None,
    }
}

/// Ghost form of an [`EOLDate`].
pub ghost enum EolDateView {
    Date(Seq<char>),
    Alive(bool),
}

/// Either a calendar date (`YYYY-MM-DD`) or the sentinel meaning that
/// no end-of-life date has been assigned yet, which the lookup service
/// reports as a bare boolean.
#[derive(Debug, PartialEq, Eq)]
pub enum EOLDate {
    Date(String),
    Alive(bool),
}

impl View for EOLDate {
    type V = EolDateView;

    open spec fn view(&self) -> EolDateView {
        match self {
            EOLDate::Date(s) => EolDateView::Date(s@),
            EOLDate::Alive(b) => EolDateView::Alive(*b),
        }
    }
}

/// How a date-or-alive value is rendered: a valid date in month/day/
/// year order, an invalid date string as it stands, and the sentinel as
/// the literal text `alive`.
pub open spec fn date_text(d: EolDateView) -> Seq<char> {
    match d {
        EolDateView::Date(s) => match reformatted_date(s) {
            Some(t) => t,
            None => s,
        },
        EolDateView::Alive(_) => "alive"@,
    }
}

impl EOLDate {
    /// A value-for-value copy.
    pub fn duplicate(&self) -> (r: EOLDate)
        ensures
            r@ == self@,
    {
        match self {
            EOLDate::Date(s) => EOLDate::Date(s.clone()),
            EOLDate::Alive(b) => EOLDate::Alive(*b),
        }
    }

    /// Renders this value for a status report: either a date or the
    /// literal text `alive`.
    pub fn status_text(&self) -> (r: String)
        ensures
            r@ == date_text(self@),
    {
        match self {
            EOLDate::Date(s) => match chrono_reformat_date(s.as_str()) {
                Some(t) => t,
                None => s.clone(),
            },
            EOLDate::Alive(_) => "alive".to_owned(),
        }
    }
}

impl Default for EOLDate {
    /// The sentinel: no end-of-life date assigned.
    fn default() -> (d: Self)
        ensures
            d == EOLDate::Alive(false),
    {
        EOLDate::Alive(false)
    }
}

/// Ghost form of a [`Cycle`].
pub ghost struct CycleView {
    pub eol: EolDateView,
    pub support: Option<EolDateView>,
    pub latest: Seq<char>,
    pub latest_release_date: Seq<char>,
    pub release_date: Seq<char>,
    pub is_lts: bool,
}

/// A lifecycle record for one product/version pair, as returned by the
/// lookup service.
#[derive(Debug, PartialEq, Eq)]
pub struct Cycle {
    pub eol: EOLDate,
    pub support: Option<EOLDate>,
    pub latest: String,
    pub latest_release_date: String,
    pub release_date: String,
    pub is_lts: bool,
}

impl View for Cycle {
    type V = CycleView;

    open spec fn view(&self) -> CycleView {
        CycleView {
            eol: self.eol@,
            support: match self.support {
                Some(d) => Some(d@),
                None => None,
            },
            latest: self.latest@,
            latest_release_date: self.latest_release_date@,
            release_date: self.release_date@,
            is_lts: self.is_lts,
        }
    }
}

impl Cycle {
    /// A field-for-field copy.
    pub fn duplicate(&self) -> (r: Cycle)
        ensures
            r@ == self@,
    {
        Cycle {
            eol: self.eol.duplicate(),
            support: match &self.support {
                Some(d) => Some(d.duplicate()),
                None => None,
            },
            latest: self.latest.clone(),
            latest_release_date: self.latest_release_date.clone(),
            release_date: self.release_date.clone(),
            is_lts: self.is_lts,
        }
    }

    /// Renders the record's end-of-life field for a status report.
    pub fn status_text(&self) -> (r: String)
        ensures
            r@ == date_text(self@.eol),
    {
        self.eol.status_text()
    }
}

impl Default for Cycle {
    /// An empty record with the sentinel end-of-life value.
    fn default() -> (c: Self)
        ensures
            c.eol == EOLDate::Alive(false),
            c.support is None,
            c.latest@ == Seq::<char>::empty(),
            c.latest_release_date@ == Seq::<char>::empty(),
            c.release_date@ == Seq::<char>::empty(),
            c.is_lts == false,
    {
        Cycle {
            eol: EOLDate::Alive(false),
            support: None,
            latest: String::new(),
            latest_release_date: String::new(),
            release_date: String::new(),
            is_lts: false,
        }
    }
}

/// The outcome of the cache-first half of a resolution: either the
/// record was cached, or the canonical version token that must be
/// looked up over the network.
pub enum Resolution {
    Cached(Cycle),
    NeedsFetch(String),
}

impl EolConfig {
    /// The cache-first half of a resolution. Normalizes the extracted
    /// version to its canonical token and consults the cache; on a hit
    /// the record is returned at once and no lookup is needed.
    pub fn query(&self, store: &cache::CycleCache, input: &str) -> (r: Result<
        Resolution,
        EolError,
    >)
        ensures
            match first_match_of(self.version_pattern@, input@) {
                None => r matches Err(EolError::VersionNormalizationFailed),
                Some(v) => match spec_get(store@, (self.product_name@, v)) {
                    Some(c) => r matches Ok(Resolution::Cached(cy)) && cy@ == c,
                    None => r matches Ok(Resolution::NeedsFetch(ver)) && ver@ == v,
                },
            },
    {
        let version = match regex_find_first(self.version_pattern.as_str(), input) {
            Some(v) => v,
            None => {
                return Err(EolError::VersionNormalizationFailed);
            },
        };
        match cache::get_cycle(store, self.product_name.as_str(), version.as_str()) {
            Some(c) => Ok(Resolution::Cached(c)),
            None => Ok(Resolution::NeedsFetch(version)),
        }
    }

    /// The second half of a resolution, applied to the outcome of the
    /// network lookup for the canonical `version` (`None` when the
    /// lookup failed in any way). A record whose end-of-life field is
    /// still the sentinel is returned but never cached — it may change
    /// and must be re-checked on the next run; a record with a concrete
    /// date is persisted through the idempotent insert before being
    /// returned.
    pub fn complete(&self, store: &mut cache::CycleCache, version: &str, response: Option<
        Cycle,
    >) -> (r: Result<Cycle, EolError>)
        requires
            old(store).wf(),
        ensures
            final(store).wf(),
            resolve_response_post(
                old(store)@,
                final(store)@,
                self.product_name@,
                version@,
                response,
                r,
            ),
    {
        resolve_response(store, self.product_name.as_str(), version, response)
    }
}

/// What applying the caching policy to a lookup outcome does: a failed
/// lookup is an error and leaves the store alone; a record whose
/// end-of-life field is the sentinel is returned but never stored; a
/// record with a concrete date is stored under the key unless one is
/// already there, and the record the store holds is returned.
pub open spec fn resolve_response_post(
    pre: Seq<((Seq<char>, Seq<char>), CycleView)>,
    post: Seq<((Seq<char>, Seq<char>), CycleView)>,
    product: Seq<char>,
    version: Seq<char>,
    response: Option<Cycle>,
    r: Result<Cycle, EolError>,
) -> bool {
    match response {
        None => (r matches Err(EolError::LookupFailed(EndOfLifeApiError))) && post == pre,
        Some(c) => match c.eol {
            EOLDate::Alive(_) => (r matches Ok(rc) && rc@ == c@) && post == pre,
            EOLDate::Date(_) => {
                let k = (product, version);
                &&& keys_contain(post, k)
                &&& match spec_get(pre, k) {
                    Some(stored) => post == pre && (r matches Ok(rc) && rc@ == stored),
                    None => post == pre.push((k, c@)) && (r matches Ok(rc) && rc@ == c@),
                }
            },
        },
    }
}

/// Applies the caching policy to the outcome of the network lookup for
/// one product and canonical version (`None` when the lookup failed in
/// any way).
pub fn resolve_response(
    store: &mut cache::CycleCache,
    product: &str,
    version: &str,
    response: Option<Cycle>,
) -> (r: Result<Cycle, EolError>)
    requires
        old(store).wf(),
    ensures
        final(store).wf(),
        resolve_response_post(old(store)@, final(store)@, product@, version@, response, r),
{
    match response {
        None => Err(EolError::LookupFailed(EndOfLifeApiError)),
        Some(c) => match &c.eol {
            EOLDate::Alive(_) => Ok(c),
            EOLDate::Date(_) => {
                let ghost pre = store@;
                let stored = cache::insert_cycle(store, product, version, c);
                proof {
                    let k = (product@, version@);
                    if spec_get(pre, k) is Some {
                        crate::name_map::lemma_spec_get_some_implies_contains(pre, k);
                    } else {
                        assert(keys_contain(store@, k)) by {
                            assert(store@[store@.len() - 1].0 == k);
                        }
                    }
                }
                Ok(stored)
            },
        },
    }
}

/// The request target for one product and canonical version, the
/// single blocking exchange a cache miss costs.
pub fn lookup_url(product: &str, version: &str) -> (r: String)
    ensures
        r@ == "https://endoflife.date/api/"@ + product@ + "/"@ + version@ + ".json"@,
{
    let mut s = "https://endoflife.date/api/".to_owned();
    s.append(product);
    s.append("/");
    s.append(version);
    s.append(".json");
    s
}

/// Law: once a record with a concrete end-of-life date has been stored
/// for a key that was not cached before, a later lookup of the same key
/// finds exactly that record — so a second resolution for the same
/// product and version is served from the cache, without any network
/// access.
pub proof fn lemma_cached_resolution_short_circuits(
    pre: Seq<((Seq<char>, Seq<char>), CycleView)>,
    k: (Seq<char>, Seq<char>),
    c: CycleView,
)
    requires
        !keys_contain(pre, k),
    ensures
        spec_get(pre.push((k, c)), k) == Some(c),
{
    lemma_spec_get_push(pre, k, c);
}

} // verus!
