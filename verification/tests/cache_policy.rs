use corrator::end_of_life::cache::{clear, get_cycle, insert_cycle, CycleCache};
use corrator::end_of_life::{
    lookup_url, resolve_response, Cycle, EOLDate, EolConfig, EolError, Resolution,
};

fn dated(date: &str, latest: &str) -> Cycle {
    Cycle {
        eol: EOLDate::Date(String::from(date)),
        support: None,
        latest: String::from(latest),
        latest_release_date: String::new(),
        release_date: String::new(),
        is_lts: false,
    }
}

fn alive(latest: &str) -> Cycle {
    Cycle {
        eol: EOLDate::Alive(false),
        support: None,
        latest: String::from(latest),
        latest_release_date: String::new(),
        release_date: String::new(),
        is_lts: false,
    }
}

#[test]
fn insert_if_absent_is_idempotent() {
    let mut store = CycleCache::new();
    let first = insert_cycle(&mut store, "ubuntu", "22.04", dated("2027-04-01", "22.04.5"));
    assert_eq!(first, dated("2027-04-01", "22.04.5"));

    let second = insert_cycle(&mut store, "ubuntu", "22.04", dated("1999-01-01", "other"));
    assert_eq!(second, dated("2027-04-01", "22.04.5"));
    assert_eq!(store.len(), 1);
    assert_eq!(
        get_cycle(&store, "ubuntu", "22.04"),
        Some(dated("2027-04-01", "22.04.5"))
    );
}

#[test]
fn absent_keys_are_not_an_error() {
    let mut store = CycleCache::new();
    assert_eq!(get_cycle(&store, "ubuntu", "22.04"), None);
    insert_cycle(&mut store, "ubuntu", "24.04", dated("2029-04-01", "x"));
    assert_eq!(get_cycle(&store, "ubuntu", "22.04"), None);
    assert_eq!(get_cycle(&store, "22.04", "ubuntu"), None);
}

#[test]
fn clear_empties_the_store() {
    let mut store = CycleCache::new();
    insert_cycle(&mut store, "a", "1", dated("2030-01-01", "1.2"));
    insert_cycle(&mut store, "b", "2", dated("2030-01-01", "2.2"));
    assert_eq!(store.len(), 2);
    clear(&mut store);
    assert_eq!(store.len(), 0);
    assert_eq!(get_cycle(&store, "a", "1"), None);
}

#[test]
fn alive_records_are_returned_but_never_cached() {
    let mut store = CycleCache::new();
    let r = resolve_response(&mut store, "bash", "5.1", Some(alive("5.2.15")));
    assert_eq!(r, Ok(alive("5.2.15")));
    assert_eq!(store.len(), 0);
    assert_eq!(get_cycle(&store, "bash", "5.1"), None);
}

#[test]
fn dated_records_are_cached_after_resolution() {
    let mut store = CycleCache::new();
    let r = resolve_response(&mut store, "ubuntu", "22.04", Some(dated("2027-04-01", "22.04.5")));
    assert_eq!(r, Ok(dated("2027-04-01", "22.04.5")));
    assert_eq!(store.len(), 1);
    assert_eq!(
        get_cycle(&store, "ubuntu", "22.04"),
        Some(dated("2027-04-01", "22.04.5"))
    );
}

#[test]
fn lookup_failure_is_an_error_and_leaves_the_store_alone() {
    let mut store = CycleCache::new();
    let r = resolve_response(&mut store, "ubuntu", "22.04", None);
    assert!(matches!(r, Err(EolError::LookupFailed(_))));
    assert_eq!(store.len(), 0);
}

#[test]
fn cache_hit_short_circuits_the_network() {
    let mut store = CycleCache::new();
    let config = EolConfig {
        product_name: String::from("ubuntu"),
        version_pattern: String::from(r"[0-9]+\.[0-9]+"),
    };

    let mut network_calls: usize = 0;

    // First resolution: a miss, so the driver is asked to fetch.
    match config.query(&store, "22.04.5").expect("normalization should succeed") {
        Resolution::NeedsFetch(version) => {
            network_calls += 1;
            assert_eq!(version, "22.04");
            let r = resolve_response(
                &mut store,
                "ubuntu",
                &version,
                Some(dated("2027-04-01", "22.04.5")),
            );
            assert!(r.is_ok());
        }
        Resolution::Cached(_) => panic!("nothing was cached yet"),
    }

    // Second resolution for the same product/version: served from the
    // cache, no fetch requested.
    match config.query(&store, "22.04.5").expect("normalization should succeed") {
        Resolution::Cached(record) => {
            assert_eq!(record, dated("2027-04-01", "22.04.5"));
        }
        Resolution::NeedsFetch(_) => panic!("second resolution must not reach the network"),
    }

    assert_eq!(network_calls, 1);
}

#[test]
fn normalization_failure_is_reported() {
    let store = CycleCache::new();
    let config = EolConfig {
        product_name: String::from("ubuntu"),
        version_pattern: String::from("[0-9]+"),
    };
    let r = config.query(&store, "no digits here");
    assert!(matches!(r, Err(EolError::VersionNormalizationFailed)));
}

#[test]
fn lookup_url_is_the_service_endpoint() {
    assert_eq!(
        lookup_url("ubuntu", "22.04"),
        "https://endoflife.date/api/ubuntu/22.04.json"
    );
}
