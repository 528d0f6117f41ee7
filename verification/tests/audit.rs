use corrator::application::Application;
use corrator::container::Container;
use corrator::end_of_life::cache::CycleCache;
use corrator::end_of_life::{resolve_response, Cycle, EOLDate, EolConfig};
use corrator::worker::{Diagnostic, Worker, WorkerAction};
use corrator::ApplicationMap;

fn app(pattern: &str, command: &str, eol: Option<EolConfig>) -> Application {
    Application {
        version_pattern: String::from(pattern),
        version_command: String::from(command),
        eol,
    }
}

fn container_with(path: &str, apps: Vec<&str>) -> Container {
    Container {
        path: String::from(path),
        apps: apps.into_iter().map(String::from).collect(),
        tags: None,
    }
}

/// Drives one worker to completion against canned command outputs and
/// lookup responses, collecting what happened along the way.
struct Driver {
    outputs: Vec<(String, String)>,
    lookup: Option<Cycle>,
    executed: Vec<String>,
    fetches: usize,
    diagnostics: Vec<Diagnostic>,
}

impl Driver {
    fn new(outputs: Vec<(&str, &str)>, lookup: Option<Cycle>) -> Self {
        Driver {
            outputs: outputs
                .into_iter()
                .map(|(c, o)| (String::from(c), String::from(o)))
                .collect(),
            lookup,
            executed: Vec::new(),
            fetches: 0,
            diagnostics: Vec::new(),
        }
    }

    fn output_for(&self, command: &str) -> String {
        for (c, o) in &self.outputs {
            if c == command {
                return o.clone();
            }
        }
        String::new()
    }

    fn run(&mut self, worker: &mut Worker, apps: &ApplicationMap, store: &mut CycleCache) {
        let mut act = worker.begin();
        loop {
            act = match act {
                WorkerAction::Start { .. } => worker.started(apps, true),
                WorkerAction::Execute { command, .. } => {
                    self.executed.push(command.clone());
                    let out = self.output_for(&command);
                    worker.output(apps, store, &out)
                }
                WorkerAction::Fetch { .. } => {
                    self.fetches += 1;
                    let response = self.lookup.as_ref().map(|c| c.duplicate());
                    worker.fetched(apps, store, response)
                }
                WorkerAction::Skip(d) => {
                    self.diagnostics.push(d);
                    worker.proceed(apps)
                }
                WorkerAction::Stop { .. } => worker.stopped(),
                WorkerAction::Finished => break,
            };
        }
    }
}

#[test]
fn query_version_captures_the_named_group() {
    let a = app(r"test: (?P<version>[0-9.]+)", "", None);
    assert_eq!(a.query_version("test: 1.2.3"), Ok(String::from("1.2.3")));
}

#[test]
fn query_version_fails_without_a_match() {
    let a = app(r"test: (?P<version>[0-9.]+)", "", None);
    assert!(a.query_version("nothing to see").is_err());
}

#[test]
fn query_version_needs_the_version_group() {
    let a = app(r"test: ([0-9.]+)", "", None);
    assert!(a.query_version("test: 1.2.3").is_err());
}

#[test]
fn demo_container_yields_bash_status() {
    let mut apps = ApplicationMap::new();
    apps.insert(
        String::from("bash"),
        app(r"version (?P<version>[0-9.]+)", "bash --version", None),
    );

    let mut worker = Worker::new(
        String::from("demo"),
        container_with("demo/image", vec!["bash"]),
        false,
    );
    let mut store = CycleCache::new();
    let mut driver = Driver::new(
        vec![("bash --version", "bash, version 5.1.16(1)-release")],
        None,
    );
    driver.run(&mut worker, &apps, &mut store);

    let status = worker.into_status();
    assert_eq!(status.name, "demo");
    assert_eq!(status.apps.len(), 1);
    assert_eq!(status.apps[0].name, "bash");
    assert_eq!(status.apps[0].version, "5.1.16");
    assert_eq!(status.apps[0].eol_status, None);
    assert_eq!(driver.fetches, 0);
}

#[test]
fn failed_extraction_skips_only_that_application() {
    let mut apps = ApplicationMap::new();
    apps.insert(
        String::from("alpha"),
        app(r"alpha (?P<version>[0-9.]+)", "alpha --version", None),
    );
    apps.insert(
        String::from("beta"),
        app(r"beta (?P<version>[0-9.]+)", "beta --version", None),
    );

    let mut worker = Worker::new(
        String::from("demo"),
        container_with("demo/image", vec!["alpha", "beta"]),
        false,
    );
    let mut store = CycleCache::new();
    // alpha's output does not match its pattern; beta's does.
    let mut driver = Driver::new(
        vec![("alpha --version", "unparseable"), ("beta --version", "beta 2.0.1")],
        None,
    );
    driver.run(&mut worker, &apps, &mut store);

    let status = worker.into_status();
    assert_eq!(status.apps.len(), 1);
    assert_eq!(status.apps[0].name, "beta");
    assert_eq!(status.apps[0].version, "2.0.1");
    assert_eq!(driver.diagnostics.len(), 1);
    match &driver.diagnostics[0] {
        Diagnostic::ExtractionFailed {
            container,
            application,
            command,
            pattern,
            output,
        } => {
            assert_eq!(container, "demo");
            assert_eq!(application, "alpha");
            assert_eq!(command, "alpha --version");
            assert_eq!(pattern, r"alpha (?P<version>[0-9.]+)");
            assert_eq!(output, "unparseable");
        }
        _ => panic!("unexpected diagnostic"),
    }
}

#[test]
fn undefined_applications_are_skipped_with_a_hint() {
    let apps = ApplicationMap::new();
    let mut worker = Worker::new(
        String::from("demo"),
        container_with("demo/image", vec!["ghost"]),
        false,
    );
    let mut store = CycleCache::new();
    let mut driver = Driver::new(vec![], None);
    driver.run(&mut worker, &apps, &mut store);

    let status = worker.into_status();
    assert_eq!(status.apps.len(), 0);
    assert_eq!(driver.executed.len(), 0);
    assert!(matches!(
        &driver.diagnostics[0],
        Diagnostic::MissingApplication { .. }
    ));
}

#[test]
fn applications_are_processed_in_sorted_order() {
    let mut apps = ApplicationMap::new();
    apps.insert(
        String::from("zsh"),
        app(r"(?P<version>[0-9.]+)", "zsh --version", None),
    );
    apps.insert(
        String::from("bash"),
        app(r"(?P<version>[0-9.]+)", "bash --version", None),
    );

    let mut worker = Worker::new(
        String::from("demo"),
        container_with("demo/image", vec!["zsh", "bash"]),
        false,
    );
    let mut store = CycleCache::new();
    let mut driver = Driver::new(
        vec![("zsh --version", "5.9"), ("bash --version", "5.1.16")],
        None,
    );
    driver.run(&mut worker, &apps, &mut store);

    assert_eq!(driver.executed, vec!["bash --version", "zsh --version"]);
    let status = worker.into_status();
    assert_eq!(status.apps[0].name, "bash");
    assert_eq!(status.apps[1].name, "zsh");
}

#[test]
fn failed_start_still_releases_the_environment() {
    let apps = ApplicationMap::new();
    let mut worker = Worker::new(
        String::from("demo"),
        container_with("demo/image", vec!["bash"]),
        true,
    );
    let act = worker.begin();
    assert!(matches!(act, WorkerAction::Start { .. }));
    let act = worker.started(&apps, false);
    match act {
        WorkerAction::Stop { remove, .. } => assert!(remove),
        _ => panic!("a failed start must still release the environment"),
    }
    let act = worker.stopped();
    assert!(matches!(act, WorkerAction::Finished));
    assert_eq!(worker.into_status().apps.len(), 0);
}

#[test]
fn eol_enrichment_is_recorded_from_a_fetch() {
    let mut apps = ApplicationMap::new();
    apps.insert(
        String::from("ubuntu"),
        app(
            r"Ubuntu (?P<version>[0-9.]+)",
            "cat /etc/issue",
            Some(EolConfig {
                product_name: String::from("ubuntu"),
                version_pattern: String::from(r"[0-9]+\.[0-9]+"),
            }),
        ),
    );

    let record = Cycle {
        eol: EOLDate::Date(String::from("2027-04-01")),
        support: None,
        latest: String::from("22.04.5"),
        latest_release_date: String::new(),
        release_date: String::new(),
        is_lts: true,
    };

    let mut worker = Worker::new(
        String::from("demo"),
        container_with("demo/image", vec!["ubuntu"]),
        false,
    );
    let mut store = CycleCache::new();
    let mut driver = Driver::new(
        vec![("cat /etc/issue", "Ubuntu 22.04.3 LTS")],
        Some(record),
    );
    driver.run(&mut worker, &apps, &mut store);

    let status = worker.into_status();
    assert_eq!(status.apps[0].eol_status, Some(String::from("04/01/27")));
    assert_eq!(driver.fetches, 1);
    // The dated record is now cached.
    assert_eq!(store.len(), 1);
}

#[test]
fn failed_lookup_degrades_to_no_enrichment() {
    let mut apps = ApplicationMap::new();
    apps.insert(
        String::from("ubuntu"),
        app(
            r"Ubuntu (?P<version>[0-9.]+)",
            "cat /etc/issue",
            Some(EolConfig {
                product_name: String::from("ubuntu"),
                version_pattern: String::from(r"[0-9]+\.[0-9]+"),
            }),
        ),
    );

    let mut worker = Worker::new(
        String::from("demo"),
        container_with("demo/image", vec!["ubuntu"]),
        false,
    );
    let mut store = CycleCache::new();
    let mut driver = Driver::new(vec![("cat /etc/issue", "Ubuntu 22.04.3 LTS")], None);
    driver.run(&mut worker, &apps, &mut store);

    let status = worker.into_status();
    assert_eq!(status.apps.len(), 1);
    assert_eq!(status.apps[0].version, "22.04.3");
    assert_eq!(status.apps[0].eol_status, None);
    assert_eq!(store.len(), 0);
}

#[test]
fn cached_record_avoids_the_fetch_in_a_worker() {
    let mut apps = ApplicationMap::new();
    apps.insert(
        String::from("ubuntu"),
        app(
            r"Ubuntu (?P<version>[0-9.]+)",
            "cat /etc/issue",
            Some(EolConfig {
                product_name: String::from("ubuntu"),
                version_pattern: String::from(r"[0-9]+\.[0-9]+"),
            }),
        ),
    );

    let mut store = CycleCache::new();
    let record = Cycle {
        eol: EOLDate::Date(String::from("2027-04-01")),
        support: None,
        latest: String::from("22.04.5"),
        latest_release_date: String::new(),
        release_date: String::new(),
        is_lts: false,
    };
    resolve_response(&mut store, "ubuntu", "22.04", Some(record)).unwrap();

    let mut worker = Worker::new(
        String::from("demo"),
        container_with("demo/image", vec!["ubuntu"]),
        false,
    );
    let mut driver = Driver::new(vec![("cat /etc/issue", "Ubuntu 22.04.3 LTS")], None);
    driver.run(&mut worker, &apps, &mut store);

    assert_eq!(driver.fetches, 0);
    let status = worker.into_status();
    assert_eq!(status.apps[0].eol_status, Some(String::from("04/01/27")));
}
