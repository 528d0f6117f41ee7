use corrator::application::Status as AppStatus;
use corrator::container::{Container, Status};
use corrator::{finalize_report, ApplicationMap, Config, ContainerMap, Options};

fn status(name: &str, versions: Vec<(&str, &str)>) -> Status {
    let mut s = Status::new(String::from(name));
    for (app, version) in versions {
        s.apps.push(AppStatus {
            name: String::from(app),
            version: String::from(version),
            eol_status: None,
        });
    }
    s
}

#[test]
fn report_is_sorted_by_container_name() {
    let collected = vec![
        status("zeta", vec![("bash", "5.1")]),
        status("alpha", vec![("grep", "3.7")]),
        status("mid", vec![]),
    ];
    let report = finalize_report(collected);
    assert_eq!(report.len(), 3);
    assert_eq!(report[0].name, "alpha");
    assert_eq!(report[1].name, "mid");
    assert_eq!(report[2].name, "zeta");
}

#[test]
fn report_is_deterministic_across_completion_orders() {
    // The same three statuses arrive in two different completion
    // orders, as concurrent workers may deliver them.
    let first = vec![
        status("web", vec![("nginx", "1.25")]),
        status("db", vec![("postgres", "16.1")]),
        status("cache", vec![("redis", "7.2")]),
    ];
    let second = vec![
        status("cache", vec![("redis", "7.2")]),
        status("web", vec![("nginx", "1.25")]),
        status("db", vec![("postgres", "16.1")]),
    ];
    let a = finalize_report(first);
    let b = finalize_report(second);
    assert_eq!(a, b);
}

#[test]
fn run_lays_out_one_worker_per_container() {
    let mut containers = ContainerMap::new();
    containers.insert(
        String::from("one"),
        Container {
            path: String::from("img/one"),
            apps: vec![String::from("zsh"), String::from("bash")],
            tags: None,
        },
    );
    containers.insert(
        String::from("two"),
        Container {
            path: String::from("img/two"),
            apps: vec![],
            tags: None,
        },
    );

    let config = Config::new(containers, ApplicationMap::new(), Options::default());
    let audit = config.run();

    assert_eq!(audit.workers.len(), 2);
    assert_eq!(audit.workers[0].name, "one");
    assert_eq!(audit.workers[0].image, "img/one");
    // The worker fixes the sorted processing order up front.
    assert_eq!(audit.workers[0].apps, vec![String::from("bash"), String::from("zsh")]);
    assert_eq!(audit.workers[1].name, "two");
}

#[test]
fn empty_collection_yields_an_empty_report() {
    let report = finalize_report(Vec::new());
    assert!(report.is_empty());
}

use corrator::application::Application;
use corrator::end_of_life::cache::CycleCache;
use corrator::worker::{Worker, WorkerAction};

fn configured_fleet() -> Config {
    let mut containers = ContainerMap::new();
    containers.insert(
        String::from("web"),
        Container {
            path: String::from("img/web"),
            apps: vec![String::from("nginx")],
            tags: None,
        },
    );
    containers.insert(
        String::from("db"),
        Container {
            path: String::from("img/db"),
            apps: vec![String::from("postgres")],
            tags: None,
        },
    );
    let mut applications = ApplicationMap::new();
    applications.insert(
        String::from("nginx"),
        Application {
            version_pattern: String::from(r"nginx/(?P<version>[0-9.]+)"),
            version_command: String::from("nginx -v"),
            eol: None,
        },
    );
    applications.insert(
        String::from("postgres"),
        Application {
            version_pattern: String::from(r"PostgreSQL (?P<version>[0-9.]+)"),
            version_command: String::from("postgres --version"),
            eol: None,
        },
    );
    Config::new(containers, applications, Options::default())
}

fn drive_with_canned_outputs(mut worker: Worker, apps: &ApplicationMap) -> Status {
    let store = CycleCache::new();
    let mut act = worker.begin();
    loop {
        act = match act {
            WorkerAction::Start { .. } => worker.started(apps, true),
            WorkerAction::Execute { command, .. } => {
                let out = if command == "nginx -v" {
                    "nginx/1.25.3"
                } else {
                    "PostgreSQL 16.1"
                };
                worker.output(apps, &store, out)
            }
            WorkerAction::Fetch { .. } => panic!("no lookups are configured"),
            WorkerAction::Skip(_) => worker.proceed(apps),
            WorkerAction::Stop { .. } => worker.stopped(),
            WorkerAction::Finished => break,
        };
    }
    worker.into_status()
}

/// The full pipeline yields the same report whichever order the
/// workers complete in.
#[test]
fn pipeline_reports_are_independent_of_completion_order() {
    let audit_one = configured_fleet().run();
    let apps = audit_one.applications;
    let mut collected_one = Vec::new();
    for w in audit_one.workers {
        collected_one.push(drive_with_canned_outputs(w, &apps));
    }

    let audit_two = configured_fleet().run();
    let apps2 = audit_two.applications;
    let mut collected_two = Vec::new();
    for w in audit_two.workers.into_iter().rev() {
        collected_two.push(drive_with_canned_outputs(w, &apps2));
    }

    let a = finalize_report(collected_one);
    let b = finalize_report(collected_two);
    assert_eq!(a, b);
    assert_eq!(a[0].name, "db");
    assert_eq!(a[0].apps[0].version, "16.1");
    assert_eq!(a[1].name, "web");
    assert_eq!(a[1].apps[0].version, "1.25.3");
}
