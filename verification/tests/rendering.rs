use corrator::application::RegexCaptureError;
use corrator::container::Container;
use corrator::docker::Docker;
use corrator::end_of_life::{Cycle, EOLDate, EndOfLifeApiError};

#[test]
fn dates_render_in_month_day_year_order() {
    let d = EOLDate::Date(String::from("2025-04-30"));
    assert_eq!(d.status_text(), "04/30/25");
}

#[test]
fn the_sentinel_renders_as_alive() {
    assert_eq!(EOLDate::Alive(false).status_text(), "alive");
    assert_eq!(EOLDate::Alive(true).status_text(), "alive");
}

#[test]
fn an_invalid_date_string_passes_through() {
    let d = EOLDate::Date(String::from("not-a-date"));
    assert_eq!(d.status_text(), "not-a-date");
}

#[test]
fn a_cycle_renders_its_end_of_life_field() {
    let c = Cycle {
        eol: EOLDate::Date(String::from("2026-12-31")),
        support: Some(EOLDate::Alive(true)),
        latest: String::from("9.9"),
        latest_release_date: String::from("2024-01-01"),
        release_date: String::from("2020-01-01"),
        is_lts: true,
    };
    assert_eq!(c.status_text(), "12/31/26");
}

#[test]
fn defaults_are_the_documented_placeholders() {
    assert_eq!(EOLDate::default(), EOLDate::Alive(false));

    let c = Cycle::default();
    assert_eq!(c.eol, EOLDate::Alive(false));
    assert_eq!(c.support, None);
    assert_eq!(c.latest, "");
    assert!(!c.is_lts);

    let container = Container::default();
    assert_eq!(container.path, "path");
    assert_eq!(container.apps, vec![String::from("bash")]);
    assert!(container.tags.is_none());
}

#[test]
fn error_messages_name_the_failure() {
    assert_eq!(
        RegexCaptureError.message(),
        "Could not capture version from input"
    );
    assert_eq!(
        EndOfLifeApiError.message(),
        "Unable to find a matching product/version match from endoflife.date"
    );
}

#[test]
fn docker_records_its_identity() {
    let d = Docker::new("corrator_demo", "registry/image:latest");
    assert_eq!(d.name(), "corrator_demo");
    assert_eq!(d.path(), "registry/image:latest");
}
