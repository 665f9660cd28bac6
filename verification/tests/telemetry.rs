use battery_tray::telemetry::{
    get_battery_info, sample, PowerSource, QueryError, TelemetrySample,
};
use battery_tray::watts::Watts;

fn source(watts: &str) -> PowerSource {
    PowerSource { watts: Watts::parse(watts).expect("a decimal numeral") }
}

fn failure(description: &str) -> QueryError {
    QueryError { description: description.to_string() }
}

#[test]
fn refused_enumeration_is_an_error() {
    assert_eq!(get_battery_info(Err(failure("permission denied"))), Err(failure("permission denied")));
}

#[test]
fn empty_enumeration_is_no_battery() {
    assert_eq!(get_battery_info(Ok(Vec::new())), Ok(None));
}

#[test]
fn single_source_is_found() {
    assert_eq!(get_battery_info(Ok(vec![Ok(source("47.25"))])), Ok(Some(source("47.25"))));
}

#[test]
fn first_source_wins_over_later_ones() {
    let listed = vec![Ok(source("12.5")), Ok(source("99")), Ok(source("3"))];
    assert_eq!(get_battery_info(Ok(listed)), Ok(Some(source("12.5"))));
}

#[test]
fn later_failures_do_not_matter() {
    let listed = vec![Ok(source("12.5")), Err(failure("unreadable"))];
    assert_eq!(get_battery_info(Ok(listed)), Ok(Some(source("12.5"))));
}

#[test]
fn unreadable_first_source_is_an_error() {
    let listed = vec![Err(failure("unreadable")), Ok(source("12.5"))];
    assert_eq!(get_battery_info(Ok(listed)), Err(failure("unreadable")));
}

#[test]
fn query_outcomes_classify_into_samples() {
    assert_eq!(
        TelemetrySample::from_query(Ok(Some(source("47.25")))),
        TelemetrySample::Reading { watts: Watts::parse("47.25").unwrap() }
    );
    assert_eq!(TelemetrySample::from_query(Ok(None)), TelemetrySample::Absent);
    assert_eq!(TelemetrySample::from_query(Err(failure("gone"))), TelemetrySample::QueryFailed);
}

#[test]
fn sample_reads_the_first_source() {
    let listed = vec![Ok(source("7.5")), Ok(source("8.5"))];
    assert_eq!(sample(Ok(listed)), TelemetrySample::Reading { watts: Watts::parse("7.5").unwrap() });
}

#[test]
fn sample_of_nothing_is_absent() {
    assert_eq!(sample(Ok(Vec::new())), TelemetrySample::Absent);
}

#[test]
fn sample_of_a_failure_is_query_failed() {
    assert_eq!(sample(Err(failure("no subsystem"))), TelemetrySample::QueryFailed);
    assert_eq!(sample(Ok(vec![Err(failure("unreadable"))])), TelemetrySample::QueryFailed);
}
