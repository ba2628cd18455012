use sonar::config::{ReportOn, Target};
use sonar::messages::{BusEvent, EntryDTO, FailureDTO, Outcome};
use sonar::report::{failure_line, report_line, success_line, FileReporterTask, ReporterAction};

fn target(url: &str) -> Target {
    Target {
        name: Some(String::from("t")),
        url: String::from(url),
        interval: None,
        timeout: None,
        max_concurrent: None,
        log: None,
        prometheus_response_time_bucket: None,
        web_hook: None,
    }
}

fn success() -> EntryDTO {
    EntryDTO {
        timestamp_seconds: 1600000000,
        response_code: 200,
        latency: 12,
        target: target("http://127.0.0.1:8081/"),
    }
}

fn failure() -> FailureDTO {
    FailureDTO {
        timestamp_seconds: 1600000001,
        latency: 100,
        reason: String::from("  operation timed out\n"),
        target: target("http://127.0.0.1:8081/"),
    }
}

#[test]
fn the_line_of_a_success() {
    assert_eq!(success_line(&success()), "1600000000 12ms 200 http://127.0.0.1:8081/\n");
}

#[test]
fn the_line_of_a_failure() {
    assert_eq!(
        failure_line(&failure()),
        "1600000001 Failed http://127.0.0.1:8081/ 100ms operation timed out\n"
    );
}

#[test]
fn lines_before_the_epoch_and_with_large_latencies() {
    let mut e = success();
    e.timestamp_seconds = -1;
    e.latency = u128::MAX;
    e.response_code = 0;
    assert_eq!(
        success_line(&e),
        format!("-1 {}ms 0 http://127.0.0.1:8081/\n", u128::MAX)
    );
    let mut f = failure();
    f.reason = String::new();
    f.latency = 0;
    assert_eq!(failure_line(&f), "1600000001 Failed http://127.0.0.1:8081/ 0ms \n");
}

#[test]
fn the_filter_decides_what_is_recorded() {
    let ok = Outcome::Success(success());
    let failed = Outcome::Failure(failure());
    assert_eq!(report_line(ReportOn::Success, &ok), Some(success_line(&success())));
    assert_eq!(report_line(ReportOn::Both, &ok), Some(success_line(&success())));
    assert_eq!(report_line(ReportOn::Failure, &ok), None);
    assert_eq!(report_line(ReportOn::Failure, &failed), Some(failure_line(&failure())));
    assert_eq!(report_line(ReportOn::Both, &failed), Some(failure_line(&failure())));
    assert_eq!(report_line(ReportOn::Success, &failed), None);
}

#[test]
fn a_reporter_appends_what_its_filter_records() {
    let mut reporter = FileReporterTask::new(String::from("./log/a.log"), ReportOn::Success);
    assert!(reporter.running);
    assert_eq!(reporter.location, "./log/a.log");
    assert_eq!(
        reporter.receive(&BusEvent::Message(Outcome::Success(success()))),
        ReporterAction::Append(String::from("1600000000 12ms 200 http://127.0.0.1:8081/\n"))
    );
    assert_eq!(
        reporter.receive(&BusEvent::Message(Outcome::Failure(failure()))),
        ReporterAction::Receive
    );
    assert!(reporter.running);
}

#[test]
fn a_reporter_goes_on_after_a_lag() {
    let mut reporter = FileReporterTask::new(String::from("a.log"), ReportOn::Both);
    assert_eq!(reporter.receive(&BusEvent::Lagged(7)), ReporterAction::WarnLagged(7));
    assert!(reporter.running);
    assert_eq!(
        reporter.receive(&BusEvent::Message(Outcome::Failure(failure()))),
        ReporterAction::Append(failure_line(&failure()))
    );
}

#[test]
fn a_reporter_stops_when_the_bus_is_closed() {
    let mut reporter = FileReporterTask::new(String::from("a.log"), ReportOn::Both);
    assert_eq!(reporter.receive(&BusEvent::Closed), ReporterAction::Stop);
    assert!(!reporter.running);
    assert_eq!(
        reporter.receive(&BusEvent::Message(Outcome::Success(success()))),
        ReporterAction::Stop
    );
}

#[test]
fn a_reporter_stops_when_a_write_fails() {
    let mut reporter = FileReporterTask::new(String::from("a.log"), ReportOn::Both);
    assert!(reporter.written(true));
    assert!(reporter.running);
    assert!(!reporter.written(false));
    assert!(!reporter.running);
    assert!(!reporter.written(true));
    assert_eq!(reporter.receive(&BusEvent::Lagged(1)), ReporterAction::Stop);
}
