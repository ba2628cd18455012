use sonar::config::{
    buckets_rise, copy_buckets, copy_text, GrafanaConfig, LogFile, ReportOn, RequestStrategy, ServerConfig,
    Target, TargetDefault, WebHook,
};
use sonar::duration::Span;

fn bare(url: &str) -> Target {
    Target {
        name: None,
        url: String::from(url),
        interval: None,
        timeout: None,
        max_concurrent: None,
        log: None,
        prometheus_response_time_bucket: None,
        web_hook: None,
    }
}

#[test]
fn a_log_file_records_both_kinds_by_default() {
    assert_eq!(LogFile::some_default_report_on(), Some(ReportOn::Both));
}

#[test]
fn a_log_file_gives_its_filter() {
    let log = LogFile { file: String::from("a.log"), report_on: Some(ReportOn::Failure) };
    assert_eq!(log.clone_unwrap_report_on(), ReportOn::Failure);
    assert_eq!(log.duplicate(), log);
}

#[test]
fn a_server_starts_without_endpoints() {
    let server = ServerConfig::new("0.0.0.0", 8080);
    assert_eq!(server.ip, "0.0.0.0");
    assert_eq!(server.port, 8080);
    assert_eq!(server.health_endpoint, None);
    assert_eq!(server.prometheus_endpoint, None);
}

#[test]
fn endpoints_are_set_one_after_the_other() {
    let mut server = ServerConfig::new("::1", 9090);
    server.health_endpoint("/up").prometheus_endpoint("/m");
    assert_eq!(server.health_endpoint, Some(String::from("/up")));
    assert_eq!(server.prometheus_endpoint, Some(String::from("/m")));
    assert_eq!(server.ip, "::1");
    assert_eq!(server.port, 9090);
    assert_eq!(server.duplicate(), server);
}

#[test]
fn a_dashboard_has_its_path() {
    let grafana = GrafanaConfig::new("/tmp/d.json");
    assert_eq!(grafana.dashboard_json_output_path, "/tmp/d.json");
    assert_eq!(grafana.duplicate(), grafana);
}

#[test]
fn the_standard_buckets() {
    let want = vec![50u64, 100, 150, 200, 250, 300, 350, 400, 500];
    assert_eq!(TargetDefault::default_prometheus_response_time_bucket(), want);
    assert_eq!(TargetDefault::default().prometheus_response_time_bucket, want);
    assert_eq!(TargetDefault::default().duplicate(), TargetDefault::default());
}

#[test]
fn a_web_hook_waits_three_seconds_by_default() {
    assert_eq!(WebHook::some_default_timeout(), Some(Span { millis: 3_000 }));
}

#[test]
fn a_web_hook_takes_a_timeout() {
    let mut hook = WebHook::new("http://localhost:1");
    let mut same = WebHook::new("http://localhost:1");
    assert_eq!(hook, same);
    hook.set_timeout(Some(Span { millis: 10 }));
    assert_ne!(hook, same);
    same.set_timeout(Some(Span { millis: 10 }));
    assert_eq!(hook, same);
    hook.set_timeout(None);
    assert_eq!(hook, WebHook::new("http://localhost:1"));
}

#[test]
fn the_defaults_of_a_target() {
    assert_eq!(Target::some_default_interval(), Some(Span { millis: 60_000 }));
    assert_eq!(Target::some_default_timeout(), Some(Span { millis: 5_000 }));
    assert_eq!(Target::some_default_max_concurrent(), Some(1));
}

#[test]
fn hydrate_names_a_target_after_its_url() {
    let target = bare("http://example.com").hydrate();
    assert_eq!(target.name, Some(String::from("http_example_com")));
    assert_eq!(target.url, "http://example.com");
    assert_eq!(target.interval, None);
    assert_eq!(target.log, None);
}

#[test]
fn hydrate_keeps_a_given_name() {
    let mut target = bare("http://example.com");
    target.name = Some(String::from("front page"));
    target.max_concurrent = Some(3);
    let hydrated = target.clone().hydrate();
    assert_eq!(hydrated, target);
}

#[test]
fn a_target_gives_what_it_holds() {
    let target = Target {
        name: Some(String::from("n")),
        url: String::from("http://u"),
        interval: Some(Span { millis: 100 }),
        timeout: Some(Span { millis: 500 }),
        max_concurrent: Some(2),
        log: Some(LogFile { file: String::from("l.log"), report_on: Some(ReportOn::Both) }),
        prometheus_response_time_bucket: Some(vec![1, 2]),
        web_hook: Some(String::from("http://h")),
    };
    assert_eq!(target.clone_unwrap_name(), "n");
    assert_eq!(target.clone_unwrap_interval(), Span { millis: 100 });
    assert_eq!(target.clone_unwrap_timeout(), Span { millis: 500 });
    assert_eq!(target.unwrap_max_concurrent(), 2);
    assert_eq!(target.clone_unwrap_log().file, "l.log");
    assert_eq!(target.clone_unwrap_web_hook(), "http://h");
    assert_eq!(target.duplicate(), target);
}

#[test]
fn copies_are_equal() {
    assert_eq!(copy_text(&Some(String::from("x"))), Some(String::from("x")));
    assert_eq!(copy_text(&None), None);
    assert_eq!(copy_buckets(&vec![3, 1, 2]), vec![3, 1, 2]);
}

#[test]
fn the_two_strategies_differ() {
    assert_ne!(RequestStrategy::Wait, RequestStrategy::CancelOldest);
}

#[test]
fn buckets_rise_when_positive_and_strictly_increasing() {
    assert!(buckets_rise(&vec![]));
    assert!(buckets_rise(&vec![1]));
    assert!(buckets_rise(&vec![50, 100, 150, 200, 250, 300, 350, 400, 500]));
    assert!(buckets_rise(&vec![1, u64::MAX]));
    assert!(!buckets_rise(&vec![0]));
    assert!(!buckets_rise(&vec![0, 1]));
    assert!(!buckets_rise(&vec![1, 1]));
    assert!(!buckets_rise(&vec![1, 3, 2]));
}
