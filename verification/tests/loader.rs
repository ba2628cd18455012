use sonar::config::{Config, GrafanaConfig, LogFile, ReportOn, ServerConfig, TargetDefault};
use sonar::duration::{Span, SpanError};
use sonar::loader::{ConfigError, ConfigFile, TargetEntry, TargetFault};

fn entry(url: &str) -> TargetEntry {
    TargetEntry {
        name: None,
        url: String::from(url),
        interval: None,
        timeout: None,
        max_concurrent: None,
        log: None,
        prometheus_response_time_bucket: None,
        web_hook: None,
    }
}

fn file(targets: Vec<TargetEntry>) -> ConfigFile {
    ConfigFile { server: None, grafana: None, targets_defaults: None, targets }
}

#[test]
fn applies_every_default() {
    let config = Config::resolve(file(vec![entry("http://127.0.0.1:8081/")])).unwrap();
    assert_eq!(config.targets.len(), 1);
    let target = &config.targets[0];
    assert_eq!(target.name, Some(format!("http{}", "_".repeat(16))));
    assert_eq!(target.url, "http://127.0.0.1:8081/");
    assert_eq!(target.interval, Some(Span { millis: 60_000 }));
    assert_eq!(target.timeout, Some(Span { millis: 5_000 }));
    assert_eq!(target.max_concurrent, Some(1));
    assert_eq!(target.log, None);
    assert_eq!(
        target.prometheus_response_time_bucket,
        Some(vec![50, 100, 150, 200, 250, 300, 350, 400, 500])
    );
    assert_eq!(target.web_hook, None);
    assert_eq!(config.server, None);
    assert_eq!(config.grafana, None);
    assert_eq!(config.targets_defaults, None);
}

#[test]
fn keeps_what_the_document_says() {
    let mut e = entry("http://a");
    e.name = Some(String::from("a"));
    e.interval = Some(String::from("100ms"));
    e.timeout = Some(String::from("2s"));
    e.max_concurrent = Some(4);
    e.log = Some(LogFile { file: String::from("a.log"), report_on: Some(ReportOn::Failure) });
    e.prometheus_response_time_bucket = Some(vec![10, 20]);
    e.web_hook = Some(String::from("http://hook"));
    let mut f = file(vec![e]);
    f.server = Some(ServerConfig::new("127.0.0.1", 8080));
    f.grafana = Some(GrafanaConfig::new("d.json"));
    f.targets_defaults = Some(TargetDefault { prometheus_response_time_bucket: vec![1, 2, 3] });
    let config = Config::resolve(f).unwrap();
    let target = &config.targets[0];
    assert_eq!(target.name, Some(String::from("a")));
    assert_eq!(target.interval, Some(Span { millis: 100 }));
    assert_eq!(target.timeout, Some(Span { millis: 2_000 }));
    assert_eq!(target.max_concurrent, Some(4));
    assert_eq!(
        target.log,
        Some(LogFile { file: String::from("a.log"), report_on: Some(ReportOn::Failure) })
    );
    assert_eq!(target.prometheus_response_time_bucket, Some(vec![10, 20]));
    assert_eq!(target.web_hook, Some(String::from("http://hook")));
    assert_eq!(config.server, Some(ServerConfig::new("127.0.0.1", 8080)));
    assert_eq!(config.grafana, Some(GrafanaConfig::new("d.json")));
}

#[test]
fn a_timeout_may_exceed_the_interval() {
    let mut e = entry("http://a");
    e.interval = Some(String::from("100ms"));
    e.timeout = Some(String::from("1h"));
    let config = Config::resolve(file(vec![e])).unwrap();
    assert_eq!(config.targets[0].timeout, Some(Span { millis: 3_600_000 }));
}

#[test]
fn missing_buckets_come_from_the_defaults() {
    let mut f = file(vec![entry("http://a")]);
    f.targets_defaults = Some(TargetDefault { prometheus_response_time_bucket: vec![1, 2, 3] });
    let config = Config::resolve(f).unwrap();
    assert_eq!(config.targets[0].prometheus_response_time_bucket, Some(vec![1, 2, 3]));
}

#[test]
fn a_log_file_without_a_filter_records_both() {
    let mut e = entry("http://a");
    e.log = Some(LogFile { file: String::from("a.log"), report_on: None });
    let config = Config::resolve(file(vec![e])).unwrap();
    assert_eq!(
        config.targets[0].log,
        Some(LogFile { file: String::from("a.log"), report_on: Some(ReportOn::Both) })
    );
}

#[test]
fn refuses_a_document_without_targets() {
    assert_eq!(Config::resolve(file(vec![])), Err(ConfigError::NoTargets));
}

#[test]
fn refuses_an_empty_url() {
    assert_eq!(
        Config::resolve(file(vec![entry("http://a"), entry("")])),
        Err(ConfigError::Target { index: 1, fault: TargetFault::EmptyUrl })
    );
}

#[test]
fn refuses_an_interval_that_is_no_duration() {
    let mut e = entry("http://a");
    e.interval = Some(String::from("soon"));
    assert_eq!(
        Config::resolve(file(vec![e])),
        Err(ConfigError::Target { index: 0, fault: TargetFault::BadInterval(SpanError::Format) })
    );
    let mut e = entry("http://a");
    e.interval = Some(String::from("18446744073709551616ms"));
    assert_eq!(
        Config::resolve(file(vec![e])),
        Err(ConfigError::Target { index: 0, fault: TargetFault::BadInterval(SpanError::TooLarge) })
    );
}

#[test]
fn refuses_a_timeout_that_is_no_duration() {
    let mut e = entry("http://a");
    e.timeout = Some(String::from("5 s"));
    assert_eq!(
        Config::resolve(file(vec![e])),
        Err(ConfigError::Target { index: 0, fault: TargetFault::BadTimeout(SpanError::Format) })
    );
}

#[test]
fn refuses_spans_shorter_than_a_millisecond() {
    let mut e = entry("http://a");
    e.interval = Some(String::from("0s"));
    assert_eq!(
        Config::resolve(file(vec![e])),
        Err(ConfigError::Target { index: 0, fault: TargetFault::IntervalTooShort })
    );
    let mut e = entry("http://a");
    e.timeout = Some(String::from("0ms"));
    assert_eq!(
        Config::resolve(file(vec![e])),
        Err(ConfigError::Target { index: 0, fault: TargetFault::TimeoutTooShort })
    );
}

#[test]
fn refuses_a_target_without_room_for_a_request() {
    let mut e = entry("http://a");
    e.max_concurrent = Some(0);
    assert_eq!(
        Config::resolve(file(vec![e])),
        Err(ConfigError::Target { index: 0, fault: TargetFault::NoConcurrency })
    );
}

#[test]
fn names_the_first_fault_of_the_first_faulty_target() {
    let mut first = entry("");
    first.interval = Some(String::from("x"));
    let mut second = entry("http://b");
    second.timeout = Some(String::from("x"));
    assert_eq!(
        Config::resolve(file(vec![entry("http://a"), first, second])),
        Err(ConfigError::Target { index: 1, fault: TargetFault::EmptyUrl })
    );
}

#[test]
fn refuses_two_targets_with_one_name() {
    let mut named = entry("http://other");
    named.name = Some(String::from("http_a_b"));
    assert_eq!(
        Config::resolve(file(vec![entry("http://x"), entry("http://a.b"), named])),
        Err(ConfigError::DuplicateName { first: 1, second: 2 })
    );
}

#[test]
fn derived_names_can_clash_too() {
    assert_eq!(
        Config::resolve(file(vec![entry("http://a.b"), entry("http://a-b"), entry("http://a.b")])),
        Err(ConfigError::DuplicateName { first: 0, second: 1 })
    );
}

#[test]
fn a_faulty_target_comes_before_a_shared_name() {
    assert_eq!(
        Config::resolve(file(vec![entry("http://a"), entry("http://a"), entry("")])),
        Err(ConfigError::Target { index: 2, fault: TargetFault::EmptyUrl })
    );
}

#[test]
fn a_document_that_could_not_be_read_is_refused_with_the_reason() {
    assert_eq!(
        Config::load(Err(String::from("did not find expected key at line 3"))),
        Err(ConfigError::Malformed(String::from("did not find expected key at line 3")))
    );
}

#[test]
fn load_resolves_a_document_that_was_read() {
    let loaded = Config::load(Ok(file(vec![entry("http://a")])));
    assert_eq!(loaded, Config::resolve(file(vec![entry("http://a")])));
    assert!(loaded.is_ok());
    assert_eq!(Config::load(Ok(file(vec![]))), Err(ConfigError::NoTargets));
}

#[test]
fn an_entry_resolves_on_its_own() {
    let defaults = Some(TargetDefault { prometheus_response_time_bucket: vec![7] });
    let target = entry("http://a").resolve(&defaults).unwrap();
    assert_eq!(target.prometheus_response_time_bucket, Some(vec![7]));
    assert_eq!(entry("").resolve(&None), Err(TargetFault::EmptyUrl));
}

#[test]
fn writing_out_and_loading_gives_the_configuration_back() {
    let mut e = entry("http://a");
    e.interval = Some(String::from("100ms"));
    e.timeout = Some(String::from("120s"));
    e.log = Some(LogFile { file: String::from("a.log"), report_on: None });
    let mut f = file(vec![e, entry("https://b")]);
    f.server = Some(ServerConfig::new("0.0.0.0", 8080));
    f.targets_defaults = Some(TargetDefault { prometheus_response_time_bucket: vec![5, 50] });
    let config = Config::resolve(f).unwrap();
    let written = config.to_file().unwrap();
    assert_eq!(written.targets[0].interval, Some(String::from("100ms")));
    assert_eq!(written.targets[0].timeout, Some(String::from("2m")));
    assert_eq!(written.targets[1].interval, Some(String::from("1m")));
    assert_eq!(Config::resolve(written), Ok(config));
}

#[test]
fn a_span_beyond_64_bits_cannot_be_written_out() {
    let mut e = entry("http://a");
    e.interval = Some(String::from("18446744073709551615s"));
    let config = Config::resolve(file(vec![e])).unwrap();
    assert_eq!(config.to_file(), None);
    assert_eq!(config.targets[0].to_entry(), None);
}

#[test]
fn refuses_buckets_that_do_not_rise() {
    for bad in [vec![0u64, 10], vec![10, 10], vec![20, 10], vec![1, 2, 2], vec![0]] {
        let mut e = entry("http://a");
        e.prometheus_response_time_bucket = Some(bad);
        assert_eq!(
            Config::resolve(file(vec![e])),
            Err(ConfigError::Target { index: 0, fault: TargetFault::BadBuckets })
        );
    }
}

#[test]
fn bad_defaults_fault_the_targets_that_rely_on_them() {
    let mut own = entry("http://a");
    own.prometheus_response_time_bucket = Some(vec![1, 2]);
    let mut f = file(vec![own, entry("http://b")]);
    f.targets_defaults = Some(TargetDefault { prometheus_response_time_bucket: vec![5, 5] });
    assert_eq!(
        Config::resolve(f),
        Err(ConfigError::Target { index: 1, fault: TargetFault::BadBuckets })
    );
}

#[test]
fn no_room_comes_before_bad_buckets() {
    let mut e = entry("http://a");
    e.max_concurrent = Some(0);
    e.prometheus_response_time_bucket = Some(vec![2, 1]);
    assert_eq!(
        Config::resolve(file(vec![e])),
        Err(ConfigError::Target { index: 0, fault: TargetFault::NoConcurrency })
    );
}

#[test]
fn a_target_may_have_no_buckets_at_all() {
    let mut e = entry("http://a");
    e.prometheus_response_time_bucket = Some(vec![]);
    let config = Config::resolve(file(vec![e])).unwrap();
    assert_eq!(config.targets[0].prometheus_response_time_bucket, Some(vec![]));
}
