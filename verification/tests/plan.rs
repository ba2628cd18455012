use sonar::config::{Config, GrafanaConfig, LogFile, ReportOn, ServerConfig, Target};
use sonar::plan::{is_config_change, shutdown_plan, start_plan, StartStep, StopStep, WatchEvent};

fn target(name: &str, logged: bool) -> Target {
    Target {
        name: Some(String::from(name)),
        url: String::from("http://example.com"),
        interval: None,
        timeout: None,
        max_concurrent: None,
        log: if logged {
            Some(LogFile { file: String::from("a.log"), report_on: Some(ReportOn::Both) })
        } else {
            None
        },
        prometheus_response_time_bucket: None,
        web_hook: None,
    }
}

#[test]
fn a_full_start_sequence() {
    let config = Config {
        server: Some(ServerConfig::new("0.0.0.0", 8080)),
        grafana: Some(GrafanaConfig::new("d.json")),
        targets_defaults: None,
        targets: vec![target("a", true), target("b", false)],
    };
    assert_eq!(
        start_plan(&config),
        vec![
            StartStep::WriteDashboard,
            StartStep::BuildRegistry,
            StartStep::CreateBus { target: 0 },
            StartStep::SubscribeReporter { target: 0 },
            StartStep::SubscribeAggregator { target: 0 },
            StartStep::SpawnProbe { target: 0 },
            StartStep::CreateBus { target: 1 },
            StartStep::SubscribeAggregator { target: 1 },
            StartStep::SpawnProbe { target: 1 },
            StartStep::StartServer,
        ]
    );
}

#[test]
fn a_start_sequence_without_server_and_dashboard() {
    let config = Config {
        server: None,
        grafana: None,
        targets_defaults: None,
        targets: vec![target("a", false)],
    };
    assert_eq!(
        start_plan(&config),
        vec![
            StartStep::BuildRegistry,
            StartStep::CreateBus { target: 0 },
            StartStep::SubscribeAggregator { target: 0 },
            StartStep::SpawnProbe { target: 0 },
        ]
    );
}

#[test]
fn the_shutdown_sequence() {
    assert_eq!(
        shutdown_plan(true),
        vec![
            StopStep::StopServer,
            StopStep::CancelProbes,
            StopStep::CloseBuses,
            StopStep::DropRegistry
        ]
    );
    assert_eq!(
        shutdown_plan(false),
        vec![StopStep::CancelProbes, StopStep::CloseBuses, StopStep::DropRegistry]
    );
}

#[test]
fn only_the_watched_file_concerns_the_configuration() {
    let watched = "/etc/sonar/sonar.yaml";
    assert!(is_config_change(&WatchEvent::Create(String::from(watched)), watched));
    assert!(is_config_change(&WatchEvent::Write(String::from(watched)), watched));
    assert!(is_config_change(&WatchEvent::Remove(String::from(watched)), watched));
    assert!(!is_config_change(&WatchEvent::Write(String::from("/etc/sonar/other.yaml")), watched));
    assert!(!is_config_change(&WatchEvent::Create(String::from("/etc/sonar")), watched));
    assert!(!is_config_change(&WatchEvent::Remove(String::from("sonar.yaml")), watched));
    assert!(!is_config_change(&WatchEvent::Other, watched));
}
