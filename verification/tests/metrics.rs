use sonar::config::{Target, TargetDefault};
use sonar::messages::{BusEvent, EntryDTO, FailureDTO, Outcome};
use sonar::metrics::{metric_action, metric_plan, registry_plan, MetricAction, MetricPlan};

fn target(name: Option<&str>, buckets: Option<Vec<u64>>) -> Target {
    Target {
        name: name.map(String::from),
        url: String::from("http://example.com"),
        interval: None,
        timeout: None,
        max_concurrent: None,
        log: None,
        prometheus_response_time_bucket: buckets,
        web_hook: None,
    }
}

fn plan(name: &str, buckets: Vec<u64>) -> MetricPlan {
    MetricPlan {
        counter_name: format!("{}_success", name),
        counter_help: String::from("Number of successful requests"),
        timer_name: format!("{}_time_ms", name),
        timer_help: String::from("latency in ms"),
        timer_unit: String::from("milliseconds"),
        buckets,
    }
}

fn success(name: Option<&str>, latency: u128) -> BusEvent {
    BusEvent::Message(Outcome::Success(EntryDTO {
        timestamp_seconds: 1,
        response_code: 200,
        latency,
        target: target(name, None),
    }))
}

fn failure(name: Option<&str>, latency: u128) -> BusEvent {
    BusEvent::Message(Outcome::Failure(FailureDTO {
        timestamp_seconds: 1,
        latency,
        reason: String::from("timed out"),
        target: target(name, None),
    }))
}

#[test]
fn a_target_gets_a_counter_and_a_histogram() {
    assert_eq!(
        metric_plan(&target(Some("http_a_b"), Some(vec![10, 20])), &None),
        plan("http_a_b", vec![10, 20])
    );
}

#[test]
fn metric_names_are_metric_safe() {
    let p = metric_plan(&target(Some("my-site.v2"), None), &None);
    assert_eq!(p.counter_name, "my_site_v__success");
    assert_eq!(p.timer_name, "my_site_v__time_ms");
}

#[test]
fn buckets_fall_back_to_the_defaults_and_then_to_the_standard() {
    let defaults = Some(TargetDefault { prometheus_response_time_bucket: vec![1, 2] });
    assert_eq!(metric_plan(&target(Some("a"), Some(vec![9])), &defaults).buckets, vec![9]);
    assert_eq!(metric_plan(&target(Some("a"), None), &defaults).buckets, vec![1, 2]);
    assert_eq!(
        metric_plan(&target(Some("a"), None), &None).buckets,
        vec![50, 100, 150, 200, 250, 300, 350, 400, 500]
    );
}

#[test]
fn a_registry_has_the_metrics_of_every_target_in_order() {
    let targets = vec![target(Some("a"), None), target(Some("b"), Some(vec![5]))];
    let defaults = Some(TargetDefault { prometheus_response_time_bucket: vec![1] });
    assert_eq!(registry_plan(&targets, &defaults), vec![plan("a", vec![1]), plan("b", vec![5])]);
    assert_eq!(registry_plan(&vec![], &None), vec![]);
}

#[test]
fn a_success_is_counted_and_timed() {
    let plans = vec![plan("a", vec![1]), plan("b", vec![1])];
    assert_eq!(
        metric_action(&plans, &success(Some("b"), 12)),
        MetricAction::Record {
            counter: Some(String::from("b_success")),
            timer: String::from("b_time_ms"),
            latency: 12
        }
    );
}

#[test]
fn a_failure_is_timed_only() {
    let plans = vec![plan("a", vec![1])];
    assert_eq!(
        metric_action(&plans, &failure(Some("a"), 100)),
        MetricAction::Record { counter: None, timer: String::from("a_time_ms"), latency: 100 }
    );
}

#[test]
fn an_outcome_of_an_unknown_target_is_dropped() {
    let plans = vec![plan("a", vec![1])];
    assert_eq!(metric_action(&plans, &success(Some("z"), 1)), MetricAction::Discard);
    assert_eq!(metric_action(&plans, &failure(Some("z"), 1)), MetricAction::Discard);
    assert_eq!(metric_action(&plans, &success(None, 1)), MetricAction::Discard);
    assert_eq!(metric_action(&vec![], &success(Some("a"), 1)), MetricAction::Discard);
}

#[test]
fn a_lag_is_warned_of_and_a_closed_bus_ends_the_aggregator() {
    let plans = vec![plan("a", vec![1])];
    assert_eq!(metric_action(&plans, &BusEvent::Lagged(3)), MetricAction::WarnLagged(3));
    assert_eq!(metric_action(&plans, &BusEvent::Closed), MetricAction::Stop);
}
