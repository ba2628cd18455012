//! Sample configurations, for writing a first configuration file.

use vstd::prelude::*;
use vstd::string::StringExecFns;
use crate::config::{
    standard_buckets, Config, ConfigView, GrafanaConfig, LogFile, LogFileView,
    ReportOn, ServerConfig, ServerConfigView, Target, TargetDefault, TargetView,
};
use crate::duration::Span;
use crate::names::normalized;
use crate::text::{chars_of, lines_of, split_lines, string_of, texts_of};

verus! {

/// The lines that are not empty, in order.
pub open spec fn keep_nonempty(ls: Seq<Seq<char>>) -> Seq<Seq<char>>
    decreases ls.len(),
{
    if ls.len() == 0 {
        ls
    } else if ls.last().len() > 0 {
        keep_nonempty(ls.drop_last()).push(ls.last())
    } else {
        keep_nonempty(ls.drop_last())
    }
}

/// The URLs of a text that holds one URL on each line.
pub open spec fn url_lines(text: Seq<char>) -> Seq<Seq<char>> {
    keep_nonempty(split_lines(text))
}

/// A target that says no more than its URL and the name derived from it.
pub open spec fn minimal_target(url: Seq<char>) -> TargetView {
    TargetView {
        name: Some(normalized(url)),
        url,
        interval: None,
        timeout: None,
        max_concurrent: None,
        log: None,
        prometheus_response_time_bucket: None,
        web_hook: None,
    }
}

/// The buckets that a sample target names.
pub open spec fn sample_buckets() -> Seq<u64> {
    seq![100u64, 250u64, 500u64, 1000u64]
}

/// A target that says everything a target can say, at the defaults.
pub open spec fn maximal_target(url: Seq<char>, log_file: Seq<char>, web_hook: Seq<char>) -> TargetView {
    TargetView {
        name: Some(normalized(url)),
        url,
        interval: Some(Span { millis: 60_000 }),
        timeout: Some(Span { millis: 5_000 }),
        max_concurrent: Some(1u32),
        log: Some(LogFileView { file: log_file, report_on: Some(ReportOn::Success) }),
        prometheus_response_time_bucket: Some(sample_buckets()),
        web_hook: Some(web_hook),
    }
}

/// The log file of a sample target, named after the target.
pub open spec fn sample_log_file(name: Seq<char>) -> Seq<char> {
    "./log/"@ + name + ".log"@
}

/// A configuration of targets alone.
pub open spec fn minimal_config(targets: Seq<TargetView>) -> ConfigView {
    ConfigView { server: None, grafana: None, targets_defaults: None, targets }
}

/// A configuration with a server on every address at port 8080, the
/// usual endpoints, a dashboard and the standard buckets as defaults.
pub open spec fn maximal_config(targets: Seq<TargetView>) -> ConfigView {
    ConfigView {
        server: Some(
            ServerConfigView {
                port: 8080,
                ip: "0.0.0.0"@,
                health_endpoint: Some("/health"@),
                prometheus_endpoint: Some("/metrics"@),
            },
        ),
        grafana: Some("/opt/sonar/dashboards/sonar.json"@),
        targets_defaults: Some(standard_buckets()),
        targets,
    }
}

/// The non-empty lines of `urls`.
pub fn url_lines_of(urls: &str) -> (r: Vec<Vec<char>>)
    ensures
        texts_of(r@) == url_lines(urls@),
{
    let v = chars_of(urls);
    let lines = lines_of(&v);
    let mut out: Vec<Vec<char>> = Vec::new();
    let mut i: usize = 0;
    proof {
        assert(texts_of(lines@).subrange(0, 0) =~= Seq::<Seq<char>>::empty());
        assert(texts_of(out@) =~= Seq::<Seq<char>>::empty());
    }
    while i < lines.len()
        invariant
            i <= lines.len(),
            texts_of(out@) == keep_nonempty(texts_of(lines@).subrange(0, i as int)),
        decreases lines.len() - i,
    {
        let ghost next = texts_of(lines@).subrange(0, i + 1);
        proof {
            assert(next.drop_last() =~= texts_of(lines@).subrange(0, i as int));
            assert(next.last() == lines@[i as int]@);
        }
        if lines[i].len() > 0 {
            let ghost before = out@;
            let line = chars_copy(&lines[i]);
            out.push(line);
            proof {
                assert(texts_of(out@) =~= texts_of(before).push(lines@[i as int]@));
            }
        }
        i = i + 1;
    }
    proof {
        assert(texts_of(lines@).subrange(0, lines.len() as int) =~= texts_of(lines@));
    }
    out
}

/// A copy of a list of characters.
fn chars_copy(v: &Vec<char>) -> (r: Vec<char>)
    ensures
        r@ == v@,
{
    let mut r: Vec<char> = Vec::new();
    let mut i: usize = 0;
    while i < v.len()
        invariant
            i <= v.len(),
            r@ == v@.subrange(0, i as int),
        decreases v.len() - i,
    {
        r.push(v[i]);
        i = i + 1;
    }
    assert(v@.subrange(0, v.len() as int) == v@);
    r
}

/// The sample server: every address, port 8080, `/health` and `/metrics`.
fn sample_server() -> (r: ServerConfig)
    ensures
        Some(r@) == maximal_config(Seq::empty()).server,
{
    let mut server = ServerConfig::new("0.0.0.0", 8080);
    server.health_endpoint("/health");
    server.prometheus_endpoint("/metrics");
    server
}

/// A sample target for `url` that says everything.
fn sample_target(url: String, log_file: String, web_hook: &str) -> (r: Target)
    ensures
        r@ == maximal_target(url@, log_file@, web_hook@),
{
    let buckets: Vec<u64> = vec![100u64, 250u64, 500u64, 1000u64];
    assert(buckets@ =~= sample_buckets());
    Target {
        name: Some(Target::normalize_name(&url)),
        url,
        interval: Target::some_default_interval(),
        timeout: Target::some_default_timeout(),
        max_concurrent: Target::some_default_max_concurrent(),
        log: Some(LogFile { file: log_file, report_on: Some(ReportOn::Success) }),
        prometheus_response_time_bucket: Some(buckets),
        web_hook: Some(String::from_str(web_hook)),
    }
}

/// A target for `url` that says no more than it must.
fn bare_target(url: String) -> (r: Target)
    ensures
        r@ == minimal_target(url@),
{
    Target {
        name: None,
        url,
        interval: None,
        max_concurrent: None,
        timeout: None,
        log: None,
        prometheus_response_time_bucket: None,
        web_hook: None,
    }.hydrate()
}

impl Config {
    /// One target, `http://example.com`, and nothing else.
    pub fn create_with_minimal_fields() -> (r: Config)
        ensures
            r@ == minimal_config(seq![minimal_target("http://example.com"@)]),
    {
        let targets: Vec<Target> = vec![bare_target(String::from_str("http://example.com"))];
        let r = Config { server: None, grafana: None, targets_defaults: None, targets };
        assert(r@.targets =~= seq![minimal_target("http://example.com"@)]);
        r
    }

    /// One target, `https://example.com`, with every field written out.
    pub fn create_with_maximum_fields() -> (r: Config)
        ensures
            r@ == maximal_config(
                seq![
                    maximal_target(
                        "https://example.com"@,
                        "./log/https-example-com.log"@,
                        "http://localhost:12345"@,
                    ),
                ],
            ),
    {
        let targets: Vec<Target> = vec![
            sample_target(
                String::from_str("https://example.com"),
                String::from_str("./log/https-example-com.log"),
                "http://localhost:12345",
            ),
        ];
        let r = Config {
            server: Some(sample_server()),
            grafana: Some(GrafanaConfig::new("/opt/sonar/dashboards/sonar.json")),
            targets_defaults: Some(TargetDefault::default()),
            targets,
        };
        assert(r@.targets =~= seq![
            maximal_target(
                "https://example.com"@,
                "./log/https-example-com.log"@,
                "http://localhost:12345"@,
            ),
        ]);
        r
    }

    /// One minimal target for each non-empty line of `urls`.
    pub fn create_with_minimal_fields_with_urls(urls: String) -> (r: Config)
        ensures
            r@ == minimal_config(url_lines(urls@).map_values(|u: Seq<char>| minimal_target(u))),
    {
        let lines = url_lines_of(urls.as_str());
        let mut targets: Vec<Target> = Vec::new();
        let mut i: usize = 0;
        while i < lines.len()
            invariant
                i <= lines.len(),
                targets@.len() == i,
                forall|k: int|
                    0 <= k < i ==> (#[trigger] targets@[k])@ == minimal_target(lines@[k]@),
            decreases lines.len() - i,
        {
            targets.push(bare_target(string_of(&lines[i])));
            i = i + 1;
        }
        let r = Config { server: None, grafana: None, targets_defaults: None, targets };
        proof {
            let want = url_lines(urls@).map_values(|u: Seq<char>| minimal_target(u));
            assert(want.len() == lines@.len());
            assert forall|k: int| 0 <= k < want.len() implies r@.targets[k] == want[k] by {
                assert(texts_of(lines@)[k] == lines@[k]@);
            }
            assert(r@.targets =~= want);
        }
        r
    }

    /// One maximal target for each non-empty line of `urls`, each with a
    /// log file named after it.
    pub fn create_with_maximum_fields_with_urls(urls: String) -> (r: Config)
        ensures
            r@ == maximal_config(
                url_lines(urls@).map_values(
                    |u: Seq<char>|
                        maximal_target(
                            u,
                            sample_log_file(normalized(u)),
                            "https://localhost:12345"@,
                        ),
                ),
            ),
    {
        let lines = url_lines_of(urls.as_str());
        let mut targets: Vec<Target> = Vec::new();
        let mut i: usize = 0;
        while i < lines.len()
            invariant
                i <= lines.len(),
                targets@.len() == i,
                forall|k: int|
                    0 <= k < i ==> (#[trigger] targets@[k])@ == maximal_target(
                        lines@[k]@,
                        sample_log_file(normalized(lines@[k]@)),
                        "https://localhost:12345"@,
                    ),
            decreases lines.len() - i,
        {
            let url = string_of(&lines[i]);
            let name = Target::normalize_name(&url);
            let mut log_file = String::from_str("./log/");
            log_file.append(name.as_str());
            log_file.append(".log");
            targets.push(sample_target(url, log_file, "https://localhost:12345"));
            i = i + 1;
        }
        let r = Config {
            server: Some(sample_server()),
            grafana: Some(GrafanaConfig::new("/opt/sonar/dashboards/sonar.json")),
            targets_defaults: Some(TargetDefault::default()),
            targets,
        };
        proof {
            let want = url_lines(urls@).map_values(
                |u: Seq<char>|
                    maximal_target(u, sample_log_file(normalized(u)), "https://localhost:12345"@),
            );
            assert(want.len() == lines@.len());
            assert forall|k: int| 0 <= k < want.len() implies r@.targets[k] == want[k] by {
                assert(texts_of(lines@)[k] == lines@[k]@);
            }
            assert(r@.targets =~= want);
        }
        r
    }
}

} // verus!
