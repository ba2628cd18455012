//! The configuration model: targets, server, dashboard and defaults.

use vstd::prelude::*;
use vstd::string::StringExecFns;
use crate::duration::{lemma_short_text, span_of, Span};
use crate::names::{normalize_name, normalized};

verus! {

/// What a probe does when a tick comes while as many requests as
/// allowed are under way.
#[derive(Clone, Copy, Debug, PartialEq, Eq, Structural)]
pub enum RequestStrategy {
    /// Send no new request before one of those under way has ended.
    Wait,
    /// Cancel the oldest request under way and send a new one at once.
    CancelOldest,
}

/// Which outcomes a log file records.
#[derive(Clone, Copy, Debug, PartialEq, Eq, Structural)]
pub enum ReportOn {
    Success,
    Failure,
    Both,
}

/// The view of an optional string.
pub open spec fn text_of(o: Option<String>) -> Option<Seq<char>> {
    match o {
        Some(s) => Some(s@),
        None => None,
    }
}

/// A copy of an optional string.
pub fn copy_text(o: &Option<String>) -> (r: Option<String>)
    ensures
        text_of(r) == text_of(*o),
{
    match o {
        Some(s) => Some(s.clone()),
        None => None,
    }
}

/// Where the outcomes of a target are logged.
#[derive(Clone, Debug, PartialEq, Eq)]
pub struct LogFile {
    pub file: String,
    pub report_on: Option<ReportOn>,
}

pub struct LogFileView {
    pub file: Seq<char>,
    pub report_on: Option<ReportOn>,
}

impl View for LogFile {
    type V = LogFileView;

    open spec fn view(&self) -> LogFileView {
        LogFileView { file: self.file@, report_on: self.report_on }
    }
}

impl LogFile {
    /// The filter of this log file.
    pub fn clone_unwrap_report_on(&self) -> (r: ReportOn)
        requires
            self.report_on is Some,
        ensures
            Some(r) == self.report_on,
    {
        match self.report_on {
            Some(r) => r,
            None => ReportOn::Both,
        }
    }

    /// A log file without a filter records both kinds of outcome.
    pub fn some_default_report_on() -> (r: Option<ReportOn>)
        ensures
            r == Some(ReportOn::Both),
    {
        Some(ReportOn::Both)
    }

    /// A copy of this log file.
    pub fn duplicate(&self) -> (r: LogFile)
        ensures
            r@ == self@,
    {
        LogFile { file: self.file.clone(), report_on: self.report_on }
    }
}

/// Where the daemon listens, and under which paths it answers.
#[derive(Clone, Debug, PartialEq, Eq)]
pub struct ServerConfig {
    pub port: u16,
    pub ip: String,
    pub health_endpoint: Option<String>,
    pub prometheus_endpoint: Option<String>,
}

pub struct ServerConfigView {
    pub port: u16,
    pub ip: Seq<char>,
    pub health_endpoint: Option<Seq<char>>,
    pub prometheus_endpoint: Option<Seq<char>>,
}

impl View for ServerConfig {
    type V = ServerConfigView;

    open spec fn view(&self) -> ServerConfigView {
        ServerConfigView {
            port: self.port,
            ip: self.ip@,
            health_endpoint: text_of(self.health_endpoint),
            prometheus_endpoint: text_of(self.prometheus_endpoint),
        }
    }
}

impl ServerConfig {
    /// A server on `ip:port` that answers under no path yet.
    pub fn new(ip: &str, port: u16) -> (r: ServerConfig)
        ensures
            r@ == (ServerConfigView {
                port,
                ip: ip@,
                health_endpoint: None,
                prometheus_endpoint: None,
            }),
    {
        ServerConfig {
            ip: String::from_str(ip),
            port,
            health_endpoint: None,
            prometheus_endpoint: None,
        }
    }

    /// Sets the path of the health endpoint.
    pub fn health_endpoint(&mut self, path: &str) -> (r: &mut ServerConfig)
        ensures
            r@ == (ServerConfigView { health_endpoint: Some(path@), ..old(self)@ }),
            *final(self) == *final(r),
    {
        self.health_endpoint = Some(String::from_str(path));
        self
    }

    /// Sets the path of the metrics endpoint.
    pub fn prometheus_endpoint(&mut self, path: &str) -> (r: &mut ServerConfig)
        ensures
            r@ == (ServerConfigView { prometheus_endpoint: Some(path@), ..old(self)@ }),
            *final(self) == *final(r),
    {
        self.prometheus_endpoint = Some(String::from_str(path));
        self
    }

    /// A copy of this server configuration.
    pub fn duplicate(&self) -> (r: ServerConfig)
        ensures
            r@ == self@,
    {
        ServerConfig {
            ip: self.ip.clone(),
            port: self.port,
            health_endpoint: copy_text(&self.health_endpoint),
            prometheus_endpoint: copy_text(&self.prometheus_endpoint),
        }
    }
}

/// Where the dashboard document is written.
#[derive(Clone, Debug, PartialEq, Eq)]
pub struct GrafanaConfig {
    pub dashboard_json_output_path: String,
}

impl View for GrafanaConfig {
    type V = Seq<char>;

    open spec fn view(&self) -> Seq<char> {
        self.dashboard_json_output_path@
    }
}

impl GrafanaConfig {
    /// A dashboard written to `output_file_path`.
    pub fn new(output_file_path: &str) -> (r: GrafanaConfig)
        ensures
            r@ == output_file_path@,
    {
        GrafanaConfig { dashboard_json_output_path: String::from_str(output_file_path) }
    }

    /// A copy of this dashboard configuration.
    pub fn duplicate(&self) -> (r: GrafanaConfig)
        ensures
            r@ == self@,
    {
        GrafanaConfig { dashboard_json_output_path: self.dashboard_json_output_path.clone() }
    }
}

/// The histogram buckets of a target that names none and has no default:
/// 50 to 400 in steps of 50, then 500, in milliseconds.
pub open spec fn standard_buckets() -> Seq<u64> {
    seq![50u64, 100u64, 150u64, 200u64, 250u64, 300u64, 350u64, 400u64, 500u64]
}

/// A copy of a list of buckets.
pub fn copy_buckets(v: &Vec<u64>) -> (r: Vec<u64>)
    ensures
        r@ == v@,
{
    let mut r: Vec<u64> = Vec::new();
    let mut i: usize = 0;
    while i < v.len()
        invariant
            i <= v.len(),
            r@ == v@.subrange(0, i as int),
        decreases v.len() - i,
    {
        r.push(v[i]);
        i = i + 1;
    }
    assert(v@.subrange(0, v.len() as int) == v@);
    r
}

/// What holds for every target that does not say otherwise.
#[derive(Clone, Debug, PartialEq, Eq)]
pub struct TargetDefault {
    pub prometheus_response_time_bucket: Vec<u64>,
}

impl View for TargetDefault {
    type V = Seq<u64>;

    open spec fn view(&self) -> Seq<u64> {
        self.prometheus_response_time_bucket@
    }
}

impl TargetDefault {
    /// The defaults with the standard buckets.
    pub fn default() -> (r: TargetDefault)
        ensures
            r@ == standard_buckets(),
    {
        TargetDefault {
            prometheus_response_time_bucket: Self::default_prometheus_response_time_bucket(),
        }
    }

    /// The standard buckets.
    pub fn default_prometheus_response_time_bucket() -> (r: Vec<u64>)
        ensures
            r@ == standard_buckets(),
    {
        let r: Vec<u64> = vec![50u64, 100u64, 150u64, 200u64, 250u64, 300u64, 350u64, 400u64, 500u64];
        assert(r@ =~= standard_buckets());
        r
    }

    /// A copy of these defaults.
    pub fn duplicate(&self) -> (r: TargetDefault)
        ensures
            r@ == self@,
    {
        TargetDefault {
            prometheus_response_time_bucket: copy_buckets(&self.prometheus_response_time_bucket),
        }
    }
}

/// A remote sink that is told of outcomes.
#[derive(Clone, Debug, PartialEq, Eq)]
pub struct WebHook {
    url: String,
    timeout: Option<Span>,
}

pub struct WebHookView {
    pub url: Seq<char>,
    pub timeout: Option<Span>,
}

impl View for WebHook {
    type V = WebHookView;

    closed spec fn view(&self) -> WebHookView {
        WebHookView { url: self.url@, timeout: self.timeout }
    }
}

impl WebHook {
    /// A web hook waits three seconds unless told otherwise.
    pub fn some_default_timeout() -> (r: Option<Span>)
        ensures
            r == Some(Span { millis: 3_000 }),
    {
        proof {
            reveal_strlit("3s");
            lemma_short_text("3s"@);
        }
        Some(span_of("3s"))
    }

    /// A web hook at `url` without a timeout of its own.
    pub fn new(url: &str) -> (r: WebHook)
        ensures
            r@ == (WebHookView { url: url@, timeout: None }),
    {
        WebHook { url: String::from_str(url), timeout: None }
    }

    /// Sets or clears the timeout.
    pub fn set_timeout(&mut self, d: Option<Span>) -> (r: &mut WebHook)
        ensures
            r@ == (WebHookView { timeout: d, ..old(self)@ }),
            *final(self) == *final(r),
    {
        self.timeout = d;
        self
    }
}

/// The view of an optional log file.
pub open spec fn log_of(o: Option<LogFile>) -> Option<LogFileView> {
    match o {
        Some(l) => Some(l@),
        None => None,
    }
}

/// The view of an optional list of buckets.
pub open spec fn buckets_of(o: Option<Vec<u64>>) -> Option<Seq<u64>> {
    match o {
        Some(b) => Some(b@),
        None => None,
    }
}

/// One endpoint to probe, with how often, how long and how many at once.
#[derive(Clone, Debug, PartialEq, Eq)]
pub struct Target {
    pub name: Option<String>,
    pub url: String,
    /// How often a request is made.
    pub interval: Option<Span>,
    /// How long a request may take.
    pub timeout: Option<Span>,
    /// How many requests may be under way at the same time.
    pub max_concurrent: Option<u32>,
    pub log: Option<LogFile>,
    /// Upper bounds of the latency histogram, in milliseconds.
    pub prometheus_response_time_bucket: Option<Vec<u64>>,
    pub web_hook: Option<String>,
}

pub struct TargetView {
    pub name: Option<Seq<char>>,
    pub url: Seq<char>,
    pub interval: Option<Span>,
    pub timeout: Option<Span>,
    pub max_concurrent: Option<u32>,
    pub log: Option<LogFileView>,
    pub prometheus_response_time_bucket: Option<Seq<u64>>,
    pub web_hook: Option<Seq<char>>,
}

impl View for Target {
    type V = TargetView;

    open spec fn view(&self) -> TargetView {
        TargetView {
            name: text_of(self.name),
            url: self.url@,
            interval: self.interval,
            timeout: self.timeout,
            max_concurrent: self.max_concurrent,
            log: log_of(self.log),
            prometheus_response_time_bucket: buckets_of(self.prometheus_response_time_bucket),
            web_hook: text_of(self.web_hook),
        }
    }
}

/// The target with its name filled in from the URL where it had none.
pub open spec fn hydrated(t: TargetView) -> TargetView {
    TargetView {
        name: match t.name {
            Some(n) => Some(n),
            None => Some(normalized(t.url)),
        },
        ..t
    }
}

impl Target {
    /// A request may take five seconds unless the target says otherwise.
    pub fn some_default_timeout() -> (r: Option<Span>)
        ensures
            r == Some(Span { millis: 5_000 }),
    {
        proof {
            reveal_strlit("5s");
            lemma_short_text("5s"@);
        }
        Some(span_of("5s"))
    }

    /// A request is made every minute unless the target says otherwise.
    pub fn some_default_interval() -> (r: Option<Span>)
        ensures
            r == Some(Span { millis: 60_000 }),
    {
        proof {
            reveal_strlit("1m");
            lemma_short_text("1m"@);
        }
        Some(span_of("1m"))
    }

    /// One request at a time unless the target says otherwise.
    pub fn some_default_max_concurrent() -> (r: Option<u32>)
        ensures
            r == Some(1u32),
    {
        Some(1)
    }

    /// The name that a target gets from its URL.
    pub fn normalize_name(name: &String) -> (r: String)
        ensures
            r@ == normalized(name@),
    {
        normalize_name(name.clone())
    }

    /// Fills in the name from the URL where the target has none, and
    /// leaves everything else as it is.
    pub fn hydrate(self) -> (r: Target)
        ensures
            r@ == hydrated(self@),
    {
        let name = match self.name {
            None => Self::normalize_name(&self.url),
            Some(n) => n,
        };
        Target {
            url: self.url,
            interval: self.interval,
            name: Some(name),
            timeout: self.timeout,
            max_concurrent: self.max_concurrent,
            prometheus_response_time_bucket: self.prometheus_response_time_bucket,
            log: self.log,
            web_hook: self.web_hook,
        }
    }

    /// The name of a target that has one.
    pub fn clone_unwrap_name(&self) -> (r: String)
        requires
            self.name is Some,
        ensures
            Some(r@) == self@.name,
    {
        match &self.name {
            Some(n) => n.clone(),
            None => String::new(),
        }
    }

    /// The interval of a target that has one.
    pub fn clone_unwrap_interval(&self) -> (r: Span)
        requires
            self.interval is Some,
        ensures
            Some(r) == self.interval,
    {
        match self.interval {
            Some(d) => d,
            None => Span { millis: 0 },
        }
    }

    /// The timeout of a target that has one.
    pub fn clone_unwrap_timeout(&self) -> (r: Span)
        requires
            self.timeout is Some,
        ensures
            Some(r) == self.timeout,
    {
        match self.timeout {
            Some(d) => d,
            None => Span { millis: 0 },
        }
    }

    /// How many requests a target that says so may have under way.
    pub fn unwrap_max_concurrent(&self) -> (r: u32)
        requires
            self.max_concurrent is Some,
        ensures
            Some(r) == self.max_concurrent,
    {
        match self.max_concurrent {
            Some(n) => n,
            None => 0,
        }
    }

    /// The log file of a target that has one.
    pub fn clone_unwrap_log(&self) -> (r: LogFile)
        requires
            self.log is Some,
        ensures
            Some(r@) == self@.log,
    {
        match &self.log {
            Some(l) => l.duplicate(),
            None => LogFile { file: String::new(), report_on: None },
        }
    }

    /// The web hook of a target that has one.
    pub fn clone_unwrap_web_hook(&self) -> (r: String)
        requires
            self.web_hook is Some,
        ensures
            Some(r@) == self@.web_hook,
    {
        match &self.web_hook {
            Some(w) => w.clone(),
            None => String::new(),
        }
    }

    /// A copy of this target.
    pub fn duplicate(&self) -> (r: Target)
        ensures
            r@ == self@,
    {
        Target {
            name: copy_text(&self.name),
            url: self.url.clone(),
            interval: self.interval,
            timeout: self.timeout,
            max_concurrent: self.max_concurrent,
            log: match &self.log {
                Some(l) => Some(l.duplicate()),
                None => None,
            },
            prometheus_response_time_bucket: match &self.prometheus_response_time_bucket {
                Some(b) => Some(copy_buckets(b)),
                None => None,
            },
            web_hook: copy_text(&self.web_hook),
        }
    }
}

/// The views of a list of targets, in order.
pub open spec fn targets_of(v: Seq<Target>) -> Seq<TargetView> {
    Seq::new(v.len(), |i: int| v[i]@)
}

/// Everything the daemon is told: where to listen, where to write the
/// dashboard, the defaults, and the targets.
#[derive(Clone, Debug, PartialEq, Eq)]
pub struct Config {
    pub server: Option<ServerConfig>,
    pub grafana: Option<GrafanaConfig>,
    pub targets_defaults: Option<TargetDefault>,
    pub targets: Vec<Target>,
}

pub struct ConfigView {
    pub server: Option<ServerConfigView>,
    pub grafana: Option<Seq<char>>,
    pub targets_defaults: Option<Seq<u64>>,
    pub targets: Seq<TargetView>,
}

impl View for Config {
    type V = ConfigView;

    open spec fn view(&self) -> ConfigView {
        ConfigView {
            server: match self.server {
                Some(s) => Some(s@),
                None => None,
            },
            grafana: match self.grafana {
                Some(g) => Some(g@),
                None => None,
            },
            targets_defaults: match self.targets_defaults {
                Some(d) => Some(d@),
                None => None,
            },
            targets: targets_of(self.targets@),
        }
    }
}

/// Bucket bounds are positive and strictly increasing.
pub open spec fn rising(b: Seq<u64>) -> bool {
    &&& (b.len() > 0 ==> b[0] > 0)
    &&& forall|i: int| 0 < i < b.len() ==> b[i - 1] < #[trigger] b[i]
}

/// Whether bucket bounds are positive and strictly increasing.
pub fn buckets_rise(b: &Vec<u64>) -> (r: bool)
    ensures
        r == rising(b@),
{
    if b.len() == 0 {
        return true;
    }
    if b[0] == 0 {
        return false;
    }
    let mut i: usize = 1;
    while i < b.len()
        invariant
            1 <= i <= b.len(),
            forall|k: int| 0 < k < i ==> b@[k - 1] < #[trigger] b@[k],
        decreases b.len() - i,
    {
        if b[i - 1] >= b[i] {
            return false;
        }
        i = i + 1;
    }
    true
}

/// A target that a probe can run on: named, with a URL, an interval and
/// a timeout of a millisecond or more, room for a request, rising
/// buckets, and a filter on its log file if it has one.
pub open spec fn target_ready(t: TargetView) -> bool {
    &&& t.name is Some
    &&& t.url.len() > 0
    &&& t.interval is Some && t.interval->0.millis >= 1
    &&& t.timeout is Some && t.timeout->0.millis >= 1
    &&& t.max_concurrent is Some && t.max_concurrent->0 >= 1
    &&& t.prometheus_response_time_bucket is Some && rising(t.prometheus_response_time_bucket->0)
    &&& (t.log is Some ==> t.log->0.report_on is Some)
}

/// No two targets share a name.
pub open spec fn names_unique(ts: Seq<TargetView>) -> bool {
    forall|i: int, j: int| 0 <= i < j < ts.len() ==> ts[i].name != ts[j].name
}

/// A configuration that a generation can be started from.
pub open spec fn config_ready(c: ConfigView) -> bool {
    &&& c.targets.len() > 0
    &&& forall|i: int| 0 <= i < c.targets.len() ==> target_ready(#[trigger] c.targets[i])
    &&& names_unique(c.targets)
}

} // verus!
