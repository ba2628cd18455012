//! Loading: from what a configuration document says to a configuration
//! that a generation can be started from.

use vstd::prelude::*;
use crate::config::{
    buckets_of, buckets_rise, config_ready, copy_buckets, copy_text, log_of, rising,
    standard_buckets, target_ready,
    text_of, Config, ConfigView, GrafanaConfig, LogFile, LogFileView,
    ReportOn, ServerConfig, Target, TargetDefault, TargetView,
};
use crate::duration::{
    canonical_text, lemma_text_round_trip, parse_span, text_span, Span, SpanError,
};
use crate::names::normalized;

verus! {

/// What a document says of one target. Durations are still texts, and
/// anything but the URL may be missing.
#[derive(Clone, Debug, PartialEq, Eq)]
pub struct TargetEntry {
    pub name: Option<String>,
    pub url: String,
    pub interval: Option<String>,
    pub timeout: Option<String>,
    pub max_concurrent: Option<u32>,
    pub log: Option<LogFile>,
    pub prometheus_response_time_bucket: Option<Vec<u64>>,
    pub web_hook: Option<String>,
}

pub struct TargetEntryView {
    pub name: Option<Seq<char>>,
    pub url: Seq<char>,
    pub interval: Option<Seq<char>>,
    pub timeout: Option<Seq<char>>,
    pub max_concurrent: Option<u32>,
    pub log: Option<LogFileView>,
    pub prometheus_response_time_bucket: Option<Seq<u64>>,
    pub web_hook: Option<Seq<char>>,
}

impl View for TargetEntry {
    type V = TargetEntryView;

    open spec fn view(&self) -> TargetEntryView {
        TargetEntryView {
            name: text_of(self.name),
            url: self.url@,
            interval: text_of(self.interval),
            timeout: text_of(self.timeout),
            max_concurrent: self.max_concurrent,
            log: log_of(self.log),
            prometheus_response_time_bucket: buckets_of(self.prometheus_response_time_bucket),
            web_hook: text_of(self.web_hook),
        }
    }
}

/// What is wrong with one target of a document.
#[derive(Clone, Copy, Debug, PartialEq, Eq, Structural)]
pub enum TargetFault {
    /// The URL is empty.
    EmptyUrl,
    /// The interval is no duration.
    BadInterval(SpanError),
    /// The interval is shorter than a millisecond.
    IntervalTooShort,
    /// The timeout is no duration.
    BadTimeout(SpanError),
    /// The timeout is shorter than a millisecond.
    TimeoutTooShort,
    /// No request may be under way at all.
    NoConcurrency,
    /// The bucket bounds are not positive and strictly increasing.
    BadBuckets,
}

/// The span that a target asks for: the one its text stands for, or the
/// default where it gives no text.
pub open spec fn wanted_span(text: Option<Seq<char>>, default: Span) -> Result<Span, SpanError> {
    match text {
        Some(t) => text_span(t),
        None => Ok(default),
    }
}

/// The buckets that an entry's target gets: its own, else the defaults,
/// else the standard ones.
pub open spec fn wanted_buckets(e: TargetEntryView, defaults: Option<Seq<u64>>) -> Seq<u64> {
    match e.prometheus_response_time_bucket {
        Some(b) => b,
        None => match defaults {
            Some(d) => d,
            None => standard_buckets(),
        },
    }
}

/// The first thing wrong with an entry, if anything is.
pub open spec fn entry_fault(e: TargetEntryView, defaults: Option<Seq<u64>>) -> Option<TargetFault> {
    let interval = wanted_span(e.interval, Span { millis: 60_000 });
    let timeout = wanted_span(e.timeout, Span { millis: 5_000 });
    if e.url.len() == 0 {
        Some(TargetFault::EmptyUrl)
    } else if interval is Err {
        Some(TargetFault::BadInterval(interval->Err_0))
    } else if interval->Ok_0.millis == 0 {
        Some(TargetFault::IntervalTooShort)
    } else if timeout is Err {
        Some(TargetFault::BadTimeout(timeout->Err_0))
    } else if timeout->Ok_0.millis == 0 {
        Some(TargetFault::TimeoutTooShort)
    } else if e.max_concurrent == Some(0u32) {
        Some(TargetFault::NoConcurrency)
    } else if !rising(wanted_buckets(e, defaults)) {
        Some(TargetFault::BadBuckets)
    } else {
        None
    }
}

/// A log file with its filter filled in: both kinds where it names none.
pub open spec fn resolved_log(l: LogFileView) -> LogFileView {
    LogFileView {
        file: l.file,
        report_on: Some(
            match l.report_on {
                Some(r) => r,
                None => ReportOn::Both,
            },
        ),
    }
}

/// The target that a faultless entry stands for, every default applied.
pub open spec fn resolved_entry(e: TargetEntryView, defaults: Option<Seq<u64>>) -> TargetView {
    TargetView {
        name: Some(
            match e.name {
                Some(n) => n,
                None => normalized(e.url),
            },
        ),
        url: e.url,
        interval: Some(wanted_span(e.interval, Span { millis: 60_000 })->Ok_0),
        timeout: Some(wanted_span(e.timeout, Span { millis: 5_000 })->Ok_0),
        max_concurrent: Some(
            match e.max_concurrent {
                Some(k) => k,
                None => 1u32,
            },
        ),
        log: match e.log {
            Some(l) => Some(resolved_log(l)),
            None => None,
        },
        prometheus_response_time_bucket: Some(wanted_buckets(e, defaults)),
        web_hook: e.web_hook,
    }
}

/// A faultless entry resolves to a target that a probe can run on.
pub proof fn lemma_resolved_entry_ready(e: TargetEntryView, defaults: Option<Seq<u64>>)
    requires
        entry_fault(e, defaults) is None,
    ensures
        target_ready(resolved_entry(e, defaults)),
{
}

/// The view of optional defaults.
pub open spec fn defaults_of(o: Option<TargetDefault>) -> Option<Seq<u64>> {
    match o {
        Some(d) => Some(d@),
        None => None,
    }
}

/// Reads the span that an entry asks for.
fn read_span(text: &Option<String>, default: Span) -> (r: Result<Span, SpanError>)
    ensures
        r == wanted_span(text_of(*text), default),
{
    match text {
        Some(t) => parse_span(t.as_str()),
        None => Ok(default),
    }
}

impl TargetEntry {
    /// The target that this entry stands for, or the first thing wrong
    /// with it: an empty URL, an interval or a timeout that is no
    /// duration or is shorter than a millisecond, no room for a request,
    /// or bucket bounds that do not rise.
    pub fn resolve(&self, defaults: &Option<TargetDefault>) -> (r: Result<Target, TargetFault>)
        ensures
            match r {
                Ok(t) => entry_fault(self@, defaults_of(*defaults)) is None && t@
                    == resolved_entry(self@, defaults_of(*defaults)),
                Err(f) => entry_fault(self@, defaults_of(*defaults)) == Some(f),
            },
    {
        if self.url.as_str().is_empty() {
            return Err(TargetFault::EmptyUrl);
        }
        let interval = match read_span(&self.interval, Span { millis: 60_000 }) {
            Ok(s) => s,
            Err(e) => {
                return Err(TargetFault::BadInterval(e));
            },
        };
        if interval.millis == 0 {
            return Err(TargetFault::IntervalTooShort);
        }
        let timeout = match read_span(&self.timeout, Span { millis: 5_000 }) {
            Ok(s) => s,
            Err(e) => {
                return Err(TargetFault::BadTimeout(e));
            },
        };
        if timeout.millis == 0 {
            return Err(TargetFault::TimeoutTooShort);
        }
        let max_concurrent: u32 = match self.max_concurrent {
            Some(k) => k,
            None => 1,
        };
        if max_concurrent == 0 {
            return Err(TargetFault::NoConcurrency);
        }
        let name = match &self.name {
            Some(n) => n.clone(),
            None => Target::normalize_name(&self.url),
        };
        let log = match &self.log {
            Some(l) => Some(
                LogFile {
                    file: l.file.clone(),
                    report_on: Some(
                        match l.report_on {
                            Some(r) => r,
                            None => ReportOn::Both,
                        },
                    ),
                },
            ),
            None => None,
        };
        let buckets = match &self.prometheus_response_time_bucket {
            Some(b) => copy_buckets(b),
            None => match defaults {
                Some(d) => copy_buckets(&d.prometheus_response_time_bucket),
                None => TargetDefault::default_prometheus_response_time_bucket(),
            },
        };
        if !buckets_rise(&buckets) {
            return Err(TargetFault::BadBuckets);
        }
        Ok(
            Target {
                name: Some(name),
                url: self.url.clone(),
                interval: Some(interval),
                timeout: Some(timeout),
                max_concurrent: Some(max_concurrent),
                log,
                prometheus_response_time_bucket: Some(buckets),
                web_hook: copy_text(&self.web_hook),
            },
        )
    }
}

/// What a configuration document says, before anything is checked.
#[derive(Clone, Debug, PartialEq, Eq)]
pub struct ConfigFile {
    pub server: Option<ServerConfig>,
    pub grafana: Option<GrafanaConfig>,
    pub targets_defaults: Option<TargetDefault>,
    pub targets: Vec<TargetEntry>,
}

pub struct ConfigFileView {
    pub server: Option<crate::config::ServerConfigView>,
    pub grafana: Option<Seq<char>>,
    pub targets_defaults: Option<Seq<u64>>,
    pub targets: Seq<TargetEntryView>,
}

impl View for ConfigFile {
    type V = ConfigFileView;

    open spec fn view(&self) -> ConfigFileView {
        ConfigFileView {
            server: match self.server {
                Some(s) => Some(s@),
                None => None,
            },
            grafana: match self.grafana {
                Some(g) => Some(g@),
                None => None,
            },
            targets_defaults: match self.targets_defaults {
                Some(d) => Some(d@),
                None => None,
            },
            targets: Seq::new(self.targets@.len(), |i: int| self.targets@[i]@),
        }
    }
}

/// Why a configuration is refused.
#[derive(Clone, Debug, PartialEq, Eq)]
pub enum ConfigError {
    /// The document could not be read at all; the reader's words.
    Malformed(String),
    /// The document names no target.
    NoTargets,
    /// The target at `index` is faulty.
    Target { index: usize, fault: TargetFault },
    /// The targets at `first` and `second` have the same name.
    DuplicateName { first: usize, second: usize },
}

/// The name that an entry's target will have.
pub open spec fn entry_name(e: TargetEntryView) -> Seq<char> {
    match e.name {
        Some(n) => n,
        None => normalized(e.url),
    }
}

/// No entry is faulty.
pub open spec fn faultless(es: Seq<TargetEntryView>, defaults: Option<Seq<u64>>) -> bool {
    forall|i: int| 0 <= i < es.len() ==> entry_fault(#[trigger] es[i], defaults) is None
}

/// The entry at `index` is faulty and none before it is.
pub open spec fn first_fault_at(
    es: Seq<TargetEntryView>,
    defaults: Option<Seq<u64>>,
    index: int,
) -> bool {
    &&& 0 <= index < es.len()
    &&& entry_fault(es[index], defaults) is Some
    &&& forall|i: int| 0 <= i < index ==> entry_fault(#[trigger] es[i], defaults) is None
}

/// No two entries lead to the same name.
pub open spec fn names_distinct(es: Seq<TargetEntryView>) -> bool {
    forall|a: int, b: int|
        0 <= a < b < es.len() ==> entry_name(#[trigger] es[a]) != entry_name(#[trigger] es[b])
}

/// `second` is the first entry whose name an earlier entry has, and
/// `first` is the earliest entry with that name.
pub open spec fn first_clash(es: Seq<TargetEntryView>, first: int, second: int) -> bool {
    &&& 0 <= first < second < es.len()
    &&& entry_name(es[first]) == entry_name(es[second])
    &&& forall|a: int, b: int|
        0 <= a < b < second ==> entry_name(#[trigger] es[a]) != entry_name(#[trigger] es[b])
    &&& forall|a: int| 0 <= a < first ==> entry_name(#[trigger] es[a]) != entry_name(es[second])
}

/// The configuration that a faultless document stands for.
pub open spec fn loaded(f: ConfigFileView) -> ConfigView {
    ConfigView {
        server: f.server,
        grafana: f.grafana,
        targets_defaults: f.targets_defaults,
        targets: Seq::new(
            f.targets.len(),
            |i: int| resolved_entry(f.targets[i], f.targets_defaults),
        ),
    }
}

/// What loading a document gives: the configuration, or the first reason
/// to refuse it. Faulty targets come before shared names.
pub open spec fn load_result(f: ConfigFileView, r: Result<Config, ConfigError>) -> bool {
    match r {
        Ok(c) => {
            &&& f.targets.len() > 0
            &&& faultless(f.targets, f.targets_defaults)
            &&& names_distinct(f.targets)
            &&& c@ == loaded(f)
            &&& config_ready(c@)
        },
        Err(ConfigError::Malformed(_)) => false,
        Err(ConfigError::NoTargets) => f.targets.len() == 0,
        Err(ConfigError::Target { index, fault }) => {
            &&& first_fault_at(f.targets, f.targets_defaults, index as int)
            &&& entry_fault(f.targets[index as int], f.targets_defaults) == Some(fault)
        },
        Err(ConfigError::DuplicateName { first, second }) => {
            &&& faultless(f.targets, f.targets_defaults)
            &&& first_clash(f.targets, first as int, second as int)
        },
    }
}

/// Whether two named targets have the same name.
fn same_name(x: &Target, y: &Target) -> (r: bool)
    requires
        x.name is Some,
        y.name is Some,
    ensures
        r == (x@.name == y@.name),
{
    match (&x.name, &y.name) {
        (Some(a), Some(b)) => *a == *b,
        _ => false,
    }
}

impl Config {
    /// Checks a document and applies the defaults. Refuses a document
    /// without targets, then the first faulty target, then the first
    /// target whose name an earlier one has.
    pub fn resolve(file: ConfigFile) -> (r: Result<Config, ConfigError>)
        ensures
            load_result(file@, r),
    {
        let ghost f = file@;
        let ConfigFile { server, grafana, targets_defaults, targets: entries } = file;
        let n: usize = entries.len();
        if n == 0 {
            return Err(ConfigError::NoTargets);
        }
        let mut targets: Vec<Target> = Vec::new();
        let mut i: usize = 0;
        while i < n
            invariant
                f == file@,
                n == entries@.len(),
                f.targets == Seq::new(entries@.len(), |k: int| entries@[k]@),
                f.targets_defaults == match targets_defaults {
                    Some(d) => Some(d@),
                    None => None,
                },
                i <= n,
                targets@.len() == i,
                forall|k: int|
                    0 <= k < i ==> entry_fault(#[trigger] f.targets[k], f.targets_defaults) is None,
                forall|k: int|
                    0 <= k < i ==> (#[trigger] targets@[k])@ == resolved_entry(
                        f.targets[k],
                        f.targets_defaults,
                    ),
            decreases n - i,
        {
            assert(f.targets[i as int] == entries@[i as int]@);
            match entries[i].resolve(&targets_defaults) {
                Ok(t) => {
                    targets.push(t);
                },
                Err(fault) => {
                    return Err(ConfigError::Target { index: i, fault });
                },
            }
            i = i + 1;
        }
        assert(faultless(f.targets, f.targets_defaults));
        let mut second: usize = 0;
        while second < n
            invariant
                f == file@,
                n == targets@.len(),
                n == f.targets.len(),
                second <= n,
                faultless(f.targets, f.targets_defaults),
                forall|k: int|
                    0 <= k < n ==> (#[trigger] targets@[k])@ == resolved_entry(
                        f.targets[k],
                        f.targets_defaults,
                    ),
                forall|a: int, b: int|
                    0 <= a < b < second ==> entry_name(#[trigger] f.targets[a]) != entry_name(
                        #[trigger] f.targets[b],
                    ),
            decreases n - second,
        {
            let mut first: usize = 0;
            while first < second
                invariant
                    f == file@,
                    n == targets@.len(),
                    n == f.targets.len(),
                    first <= second < n,
                    faultless(f.targets, f.targets_defaults),
                    forall|a: int, b: int|
                        0 <= a < b < second ==> entry_name(#[trigger] f.targets[a]) != entry_name(
                            #[trigger] f.targets[b],
                        ),
                    forall|k: int|
                        0 <= k < n ==> (#[trigger] targets@[k])@ == resolved_entry(
                            f.targets[k],
                            f.targets_defaults,
                        ),
                    forall|a: int|
                        0 <= a < first ==> entry_name(#[trigger] f.targets[a]) != entry_name(
                            f.targets[second as int],
                        ),
                decreases second - first,
            {
                assert(targets@[first as int]@.name == Some(entry_name(f.targets[first as int])));
                assert(targets@[second as int]@.name == Some(
                    entry_name(f.targets[second as int]),
                ));
                if same_name(&targets[first], &targets[second]) {
                    return Err(ConfigError::DuplicateName { first, second });
                }
                first = first + 1;
            }
            second = second + 1;
        }
        let config = Config { server, grafana, targets_defaults, targets };
        proof {
            assert(config@.targets =~= loaded(f).targets);
            assert(config@ == loaded(f));
            assert forall|k: int| 0 <= k < config@.targets.len() implies target_ready(
                #[trigger] config@.targets[k],
            ) by {
                lemma_resolved_entry_ready(f.targets[k], f.targets_defaults);
            }
            assert forall|a: int, b: int| 0 <= a < b < config@.targets.len() implies config@.targets[a].name
                != config@.targets[b].name by {
                assert(config@.targets[a].name == Some(entry_name(f.targets[a])));
                assert(config@.targets[b].name == Some(entry_name(f.targets[b])));
            }
        }
        Ok(config)
    }

    /// The outcome of loading: a document that could not be read is
    /// refused with the reader's words, any other as `resolve` says.
    pub fn load(parsed: Result<ConfigFile, String>) -> (r: Result<Config, ConfigError>)
        ensures
            match parsed {
                Ok(file) => load_result(file@, r),
                Err(reason) => r matches Err(ConfigError::Malformed(m)) && m@ == reason@,
            },
    {
        match parsed {
            Ok(file) => Config::resolve(file),
            Err(reason) => Err(ConfigError::Malformed(reason)),
        }
    }
}

/// The text of an optional span.
pub open spec fn span_text_of(o: Option<Span>) -> Option<Seq<char>> {
    match o {
        Some(s) => Some(canonical_text(s.millis as nat)),
        None => None,
    }
}

/// What a document says of a target to describe it in full.
pub open spec fn entry_of(t: TargetView) -> TargetEntryView {
    TargetEntryView {
        name: t.name,
        url: t.url,
        interval: span_text_of(t.interval),
        timeout: span_text_of(t.timeout),
        max_concurrent: t.max_concurrent,
        log: t.log,
        prometheus_response_time_bucket: t.prometheus_response_time_bucket,
        web_hook: t.web_hook,
    }
}

/// The document that describes a configuration in full.
pub open spec fn document_of(c: ConfigView) -> ConfigFileView {
    ConfigFileView {
        server: c.server,
        grafana: c.grafana,
        targets_defaults: c.targets_defaults,
        targets: Seq::new(c.targets.len(), |i: int| entry_of(c.targets[i])),
    }
}

/// The spans of a target can be written as texts: neither has more
/// milliseconds than 64 bits hold.
pub open spec fn spans_writable(t: TargetView) -> bool {
    &&& (t.interval is Some ==> t.interval->0.millis <= u64::MAX)
    &&& (t.timeout is Some ==> t.timeout->0.millis <= u64::MAX)
}

/// Every target's spans can be written as texts.
pub open spec fn writable(c: ConfigView) -> bool {
    forall|i: int| 0 <= i < c.targets.len() ==> spans_writable(#[trigger] c.targets[i])
}

/// Writing a target out and resolving it again gives the same target.
pub proof fn lemma_entry_round_trip(t: TargetView, defaults: Option<Seq<u64>>)
    requires
        target_ready(t),
        spans_writable(t),
    ensures
        entry_fault(entry_of(t), defaults) is None,
        resolved_entry(entry_of(t), defaults) == t,
        entry_name(entry_of(t)) == t.name->0,
{
    lemma_text_round_trip(t.interval->0.millis as nat);
    lemma_text_round_trip(t.timeout->0.millis as nat);
    let e = entry_of(t);
    assert(wanted_span(e.interval, Span { millis: 60_000 }) == Ok::<Span, SpanError>(
        t.interval->0,
    ));
    assert(wanted_span(e.timeout, Span { millis: 5_000 }) == Ok::<Span, SpanError>(t.timeout->0));
    if t.log is Some {
        assert(resolved_log(t.log->0) == t.log->0);
    }
}

/// Loading the document that describes a configuration gives the
/// configuration back: whatever `Config::resolve` returns for it is
/// `Ok`, and equal to the configuration.
pub proof fn lemma_load_round_trip(c: ConfigView, r: Result<Config, ConfigError>)
    requires
        config_ready(c),
        writable(c),
        load_result(document_of(c), r),
    ensures
        r is Ok,
        r->Ok_0@ == c,
{
    let f = document_of(c);
    assert forall|i: int| 0 <= i < f.targets.len() implies entry_fault(
        #[trigger] f.targets[i],
        f.targets_defaults,
    ) is None && resolved_entry(f.targets[i], f.targets_defaults) == c.targets[i] && entry_name(
        f.targets[i],
    ) == c.targets[i].name->0 by {
        lemma_entry_round_trip(c.targets[i], c.targets_defaults);
    }
    assert(faultless(f.targets, f.targets_defaults));
    assert forall|a: int, b: int| 0 <= a < b < f.targets.len() implies entry_name(
        #[trigger] f.targets[a],
    ) != entry_name(#[trigger] f.targets[b]) by {
        assert(c.targets[a].name != c.targets[b].name);
    }
    assert(loaded(f).targets =~= c.targets);
    assert(loaded(f) == c);
}

/// The text of an optional span, where it has one.
fn write_span(o: &Option<Span>) -> (r: Option<Option<String>>)
    ensures
        match r {
            Some(t) => text_of(t) == span_text_of(*o) && (o is Some ==> o->0.millis <= u64::MAX),
            None => o is Some && o->0.millis > u64::MAX,
        },
{
    match o {
        None => Some(None),
        Some(s) => match s.to_text() {
            Some(t) => Some(Some(t)),
            None => None,
        },
    }
}

impl Target {
    /// What a document says of this target to describe it in full, or
    /// `None` where one of its spans cannot be written as a text.
    pub fn to_entry(&self) -> (r: Option<TargetEntry>)
        ensures
            match r {
                Some(e) => spans_writable(self@) && e@ == entry_of(self@),
                None => !spans_writable(self@),
            },
    {
        let interval = match write_span(&self.interval) {
            Some(t) => t,
            None => {
                return None;
            },
        };
        let timeout = match write_span(&self.timeout) {
            Some(t) => t,
            None => {
                return None;
            },
        };
        let entry = TargetEntry {
            name: copy_text(&self.name),
            url: self.url.clone(),
            interval,
            timeout,
            max_concurrent: self.max_concurrent,
            log: match &self.log {
                Some(l) => Some(l.duplicate()),
                None => None,
            },
            prometheus_response_time_bucket: match &self.prometheus_response_time_bucket {
                Some(b) => Some(copy_buckets(b)),
                None => None,
            },
            web_hook: copy_text(&self.web_hook),
        };
        Some(entry)
    }
}

impl Config {
    /// The document that describes this configuration in full, or
    /// `None` where a span of one of its targets cannot be written as a
    /// text.
    pub fn to_file(&self) -> (r: Option<ConfigFile>)
        ensures
            match r {
                Some(f) => writable(self@) && f@ == document_of(self@),
                None => !writable(self@),
            },
    {
        let n: usize = self.targets.len();
        let mut entries: Vec<TargetEntry> = Vec::new();
        let mut i: usize = 0;
        while i < n
            invariant
                n == self.targets@.len(),
                i <= n,
                entries@.len() == i,
                forall|k: int| 0 <= k < i ==> spans_writable(#[trigger] self@.targets[k]),
                forall|k: int| 0 <= k < i ==> (#[trigger] entries@[k])@ == entry_of(self@.targets[k]),
            decreases n - i,
        {
            assert(self@.targets[i as int] == self.targets@[i as int]@);
            match self.targets[i].to_entry() {
                Some(e) => {
                    entries.push(e);
                },
                None => {
                    return None;
                },
            }
            i = i + 1;
        }
        let file = ConfigFile {
            server: match &self.server {
                Some(s) => Some(s.duplicate()),
                None => None,
            },
            grafana: match &self.grafana {
                Some(g) => Some(g.duplicate()),
                None => None,
            },
            targets_defaults: match &self.targets_defaults {
                Some(d) => Some(d.duplicate()),
                None => None,
            },
            targets: entries,
        };
        proof {
            assert(file@.targets =~= document_of(self@).targets);
        }
        Some(file)
    }
}

} // verus!
