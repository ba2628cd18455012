//! What starting and shutting down a generation consists of, step by
//! step, and which events of the file watcher concern the configuration.

use vstd::prelude::*;
use vstd::string::StringExecFns;
use crate::config::{Config, ConfigView, TargetView};

verus! {

/// One step of a generation's start sequence. Targets are named by
/// their place in the configuration.
#[derive(Clone, Copy, Debug, PartialEq, Eq, Structural)]
pub enum StartStep {
    /// Write the dashboard document. A failure is logged and nothing
    /// more.
    WriteDashboard,
    /// Make a fresh registry with the metrics of every target.
    BuildRegistry,
    /// Make the bus of a target.
    CreateBus { target: usize },
    /// Subscribe the file reporter of a target to its bus.
    SubscribeReporter { target: usize },
    /// Subscribe the metrics aggregator to the bus of a target.
    SubscribeAggregator { target: usize },
    /// Start the probe worker of a target.
    SpawnProbe { target: usize },
    /// Start the HTTP server on the new registry.
    StartServer,
}

/// One step of a generation's shutdown sequence.
#[derive(Clone, Copy, Debug, PartialEq, Eq, Structural)]
pub enum StopStep {
    /// Tell the HTTP server to stop, and wait until it has.
    StopServer,
    /// Cancel every probe worker.
    CancelProbes,
    /// Close every bus, so that the reporters drain and end.
    CloseBuses,
    /// Drop the registry.
    DropRegistry,
}

/// The steps for the target at `i`: its bus, its file reporter if it
/// has a log file, the aggregator, and last the probe worker, so that
/// every subscriber is there before the first outcome.
pub open spec fn target_steps(i: int, t: TargetView) -> Seq<StartStep> {
    let bus = seq![StartStep::CreateBus { target: i as usize }];
    let reporter = if t.log is Some {
        seq![StartStep::SubscribeReporter { target: i as usize }]
    } else {
        Seq::<StartStep>::empty()
    };
    bus + reporter + seq![
        StartStep::SubscribeAggregator { target: i as usize },
        StartStep::SpawnProbe { target: i as usize },
    ]
}

/// The steps for the first `n` targets, in order.
pub open spec fn steps_of_targets(ts: Seq<TargetView>, n: int) -> Seq<StartStep>
    decreases n,
{
    if n <= 0 {
        Seq::<StartStep>::empty()
    } else {
        steps_of_targets(ts, n - 1) + target_steps(n - 1, ts[n - 1])
    }
}

/// The start sequence of a configuration: the dashboard if one is
/// configured, the registry, the targets in order, and last the server
/// if one is configured.
pub open spec fn start_steps(c: ConfigView) -> Seq<StartStep> {
    let dashboard = if c.grafana is Some {
        seq![StartStep::WriteDashboard]
    } else {
        Seq::<StartStep>::empty()
    };
    let server = if c.server is Some {
        seq![StartStep::StartServer]
    } else {
        Seq::<StartStep>::empty()
    };
    dashboard + seq![StartStep::BuildRegistry] + steps_of_targets(
        c.targets,
        c.targets.len() as int,
    ) + server
}

/// The shutdown sequence of a generation: the server first if it has
/// one, then the probe workers, the buses, and the registry.
pub open spec fn shutdown_steps(has_server: bool) -> Seq<StopStep> {
    let server = if has_server {
        seq![StopStep::StopServer]
    } else {
        Seq::<StopStep>::empty()
    };
    server + seq![StopStep::CancelProbes, StopStep::CloseBuses, StopStep::DropRegistry]
}

/// The start sequence of `config`.
pub fn start_plan(config: &Config) -> (r: Vec<StartStep>)
    ensures
        r@ == start_steps(config@),
{
    let mut r: Vec<StartStep> = Vec::new();
    if config.grafana.is_some() {
        r.push(StartStep::WriteDashboard);
    }
    r.push(StartStep::BuildRegistry);
    let ghost head = r@;
    let n: usize = config.targets.len();
    let mut i: usize = 0;
    proof {
        assert(r@ =~= head + steps_of_targets(config@.targets, 0));
    }
    while i < n
        invariant
            n == config.targets@.len(),
            i <= n,
            r@ == head + steps_of_targets(config@.targets, i as int),
        decreases n - i,
    {
        let ghost before = r@;
        assert(config@.targets[i as int] == config.targets@[i as int]@);
        r.push(StartStep::CreateBus { target: i });
        if config.targets[i].log.is_some() {
            r.push(StartStep::SubscribeReporter { target: i });
        }
        r.push(StartStep::SubscribeAggregator { target: i });
        r.push(StartStep::SpawnProbe { target: i });
        proof {
            assert(r@ =~= before + target_steps(i as int, config@.targets[i as int]));
            assert(before + target_steps(i as int, config@.targets[i as int]) =~= head + (
            steps_of_targets(config@.targets, i as int) + target_steps(
                i as int,
                config@.targets[i as int],
            )));
        }
        i = i + 1;
    }
    if config.server.is_some() {
        r.push(StartStep::StartServer);
    }
    proof {
        assert(r@ =~= start_steps(config@));
    }
    r
}

/// The shutdown sequence of a generation.
pub fn shutdown_plan(has_server: bool) -> (r: Vec<StopStep>)
    ensures
        r@ == shutdown_steps(has_server),
{
    let mut r: Vec<StopStep> = Vec::new();
    if has_server {
        r.push(StopStep::StopServer);
    }
    r.push(StopStep::CancelProbes);
    r.push(StopStep::CloseBuses);
    r.push(StopStep::DropRegistry);
    proof {
        assert(r@ =~= shutdown_steps(has_server));
    }
    r
}

/// What the file watcher saw.
#[derive(Clone, Debug, PartialEq, Eq)]
pub enum WatchEvent {
    Create(String),
    Write(String),
    Remove(String),
    /// Anything else: a rename, a change of mode, a rescan.
    Other,
}

/// Whether an event changes the configuration: the watched file itself
/// was created, written or removed.
pub open spec fn concerns(event: WatchEvent, watched: Seq<char>) -> bool {
    match event {
        WatchEvent::Create(p) => p@ == watched,
        WatchEvent::Write(p) => p@ == watched,
        WatchEvent::Remove(p) => p@ == watched,
        WatchEvent::Other => false,
    }
}

/// Whether `event` is a change of the file at `watched`.
pub fn is_config_change(event: &WatchEvent, watched: &str) -> (r: bool)
    ensures
        r == concerns(*event, watched@),
{
    let wanted = String::from_str(watched);
    match event {
        WatchEvent::Create(p) => *p == wanted,
        WatchEvent::Write(p) => *p == wanted,
        WatchEvent::Remove(p) => *p == wanted,
        WatchEvent::Other => false,
    }
}

} // verus!
