//! The metrics of a generation: which counter and histogram each target
//! gets, and what an outcome does to them.

use vstd::prelude::*;
use vstd::string::StringExecFns;
use crate::config::{copy_buckets, standard_buckets, Target, TargetDefault, TargetView};
use crate::messages::{BusEvent, Outcome, OutcomeView};
use crate::names::{counter_name_of, counter_success_name, timer_name, timer_name_of};

verus! {

/// The two metrics of one target.
#[derive(Clone, Debug, PartialEq, Eq)]
pub struct MetricPlan {
    /// The counter of answered requests.
    pub counter_name: String,
    pub counter_help: String,
    /// The histogram of latencies, in milliseconds.
    pub timer_name: String,
    pub timer_help: String,
    /// The unit of what the histogram observes.
    pub timer_unit: String,
    /// The upper bounds of the histogram's buckets, in milliseconds.
    pub buckets: Vec<u64>,
}

pub struct MetricPlanView {
    pub counter_name: Seq<char>,
    pub counter_help: Seq<char>,
    pub timer_name: Seq<char>,
    pub timer_help: Seq<char>,
    pub timer_unit: Seq<char>,
    pub buckets: Seq<u64>,
}

impl View for MetricPlan {
    type V = MetricPlanView;

    open spec fn view(&self) -> MetricPlanView {
        MetricPlanView {
            counter_name: self.counter_name@,
            counter_help: self.counter_help@,
            timer_name: self.timer_name@,
            timer_help: self.timer_help@,
            timer_unit: self.timer_unit@,
            buckets: self.buckets@,
        }
    }
}

/// The buckets of a target: its own, else the defaults, else the
/// standard ones.
pub open spec fn buckets_for(t: TargetView, defaults: Option<Seq<u64>>) -> Seq<u64> {
    match t.prometheus_response_time_bucket {
        Some(b) => b,
        None => match defaults {
            Some(d) => d,
            None => standard_buckets(),
        },
    }
}

/// The metrics of the target called `name`.
pub open spec fn plan_for(name: Seq<char>, buckets: Seq<u64>) -> MetricPlanView {
    MetricPlanView {
        counter_name: counter_name_of(name),
        counter_help: "Number of successful requests"@,
        timer_name: timer_name_of(name),
        timer_help: "latency in ms"@,
        timer_unit: "milliseconds"@,
        buckets,
    }
}

/// The views of a list of plans, in order.
pub open spec fn plans_of(v: Seq<MetricPlan>) -> Seq<MetricPlanView> {
    Seq::new(v.len(), |i: int| v[i]@)
}

/// The metrics of `target`.
pub fn metric_plan(target: &Target, defaults: &Option<TargetDefault>) -> (r: MetricPlan)
    requires
        target.name is Some,
    ensures
        r@ == plan_for(
            target@.name->0,
            buckets_for(
                target@,
                match *defaults {
                    Some(d) => Some(d@),
                    None => None,
                },
            ),
        ),
{
    let buckets = match &target.prometheus_response_time_bucket {
        Some(b) => copy_buckets(b),
        None => match defaults {
            Some(d) => copy_buckets(&d.prometheus_response_time_bucket),
            None => TargetDefault::default_prometheus_response_time_bucket(),
        },
    };
    MetricPlan {
        counter_name: counter_success_name(target.clone_unwrap_name()),
        counter_help: String::from_str("Number of successful requests"),
        timer_name: timer_name(target.clone_unwrap_name()),
        timer_help: String::from_str("latency in ms"),
        timer_unit: String::from_str("milliseconds"),
        buckets,
    }
}

/// The metrics of a generation: those of each target, in the order of
/// the targets.
pub fn registry_plan(targets: &Vec<Target>, defaults: &Option<TargetDefault>) -> (r: Vec<
    MetricPlan,
>)
    requires
        forall|i: int| 0 <= i < targets@.len() ==> (#[trigger] targets@[i]).name is Some,
    ensures
        r@.len() == targets@.len(),
        forall|i: int|
            0 <= i < r@.len() ==> (#[trigger] r@[i])@ == plan_for(
                targets@[i]@.name->0,
                buckets_for(
                    targets@[i]@,
                    match *defaults {
                        Some(d) => Some(d@),
                        None => None,
                    },
                ),
            ),
{
    let mut r: Vec<MetricPlan> = Vec::new();
    let mut i: usize = 0;
    while i < targets.len()
        invariant
            i <= targets@.len(),
            r@.len() == i,
            forall|k: int| 0 <= k < targets@.len() ==> (#[trigger] targets@[k]).name is Some,
            forall|k: int|
                0 <= k < i ==> (#[trigger] r@[k])@ == plan_for(
                    targets@[k]@.name->0,
                    buckets_for(
                        targets@[k]@,
                        match *defaults {
                            Some(d) => Some(d@),
                            None => None,
                        },
                    ),
                ),
        decreases targets@.len() - i,
    {
        r.push(metric_plan(&targets[i], defaults));
        i = i + 1;
    }
    r
}

/// Whether the metrics of the target called `name` are registered.
pub open spec fn is_registered(plans: Seq<MetricPlanView>, name: Seq<char>) -> bool {
    exists|i: int| 0 <= i < plans.len() && (#[trigger] plans[i]).timer_name == timer_name_of(name)
}

/// What the aggregator does next.
#[derive(Clone, Debug, PartialEq, Eq)]
pub enum MetricAction {
    /// Observe `latency` in the histogram `timer`, and add one to
    /// `counter` where there is one.
    Record { counter: Option<String>, timer: String, latency: u128 },
    /// The outcome belongs to no registered target: drop it.
    Discard,
    /// Warn that this many outcomes were missed; receive again.
    WarnLagged(u64),
    /// The bus is closed: stop.
    Stop,
}

/// What an outcome does to the metrics of the registered target called
/// `name`: every latency is observed, and a success is counted.
pub open spec fn records(action: MetricAction, o: OutcomeView, name: Seq<char>) -> bool {
    &&& action matches MetricAction::Record { counter, timer, latency }
    &&& timer@ == timer_name_of(name)
    &&& latency == o.latency()
    &&& match o {
        OutcomeView::Success(_) => counter matches Some(c) && c@ == counter_name_of(name),
        OutcomeView::Failure(_) => counter is None,
    }
}

/// Whether a plan with this histogram is among `plans`.
fn has_timer(plans: &Vec<MetricPlan>, timer: &String) -> (r: bool)
    ensures
        r == exists|i: int| 0 <= i < plans@.len() && (#[trigger] plans@[i]@).timer_name == timer@,
{
    let mut i: usize = 0;
    while i < plans.len()
        invariant
            i <= plans@.len(),
            forall|k: int| 0 <= k < i ==> (#[trigger] plans@[k]@).timer_name != timer@,
        decreases plans@.len() - i,
    {
        if plans[i].timer_name == *timer {
            assert(plans@[i as int]@.timer_name == timer@);
            return true;
        }
        i = i + 1;
    }
    false
}

/// What the aggregator does about what the bus delivered. The latency
/// of every outcome of a registered target is observed, and a success
/// is counted too; an outcome of a target that is not registered, or
/// has no name, is dropped; a lag is warned of; a closed bus ends the
/// aggregator.
pub fn metric_action(plans: &Vec<MetricPlan>, event: &BusEvent) -> (action: MetricAction)
    ensures
        match *event {
            BusEvent::Message(o) => match o@.target().name {
                Some(name) => if is_registered(plans_of(plans@), name) {
                    records(action, o@, name)
                } else {
                    action is Discard
                },
                None => action is Discard,
            },
            BusEvent::Lagged(n) => action == MetricAction::WarnLagged(n),
            BusEvent::Closed => action is Stop,
        },
{
    match event {
        BusEvent::Message(o) => {
            let name = match o {
                Outcome::Success(e) => &e.target.name,
                Outcome::Failure(f) => &f.target.name,
            };
            match name {
                None => MetricAction::Discard,
                Some(n) => {
                    let timer = timer_name(n.clone());
                    proof {
                        let ps = plans_of(plans@);
                        if is_registered(ps, n@) {
                            let i = choose|i: int|
                                0 <= i < ps.len() && (#[trigger] ps[i]).timer_name
                                    == timer_name_of(n@);
                            assert(plans@[i]@.timer_name == timer@);
                        }
                        if exists|i: int|
                            0 <= i < plans@.len() && (#[trigger] plans@[i]@).timer_name == timer@ {
                            let i = choose|i: int|
                                0 <= i < plans@.len() && (#[trigger] plans@[i]@).timer_name
                                    == timer@;
                            assert(ps[i].timer_name == timer_name_of(n@));
                        }
                    }
                    if !has_timer(plans, &timer) {
                        MetricAction::Discard
                    } else {
                        let counter = match o {
                            Outcome::Success(_) => Some(counter_success_name(n.clone())),
                            Outcome::Failure(_) => None,
                        };
                        MetricAction::Record { counter, timer, latency: o.latency() }
                    }
                },
            }
        },
        BusEvent::Lagged(n) => MetricAction::WarnLagged(*n),
        BusEvent::Closed => MetricAction::Stop,
    }
}

} // verus!
