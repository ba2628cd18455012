//! The probe worker of one target: when a tick may start a request, how
//! the requests under way are counted, and what a finished request
//! reports.

use vstd::prelude::*;
use crate::config::{Target, TargetView};
use crate::messages::{
    EntryDTO, EntryDTOView, FailureDTO, FailureDTOView, Outcome, OutcomeView, Timestamp,
};

verus! {

/// What a worker does at a tick.
#[derive(Clone, Copy, Debug, PartialEq, Eq, Structural)]
pub enum TickAction {
    /// Start a request.
    Spawn,
    /// As many requests as allowed are under way: start none and report
    /// nothing. `warn` is set at the first tick of a run of such ticks.
    Skip { warn: bool },
    /// The worker was cancelled: stop ticking.
    Stop,
}

/// What happens to a worker.
#[derive(Clone, Copy, Debug, PartialEq, Eq, Structural)]
pub enum ProbeEvent {
    /// The interval has passed.
    Tick,
    /// A request has ended, with a response or without.
    Done { success: bool },
    /// The supervisor asks the worker to stop.
    Cancel,
}

/// The worker's state as numbers.
pub struct ProbeState {
    pub max_concurrent: nat,
    pub in_flight: nat,
    pub overflowing: bool,
    pub cancelled: bool,
}

/// A fresh worker that may have `k` requests under way.
pub open spec fn initial(k: nat) -> ProbeState {
    ProbeState { max_concurrent: k, in_flight: 0, overflowing: false, cancelled: false }
}

/// No more requests are under way than allowed.
pub open spec fn within_cap(s: ProbeState) -> bool {
    s.in_flight <= s.max_concurrent
}

/// What the worker does at a tick in state `s`.
pub open spec fn tick_action(s: ProbeState) -> TickAction {
    if s.cancelled {
        TickAction::Stop
    } else if s.in_flight >= s.max_concurrent {
        TickAction::Skip { warn: !s.overflowing }
    } else {
        TickAction::Spawn
    }
}

/// Whether `event` can happen in state `s`: a request can only end while
/// one is under way.
pub open spec fn possible(s: ProbeState, event: ProbeEvent) -> bool {
    event is Done ==> s.in_flight > 0
}

/// The state after `event`.
pub open spec fn step(s: ProbeState, event: ProbeEvent) -> ProbeState {
    match event {
        ProbeEvent::Tick => match tick_action(s) {
            TickAction::Spawn => ProbeState {
                in_flight: s.in_flight + 1,
                overflowing: false,
                ..s
            },
            TickAction::Skip { .. } => ProbeState { overflowing: true, ..s },
            TickAction::Stop => s,
        },
        ProbeEvent::Done { .. } => if s.in_flight > 0 {
            ProbeState { in_flight: (s.in_flight - 1) as nat, ..s }
        } else {
            s
        },
        ProbeEvent::Cancel => ProbeState { cancelled: true, ..s },
    }
}

/// The state after a run of events.
pub open spec fn run(s: ProbeState, events: Seq<ProbeEvent>) -> ProbeState
    decreases events.len(),
{
    if events.len() == 0 {
        s
    } else {
        step(run(s, events.drop_last()), events.last())
    }
}

/// Every event of the run can happen when it does.
pub open spec fn feasible(s: ProbeState, events: Seq<ProbeEvent>) -> bool
    decreases events.len(),
{
    events.len() > 0 ==> feasible(s, events.drop_last()) && possible(
        run(s, events.drop_last()),
        events.last(),
    )
}

/// How many requests the run starts.
pub open spec fn spawned(s: ProbeState, events: Seq<ProbeEvent>) -> nat
    decreases events.len(),
{
    if events.len() == 0 {
        0
    } else {
        let before = run(s, events.drop_last());
        spawned(s, events.drop_last()) + if events.last() is Tick && tick_action(before)
            is Spawn {
            1nat
        } else {
            0nat
        }
    }
}

/// How many ticks of the run start no request though the worker runs.
pub open spec fn skipped(s: ProbeState, events: Seq<ProbeEvent>) -> nat
    decreases events.len(),
{
    if events.len() == 0 {
        0
    } else {
        let before = run(s, events.drop_last());
        skipped(s, events.drop_last()) + if events.last() is Tick && tick_action(before)
            is Skip {
            1nat
        } else {
            0nat
        }
    }
}

/// How many requests of the run end with the given result.
pub open spec fn outcomes(events: Seq<ProbeEvent>, success: bool) -> nat
    decreases events.len(),
{
    if events.len() == 0 {
        0
    } else {
        outcomes(events.drop_last(), success) + if events.last() == (ProbeEvent::Done {
            success,
        }) {
            1nat
        } else {
            0nat
        }
    }
}

/// Whatever happens to a worker, it never has more requests under way
/// than its target allows.
pub proof fn lemma_in_flight_within_cap(s: ProbeState, events: Seq<ProbeEvent>)
    requires
        within_cap(s),
    ensures
        within_cap(run(s, events)),
        run(s, events).max_concurrent == s.max_concurrent,
    decreases events.len(),
{
    if events.len() > 0 {
        lemma_in_flight_within_cap(s, events.drop_last());
    }
}

/// Every request that a worker starts is under way or has ended in
/// exactly one outcome: the successes, the failures and the requests
/// under way add up to the requests started.
pub proof fn lemma_outcomes_match_spawned(k: nat, events: Seq<ProbeEvent>)
    requires
        feasible(initial(k), events),
    ensures
        outcomes(events, true) + outcomes(events, false) + run(initial(k), events).in_flight
            == spawned(initial(k), events),
    decreases events.len(),
{
    if events.len() > 0 {
        lemma_outcomes_match_spawned(k, events.drop_last());
    }
}

/// The probe worker of one target.
#[derive(Clone, Copy, Debug, PartialEq, Eq)]
pub struct HttpRequestTask {
    max_concurrent: u32,
    in_flight: u32,
    overflowing: bool,
    cancelled: bool,
}

impl View for HttpRequestTask {
    type V = ProbeState;

    closed spec fn view(&self) -> ProbeState {
        ProbeState {
            max_concurrent: self.max_concurrent as nat,
            in_flight: self.in_flight as nat,
            overflowing: self.overflowing,
            cancelled: self.cancelled,
        }
    }
}

impl HttpRequestTask {
    /// Holds of every worker: no more requests under way than allowed.
    pub open spec fn wf(&self) -> bool {
        within_cap(self@)
    }

    /// A worker with nothing under way that may run `max_concurrent`
    /// requests at once.
    pub fn new(max_concurrent: u32) -> (r: HttpRequestTask)
        ensures
            r.wf(),
            r@ == initial(max_concurrent as nat),
    {
        HttpRequestTask { max_concurrent, in_flight: 0, overflowing: false, cancelled: false }
    }

    /// How many requests are under way.
    pub fn in_flight(&self) -> (r: u32)
        ensures
            r == self@.in_flight,
    {
        self.in_flight
    }

    /// Whether the worker was asked to stop.
    pub fn is_cancelled(&self) -> (r: bool)
        ensures
            r == self@.cancelled,
    {
        self.cancelled
    }

    /// The interval has passed: says whether to start a request, and
    /// counts it as under way if so.
    pub fn tick(&mut self) -> (action: TickAction)
        requires
            old(self).wf(),
        ensures
            final(self).wf(),
            action == tick_action(old(self)@),
            final(self)@ == step(old(self)@, ProbeEvent::Tick),
    {
        if self.cancelled {
            TickAction::Stop
        } else if self.in_flight >= self.max_concurrent {
            let warn = !self.overflowing;
            self.overflowing = true;
            TickAction::Skip { warn }
        } else {
            self.in_flight = self.in_flight + 1;
            self.overflowing = false;
            TickAction::Spawn
        }
    }

    /// A request has ended, however it went: it is no longer under way.
    pub fn done(&mut self, success: bool)
        requires
            old(self).wf(),
            old(self)@.in_flight > 0,
        ensures
            final(self).wf(),
            final(self)@ == step(old(self)@, ProbeEvent::Done { success }),
            final(self)@.in_flight == old(self)@.in_flight - 1,
    {
        self.in_flight = self.in_flight - 1;
    }

    /// Asks the worker to stop. Requests under way are left to end or
    /// to time out.
    pub fn cancel(&mut self)
        requires
            old(self).wf(),
        ensures
            final(self).wf(),
            final(self)@ == step(old(self)@, ProbeEvent::Cancel),
    {
        self.cancelled = true;
    }
}

/// What a request that ended `elapsed` milliseconds after it was sent
/// reports: a success with the status code of the response, or a failure
/// with the reason.
pub open spec fn outcome_for(
    target: TargetView,
    now: Timestamp,
    elapsed: u128,
    result: Result<u16, Seq<char>>,
) -> OutcomeView {
    match result {
        Ok(status) => OutcomeView::Success(
            EntryDTOView {
                timestamp_seconds: now.seconds,
                response_code: status,
                latency: elapsed,
                target,
            },
        ),
        Err(reason) => OutcomeView::Failure(
            FailureDTOView { timestamp_seconds: now.seconds, latency: elapsed, reason, target },
        ),
    }
}

/// The outcome of one request to `target` that ended at `now`.
pub fn probe_outcome(target: &Target, now: Timestamp, elapsed: u128, result: Result<u16, String>) -> (r:
    Outcome)
    ensures
        r@ == outcome_for(
            target@,
            now,
            elapsed,
            match result {
                Ok(status) => Ok(status),
                Err(reason) => Err(reason@),
            },
        ),
{
    match result {
        Ok(status) => Outcome::Success(
            EntryDTO {
                timestamp_seconds: now.seconds,
                response_code: status,
                latency: elapsed,
                target: target.duplicate(),
            },
        ),
        Err(reason) => Outcome::Failure(
            FailureDTO {
                timestamp_seconds: now.seconds,
                latency: elapsed,
                reason,
                target: target.duplicate(),
            },
        ),
    }
}

/// `a / b`, rounded up.
pub open spec fn ceil_div(a: nat, b: nat) -> nat
    recommends
        b > 0,
{
    ((a + b - 1) / (b as int)) as nat
}

/// A worker under a steady load: a tick every `interval`, every request
/// taking `latency`, at most `max_concurrent` requests at once.
pub struct SteadyLoad {
    pub interval: nat,
    pub latency: nat,
    pub max_concurrent: nat,
}

/// Of the first `m` ticks, how many started a request that is still under
/// way when tick `n` comes. A request that ends at the very moment of a
/// tick has ended.
pub open spec fn under_way(load: SteadyLoad, n: nat, m: nat) -> nat
    decreases n, m,
{
    if m == 0 || m > n {
        0
    } else {
        let j = (m - 1) as nat;
        let started = tick_action(
            ProbeState {
                max_concurrent: load.max_concurrent,
                in_flight: under_way(load, j, j),
                overflowing: false,
                cancelled: false,
            },
        ) is Spawn;
        under_way(load, n, j) + if started && j * load.interval + load.latency > n
            * load.interval {
            1nat
        } else {
            0nat
        }
    }
}

/// What the worker does at tick `n` under a steady load.
pub open spec fn steady_action(load: SteadyLoad, n: nat) -> TickAction {
    tick_action(
        ProbeState {
            max_concurrent: load.max_concurrent,
            in_flight: under_way(load, n, n),
            overflowing: false,
            cancelled: false,
        },
    )
}

proof fn lemma_ceil_div_covers(a: nat, b: nat, k: nat)
    requires
        b > 0,
        k >= ceil_div(a, b),
    ensures
        k * b >= a,
{
    let q = (a + b - 1) / (b as int);
    assert(q * b + (a + b - 1) % (b as int) == a + b - 1) by (nonlinear_arith)
        requires
            b > 0,
            q == (a + b - 1) / (b as int),
    ;
    assert((a + b - 1) % (b as int) < b) by (nonlinear_arith)
        requires
            b > 0,
    ;
    assert(k * b >= q * b) by (nonlinear_arith)
        requires
            k >= q,
            b > 0,
    ;
}

proof fn lemma_under_way_bound(load: SteadyLoad, n: nat, m: nat)
    requires
        load.interval > 0,
        load.max_concurrent * load.interval >= load.latency,
        m <= n,
    ensures
        under_way(load, n, m) <= m,
        n + 1 >= load.max_concurrent ==> under_way(load, n, m) + n + 1 <= m
            + load.max_concurrent || under_way(load, n, m) == 0,
    decreases m,
{
    if m > 0 {
        let j = (m - 1) as nat;
        lemma_under_way_bound(load, n, j);
        if j + load.max_concurrent <= n {
            assert(j * load.interval + load.latency <= n * load.interval) by (nonlinear_arith)
                requires
                    j + load.max_concurrent <= n,
                    load.max_concurrent * load.interval >= load.latency,
                    load.interval > 0,
            ;
        }
    }
}

/// Where a worker may run as many requests at once as intervals fit
/// into the time a request takes, rounded up, no tick is skipped: every
/// tick finds room and starts a request.
pub proof fn lemma_no_tick_skipped(load: SteadyLoad, n: nat)
    requires
        load.interval > 0,
        load.max_concurrent >= 1,
        load.max_concurrent >= ceil_div(load.latency, load.interval),
    ensures
        steady_action(load, n) is Spawn,
{
    lemma_ceil_div_covers(load.latency, load.interval, load.max_concurrent);
    lemma_under_way_bound(load, n, n);
}

} // verus!
