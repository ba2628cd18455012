//! The supervisor: which generation is live, and what to do when the
//! configuration changes, a start fails, or the daemon is told to stop.

use vstd::prelude::*;
use crate::config::{ServerConfig, ServerConfigView};

verus! {

/// Where a generation's server listens.
#[derive(Clone, Debug, PartialEq, Eq)]
pub struct Address {
    pub ip: String,
    pub port: u16,
}

impl View for Address {
    type V = (Seq<char>, u16);

    open spec fn view(&self) -> (Seq<char>, u16) {
        (self.ip@, self.port)
    }
}

/// The view of an optional address.
pub open spec fn address_of(o: Option<Address>) -> Option<(Seq<char>, u16)> {
    match o {
        Some(a) => Some(a@),
        None => None,
    }
}

/// The address of a server configuration.
pub open spec fn bound_to(o: Option<ServerConfigView>) -> Option<(Seq<char>, u16)> {
    match o {
        Some(s) => Some((s.ip, s.port)),
        None => None,
    }
}

/// The address that a configuration's server listens on, if it has one.
pub fn server_address(server: &Option<ServerConfig>) -> (r: Option<Address>)
    ensures
        address_of(r) == bound_to(
            match *server {
                Some(s) => Some(s@),
                None => None,
            },
        ),
{
    match server {
        Some(s) => Some(Address { ip: s.ip.clone(), port: s.port }),
        None => None,
    }
}

/// What the supervisor is doing.
#[derive(Clone, Copy, Debug, PartialEq, Eq, Structural)]
pub enum Phase {
    /// No generation is live.
    Idle,
    /// One generation is live.
    Running,
    /// A new generation is taking over.
    Reloading,
    /// The live generation is shutting down for good.
    Stopping,
    /// The daemon has been told to exit.
    Exited,
}

/// How far a reload has come.
#[derive(Clone, Copy, Debug, PartialEq, Eq, Structural)]
pub enum Stage {
    /// The new generation is starting.
    StartingNew,
    /// The old generation is shutting down.
    StoppingOld,
    /// The new generation failed to start and is being torn down.
    RollingBack,
}

/// What the supervisor asks to be done. Each is answered by the event
/// named with it.
#[derive(Clone, Copy, Debug, PartialEq, Eq, Structural)]
pub enum Action {
    /// Read and check the configuration: answered by `loaded` or
    /// `invalid`.
    Load,
    /// Run the start sequence of this generation: answered by
    /// `started`.
    Start { generation: u64 },
    /// Run the shutdown sequence of this generation: answered by
    /// `shut_down`.
    Shutdown { generation: u64 },
    /// Tear down what the failed start of this generation left:
    /// answered by `rolled_back`.
    Rollback { generation: u64 },
    /// Watch the configuration again: answered by `rearmed`.
    Rearm,
    /// Exit with this code.
    Exit { code: u8 },
}

/// A generation as the supervisor knows it.
pub struct GenerationView {
    pub id: u64,
    pub address: Option<(Seq<char>, u16)>,
}

/// The supervisor's state.
pub struct SupervisorView {
    pub phase: Phase,
    pub stage: Stage,
    /// The generation that is live.
    pub live: Option<GenerationView>,
    /// The generation that is taking over.
    pub incoming: Option<GenerationView>,
    /// Whether the reload starts the new generation before it shuts the
    /// old one down.
    pub start_first: bool,
    /// The configuration is being read.
    pub loading: bool,
    /// The configuration changed while a load or reload was under way.
    pub pending: bool,
    /// A stop signal came while a load or reload was under way.
    pub stop_requested: bool,
    /// The watcher is being set up again.
    pub rearming: bool,
    pub next_id: u64,
}

/// A generation as the supervisor knows it.
#[derive(Clone, Debug, PartialEq, Eq)]
pub struct Generation {
    pub id: u64,
    pub address: Option<Address>,
}

impl View for Generation {
    type V = GenerationView;

    open spec fn view(&self) -> GenerationView {
        GenerationView { id: self.id, address: address_of(self.address) }
    }
}

/// The view of an optional generation.
pub open spec fn generation_of(o: Option<Generation>) -> Option<GenerationView> {
    match o {
        Some(g) => Some(g@),
        None => None,
    }
}

/// The supervisor of the daemon.
#[derive(Clone, Debug, PartialEq, Eq)]
pub struct Supervisor {
    pub phase: Phase,
    pub stage: Stage,
    pub live: Option<Generation>,
    pub incoming: Option<Generation>,
    pub start_first: bool,
    pub loading: bool,
    pub pending: bool,
    pub stop_requested: bool,
    pub rearming: bool,
    pub next_id: u64,
}

impl View for Supervisor {
    type V = SupervisorView;

    open spec fn view(&self) -> SupervisorView {
        SupervisorView {
            phase: self.phase,
            stage: self.stage,
            live: generation_of(self.live),
            incoming: generation_of(self.incoming),
            start_first: self.start_first,
            loading: self.loading,
            pending: self.pending,
            stop_requested: self.stop_requested,
            rearming: self.rearming,
            next_id: self.next_id,
        }
    }
}

/// What holds of every state the supervisor reaches. A generation is
/// live exactly while running or stopping, or during a reload until the
/// old one is gone; one is incoming exactly during a reload; ids grow;
/// and a change or a stop is only kept for later while a load or a
/// reload is under way.
pub open spec fn well_formed(s: SupervisorView) -> bool {
    &&& match s.phase {
        Phase::Idle => s.live is None && s.incoming is None,
        Phase::Running => s.live is Some && s.incoming is None,
        Phase::Reloading => {
            &&& s.incoming is Some
            &&& !s.loading
            &&& (s.stage is StoppingOld ==> s.live is Some)
            &&& (s.stage is StartingNew && !s.start_first ==> s.live is None)
        },
        Phase::Stopping => s.live is Some && s.incoming is None && !s.loading,
        Phase::Exited => !s.loading,
    }
    &&& (s.live is Some ==> s.live->0.id < s.next_id)
    &&& (s.incoming is Some ==> s.incoming->0.id < s.next_id)
    &&& (s.live is Some && s.incoming is Some ==> s.live->0.id < s.incoming->0.id)
    &&& (s.pending ==> s.loading || s.phase is Reloading)
    &&& (s.stop_requested ==> s.loading || s.phase is Reloading)
}

/// A load or a reload is under way.
pub open spec fn busy(s: SupervisorView) -> bool {
    s.loading || s.phase is Reloading
}

/// The supervisor before anything has happened.
pub open spec fn fresh() -> SupervisorView {
    SupervisorView {
        phase: Phase::Idle,
        stage: Stage::StartingNew,
        live: None,
        incoming: None,
        start_first: false,
        loading: false,
        pending: false,
        stop_requested: false,
        rearming: false,
        next_id: 0,
    }
}

/// Starts to stop for good: shuts the live generation down, or exits
/// where none is live.
pub open spec fn begin_stop(s: SupervisorView) -> (SupervisorView, Option<Action>) {
    let s = SupervisorView { stop_requested: false, pending: false, ..s };
    match s.live {
        Some(g) => (
            SupervisorView { phase: Phase::Stopping, ..s },
            Some(Action::Shutdown { generation: g.id }),
        ),
        None => (SupervisorView { phase: Phase::Exited, ..s }, Some(Action::Exit { code: 0 })),
    }
}

/// Comes to rest after a load or a reload: stops where a stop was asked
/// for, loads again where the configuration has changed meanwhile, and
/// otherwise waits.
pub open spec fn settle(s: SupervisorView) -> (SupervisorView, Option<Action>) {
    let s = SupervisorView {
        phase: if s.live is Some {
            Phase::Running
        } else {
            Phase::Idle
        },
        incoming: None,
        loading: false,
        ..s
    };
    if s.stop_requested {
        begin_stop(s)
    } else if s.pending {
        (SupervisorView { pending: false, loading: true, ..s }, Some(Action::Load))
    } else {
        (s, None)
    }
}

/// The configuration file was created or written, or the daemon has
/// just begun. While a load or a reload is under way the change is kept
/// for later, however many come; a supervisor that is stopping or has
/// exited takes no notice.
pub open spec fn after_change(s: SupervisorView) -> (SupervisorView, Option<Action>) {
    if s.phase is Stopping || s.phase is Exited || s.stop_requested {
        (s, None)
    } else if busy(s) {
        (SupervisorView { pending: true, ..s }, None)
    } else {
        (SupervisorView { loading: true, ..s }, Some(Action::Load))
    }
}

/// The configuration could not be loaded: the live generation stays as
/// it is.
pub open spec fn after_invalid(s: SupervisorView) -> (SupervisorView, Option<Action>) {
    if s.loading {
        settle(s)
    } else {
        (s, None)
    }
}

/// The new generation must start before the old one stops: both have a
/// server, and not on the same address.
pub open spec fn must_start_first(
    old: Option<(Seq<char>, u16)>,
    new: Option<(Seq<char>, u16)>,
) -> bool {
    old is Some && new is Some && old != new
}

/// The configuration was loaded, and its server listens on `address`.
/// A new generation takes over: it starts at once where none is live or
/// where the server changes its address, and after the old one has shut
/// down otherwise.
pub open spec fn after_loaded(s: SupervisorView, address: Option<(Seq<char>, u16)>) -> (
    SupervisorView,
    Option<Action>,
) {
    if !s.loading {
        (s, None)
    } else if s.stop_requested {
        settle(s)
    } else if s.next_id == u64::MAX {
        (
            SupervisorView { phase: Phase::Exited, loading: false, pending: false, ..s },
            Some(Action::Exit { code: 4 }),
        )
    } else {
        let new = GenerationView { id: s.next_id, address };
        let s = SupervisorView {
            phase: Phase::Reloading,
            incoming: Some(new),
            loading: false,
            next_id: (s.next_id + 1) as u64,
            ..s
        };
        match s.live {
            Some(old) if !must_start_first(old.address, address) => (
                SupervisorView { stage: Stage::StoppingOld, start_first: false, ..s },
                Some(Action::Shutdown { generation: old.id }),
            ),
            _ => (
                SupervisorView { stage: Stage::StartingNew, start_first: true, ..s },
                Some(Action::Start { generation: new.id }),
            ),
        }
    }
}

/// The start sequence of the incoming generation has ended. A
/// generation that started takes over, once the old one is shut down;
/// one that failed is rolled back.
pub open spec fn after_started(s: SupervisorView, ok: bool) -> (SupervisorView, Option<Action>) {
    if !(s.phase is Reloading && s.stage is StartingNew && s.incoming is Some) {
        (s, None)
    } else if !ok {
        (
            SupervisorView { stage: Stage::RollingBack, ..s },
            Some(Action::Rollback { generation: s.incoming->0.id }),
        )
    } else {
        match s.live {
            Some(old) => (
                SupervisorView { stage: Stage::StoppingOld, ..s },
                Some(Action::Shutdown { generation: old.id }),
            ),
            None => settle(SupervisorView { live: s.incoming, ..s }),
        }
    }
}

/// The shutdown sequence that was asked for has ended.
pub open spec fn after_shut_down(s: SupervisorView) -> (SupervisorView, Option<Action>) {
    if s.phase is Stopping {
        (
            SupervisorView { phase: Phase::Exited, live: None, ..s },
            Some(Action::Exit { code: 0 }),
        )
    } else if s.phase is Reloading && s.stage is StoppingOld && s.incoming is Some {
        if s.start_first {
            settle(SupervisorView { live: s.incoming, ..s })
        } else {
            (
                SupervisorView { live: None, stage: Stage::StartingNew, ..s },
                Some(Action::Start { generation: s.incoming->0.id }),
            )
        }
    } else {
        (s, None)
    }
}

/// What the failed start left is torn down: the generation that was
/// live, if one still is, stays live.
pub open spec fn after_rolled_back(s: SupervisorView) -> (SupervisorView, Option<Action>) {
    if s.phase is Reloading && s.stage is RollingBack {
        settle(s)
    } else {
        (s, None)
    }
}

/// The daemon is told to stop. While a load or a reload is under way
/// the stop waits for it to end.
pub open spec fn after_stop(s: SupervisorView) -> (SupervisorView, Option<Action>) {
    if s.phase is Stopping || s.phase is Exited {
        (s, None)
    } else if busy(s) {
        (SupervisorView { stop_requested: true, ..s }, None)
    } else {
        begin_stop(s)
    }
}

/// The watcher of the configuration is lost: it is set up again, once.
pub open spec fn after_watcher_lost(s: SupervisorView) -> (SupervisorView, Option<Action>) {
    if s.phase is Exited || s.rearming {
        (s, None)
    } else {
        (SupervisorView { rearming: true, ..s }, Some(Action::Rearm))
    }
}

/// Setting the watcher up again has ended: where it failed, the daemon
/// exits with code 3.
pub open spec fn after_rearmed(s: SupervisorView, ok: bool) -> (SupervisorView, Option<Action>) {
    if !s.rearming {
        (s, None)
    } else if ok {
        (SupervisorView { rearming: false, ..s }, None)
    } else {
        (
            SupervisorView {
                rearming: false,
                phase: Phase::Exited,
                loading: false,
                pending: false,
                stop_requested: false,
                ..s
            },
            Some(Action::Exit { code: 3 }),
        )
    }
}

/// Every event leaves a well-formed supervisor well formed.
pub proof fn lemma_well_formed_kept(s: SupervisorView, address: Option<(Seq<char>, u16)>, ok: bool)
    requires
        well_formed(s),
    ensures
        well_formed(fresh()),
        well_formed(after_change(s).0),
        well_formed(after_invalid(s).0),
        well_formed(after_loaded(s, address).0),
        well_formed(after_started(s, ok).0),
        well_formed(after_shut_down(s).0),
        well_formed(after_rolled_back(s).0),
        well_formed(after_stop(s).0),
        well_formed(after_watcher_lost(s).0),
        well_formed(after_rearmed(s, ok).0),
{
}

/// At most one load or reload is under way: while one is, a change of
/// the configuration asks for nothing and is only kept for later, and
/// any number of changes leave the same state as one.
pub proof fn lemma_changes_coalesce(s: SupervisorView)
    requires
        well_formed(s),
        busy(s),
    ensures
        after_change(s).1 is None,
        after_change(after_change(s).0) == after_change(s),
        after_change(s).0 == (SupervisorView { pending: true, ..s }) || after_change(s).0 == s,
{
}

/// A configuration that cannot be loaded changes nothing about the
/// generation that is live.
pub proof fn lemma_invalid_keeps_live(s: SupervisorView)
    requires
        well_formed(s),
    ensures
        after_invalid(s).0.live == s.live,
        after_invalid(s).0.incoming == s.incoming,
        after_invalid(s).0.next_id == s.next_id,
        !(after_invalid(s).1 matches Some(Action::Start { .. })),
        !(after_invalid(s).1 matches Some(Action::Shutdown { .. })) || s.stop_requested,
{
}

/// A start that fails never costs the generation that is live at that
/// moment: after the rollback it is live still.
pub proof fn lemma_failed_start_keeps_live(s: SupervisorView)
    requires
        well_formed(s),
        s.phase is Reloading,
        s.stage is StartingNew,
    ensures
        after_started(s, false).1 == Some(Action::Rollback { generation: s.incoming->0.id }),
        after_rolled_back(after_started(s, false).0).0.live == s.live,
        after_rolled_back(after_started(s, false).0).0.incoming is None,
{
}

impl Supervisor {
    /// A supervisor with no generation live.
    pub fn new() -> (r: Supervisor)
        ensures
            r@ == fresh(),
            well_formed(r@),
    {
        Supervisor {
            phase: Phase::Idle,
            stage: Stage::StartingNew,
            live: None,
            incoming: None,
            start_first: false,
            loading: false,
            pending: false,
            stop_requested: false,
            rearming: false,
            next_id: 0,
        }
    }

    fn begin_stop(&mut self) -> (action: Option<Action>)
        ensures
            (final(self)@, action) == begin_stop(old(self)@),
    {
        self.stop_requested = false;
        self.pending = false;
        match &self.live {
            Some(g) => {
                let id = g.id;
                self.phase = Phase::Stopping;
                Some(Action::Shutdown { generation: id })
            },
            None => {
                self.phase = Phase::Exited;
                Some(Action::Exit { code: 0 })
            },
        }
    }

    fn settle(&mut self) -> (action: Option<Action>)
        ensures
            (final(self)@, action) == settle(old(self)@),
    {
        self.phase = if self.live.is_some() {
            Phase::Running
        } else {
            Phase::Idle
        };
        self.incoming = None;
        self.loading = false;
        if self.stop_requested {
            self.begin_stop()
        } else if self.pending {
            self.pending = false;
            self.loading = true;
            Some(Action::Load)
        } else {
            None
        }
    }

    /// The configuration file was created or written, or the daemon has
    /// just begun.
    pub fn change(&mut self) -> (action: Option<Action>)
        ensures
            (final(self)@, action) == after_change(old(self)@),
            well_formed(old(self)@) ==> well_formed(final(self)@),
    {
        proof {
            if well_formed(self@) {
                lemma_well_formed_kept(self@, None, true);
            }
        }
        if self.phase == Phase::Stopping || self.phase == Phase::Exited || self.stop_requested {
            None
        } else if self.loading || self.phase == Phase::Reloading {
            self.pending = true;
            None
        } else {
            self.loading = true;
            Some(Action::Load)
        }
    }

    /// The configuration could not be loaded.
    pub fn invalid(&mut self) -> (action: Option<Action>)
        ensures
            (final(self)@, action) == after_invalid(old(self)@),
            well_formed(old(self)@) ==> well_formed(final(self)@),
    {
        proof {
            if well_formed(self@) {
                lemma_well_formed_kept(self@, None, true);
            }
        }
        if self.loading {
            self.settle()
        } else {
            None
        }
    }

    /// The configuration was loaded, and its server listens on
    /// `address`.
    pub fn loaded(&mut self, address: Option<Address>) -> (action: Option<Action>)
        ensures
            (final(self)@, action) == after_loaded(old(self)@, address_of(address)),
            well_formed(old(self)@) ==> well_formed(final(self)@),
    {
        proof {
            if well_formed(self@) {
                lemma_well_formed_kept(self@, address_of(address), true);
            }
        }
        if !self.loading {
            return None;
        }
        if self.stop_requested {
            return self.settle();
        }
        if self.next_id == u64::MAX {
            self.phase = Phase::Exited;
            self.loading = false;
            self.pending = false;
            return Some(Action::Exit { code: 4 });
        }
        let id = self.next_id;
        let start_first = match &self.live {
            Some(old) => match (&old.address, &address) {
                (Some(a), Some(b)) => !(a.ip == b.ip && a.port == b.port),
                _ => false,
            },
            None => true,
        };
        let old_id = match &self.live {
            Some(old) => old.id,
            None => 0,
        };
        self.phase = Phase::Reloading;
        self.incoming = Some(Generation { id, address });
        self.loading = false;
        self.next_id = id + 1;
        if start_first {
            self.stage = Stage::StartingNew;
            self.start_first = true;
            Some(Action::Start { generation: id })
        } else {
            self.stage = Stage::StoppingOld;
            self.start_first = false;
            Some(Action::Shutdown { generation: old_id })
        }
    }

    /// The start sequence of the incoming generation has ended.
    pub fn started(&mut self, ok: bool) -> (action: Option<Action>)
        ensures
            (final(self)@, action) == after_started(old(self)@, ok),
            well_formed(old(self)@) ==> well_formed(final(self)@),
    {
        proof {
            if well_formed(self@) {
                lemma_well_formed_kept(self@, None, ok);
            }
        }
        if !(self.phase == Phase::Reloading && self.stage == Stage::StartingNew) {
            return None;
        }
        let id = match &self.incoming {
            Some(g) => g.id,
            None => {
                return None;
            },
        };
        if !ok {
            self.stage = Stage::RollingBack;
            return Some(Action::Rollback { generation: id });
        }
        match &self.live {
            Some(old) => {
                let old_id = old.id;
                self.stage = Stage::StoppingOld;
                Some(Action::Shutdown { generation: old_id })
            },
            None => {
                self.live = self.incoming.take();
                self.settle()
            },
        }
    }

    /// The shutdown sequence that was asked for has ended.
    pub fn shut_down(&mut self) -> (action: Option<Action>)
        ensures
            (final(self)@, action) == after_shut_down(old(self)@),
            well_formed(old(self)@) ==> well_formed(final(self)@),
    {
        proof {
            if well_formed(self@) {
                lemma_well_formed_kept(self@, None, true);
            }
        }
        if self.phase == Phase::Stopping {
            self.phase = Phase::Exited;
            self.live = None;
            return Some(Action::Exit { code: 0 });
        }
        if !(self.phase == Phase::Reloading && self.stage == Stage::StoppingOld) {
            return None;
        }
        let id = match &self.incoming {
            Some(g) => g.id,
            None => {
                return None;
            },
        };
        if self.start_first {
            self.live = self.incoming.take();
            self.settle()
        } else {
            self.live = None;
            self.stage = Stage::StartingNew;
            Some(Action::Start { generation: id })
        }
    }

    /// What the failed start left is torn down.
    pub fn rolled_back(&mut self) -> (action: Option<Action>)
        ensures
            (final(self)@, action) == after_rolled_back(old(self)@),
            well_formed(old(self)@) ==> well_formed(final(self)@),
    {
        proof {
            if well_formed(self@) {
                lemma_well_formed_kept(self@, None, true);
            }
        }
        if self.phase == Phase::Reloading && self.stage == Stage::RollingBack {
            self.settle()
        } else {
            None
        }
    }

    /// The daemon is told to stop.
    pub fn stop(&mut self) -> (action: Option<Action>)
        ensures
            (final(self)@, action) == after_stop(old(self)@),
            well_formed(old(self)@) ==> well_formed(final(self)@),
    {
        proof {
            if well_formed(self@) {
                lemma_well_formed_kept(self@, None, true);
            }
        }
        if self.phase == Phase::Stopping || self.phase == Phase::Exited {
            None
        } else if self.loading || self.phase == Phase::Reloading {
            self.stop_requested = true;
            None
        } else {
            self.begin_stop()
        }
    }

    /// The watcher of the configuration is lost.
    pub fn watcher_lost(&mut self) -> (action: Option<Action>)
        ensures
            (final(self)@, action) == after_watcher_lost(old(self)@),
            well_formed(old(self)@) ==> well_formed(final(self)@),
    {
        proof {
            if well_formed(self@) {
                lemma_well_formed_kept(self@, None, true);
            }
        }
        if self.phase == Phase::Exited || self.rearming {
            None
        } else {
            self.rearming = true;
            Some(Action::Rearm)
        }
    }

    /// Setting the watcher up again has ended.
    pub fn rearmed(&mut self, ok: bool) -> (action: Option<Action>)
        ensures
            (final(self)@, action) == after_rearmed(old(self)@, ok),
            well_formed(old(self)@) ==> well_formed(final(self)@),
    {
        proof {
            if well_formed(self@) {
                lemma_well_formed_kept(self@, None, ok);
            }
        }
        if !self.rearming {
            None
        } else if ok {
            self.rearming = false;
            None
        } else {
            self.rearming = false;
            self.phase = Phase::Exited;
            self.loading = false;
            self.pending = false;
            self.stop_requested = false;
            Some(Action::Exit { code: 3 })
        }
    }
}

} // verus!
