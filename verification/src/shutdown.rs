//! The shutdown / logoff guard.
//!
//! Before Windows ends the session it asks every top-level window whether it
//! may (`WM_QUERYENDSESSION`). The guard makes sure the display is back in
//! the mode the program started with, so that the next logon screen is
//! visible everywhere:
//! - CASE 1: the mode is already right: allow at once;
//! - CASE 2: the mode is wrong on the user's desktop: switch back, then allow;
//! - CASE 3: the mode cannot be read (secure desktop): refuse, wait in the
//!   background for the user's desktop, fix the mode there, and start the
//!   shutdown or logoff again; that second request is let through unchecked.
use vstd::prelude::*;
use crate::topology::{ModeView, TopologyMode};

verus! {

/// The flags shared by the window procedure and the background watch.
pub struct ShutdownInterceptor {
    /// The next end-session request was started by the watch itself.
    is_script_initiated: bool,
    /// A background watch is running.
    task_running: bool,
}

pub struct InterceptorView {
    pub is_script_initiated: bool,
    pub task_running: bool,
}

impl View for ShutdownInterceptor {
    type V = InterceptorView;

    closed spec fn view(&self) -> InterceptorView {
        InterceptorView { is_script_initiated: self.is_script_initiated, task_running: self.task_running }
    }
}

impl ShutdownInterceptor {
    /// A guard with no watch running and no request of its own pending.
    pub fn new() -> (r: ShutdownInterceptor)
        ensures
            r@ == (InterceptorView { is_script_initiated: false, task_running: false }),
    {
        ShutdownInterceptor { is_script_initiated: false, task_running: false }
    }

    pub fn is_script_initiated(&self) -> (r: bool)
        ensures
            r == self@.is_script_initiated,
    {
        self.is_script_initiated
    }

    pub fn task_running(&self) -> (r: bool)
        ensures
            r == self@.task_running,
    {
        self.task_running
    }
}

/// Whether the `lParam` of `WM_QUERYENDSESSION` announces a logoff
/// (`ENDSESSION_LOGOFF`, the top bit) rather than a shutdown.
pub fn is_logoff_request(lparam: u32) -> (r: bool)
    ensures
        r == (lparam >= 0x8000_0000),
{
    lparam >= 0x8000_0000
}

// ------------------------------------------------------ one end-session request

/// Where the handling of one end-session request stands.
#[derive(Debug, Clone, Copy, PartialEq, Eq, Structural)]
pub enum QueryPhase {
    Start,
    CountCheck,
    TopologyCheck,
    Fixing,
    Done,
}

/// What the handler asks next, or how it answers Windows.
pub enum QueryAction {
    CountMonitors,
    /// Read the current topology, and the runtime target (for the log).
    ReadTopology,
    /// Switch the display back to this (initial) mode.
    ApplyInitial(TopologyMode),
    /// Let the session end.
    Allow,
    /// Let the session end once the display switch has settled (50 ms).
    AllowAfterSettling,
    /// Refuse, and start the background watch with these parameters.
    DenyAndWatch { initial: TopologyMode, is_logoff: bool },
}

pub enum QueryObservation {
    Begin { is_logoff: bool },
    MonitorCount(Result<u32, String>),
    Topology { current: Result<TopologyMode, String>, target: TopologyMode },
    Applied(Result<(), String>),
}

pub enum QueryLog {
    /// ">>> [COMPLETE] LOGOFF/SHUTDOWN detected".
    Detected { is_logoff: bool },
    /// "Script initiated shutdown detected - ALLOWING immediately".
    ScriptInitiated,
    /// "Task already running - ALLOWING to prevent deadlock".
    TaskRunning,
    /// "STEP 1: Checking monitor count...".
    CheckingCount,
    /// "Failed to get monitor count - ALLOWING".
    CountFailed(String),
    /// "Monitor count: n".
    Count(u32),
    /// "Single monitor - No switching needed - ALLOWING immediately".
    SingleMonitor,
    /// "STEP 2: Detecting current mode...".
    DetectingMode,
    /// "CASE 3: Cannot detect mode (Secure Desktop?) - CANCELLING".
    CannotDetect(String),
    /// "Current mode, Initial".
    Modes { current: TopologyMode, initial: TopologyMode },
    /// "CASE 1: Mode CORRECT - ALLOWING".
    Correct,
    /// "CASE 2: Mode mismatch ... Fixing".
    Mismatch { current: TopologyMode, initial: TopologyMode, target: TopologyMode },
    /// "CASE 2: Fixed - ALLOWING".
    Fixed,
    /// "CASE 2: Fix failed - ALLOWING anyway".
    FixFailed(String),
}

pub struct QueryStep {
    pub action: QueryAction,
    pub logs: Vec<QueryLog>,
}

/// The handling of one `WM_QUERYENDSESSION`.
pub struct EndSessionQuery {
    initial: TopologyMode,
    is_logoff: bool,
    phase: QueryPhase,
}

pub enum QueryActionView {
    CountMonitors,
    ReadTopology,
    ApplyInitial(ModeView),
    Allow,
    AllowAfterSettling,
    DenyAndWatch { initial: ModeView, is_logoff: bool },
}

pub enum QueryObservationView {
    Begin { is_logoff: bool },
    MonitorCount(Result<u32, Seq<char>>),
    Topology { current: Result<ModeView, Seq<char>>, target: ModeView },
    Applied(Result<(), Seq<char>>),
}

pub enum QueryLogView {
    Detected { is_logoff: bool },
    ScriptInitiated,
    TaskRunning,
    CheckingCount,
    CountFailed(Seq<char>),
    Count(u32),
    SingleMonitor,
    DetectingMode,
    CannotDetect(Seq<char>),
    Modes { current: ModeView, initial: ModeView },
    Correct,
    Mismatch { current: ModeView, initial: ModeView, target: ModeView },
    Fixed,
    FixFailed(Seq<char>),
}

pub struct QueryView {
    pub initial: ModeView,
    pub is_logoff: bool,
    pub phase: QueryPhase,
}

pub struct QueryStepView {
    pub action: QueryActionView,
    pub logs: Seq<QueryLogView>,
}

impl View for QueryAction {
    type V = QueryActionView;

    open spec fn view(&self) -> QueryActionView {
        match self {
            QueryAction::CountMonitors => QueryActionView::CountMonitors,
            QueryAction::ReadTopology => QueryActionView::ReadTopology,
            QueryAction::ApplyInitial(m) => QueryActionView::ApplyInitial(m@),
            QueryAction::Allow => QueryActionView::Allow,
            QueryAction::AllowAfterSettling => QueryActionView::AllowAfterSettling,
            QueryAction::DenyAndWatch { initial, is_logoff } => QueryActionView::DenyAndWatch {
                initial: initial@,
                is_logoff: *is_logoff,
            },
        }
    }
}

impl View for QueryObservation {
    type V = QueryObservationView;

    open spec fn view(&self) -> QueryObservationView {
        match self {
            QueryObservation::Begin { is_logoff } => QueryObservationView::Begin { is_logoff: *is_logoff },
            QueryObservation::MonitorCount(r) => QueryObservationView::MonitorCount(
                match r {
                    Ok(n) => Ok(*n),
                    Err(e) => Err(e@),
                },
            ),
            QueryObservation::Topology { current, target } => QueryObservationView::Topology {
                current: match current {
                    Ok(m) => Ok(m@),
                    Err(e) => Err(e@),
                },
                target: target@,
            },
            QueryObservation::Applied(r) => QueryObservationView::Applied(
                match r {
                    Ok(_) => Ok(()),
                    Err(e) => Err(e@),
                },
            ),
        }
    }
}

impl View for QueryLog {
    type V = QueryLogView;

    open spec fn view(&self) -> QueryLogView {
        match self {
            QueryLog::Detected { is_logoff } => QueryLogView::Detected { is_logoff: *is_logoff },
            QueryLog::ScriptInitiated => QueryLogView::ScriptInitiated,
            QueryLog::TaskRunning => QueryLogView::TaskRunning,
            QueryLog::CheckingCount => QueryLogView::CheckingCount,
            QueryLog::CountFailed(e) => QueryLogView::CountFailed(e@),
            QueryLog::Count(n) => QueryLogView::Count(*n),
            QueryLog::SingleMonitor => QueryLogView::SingleMonitor,
            QueryLog::DetectingMode => QueryLogView::DetectingMode,
            QueryLog::CannotDetect(e) => QueryLogView::CannotDetect(e@),
            QueryLog::Modes { current, initial } => QueryLogView::Modes { current: current@, initial: initial@ },
            QueryLog::Correct => QueryLogView::Correct,
            QueryLog::Mismatch { current, initial, target } => QueryLogView::Mismatch {
                current: current@,
                initial: initial@,
                target: target@,
            },
            QueryLog::Fixed => QueryLogView::Fixed,
            QueryLog::FixFailed(e) => QueryLogView::FixFailed(e@),
        }
    }
}

pub open spec fn query_logs_view(logs: Seq<QueryLog>) -> Seq<QueryLogView> {
    logs.map_values(|l: QueryLog| l@)
}

impl View for QueryStep {
    type V = QueryStepView;

    open spec fn view(&self) -> QueryStepView {
        QueryStepView { action: self.action@, logs: query_logs_view(self.logs@) }
    }
}

impl View for EndSessionQuery {
    type V = QueryView;

    closed spec fn view(&self) -> QueryView {
        QueryView { initial: self.initial@, is_logoff: self.is_logoff, phase: self.phase }
    }
}

pub open spec fn q_step(q: QueryView, phase: QueryPhase, action: QueryActionView, logs: Seq<QueryLogView>) -> (QueryView, QueryStepView) {
    (QueryView { phase, ..q }, QueryStepView { action, logs })
}

/// One step of the end-session handler: its next state, the guard's flags
/// after it, and what it asks or answers. An observation that does not fit
/// the phase is answered with `Allow` and ends the handling (the handler
/// lets the session end whenever it cannot tell).
pub open spec fn query_transition(q: QueryView, g: InterceptorView, o: QueryObservationView) -> (QueryView, InterceptorView, QueryStepView) {
    match (q.phase, o) {
        (QueryPhase::Start, QueryObservationView::Begin { is_logoff }) => {
            let q1 = QueryView { is_logoff, ..q };
            let detected = QueryLogView::Detected { is_logoff };
            if g.is_script_initiated {
                let (q2, st) = q_step(q1, QueryPhase::Done, QueryActionView::Allow, seq![detected, QueryLogView::ScriptInitiated]);
                (q2, InterceptorView { is_script_initiated: false, ..g }, st)
            } else if g.task_running {
                let (q2, st) = q_step(q1, QueryPhase::Done, QueryActionView::Allow, seq![detected, QueryLogView::TaskRunning]);
                (q2, g, st)
            } else {
                let (q2, st) = q_step(q1, QueryPhase::CountCheck, QueryActionView::CountMonitors, seq![detected, QueryLogView::CheckingCount]);
                (q2, g, st)
            }
        },
        (QueryPhase::CountCheck, QueryObservationView::MonitorCount(r)) => match r {
            Err(e) => {
                let (q2, st) = q_step(q, QueryPhase::Done, QueryActionView::Allow, seq![QueryLogView::CountFailed(e)]);
                (q2, g, st)
            },
            Ok(n) => if n <= 1 {
                let (q2, st) = q_step(q, QueryPhase::Done, QueryActionView::Allow, seq![QueryLogView::Count(n), QueryLogView::SingleMonitor]);
                (q2, g, st)
            } else {
                let (q2, st) = q_step(q, QueryPhase::TopologyCheck, QueryActionView::ReadTopology, seq![QueryLogView::Count(n), QueryLogView::DetectingMode]);
                (q2, g, st)
            },
        },
        (QueryPhase::TopologyCheck, QueryObservationView::Topology { current, target }) => match current {
            Err(e) => {
                let (q2, st) = q_step(
                    q,
                    QueryPhase::Done,
                    QueryActionView::DenyAndWatch { initial: q.initial, is_logoff: q.is_logoff },
                    seq![QueryLogView::CannotDetect(e)],
                );
                (q2, InterceptorView { task_running: true, ..g }, st)
            },
            Ok(c) => {
                let modes = QueryLogView::Modes { current: c, initial: q.initial };
                if c == q.initial {
                    let (q2, st) = q_step(q, QueryPhase::Done, QueryActionView::Allow, seq![modes, QueryLogView::Correct]);
                    (q2, g, st)
                } else {
                    let (q2, st) = q_step(
                        q,
                        QueryPhase::Fixing,
                        QueryActionView::ApplyInitial(q.initial),
                        seq![modes, QueryLogView::Mismatch { current: c, initial: q.initial, target }],
                    );
                    (q2, g, st)
                }
            },
        },
        (QueryPhase::Fixing, QueryObservationView::Applied(r)) => match r {
            Ok(_) => {
                let (q2, st) = q_step(q, QueryPhase::Done, QueryActionView::AllowAfterSettling, seq![QueryLogView::Fixed]);
                (q2, g, st)
            },
            Err(e) => {
                let (q2, st) = q_step(q, QueryPhase::Done, QueryActionView::Allow, seq![QueryLogView::FixFailed(e)]);
                (q2, g, st)
            },
        },
        _ => {
            let (q2, st) = q_step(q, QueryPhase::Done, QueryActionView::Allow, seq![]);
            (q2, g, st)
        },
    }
}

proof fn lemma_qlogs_empty()
    ensures
        query_logs_view(Seq::<QueryLog>::empty()) == Seq::<QueryLogView>::empty(),
{
    assert(query_logs_view(Seq::<QueryLog>::empty()) =~= Seq::<QueryLogView>::empty());
}

fn qlogs1(a: QueryLog) -> (r: Vec<QueryLog>)
    ensures
        query_logs_view(r@) == seq![a@],
{
    let mut v = Vec::new();
    v.push(a);
    assert(query_logs_view(v@) =~= seq![a@]);
    v
}

fn qlogs2(a: QueryLog, b: QueryLog) -> (r: Vec<QueryLog>)
    ensures
        query_logs_view(r@) == seq![a@, b@],
{
    let mut v = Vec::new();
    v.push(a);
    v.push(b);
    assert(query_logs_view(v@) =~= seq![a@, b@]);
    v
}

impl EndSessionQuery {
    /// The handling of a request, for a program that started in `initial`.
    pub fn new(initial: TopologyMode) -> (r: EndSessionQuery)
        ensures
            r@ == (QueryView { initial: initial@, is_logoff: false, phase: QueryPhase::Start }),
    {
        EndSessionQuery { initial, is_logoff: false, phase: QueryPhase::Start }
    }

    fn finish(&mut self, phase: QueryPhase, action: QueryAction, logs: Vec<QueryLog>) -> (r: QueryStep)
        ensures
            final(self)@ == (QueryView { phase, ..old(self)@ }),
            r@ == (QueryStepView { action: action@, logs: query_logs_view(logs@) }),
    {
        self.phase = phase;
        QueryStep { action, logs }
    }

    /// Advances the handler by one answer. See [`query_transition`].
    pub fn step(&mut self, guard: &mut ShutdownInterceptor, obs: QueryObservation) -> (r: QueryStep)
        ensures
            (final(self)@, final(guard)@, r@) == query_transition(old(self)@, old(guard)@, obs@),
    {
        proof {
            lemma_qlogs_empty();
        }
        match (self.phase, obs) {
            (QueryPhase::Start, QueryObservation::Begin { is_logoff }) => {
                self.is_logoff = is_logoff;
                if guard.is_script_initiated {
                    guard.is_script_initiated = false;
                    self.finish(QueryPhase::Done, QueryAction::Allow, qlogs2(QueryLog::Detected { is_logoff }, QueryLog::ScriptInitiated))
                } else if guard.task_running {
                    self.finish(QueryPhase::Done, QueryAction::Allow, qlogs2(QueryLog::Detected { is_logoff }, QueryLog::TaskRunning))
                } else {
                    self.finish(QueryPhase::CountCheck, QueryAction::CountMonitors, qlogs2(QueryLog::Detected { is_logoff }, QueryLog::CheckingCount))
                }
            },
            (QueryPhase::CountCheck, QueryObservation::MonitorCount(r)) => match r {
                Err(e) => self.finish(QueryPhase::Done, QueryAction::Allow, qlogs1(QueryLog::CountFailed(e))),
                Ok(n) => {
                    if n <= 1 {
                        self.finish(QueryPhase::Done, QueryAction::Allow, qlogs2(QueryLog::Count(n), QueryLog::SingleMonitor))
                    } else {
                        self.finish(QueryPhase::TopologyCheck, QueryAction::ReadTopology, qlogs2(QueryLog::Count(n), QueryLog::DetectingMode))
                    }
                },
            },
            (QueryPhase::TopologyCheck, QueryObservation::Topology { current, target }) => match current {
                Err(e) => {
                    guard.task_running = true;
                    let action = QueryAction::DenyAndWatch { initial: self.initial.clone(), is_logoff: self.is_logoff };
                    self.finish(QueryPhase::Done, action, qlogs1(QueryLog::CannotDetect(e)))
                },
                Ok(c) => {
                    if c.same_as(&self.initial) {
                        let l = QueryLog::Modes { current: c, initial: self.initial.clone() };
                        self.finish(QueryPhase::Done, QueryAction::Allow, qlogs2(l, QueryLog::Correct))
                    } else {
                        let l1 = QueryLog::Modes { current: c.clone(), initial: self.initial.clone() };
                        let l2 = QueryLog::Mismatch { current: c, initial: self.initial.clone(), target };
                        let action = QueryAction::ApplyInitial(self.initial.clone());
                        self.finish(QueryPhase::Fixing, action, qlogs2(l1, l2))
                    }
                },
            },
            (QueryPhase::Fixing, QueryObservation::Applied(r)) => match r {
                Ok(()) => self.finish(QueryPhase::Done, QueryAction::AllowAfterSettling, qlogs1(QueryLog::Fixed)),
                Err(e) => self.finish(QueryPhase::Done, QueryAction::Allow, qlogs1(QueryLog::FixFailed(e))),
            },
            _ => self.finish(QueryPhase::Done, QueryAction::Allow, Vec::new()),
        }
    }
}

// ------------------------------------------------------ the background watch

/// How many times the watch probes for the user's desktop before giving up.
pub const WATCH_MAX_PROBES: u32 = 50;

/// The pause before each probe, in milliseconds.
pub const WATCH_PROBE_DELAY_MS: u64 = 100;

#[derive(Debug, Clone, Copy, PartialEq, Eq, Structural)]
pub enum WatchPhase {
    Probing,
    Fixing,
    Reinitiating,
    Done,
}

pub enum WatchAction {
    /// Sleep `delay_ms`, then read the monitor count and the topology.
    SleepThenProbe { delay_ms: u64 },
    /// Switch the display back to this (initial) mode.
    ApplyInitial(TopologyMode),
    /// Start the logoff (or shutdown) again.
    Reinitiate { is_logoff: bool },
    /// The watch is over.
    Finish,
}

pub enum WatchObservation {
    Probed { count: Result<u32, String>, mode: Result<TopologyMode, String> },
    Applied(Result<(), String>),
    Reinitiated,
}

pub enum WatchLog {
    /// ">>> [TASK] Waiting for user desktop...".
    Waiting,
    /// "Back to desktop! Monitors=n, Mode=m".
    BackToDesktop { count: u32, mode: TopologyMode },
    /// "Fixing: from -> to".
    Fixing { from: TopologyMode, to: TopologyMode },
    /// "Fix result: 0 (success)".
    FixOk,
    /// "Fix failed".
    FixFailed(String),
    /// "No fix needed (single monitor or mode correct)".
    NoFixNeeded,
    /// "Re-initiating LOGOFF/SHUTDOWN...".
    Reinitiating { is_logoff: bool },
    /// "Still waiting... (attempt n/50)".
    StillWaiting { attempt: u32 },
    /// "Timeout waiting for desktop - giving up".
    Timeout,
}

pub struct WatchStep {
    pub action: WatchAction,
    pub logs: Vec<WatchLog>,
}

/// The background watch started by CASE 3.
pub struct SecureDesktopWatch {
    initial: TopologyMode,
    is_logoff: bool,
    attempt: u32,
    phase: WatchPhase,
}

pub enum WatchActionView {
    SleepThenProbe { delay_ms: u64 },
    ApplyInitial(ModeView),
    Reinitiate { is_logoff: bool },
    Finish,
}

pub enum WatchObservationView {
    Probed { count: Result<u32, Seq<char>>, mode: Result<ModeView, Seq<char>> },
    Applied(Result<(), Seq<char>>),
    Reinitiated,
}

pub enum WatchLogView {
    Waiting,
    BackToDesktop { count: u32, mode: ModeView },
    Fixing { from: ModeView, to: ModeView },
    FixOk,
    FixFailed(Seq<char>),
    NoFixNeeded,
    Reinitiating { is_logoff: bool },
    StillWaiting { attempt: u32 },
    Timeout,
}

pub struct WatchView {
    pub initial: ModeView,
    pub is_logoff: bool,
    pub attempt: u32,
    pub phase: WatchPhase,
}

pub struct WatchStepView {
    pub action: WatchActionView,
    pub logs: Seq<WatchLogView>,
}

impl View for WatchAction {
    type V = WatchActionView;

    open spec fn view(&self) -> WatchActionView {
        match self {
            WatchAction::SleepThenProbe { delay_ms } => WatchActionView::SleepThenProbe { delay_ms: *delay_ms },
            WatchAction::ApplyInitial(m) => WatchActionView::ApplyInitial(m@),
            WatchAction::Reinitiate { is_logoff } => WatchActionView::Reinitiate { is_logoff: *is_logoff },
            WatchAction::Finish => WatchActionView::Finish,
        }
    }
}

impl View for WatchObservation {
    type V = WatchObservationView;

    open spec fn view(&self) -> WatchObservationView {
        match self {
            WatchObservation::Probed { count, mode } => WatchObservationView::Probed {
                count: match count {
                    Ok(n) => Ok(*n),
                    Err(e) => Err(e@),
                },
                mode: match mode {
                    Ok(m) => Ok(m@),
                    Err(e) => Err(e@),
                },
            },
            WatchObservation::Applied(r) => WatchObservationView::Applied(
                match r {
                    Ok(_) => Ok(()),
                    Err(e) => Err(e@),
                },
            ),
            WatchObservation::Reinitiated => WatchObservationView::Reinitiated,
        }
    }
}

impl View for WatchLog {
    type V = WatchLogView;

    open spec fn view(&self) -> WatchLogView {
        match self {
            WatchLog::Waiting => WatchLogView::Waiting,
            WatchLog::BackToDesktop { count, mode } => WatchLogView::BackToDesktop { count: *count, mode: mode@ },
            WatchLog::Fixing { from, to } => WatchLogView::Fixing { from: from@, to: to@ },
            WatchLog::FixOk => WatchLogView::FixOk,
            WatchLog::FixFailed(e) => WatchLogView::FixFailed(e@),
            WatchLog::NoFixNeeded => WatchLogView::NoFixNeeded,
            WatchLog::Reinitiating { is_logoff } => WatchLogView::Reinitiating { is_logoff: *is_logoff },
            WatchLog::StillWaiting { attempt } => WatchLogView::StillWaiting { attempt: *attempt },
            WatchLog::Timeout => WatchLogView::Timeout,
        }
    }
}

pub open spec fn watch_logs_view(logs: Seq<WatchLog>) -> Seq<WatchLogView> {
    logs.map_values(|l: WatchLog| l@)
}

impl View for WatchStep {
    type V = WatchStepView;

    open spec fn view(&self) -> WatchStepView {
        WatchStepView { action: self.action@, logs: watch_logs_view(self.logs@) }
    }
}

impl View for SecureDesktopWatch {
    type V = WatchView;

    closed spec fn view(&self) -> WatchView {
        WatchView { initial: self.initial@, is_logoff: self.is_logoff, attempt: self.attempt, phase: self.phase }
    }
}

/// What the watch asks in each phase.
pub open spec fn watch_pending(w: WatchView) -> WatchActionView {
    match w.phase {
        WatchPhase::Probing => WatchActionView::SleepThenProbe { delay_ms: WATCH_PROBE_DELAY_MS },
        WatchPhase::Fixing => WatchActionView::ApplyInitial(w.initial),
        WatchPhase::Reinitiating => WatchActionView::Reinitiate { is_logoff: w.is_logoff },
        WatchPhase::Done => WatchActionView::Finish,
    }
}

pub open spec fn w_step(w: WatchView, phase: WatchPhase, logs: Seq<WatchLogView>) -> (WatchView, WatchStepView) {
    let w2 = WatchView { phase, ..w };
    (w2, WatchStepView { action: watch_pending(w2), logs })
}

/// One step of the watch: its next state, the guard's flags after it, and
/// what it asks next.
pub open spec fn watch_transition(w: WatchView, g: InterceptorView, o: WatchObservationView) -> (WatchView, InterceptorView, WatchStepView) {
    match (w.phase, o) {
        (WatchPhase::Probing, WatchObservationView::Probed { count, mode }) => {
            if count is Ok && mode is Ok {
                let n = count->Ok_0;
                let m = mode->Ok_0;
                let back = WatchLogView::BackToDesktop { count: n, mode: m };
                if n > 1 && m != w.initial {
                    let (w2, st) = w_step(w, WatchPhase::Fixing, seq![back, WatchLogView::Fixing { from: m, to: w.initial }]);
                    (w2, g, st)
                } else {
                    let (w2, st) = w_step(
                        w,
                        WatchPhase::Reinitiating,
                        seq![back, WatchLogView::NoFixNeeded, WatchLogView::Reinitiating { is_logoff: w.is_logoff }],
                    );
                    (w2, InterceptorView { is_script_initiated: true, ..g }, st)
                }
            } else {
                let next: u32 = if w.attempt < WATCH_MAX_PROBES - 1 { (w.attempt + 1) as u32 } else { WATCH_MAX_PROBES };
                let waiting: Seq<WatchLogView> = if w.attempt % 10 == 9 { seq![WatchLogView::StillWaiting { attempt: next }] } else { seq![] };
                let w1 = WatchView { attempt: next, ..w };
                if next < WATCH_MAX_PROBES {
                    let (w2, st) = w_step(w1, WatchPhase::Probing, waiting);
                    (w2, g, st)
                } else {
                    let (w2, st) = w_step(w1, WatchPhase::Done, waiting.push(WatchLogView::Timeout));
                    (w2, InterceptorView { task_running: false, ..g }, st)
                }
            }
        },
        (WatchPhase::Fixing, WatchObservationView::Applied(r)) => {
            let fix = match r {
                Ok(_) => WatchLogView::FixOk,
                Err(e) => WatchLogView::FixFailed(e),
            };
            let (w2, st) = w_step(w, WatchPhase::Reinitiating, seq![fix, WatchLogView::Reinitiating { is_logoff: w.is_logoff }]);
            (w2, InterceptorView { is_script_initiated: true, ..g }, st)
        },
        (WatchPhase::Reinitiating, WatchObservationView::Reinitiated) => {
            let (w2, st) = w_step(w, WatchPhase::Done, seq![]);
            (w2, InterceptorView { task_running: false, ..g }, st)
        },
        _ => (w, g, WatchStepView { action: watch_pending(w), logs: seq![] }),
    }
}

fn wlogs1(a: WatchLog) -> (r: Vec<WatchLog>)
    ensures
        watch_logs_view(r@) == seq![a@],
{
    let mut v = Vec::new();
    v.push(a);
    assert(watch_logs_view(v@) =~= seq![a@]);
    v
}

fn wlogs2(a: WatchLog, b: WatchLog) -> (r: Vec<WatchLog>)
    ensures
        watch_logs_view(r@) == seq![a@, b@],
{
    let mut v = Vec::new();
    v.push(a);
    v.push(b);
    assert(watch_logs_view(v@) =~= seq![a@, b@]);
    v
}

fn wlogs3(a: WatchLog, b: WatchLog, c: WatchLog) -> (r: Vec<WatchLog>)
    ensures
        watch_logs_view(r@) == seq![a@, b@, c@],
{
    let mut v = Vec::new();
    v.push(a);
    v.push(b);
    v.push(c);
    assert(watch_logs_view(v@) =~= seq![a@, b@, c@]);
    v
}

impl SecureDesktopWatch {
    /// A watch that will restore `initial` and then start the logoff (or
    /// shutdown) again.
    pub fn new(initial: TopologyMode, is_logoff: bool) -> (r: SecureDesktopWatch)
        ensures
            r@ == (WatchView { initial: initial@, is_logoff, attempt: 0, phase: WatchPhase::Probing }),
    {
        SecureDesktopWatch { initial, is_logoff, attempt: 0, phase: WatchPhase::Probing }
    }

    /// The watch's first step: announce the wait, then probe.
    pub fn start(&self) -> (r: WatchStep)
        ensures
            r@ == (WatchStepView { action: watch_pending(self@), logs: seq![WatchLogView::Waiting] }),
    {
        WatchStep { action: self.pending(), logs: wlogs1(WatchLog::Waiting) }
    }

    fn pending(&self) -> (r: WatchAction)
        ensures
            r@ == watch_pending(self@),
    {
        match self.phase {
            WatchPhase::Probing => WatchAction::SleepThenProbe { delay_ms: WATCH_PROBE_DELAY_MS },
            WatchPhase::Fixing => WatchAction::ApplyInitial(self.initial.clone()),
            WatchPhase::Reinitiating => WatchAction::Reinitiate { is_logoff: self.is_logoff },
            WatchPhase::Done => WatchAction::Finish,
        }
    }

    fn go(&mut self, phase: WatchPhase, logs: Vec<WatchLog>) -> (r: WatchStep)
        ensures
            (final(self)@, r@) == w_step(old(self)@, phase, watch_logs_view(logs@)),
    {
        self.phase = phase;
        WatchStep { action: self.pending(), logs }
    }

    /// Advances the watch by one answer. See [`watch_transition`].
    pub fn step(&mut self, guard: &mut ShutdownInterceptor, obs: WatchObservation) -> (r: WatchStep)
        ensures
            (final(self)@, final(guard)@, r@) == watch_transition(old(self)@, old(guard)@, obs@),
    {
        match (self.phase, obs) {
            (WatchPhase::Probing, WatchObservation::Probed { count, mode }) => {
                match (count, mode) {
                    (Ok(n), Ok(m)) => {
                        if n > 1 && !m.same_as(&self.initial) {
                            let l1 = WatchLog::BackToDesktop { count: n, mode: m.clone() };
                            let l2 = WatchLog::Fixing { from: m, to: self.initial.clone() };
                            self.go(WatchPhase::Fixing, wlogs2(l1, l2))
                        } else {
                            guard.is_script_initiated = true;
                            let logs = wlogs3(
                                WatchLog::BackToDesktop { count: n, mode: m },
                                WatchLog::NoFixNeeded,
                                WatchLog::Reinitiating { is_logoff: self.is_logoff },
                            );
                            self.go(WatchPhase::Reinitiating, logs)
                        }
                    },
                    _ => {
                        let next: u32 = if self.attempt < WATCH_MAX_PROBES - 1 { self.attempt + 1 } else { WATCH_MAX_PROBES };
                        let mut logs: Vec<WatchLog> = Vec::new();
                        if self.attempt % 10 == 9 {
                            logs = wlogs1(WatchLog::StillWaiting { attempt: next });
                        }
                        assert(watch_logs_view(Seq::<WatchLog>::empty()) =~= Seq::<WatchLogView>::empty());
                        self.attempt = next;
                        if next < WATCH_MAX_PROBES {
                            self.go(WatchPhase::Probing, logs)
                        } else {
                            let ghost before = logs@;
                            logs.push(WatchLog::Timeout);
                            assert(watch_logs_view(logs@) =~= watch_logs_view(before).push(WatchLogView::Timeout));
                            guard.task_running = false;
                            self.go(WatchPhase::Done, logs)
                        }
                    },
                }
            },
            (WatchPhase::Fixing, WatchObservation::Applied(r)) => {
                let fix = match r {
                    Ok(()) => WatchLog::FixOk,
                    Err(e) => WatchLog::FixFailed(e),
                };
                guard.is_script_initiated = true;
                let logs = wlogs2(fix, WatchLog::Reinitiating { is_logoff: self.is_logoff });
                self.go(WatchPhase::Reinitiating, logs)
            },
            (WatchPhase::Reinitiating, WatchObservation::Reinitiated) => {
                guard.task_running = false;
                let logs: Vec<WatchLog> = Vec::new();
                assert(watch_logs_view(logs@) =~= Seq::<WatchLogView>::empty());
                self.go(WatchPhase::Done, logs)
            },
            _ => {
                let logs: Vec<WatchLog> = Vec::new();
                assert(watch_logs_view(logs@) =~= Seq::<WatchLogView>::empty());
                WatchStep { action: self.pending(), logs }
            },
        }
    }
}

// ------------------------------------------------------ laws

/// A request that the watch started itself is let through at once, without
/// any check, and the guard forgets it: the guard cannot loop.
pub proof fn lemma_own_request_passes_once(q: QueryView, g: InterceptorView, is_logoff: bool)
    requires
        q.phase == QueryPhase::Start,
        g.is_script_initiated,
    ensures
        ({
            let (q1, g1, st) = query_transition(q, g, QueryObservationView::Begin { is_logoff });
            &&& st.action == QueryActionView::Allow
            &&& !g1.is_script_initiated
            &&& g1.task_running == g.task_running
            &&& q1.phase == QueryPhase::Done
        }),
{
}

/// While a watch runs, every request is let through at once.
pub proof fn lemma_running_watch_passes(q: QueryView, g: InterceptorView, is_logoff: bool)
    requires
        q.phase == QueryPhase::Start,
        !g.is_script_initiated,
        g.task_running,
    ensures
        query_transition(q, g, QueryObservationView::Begin { is_logoff }).2.action == QueryActionView::Allow,
        query_transition(q, g, QueryObservationView::Begin { is_logoff }).1 == g,
{
}

/// The handler refuses only when the topology cannot be read (CASE 3), and
/// then it starts a watch for the initial mode and marks it running; every
/// switch it asks for is back to the initial mode.
pub proof fn lemma_query_refuses_only_unreadable(q: QueryView, g: InterceptorView, o: QueryObservationView)
    ensures
        ({
            let (q1, g1, st) = query_transition(q, g, o);
            &&& st.action is DenyAndWatch ==> {
                &&& q.phase == QueryPhase::TopologyCheck
                &&& o matches QueryObservationView::Topology { current, .. } && current is Err
                &&& st.action == (QueryActionView::DenyAndWatch { initial: q.initial, is_logoff: q.is_logoff })
                &&& g1.task_running
            }
            &&& st.action matches QueryActionView::ApplyInitial(m) ==> m == q.initial
        }),
{
}

/// CASE 1: with several displays already in the initial mode the request is
/// allowed without any switch; CASE 2: in another mode the display is first
/// switched back to the initial mode, and the request is allowed whether or
/// not the switch worked.
pub proof fn lemma_query_cases(q: QueryView, g: InterceptorView, c: ModeView, target: ModeView, r: Result<(), Seq<char>>)
    requires
        q.phase == QueryPhase::TopologyCheck,
    ensures
        c == q.initial ==> query_transition(q, g, QueryObservationView::Topology { current: Ok(c), target }).2.action
            == QueryActionView::Allow,
        c != q.initial ==> {
            let (q1, g1, st) = query_transition(q, g, QueryObservationView::Topology { current: Ok(c), target });
            &&& st.action == QueryActionView::ApplyInitial(q.initial)
            &&& query_transition(q1, g1, QueryObservationView::Applied(r)).2.action != QueryActionView::Allow
                ==> query_transition(q1, g1, QueryObservationView::Applied(r)).2.action == QueryActionView::AllowAfterSettling
            &&& query_transition(q1, g1, QueryObservationView::Applied(r)).0.phase == QueryPhase::Done
        },
{
}

/// The watch after `n` more failed probes.
pub open spec fn after_failed_probes(w: WatchView, g: InterceptorView, n: nat) -> (WatchView, InterceptorView)
    decreases n,
{
    if n == 0 {
        (w, g)
    } else {
        let (w1, g1, _) = watch_transition(
            w,
            g,
            WatchObservationView::Probed { count: Err(Seq::empty()), mode: Err(Seq::empty()) },
        );
        after_failed_probes(w1, g1, (n - 1) as nat)
    }
}

/// A watch whose probes all fail gives up after its fiftieth probe, and
/// clears the guard's running flag, so that later requests pass again.
pub proof fn lemma_watch_gives_up(w: WatchView, g: InterceptorView)
    requires
        w.phase == WatchPhase::Probing,
        w.attempt < WATCH_MAX_PROBES,
    ensures
        ({
            let (w1, g1) = after_failed_probes(w, g, (WATCH_MAX_PROBES - w.attempt) as nat);
            &&& w1.phase == WatchPhase::Done
            &&& !g1.task_running
        }),
    decreases WATCH_MAX_PROBES - w.attempt,
{
    let (w1, g1, _) = watch_transition(
        w,
        g,
        WatchObservationView::Probed { count: Err(Seq::empty()), mode: Err(Seq::empty()) },
    );
    let k = (WATCH_MAX_PROBES - w.attempt) as nat;
    assert(after_failed_probes(w, g, k) == after_failed_probes(w1, g1, (k - 1) as nat));
    if w.attempt + 1 < WATCH_MAX_PROBES {
        assert(w1.attempt == w.attempt + 1);
        assert(w1.phase == WatchPhase::Probing);
        lemma_watch_gives_up(w1, g1);
    } else {
        assert(after_failed_probes(w1, g1, 0) == (w1, g1));
    }
}

/// CASE 3 from end to end: the request is refused and the watch marked
/// running; back on the desktop the watch marks the next request as its own
/// and starts it again; that request is let through, and the guard is left
/// as it began.
pub proof fn lemma_case3_round_trip(q: QueryView, e: Seq<char>, target: ModeView, n: u32, m: ModeView, is_logoff: bool)
    requires
        q.phase == QueryPhase::TopologyCheck,
        n <= 1 || m == q.initial,
    ensures
        ({
            let g0 = InterceptorView { is_script_initiated: false, task_running: false };
            let (q1, g1, st1) = query_transition(q, g0, QueryObservationView::Topology { current: Err(e), target });
            let w0 = WatchView { initial: q.initial, is_logoff: q.is_logoff, attempt: 0, phase: WatchPhase::Probing };
            let (w1, g2, st2) = watch_transition(w0, g1, WatchObservationView::Probed { count: Ok(n), mode: Ok(m) });
            let (w2, g3, st3) = watch_transition(w1, g2, WatchObservationView::Reinitiated);
            let fresh = QueryView { initial: q.initial, is_logoff: false, phase: QueryPhase::Start };
            let (q4, g4, st4) = query_transition(fresh, g3, QueryObservationView::Begin { is_logoff });
            &&& st1.action == (QueryActionView::DenyAndWatch { initial: q.initial, is_logoff: q.is_logoff })
            &&& g1.task_running
            &&& st2.action == (WatchActionView::Reinitiate { is_logoff: q.is_logoff })
            &&& g2.is_script_initiated
            &&& st3.action == WatchActionView::Finish
            &&& !g3.task_running
            &&& st4.action == QueryActionView::Allow
            &&& g4 == g0
        }),
{
}


/// The watch is back on the user's desktop only when both the monitor count
/// and the topology could be read. A probe whose topology reading failed,
/// whatever the count, never starts the logoff or shutdown again and never
/// marks a request as the watch's own: the watch probes again, or gives up.
pub proof fn lemma_unreadable_probe_keeps_waiting(
    w: WatchView,
    g: InterceptorView,
    count: Result<u32, Seq<char>>,
    e: Seq<char>,
)
    requires
        w.phase == WatchPhase::Probing,
    ensures
        ({
            let (w1, g1, st) = watch_transition(w, g, WatchObservationView::Probed { count, mode: Err(e) });
            &&& !(st.action is Reinitiate)
            &&& !(st.action is ApplyInitial)
            &&& g1.is_script_initiated == g.is_script_initiated
            &&& (w1.phase == WatchPhase::Probing && st.action == (WatchActionView::SleepThenProbe { delay_ms: WATCH_PROBE_DELAY_MS }))
                || (w1.phase == WatchPhase::Done && st.action == WatchActionView::Finish && !g1.task_running)
        }),
{
}

/// Back on the desktop (count and topology both read), the watch restores
/// the initial mode first when there are several displays in another mode;
/// otherwise it starts the same logoff or shutdown again at once and marks
/// it as its own.
pub proof fn lemma_readable_probe_restores_then_reinitiates(w: WatchView, g: InterceptorView, n: u32, m: ModeView)
    requires
        w.phase == WatchPhase::Probing,
    ensures
        ({
            let (w1, g1, st) = watch_transition(w, g, WatchObservationView::Probed { count: Ok(n), mode: Ok(m) });
            &&& n > 1 && m != w.initial ==> st.action == WatchActionView::ApplyInitial(w.initial)
                && g1.is_script_initiated == g.is_script_initiated
            &&& !(n > 1 && m != w.initial) ==> st.action == (WatchActionView::Reinitiate { is_logoff: w.is_logoff })
                && g1.is_script_initiated
        }),
{
}

/// The handler's state after each observation, and what it answered, as it
/// is handed `obs` from `q` with the guard `g`.
pub open spec fn query_run(q: QueryView, g: InterceptorView, obs: Seq<QueryObservationView>) -> Seq<(QueryView, InterceptorView, QueryStepView)>
    decreases obs.len(),
{
    if obs.len() == 0 {
        seq![]
    } else {
        let prev = query_run(q, g, obs.drop_last());
        let (q0, g0) = if prev.len() == 0 { (q, g) } else { (prev.last().0, prev.last().1) };
        prev.push(query_transition(q0, g0, obs.last()))
    }
}

proof fn lemma_query_run_shape(q: QueryView, g: InterceptorView, obs: Seq<QueryObservationView>)
    ensures
        query_run(q, g, obs).len() == obs.len(),
        obs.len() > 0 ==> query_run(q, g, obs)[0] == query_transition(q, g, obs[0]),
        forall|j: int| 0 < j < obs.len() ==> #[trigger] query_run(q, g, obs)[j] == query_transition(
            query_run(q, g, obs)[j - 1].0,
            query_run(q, g, obs)[j - 1].1,
            obs[j],
        ),
    decreases obs.len(),
{
    if obs.len() > 0 {
        let init = obs.drop_last();
        lemma_query_run_shape(q, g, init);
        let r = query_run(q, g, obs);
        assert forall|j: int| 0 < j < obs.len() implies #[trigger] r[j] == query_transition(r[j - 1].0, r[j - 1].1, obs[j]) by {
            if j < obs.len() - 1 {
                assert(r[j] == query_run(q, g, init)[j]);
                assert(r[j - 1] == query_run(q, g, init)[j - 1]);
                assert(obs[j] == init[j]);
            }
        }
        if init.len() > 0 {
            assert(r[0] == query_run(q, g, init)[0]);
            assert(obs[0] == init[0]);
        }
    }
}

/// A refusal carries the request it refuses: once a request of kind
/// `is_logoff` has begun, every `DenyAndWatch` given while handling it
/// names that same kind (so the watch restarts a shutdown for a shutdown
/// and a logoff for a logoff) and the initial mode of the handler.
pub proof fn lemma_refusal_keeps_request_kind(q: QueryView, g: InterceptorView, obs: Seq<QueryObservationView>, is_logoff: bool)
    requires
        q.phase == QueryPhase::Start,
        obs.len() > 0,
        obs[0] == (QueryObservationView::Begin { is_logoff }),
    ensures
        forall|j: int| 0 <= j < obs.len() && (#[trigger] query_run(q, g, obs)[j]).2.action is DenyAndWatch ==>
            query_run(q, g, obs)[j].2.action == (QueryActionView::DenyAndWatch { initial: q.initial, is_logoff }),
{
    lemma_query_run_shape(q, g, obs);
    let r = query_run(q, g, obs);
    assert forall|j: int| 0 <= j < obs.len() implies {
        &&& (#[trigger] r[j]).0.phase != QueryPhase::Start
        &&& r[j].0.is_logoff == is_logoff
        &&& r[j].0.initial == q.initial
    } by {
        lemma_query_run_kind(q, g, obs, is_logoff, j);
    }
    assert forall|j: int| 0 <= j < obs.len() && (#[trigger] r[j]).2.action is DenyAndWatch implies
        r[j].2.action == (QueryActionView::DenyAndWatch { initial: q.initial, is_logoff }) by {
        if j > 0 {
            lemma_query_refuses_only_unreadable(r[j - 1].0, r[j - 1].1, obs[j]);
        }
    }
}

proof fn lemma_query_run_kind(q: QueryView, g: InterceptorView, obs: Seq<QueryObservationView>, is_logoff: bool, j: int)
    requires
        q.phase == QueryPhase::Start,
        obs.len() > 0,
        obs[0] == (QueryObservationView::Begin { is_logoff }),
        0 <= j < obs.len(),
    ensures
        query_run(q, g, obs)[j].0.phase != QueryPhase::Start,
        query_run(q, g, obs)[j].0.is_logoff == is_logoff,
        query_run(q, g, obs)[j].0.initial == q.initial,
    decreases j,
{
    lemma_query_run_shape(q, g, obs);
    if j > 0 {
        lemma_query_run_kind(q, g, obs, is_logoff, j - 1);
    }
}

} // verus!
