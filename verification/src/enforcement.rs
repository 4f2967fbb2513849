//! The enforcement loop as a state machine.
//!
//! Every interval the loop compares the system's topology with the target
//! that the user chose through this program (tray, hotkey, web) and switches
//! the system back when something else (such as Win+P) changed it. The loop
//! asks the outside world one question at a time: the driver performs each
//! [`Request`], hands back the matching [`Observation`], and writes the
//! [`LoopLog`] entries of each step to the log.
use vstd::prelude::*;
use crate::text::{spec_trim, trim_str, str_equal};
use crate::topology::{ModeView, TopologyMode, mode_text, parsed_mode, parse_topology_from_str, topology_to_mode_str, opt_mode_view};

verus! {

/// Where the loop stands inside one cycle: what it is waiting to hear.
#[derive(Debug, Clone, Copy, PartialEq, Eq, Structural)]
pub enum Phase {
    /// Waiting for the next tick.
    Idle,
    /// Service mode: does a tray instance hold the active session?
    TrayCheck,
    /// Service mode, tray present: is the user actively on the desktop?
    YieldCheck,
    /// Tray mode: is the active console session locked?
    LockCheck,
    /// Session-0-only: is a real user logged on to the desktop?
    DesktopCheck,
    /// Session-0-only: is that user actively on the desktop?
    ActiveCheck,
    /// Is runtime monitoring enabled?
    MonitoringCheck,
    /// Tray mode: how many display paths are there?
    CountCheck,
    /// What are the target and the current topology?
    TopologyCheck,
    /// Did switching to the target succeed?
    Applying,
}

/// What the loop asks the driver to do next.
pub enum Request {
    /// Sleep until the next tick.
    WaitTick,
    /// Check for the tray's session mutex in the active console session.
    CheckTrayPresent,
    /// Check whether a user is logged on and the screen is unlocked.
    CheckUserActive,
    /// Check whether the active console session is locked.
    CheckScreenLocked,
    /// Check whether a real user is logged on to the active session.
    CheckUserOnDesktop,
    /// Read the runtime-monitoring flag.
    ReadMonitoring,
    /// Count the display paths.
    CountMonitors,
    /// Read the target mode, and the current topology: through the session
    /// agent's `get` command when `via_agent`, else directly.
    ReadTopology { via_agent: bool },
    /// Switch the system to `mode`: with the agent's `set <arg>` command when
    /// `agent_arg` is present, else directly.
    ApplyTopology { mode: TopologyMode, agent_arg: Option<String> },
}

/// How the current topology was read.
pub enum TopologyReading {
    /// Read in this process.
    Local(Result<TopologyMode, String>),
    /// The raw output of the session agent's `get` command, or why it could not run.
    Agent(Result<String, String>),
}

/// How a switch was performed.
pub enum ApplyReading {
    /// Performed in this process.
    Local(Result<(), String>),
    /// The raw output of the session agent's `set` command, or why it could not run.
    Agent(Result<String, String>),
}

/// An answer to a [`Request`].
pub enum Observation {
    Ticked,
    TrayPresent(bool),
    UserActive(bool),
    ScreenLocked(bool),
    UserOnDesktop(bool),
    Monitoring(bool),
    MonitorCount(Result<u32, String>),
    Topology { target: TopologyMode, reading: TopologyReading },
    Applied(ApplyReading),
}

/// Why the current topology is unknown this cycle.
pub enum ReadError {
    /// The query, or the agent, failed with this message.
    Failed(String),
    /// The agent answered with text that names no mode (already trimmed).
    UnknownOutput(String),
}

/// A log entry of the loop.
pub enum LoopLog {
    /// "Yielding to tray instance" (the session id is added by the writer).
    YieldingToTray,
    /// "Screen unlocked: yielding back to tray instance".
    YieldingBackAfterUnlock,
    /// "Screen locked: service enforcement active".
    ServiceTakesOver,
    /// "Screen locked: tray enforcement paused, deferring to service".
    TrayPaused,
    /// "Screen unlocked: tray enforcement resumed".
    TrayResumed,
    /// "Session0-only: user logged in to desktop, enforcement suspended".
    UserLoggedOn,
    /// "Session0-only: user left desktop (Winlogon), enforcement resumed".
    UserLeftDesktop,
    /// "Enforcement loop resumed (monitoring enabled)".
    MonitoringResumed,
    /// "Enforcement loop paused (monitoring disabled)".
    MonitoringPaused,
    /// "Enforcement: Failed to get monitor count".
    MonitorCountFailed(String),
    /// "Enforcement(svc): agent get returned unknown output".
    AgentGetUnknown(String),
    /// "Enforcement(svc): agent get failed".
    AgentGetFailed(String),
    /// "Enforcement: Mismatch detected (#count)! Current != Target. Correcting...".
    Mismatch { count: u32, current: TopologyMode, target: TopologyMode },
    /// "Enforcement(svc): agent set <arg> output: <output>".
    AgentSetOutput { arg: String, output: String },
    /// "Enforcement(svc): agent set <arg> failed".
    AgentSetFailed { arg: String, error: String },
    /// "Enforcement: Successfully corrected to <target>".
    Corrected(TopologyMode),
    /// "Enforcement: Failed to correct topology ... Will retry next cycle.".
    CorrectionFailed(String),
    /// "Enforcement: Topology matches target (corrected after n mismatches)".
    MatchesAgain { target: TopologyMode, mismatches: u32 },
    /// "Enforcement: Failed to get topology".
    TopologyReadFailed(ReadError),
    /// "Heartbeat: GC hint", every twelfth completed cycle.
    Heartbeat,
}

/// What one step of the loop hands back to its driver.
pub struct StepOutput {
    pub request: Request,
    pub logs: Vec<LoopLog>,
    /// Whether the tray should refresh its menu and tooltip.
    pub refresh_tray: bool,
}

/// The enforcement loop's own state.
pub struct EnforcementLoop {
    service_mode: bool,
    session0_only: bool,
    phase: Phase,
    heartbeat_counter: u8,
    was_enabled: bool,
    consecutive_mismatches: u32,
    was_locked: bool,
    was_user_on_desktop: bool,
    pending: Option<TopologyMode>,
}

// ---------------------------------------------------------------- views

pub enum RequestView {
    WaitTick,
    CheckTrayPresent,
    CheckUserActive,
    CheckScreenLocked,
    CheckUserOnDesktop,
    ReadMonitoring,
    CountMonitors,
    ReadTopology { via_agent: bool },
    ApplyTopology { mode: ModeView, agent_arg: Option<Seq<char>> },
}

pub enum TopologyReadingView {
    Local(Result<ModeView, Seq<char>>),
    Agent(Result<Seq<char>, Seq<char>>),
}

pub enum ApplyReadingView {
    Local(Result<(), Seq<char>>),
    Agent(Result<Seq<char>, Seq<char>>),
}

pub enum ObservationView {
    Ticked,
    TrayPresent(bool),
    UserActive(bool),
    ScreenLocked(bool),
    UserOnDesktop(bool),
    Monitoring(bool),
    MonitorCount(Result<u32, Seq<char>>),
    Topology { target: ModeView, reading: TopologyReadingView },
    Applied(ApplyReadingView),
}

pub enum ReadErrorView {
    Failed(Seq<char>),
    UnknownOutput(Seq<char>),
}

pub enum LogView {
    YieldingToTray,
    YieldingBackAfterUnlock,
    ServiceTakesOver,
    TrayPaused,
    TrayResumed,
    UserLoggedOn,
    UserLeftDesktop,
    MonitoringResumed,
    MonitoringPaused,
    MonitorCountFailed(Seq<char>),
    AgentGetUnknown(Seq<char>),
    AgentGetFailed(Seq<char>),
    Mismatch { count: u32, current: ModeView, target: ModeView },
    AgentSetOutput { arg: Seq<char>, output: Seq<char> },
    AgentSetFailed { arg: Seq<char>, error: Seq<char> },
    Corrected(ModeView),
    CorrectionFailed(Seq<char>),
    MatchesAgain { target: ModeView, mismatches: u32 },
    TopologyReadFailed(ReadErrorView),
    Heartbeat,
}

pub struct StepView {
    pub request: RequestView,
    pub logs: Seq<LogView>,
    pub refresh_tray: bool,
}

pub struct LoopView {
    pub service_mode: bool,
    pub session0_only: bool,
    pub phase: Phase,
    pub heartbeat_counter: u8,
    pub was_enabled: bool,
    pub consecutive_mismatches: u32,
    pub was_locked: bool,
    pub was_user_on_desktop: bool,
    pub pending: Option<ModeView>,
}

pub open spec fn str_result_view(r: Result<String, String>) -> Result<Seq<char>, Seq<char>> {
    match r {
        Ok(s) => Ok(s@),
        Err(e) => Err(e@),
    }
}

impl View for Request {
    type V = RequestView;

    open spec fn view(&self) -> RequestView {
        match self {
            Request::WaitTick => RequestView::WaitTick,
            Request::CheckTrayPresent => RequestView::CheckTrayPresent,
            Request::CheckUserActive => RequestView::CheckUserActive,
            Request::CheckScreenLocked => RequestView::CheckScreenLocked,
            Request::CheckUserOnDesktop => RequestView::CheckUserOnDesktop,
            Request::ReadMonitoring => RequestView::ReadMonitoring,
            Request::CountMonitors => RequestView::CountMonitors,
            Request::ReadTopology { via_agent } => RequestView::ReadTopology { via_agent: *via_agent },
            Request::ApplyTopology { mode, agent_arg } => RequestView::ApplyTopology {
                mode: mode@,
                agent_arg: match agent_arg {
                    Some(a) => Some(a@),
                    None => None,
                },
            },
        }
    }
}

impl View for TopologyReading {
    type V = TopologyReadingView;

    open spec fn view(&self) -> TopologyReadingView {
        match self {
            TopologyReading::Local(r) => TopologyReadingView::Local(
                match r {
                    Ok(m) => Ok(m@),
                    Err(e) => Err(e@),
                },
            ),
            TopologyReading::Agent(r) => TopologyReadingView::Agent(str_result_view(*r)),
        }
    }
}

impl View for ApplyReading {
    type V = ApplyReadingView;

    open spec fn view(&self) -> ApplyReadingView {
        match self {
            ApplyReading::Local(r) => ApplyReadingView::Local(
                match r {
                    Ok(_) => Ok(()),
                    Err(e) => Err(e@),
                },
            ),
            ApplyReading::Agent(r) => ApplyReadingView::Agent(str_result_view(*r)),
        }
    }
}

impl View for Observation {
    type V = ObservationView;

    open spec fn view(&self) -> ObservationView {
        match self {
            Observation::Ticked => ObservationView::Ticked,
            Observation::TrayPresent(b) => ObservationView::TrayPresent(*b),
            Observation::UserActive(b) => ObservationView::UserActive(*b),
            Observation::ScreenLocked(b) => ObservationView::ScreenLocked(*b),
            Observation::UserOnDesktop(b) => ObservationView::UserOnDesktop(*b),
            Observation::Monitoring(b) => ObservationView::Monitoring(*b),
            Observation::MonitorCount(r) => ObservationView::MonitorCount(
                match r {
                    Ok(n) => Ok(*n),
                    Err(e) => Err(e@),
                },
            ),
            Observation::Topology { target, reading } => ObservationView::Topology {
                target: target@,
                reading: reading@,
            },
            Observation::Applied(a) => ObservationView::Applied(a@),
        }
    }
}

impl View for ReadError {
    type V = ReadErrorView;

    open spec fn view(&self) -> ReadErrorView {
        match self {
            ReadError::Failed(e) => ReadErrorView::Failed(e@),
            ReadError::UnknownOutput(e) => ReadErrorView::UnknownOutput(e@),
        }
    }
}

impl View for LoopLog {
    type V = LogView;

    open spec fn view(&self) -> LogView {
        match self {
            LoopLog::YieldingToTray => LogView::YieldingToTray,
            LoopLog::YieldingBackAfterUnlock => LogView::YieldingBackAfterUnlock,
            LoopLog::ServiceTakesOver => LogView::ServiceTakesOver,
            LoopLog::TrayPaused => LogView::TrayPaused,
            LoopLog::TrayResumed => LogView::TrayResumed,
            LoopLog::UserLoggedOn => LogView::UserLoggedOn,
            LoopLog::UserLeftDesktop => LogView::UserLeftDesktop,
            LoopLog::MonitoringResumed => LogView::MonitoringResumed,
            LoopLog::MonitoringPaused => LogView::MonitoringPaused,
            LoopLog::MonitorCountFailed(e) => LogView::MonitorCountFailed(e@),
            LoopLog::AgentGetUnknown(e) => LogView::AgentGetUnknown(e@),
            LoopLog::AgentGetFailed(e) => LogView::AgentGetFailed(e@),
            LoopLog::Mismatch { count, current, target } => LogView::Mismatch {
                count: *count,
                current: current@,
                target: target@,
            },
            LoopLog::AgentSetOutput { arg, output } => LogView::AgentSetOutput { arg: arg@, output: output@ },
            LoopLog::AgentSetFailed { arg, error } => LogView::AgentSetFailed { arg: arg@, error: error@ },
            LoopLog::Corrected(m) => LogView::Corrected(m@),
            LoopLog::CorrectionFailed(e) => LogView::CorrectionFailed(e@),
            LoopLog::MatchesAgain { target, mismatches } => LogView::MatchesAgain {
                target: target@,
                mismatches: *mismatches,
            },
            LoopLog::TopologyReadFailed(e) => LogView::TopologyReadFailed(e@),
            LoopLog::Heartbeat => LogView::Heartbeat,
        }
    }
}

pub open spec fn logs_view(logs: Seq<LoopLog>) -> Seq<LogView> {
    logs.map_values(|l: LoopLog| l@)
}

impl View for StepOutput {
    type V = StepView;

    open spec fn view(&self) -> StepView {
        StepView { request: self.request@, logs: logs_view(self.logs@), refresh_tray: self.refresh_tray }
    }
}

impl View for EnforcementLoop {
    type V = LoopView;

    closed spec fn view(&self) -> LoopView {
        LoopView {
            service_mode: self.service_mode,
            session0_only: self.session0_only,
            phase: self.phase,
            heartbeat_counter: self.heartbeat_counter,
            was_enabled: self.was_enabled,
            consecutive_mismatches: self.consecutive_mismatches,
            was_locked: self.was_locked,
            was_user_on_desktop: self.was_user_on_desktop,
            pending: opt_mode_view(self.pending),
        }
    }
}

// ---------------------------------------------------------------- the machine

impl LoopView {
    /// The loop's invariant: the heartbeat counter stays below twelve, and a
    /// target is held exactly while a switch is under way.
    pub open spec fn wf(self) -> bool {
        &&& self.heartbeat_counter < 12
        &&& (self.phase == Phase::Applying <==> self.pending is Some)
    }

    pub open spec fn at(self, phase: Phase) -> LoopView {
        LoopView { phase, ..self }
    }
}

/// A step that asks `request` and logs `logs`.
pub open spec fn ask(s: LoopView, request: RequestView, logs: Seq<LogView>) -> (LoopView, StepView) {
    (s, StepView { request, logs, refresh_tray: false })
}

/// Skip the rest of this cycle: the loop goes idle and waits for the next
/// tick; a skipped cycle counts no heartbeat.
pub open spec fn skip_cycle(s: LoopView, logs: Seq<LogView>) -> (LoopView, StepView) {
    ask(LoopView { pending: None, ..s.at(Phase::Idle) }, RequestView::WaitTick, logs)
}

/// Complete this cycle: count a heartbeat, log it every twelfth cycle, and
/// wait for the next tick.
pub open spec fn finish_cycle(s: LoopView, logs: Seq<LogView>, refresh: bool) -> (LoopView, StepView) {
    let next = ((s.heartbeat_counter + 1) % 256) as u8;
    let (hb, logs2) = if next >= 12 { (0u8, logs.push(LogView::Heartbeat)) } else { (next, logs) };
    (
        LoopView { phase: Phase::Idle, heartbeat_counter: hb, pending: None, ..s },
        StepView { request: RequestView::WaitTick, logs: logs2, refresh_tray: refresh },
    )
}

/// Ask for the topology: tray mode counts monitors first, service mode does not.
pub open spec fn enter_count(s: LoopView, logs: Seq<LogView>) -> (LoopView, StepView) {
    if !s.service_mode {
        ask(s.at(Phase::CountCheck), RequestView::CountMonitors, logs)
    } else {
        ask(s.at(Phase::TopologyCheck), RequestView::ReadTopology { via_agent: true }, logs)
    }
}

pub open spec fn enter_monitoring(s: LoopView, logs: Seq<LogView>) -> (LoopView, StepView) {
    ask(s.at(Phase::MonitoringCheck), RequestView::ReadMonitoring, logs)
}

/// The session-0-only check, when configured.
pub open spec fn enter_session_check(s: LoopView, logs: Seq<LogView>) -> (LoopView, StepView) {
    if s.session0_only {
        ask(s.at(Phase::DesktopCheck), RequestView::CheckUserOnDesktop, logs)
    } else {
        enter_monitoring(s, logs)
    }
}

/// The tray's lock-screen pause, in tray mode.
pub open spec fn enter_lock_check(s: LoopView, logs: Seq<LogView>) -> (LoopView, StepView) {
    if !s.service_mode {
        ask(s.at(Phase::LockCheck), RequestView::CheckScreenLocked, logs)
    } else {
        enter_session_check(s, logs)
    }
}

/// A new cycle: the service first checks for a tray instance.
pub open spec fn start_cycle(s: LoopView) -> (LoopView, StepView) {
    if s.service_mode {
        ask(s.at(Phase::TrayCheck), RequestView::CheckTrayPresent, seq![])
    } else {
        enter_lock_check(s, seq![])
    }
}

/// The current topology as read this cycle, with what the reading logs.
pub open spec fn read_outcome(r: TopologyReadingView) -> (Result<ModeView, ReadErrorView>, Seq<LogView>) {
    match r {
        TopologyReadingView::Local(Ok(m)) => (Ok(m), seq![]),
        TopologyReadingView::Local(Err(e)) => (Err(ReadErrorView::Failed(e)), seq![]),
        TopologyReadingView::Agent(Ok(out)) => {
            let t = spec_trim(out);
            match parsed_mode(t) {
                Some(m) => (Ok(m), seq![]),
                None => (Err(ReadErrorView::UnknownOutput(t)), seq![LogView::AgentGetUnknown(t)]),
            }
        },
        TopologyReadingView::Agent(Err(e)) => (Err(ReadErrorView::Failed(e)), seq![LogView::AgentGetFailed(e)]),
    }
}

/// Whether a switch succeeded, with what its reading logs; `arg` is the text
/// that was handed to the agent.
pub open spec fn apply_outcome(r: ApplyReadingView, arg: Seq<char>) -> (Result<(), Seq<char>>, Seq<LogView>) {
    match r {
        ApplyReadingView::Local(Ok(_)) => (Ok(()), seq![]),
        ApplyReadingView::Local(Err(e)) => (Err(e), seq![]),
        ApplyReadingView::Agent(Ok(out)) => {
            let t = spec_trim(out);
            let logs = seq![LogView::AgentSetOutput { arg, output: t }];
            if t == "Success"@ {
                (Ok(()), logs)
            } else {
                (Err(t), logs)
            }
        },
        ApplyReadingView::Agent(Err(e)) => (Err(e), seq![LogView::AgentSetFailed { arg, error: e }]),
    }
}

/// The request that switches to `target`.
pub open spec fn apply_request(s: LoopView, target: ModeView) -> RequestView {
    RequestView::ApplyTopology {
        mode: target,
        agent_arg: if s.service_mode { Some(mode_text(target)) } else { None },
    }
}

/// One step of the loop: the state after observing `o` in state `s`, and
/// what the loop asks and logs. An observation that does not answer the
/// pending question leaves the state as it was and asks again.
pub open spec fn transition(s: LoopView, o: ObservationView) -> (LoopView, StepView) {
    match (s.phase, o) {
        (Phase::Idle, ObservationView::Ticked) => start_cycle(s),
        (Phase::TrayCheck, ObservationView::TrayPresent(present)) => {
            if present {
                ask(s.at(Phase::YieldCheck), RequestView::CheckUserActive, seq![])
            } else {
                enter_lock_check(s, seq![])
            }
        },
        (Phase::YieldCheck, ObservationView::UserActive(active)) => {
            if active {
                let l1: Seq<LogView> = if s.was_enabled { seq![LogView::YieldingToTray] } else { seq![] };
                let l2 = if s.was_locked { l1.push(LogView::YieldingBackAfterUnlock) } else { l1 };
                skip_cycle(LoopView { was_locked: false, was_enabled: false, ..s }, l2)
            } else {
                let logs: Seq<LogView> = if !s.was_locked { seq![LogView::ServiceTakesOver] } else { seq![] };
                enter_lock_check(LoopView { was_locked: true, ..s }, logs)
            }
        },
        (Phase::LockCheck, ObservationView::ScreenLocked(locked)) => {
            if locked {
                let logs: Seq<LogView> = if !s.was_locked { seq![LogView::TrayPaused] } else { seq![] };
                skip_cycle(LoopView { was_locked: true, consecutive_mismatches: 0, ..s }, logs)
            } else {
                let logs: Seq<LogView> = if s.was_locked { seq![LogView::TrayResumed] } else { seq![] };
                enter_session_check(LoopView { was_locked: false, ..s }, logs)
            }
        },
        (Phase::DesktopCheck, ObservationView::UserOnDesktop(on)) => {
            let logs: Seq<LogView> = if on != s.was_user_on_desktop {
                if on { seq![LogView::UserLoggedOn] } else { seq![LogView::UserLeftDesktop] }
            } else {
                seq![]
            };
            ask(LoopView { was_user_on_desktop: on, ..s.at(Phase::ActiveCheck) }, RequestView::CheckUserActive, logs)
        },
        (Phase::ActiveCheck, ObservationView::UserActive(active)) => {
            if active {
                skip_cycle(LoopView { consecutive_mismatches: 0, ..s }, seq![])
            } else {
                enter_monitoring(s, seq![])
            }
        },
        (Phase::MonitoringCheck, ObservationView::Monitoring(enabled)) => {
            let logs: Seq<LogView> = if enabled != s.was_enabled {
                if enabled { seq![LogView::MonitoringResumed] } else { seq![LogView::MonitoringPaused] }
            } else {
                seq![]
            };
            let s2 = LoopView { was_enabled: enabled, ..s };
            if !enabled {
                skip_cycle(LoopView { consecutive_mismatches: 0, ..s2 }, logs)
            } else {
                enter_count(s2, logs)
            }
        },
        (Phase::CountCheck, ObservationView::MonitorCount(r)) => match r {
            Ok(n) => if n <= 1 {
                skip_cycle(LoopView { consecutive_mismatches: 0, ..s }, seq![])
            } else {
                ask(s.at(Phase::TopologyCheck), RequestView::ReadTopology { via_agent: false }, seq![])
            },
            Err(e) => skip_cycle(s, seq![LogView::MonitorCountFailed(e)]),
        },
        (Phase::TopologyCheck, ObservationView::Topology { target, reading }) => {
            let (current, logs) = read_outcome(reading);
            match current {
                Ok(c) => if c != target {
                    let count = (s.consecutive_mismatches + 1) as u32;
                    let logs2 = logs.push(LogView::Mismatch { count, current: c, target });
                    ask(
                        LoopView { consecutive_mismatches: count, pending: Some(target), ..s.at(Phase::Applying) },
                        apply_request(s, target),
                        logs2,
                    )
                } else if s.consecutive_mismatches > 0 {
                    finish_cycle(
                        LoopView { consecutive_mismatches: 0, ..s },
                        logs.push(LogView::MatchesAgain { target, mismatches: s.consecutive_mismatches }),
                        false,
                    )
                } else {
                    finish_cycle(s, logs, false)
                },
                Err(e) => finish_cycle(s, logs.push(LogView::TopologyReadFailed(e)), false),
            }
        },
        (Phase::Applying, ObservationView::Applied(reading)) => match s.pending {
            Some(target) => {
                let (res, logs) = apply_outcome(reading, mode_text(target));
                match res {
                    Ok(_) => finish_cycle(s, logs.push(LogView::Corrected(target)), true),
                    Err(e) => finish_cycle(s, logs.push(LogView::CorrectionFailed(e)), false),
                }
            },
            None => skip_cycle(s, seq![]),
        },
        _ => ask(s, pending_request(s), seq![]),
    }
}

/// The question that the loop is waiting to have answered in state `s`.
pub open spec fn pending_request(s: LoopView) -> RequestView {
    match s.phase {
        Phase::Idle => RequestView::WaitTick,
        Phase::TrayCheck => RequestView::CheckTrayPresent,
        Phase::YieldCheck => RequestView::CheckUserActive,
        Phase::LockCheck => RequestView::CheckScreenLocked,
        Phase::DesktopCheck => RequestView::CheckUserOnDesktop,
        Phase::ActiveCheck => RequestView::CheckUserActive,
        Phase::MonitoringCheck => RequestView::ReadMonitoring,
        Phase::CountCheck => RequestView::CountMonitors,
        Phase::TopologyCheck => RequestView::ReadTopology { via_agent: s.service_mode },
        Phase::Applying => match s.pending {
            Some(t) => apply_request(s, t),
            None => RequestView::WaitTick,
        },
    }
}

// ---------------------------------------------------------------- executable

proof fn lemma_logs_push(logs: Seq<LoopLog>, l: LoopLog)
    ensures
        logs_view(logs.push(l)) == logs_view(logs).push(l@),
{
    assert(logs_view(logs.push(l)) =~= logs_view(logs).push(l@));
}

proof fn lemma_logs_empty()
    ensures
        logs_view(Seq::<LoopLog>::empty()) == Seq::<LogView>::empty(),
{
    assert(logs_view(Seq::<LoopLog>::empty()) =~= Seq::<LogView>::empty());
}

proof fn lemma_logs_one(l: LoopLog)
    ensures
        logs_view(seq![l]) == seq![l@],
{
    assert(logs_view(seq![l]) =~= seq![l@]);
}

fn push_log(logs: &mut Vec<LoopLog>, l: LoopLog)
    ensures
        logs_view(final(logs)@) == logs_view(old(logs)@).push(l@),
{
    proof {
        lemma_logs_push(logs@, l);
    }
    logs.push(l);
}

fn no_logs() -> (r: Vec<LoopLog>)
    ensures
        logs_view(r@) == Seq::<LogView>::empty(),
{
    proof {
        lemma_logs_empty();
    }
    Vec::new()
}

fn one_log(l: LoopLog) -> (r: Vec<LoopLog>)
    ensures
        logs_view(r@) == seq![l@],
{
    let mut v = Vec::new();
    proof {
        lemma_logs_empty();
    }
    push_log(&mut v, l);
    assert(logs_view(v@) =~= seq![l@]);
    v
}

fn clone_string(s: &String) -> (r: String)
    ensures
        r@ == s@,
{
    s.clone()
}

/// Interprets a topology reading.
fn read_current(reading: TopologyReading) -> (r: (Result<TopologyMode, ReadError>, Vec<LoopLog>))
    ensures
        ({
            let (res, logs) = read_outcome(reading@);
            &&& logs_view(r.1@) == logs
            &&& match (r.0, res) {
                (Ok(m), Ok(v)) => m@ == v,
                (Err(e), Err(v)) => e@ == v,
                _ => false,
            }
        }),
{
    match reading {
        TopologyReading::Local(Ok(m)) => (Ok(m), no_logs()),
        TopologyReading::Local(Err(e)) => (Err(ReadError::Failed(e)), no_logs()),
        TopologyReading::Agent(Ok(out)) => {
            let t = trim_str(out.as_str());
            match parse_topology_from_str(t) {
                Some(m) => (Ok(m), no_logs()),
                None => {
                    let ts = String::from_str(t);
                    let logs = one_log(LoopLog::AgentGetUnknown(clone_string(&ts)));
                    (Err(ReadError::UnknownOutput(ts)), logs)
                },
            }
        },
        TopologyReading::Agent(Err(e)) => {
            let logs = one_log(LoopLog::AgentGetFailed(clone_string(&e)));
            (Err(ReadError::Failed(e)), logs)
        },
    }
}

/// Interprets the reading of a switch; `arg` is the text handed to the agent.
fn applied_result(reading: ApplyReading, arg: &String) -> (r: (Result<(), String>, Vec<LoopLog>))
    ensures
        ({
            let (res, logs) = apply_outcome(reading@, arg@);
            &&& logs_view(r.1@) == logs
            &&& match (r.0, res) {
                (Ok(_), Ok(_)) => true,
                (Err(e), Err(v)) => e@ == v,
                _ => false,
            }
        }),
{
    match reading {
        ApplyReading::Local(Ok(())) => (Ok(()), no_logs()),
        ApplyReading::Local(Err(e)) => (Err(e), no_logs()),
        ApplyReading::Agent(Ok(out)) => {
            let t = trim_str(out.as_str());
            let ts = String::from_str(t);
            let logs = one_log(LoopLog::AgentSetOutput { arg: clone_string(arg), output: clone_string(&ts) });
            if str_equal(t, "Success") {
                (Ok(()), logs)
            } else {
                (Err(ts), logs)
            }
        },
        ApplyReading::Agent(Err(e)) => {
            let logs = one_log(LoopLog::AgentSetFailed { arg: clone_string(arg), error: clone_string(&e) });
            (Err(e), logs)
        },
    }
}

impl EnforcementLoop {
    /// A loop in its initial state, waiting for the first tick. `service_mode`
    /// is the service's duty to yield to a tray instance and to work through
    /// the session agent; `monitoring_enabled` is the flag's value at start.
    pub fn new(service_mode: bool, session0_only: bool, monitoring_enabled: bool) -> (r: EnforcementLoop)
        ensures
            r@ == (LoopView {
                service_mode,
                session0_only,
                phase: Phase::Idle,
                heartbeat_counter: 0,
                was_enabled: monitoring_enabled,
                consecutive_mismatches: 0,
                was_locked: false,
                was_user_on_desktop: false,
                pending: None,
            }),
            r@.wf(),
    {
        EnforcementLoop {
            service_mode,
            session0_only,
            phase: Phase::Idle,
            heartbeat_counter: 0,
            was_enabled: monitoring_enabled,
            consecutive_mismatches: 0,
            was_locked: false,
            was_user_on_desktop: false,
            pending: None,
        }
    }

    /// The first request of a new loop.
    pub fn first_request(&self) -> (r: Request)
        ensures
            r@ == pending_request(self@),
    {
        self.pending_request()
    }

    /// Consecutive cycles that found the system off target.
    pub fn consecutive_mismatches(&self) -> (r: u32)
        ensures
            r == self@.consecutive_mismatches,
    {
        self.consecutive_mismatches
    }

    fn pending_request(&self) -> (r: Request)
        ensures
            r@ == pending_request(self@),
    {
        match self.phase {
            Phase::Idle => Request::WaitTick,
            Phase::TrayCheck => Request::CheckTrayPresent,
            Phase::YieldCheck => Request::CheckUserActive,
            Phase::LockCheck => Request::CheckScreenLocked,
            Phase::DesktopCheck => Request::CheckUserOnDesktop,
            Phase::ActiveCheck => Request::CheckUserActive,
            Phase::MonitoringCheck => Request::ReadMonitoring,
            Phase::CountCheck => Request::CountMonitors,
            Phase::TopologyCheck => Request::ReadTopology { via_agent: self.service_mode },
            Phase::Applying => match &self.pending {
                Some(t) => self.apply_request(t),
                None => Request::WaitTick,
            },
        }
    }

    fn apply_request(&self, target: &TopologyMode) -> (r: Request)
        ensures
            r@ == apply_request(self@, target@),
    {
        let arg = if self.service_mode { Some(topology_to_mode_str(target)) } else { None };
        Request::ApplyTopology { mode: target.clone(), agent_arg: arg }
    }

    fn ask(&mut self, phase: Phase, request: Request, logs: Vec<LoopLog>) -> (r: StepOutput)
        ensures
            final(self)@ == old(self)@.at(phase),
            r@ == (StepView { request: request@, logs: logs_view(logs@), refresh_tray: false }),
    {
        self.phase = phase;
        StepOutput { request, logs, refresh_tray: false }
    }

    fn skip_cycle(&mut self, logs: Vec<LoopLog>) -> (r: StepOutput)
        ensures
            (final(self)@, r@) == skip_cycle(old(self)@, logs_view(logs@)),
    {
        self.phase = Phase::Idle;
        self.pending = None;
        StepOutput { request: Request::WaitTick, logs, refresh_tray: false }
    }

    fn finish_cycle(&mut self, logs: Vec<LoopLog>, refresh: bool) -> (r: StepOutput)
        ensures
            (final(self)@, r@) == finish_cycle(old(self)@, logs_view(logs@), refresh),
    {
        let mut logs = logs;
        let next: u8 = if self.heartbeat_counter == 255 { 0 } else { self.heartbeat_counter + 1 };
        if next >= 12 {
            self.heartbeat_counter = 0;
            push_log(&mut logs, LoopLog::Heartbeat);
        } else {
            self.heartbeat_counter = next;
        }
        self.phase = Phase::Idle;
        self.pending = None;
        StepOutput { request: Request::WaitTick, logs, refresh_tray: refresh }
    }

    fn enter_monitoring(&mut self, logs: Vec<LoopLog>) -> (r: StepOutput)
        ensures
            (final(self)@, r@) == enter_monitoring(old(self)@, logs_view(logs@)),
    {
        self.ask(Phase::MonitoringCheck, Request::ReadMonitoring, logs)
    }

    fn enter_count(&mut self, logs: Vec<LoopLog>) -> (r: StepOutput)
        ensures
            (final(self)@, r@) == enter_count(old(self)@, logs_view(logs@)),
    {
        if !self.service_mode {
            self.ask(Phase::CountCheck, Request::CountMonitors, logs)
        } else {
            self.ask(Phase::TopologyCheck, Request::ReadTopology { via_agent: true }, logs)
        }
    }

    fn enter_session_check(&mut self, logs: Vec<LoopLog>) -> (r: StepOutput)
        ensures
            (final(self)@, r@) == enter_session_check(old(self)@, logs_view(logs@)),
    {
        if self.session0_only {
            self.ask(Phase::DesktopCheck, Request::CheckUserOnDesktop, logs)
        } else {
            self.enter_monitoring(logs)
        }
    }

    fn enter_lock_check(&mut self, logs: Vec<LoopLog>) -> (r: StepOutput)
        ensures
            (final(self)@, r@) == enter_lock_check(old(self)@, logs_view(logs@)),
    {
        if !self.service_mode {
            self.ask(Phase::LockCheck, Request::CheckScreenLocked, logs)
        } else {
            self.enter_session_check(logs)
        }
    }

    /// Advances the loop by one answer. See [`transition`].
    pub fn step(&mut self, obs: Observation) -> (r: StepOutput)
        requires
            old(self)@.consecutive_mismatches < u32::MAX,
        ensures
            (final(self)@, r@) == transition(old(self)@, obs@),
    {
        proof {
            lemma_logs_empty();
        }
        let ghost o = obs@;
        match (self.phase, obs) {
            (Phase::Idle, Observation::Ticked) => {
                if self.service_mode {
                    self.ask(Phase::TrayCheck, Request::CheckTrayPresent, no_logs())
                } else {
                    self.enter_lock_check(no_logs())
                }
            },
            (Phase::TrayCheck, Observation::TrayPresent(present)) => {
                if present {
                    self.ask(Phase::YieldCheck, Request::CheckUserActive, no_logs())
                } else {
                    self.enter_lock_check(no_logs())
                }
            },
            (Phase::YieldCheck, Observation::UserActive(active)) => {
                if active {
                    let mut logs = no_logs();
                    if self.was_enabled {
                        push_log(&mut logs, LoopLog::YieldingToTray);
                    }
                    if self.was_locked {
                        push_log(&mut logs, LoopLog::YieldingBackAfterUnlock);
                    }
                    self.was_locked = false;
                    self.was_enabled = false;
                    self.skip_cycle(logs)
                } else {
                    let logs = if !self.was_locked { one_log(LoopLog::ServiceTakesOver) } else { no_logs() };
                    self.was_locked = true;
                    self.enter_lock_check(logs)
                }
            },
            (Phase::LockCheck, Observation::ScreenLocked(locked)) => {
                if locked {
                    let logs = if !self.was_locked { one_log(LoopLog::TrayPaused) } else { no_logs() };
                    self.was_locked = true;
                    self.consecutive_mismatches = 0;
                    self.skip_cycle(logs)
                } else {
                    let logs = if self.was_locked { one_log(LoopLog::TrayResumed) } else { no_logs() };
                    self.was_locked = false;
                    self.enter_session_check(logs)
                }
            },
            (Phase::DesktopCheck, Observation::UserOnDesktop(on)) => {
                let logs = if on != self.was_user_on_desktop {
                    if on { one_log(LoopLog::UserLoggedOn) } else { one_log(LoopLog::UserLeftDesktop) }
                } else {
                    no_logs()
                };
                self.was_user_on_desktop = on;
                self.ask(Phase::ActiveCheck, Request::CheckUserActive, logs)
            },
            (Phase::ActiveCheck, Observation::UserActive(active)) => {
                if active {
                    self.consecutive_mismatches = 0;
                    self.skip_cycle(no_logs())
                } else {
                    self.enter_monitoring(no_logs())
                }
            },
            (Phase::MonitoringCheck, Observation::Monitoring(enabled)) => {
                let logs = if enabled != self.was_enabled {
                    if enabled { one_log(LoopLog::MonitoringResumed) } else { one_log(LoopLog::MonitoringPaused) }
                } else {
                    no_logs()
                };
                self.was_enabled = enabled;
                if !enabled {
                    self.consecutive_mismatches = 0;
                    self.skip_cycle(logs)
                } else {
                    self.enter_count(logs)
                }
            },
            (Phase::CountCheck, Observation::MonitorCount(r)) => match r {
                Ok(n) => {
                    if n <= 1 {
                        self.consecutive_mismatches = 0;
                        self.skip_cycle(no_logs())
                    } else {
                        self.ask(Phase::TopologyCheck, Request::ReadTopology { via_agent: false }, no_logs())
                    }
                },
                Err(e) => self.skip_cycle(one_log(LoopLog::MonitorCountFailed(e))),
            },
            (Phase::TopologyCheck, Observation::Topology { target, reading }) => {
                let (current, mut logs) = read_current(reading);
                match current {
                    Ok(c) => {
                        if !c.same_as(&target) {
                            let count = self.consecutive_mismatches + 1;
                            push_log(&mut logs, LoopLog::Mismatch { count, current: c, target: target.clone() });
                            let req = self.apply_request(&target);
                            self.consecutive_mismatches = count;
                            self.pending = Some(target);
                            self.ask(Phase::Applying, req, logs)
                        } else if self.consecutive_mismatches > 0 {
                            push_log(&mut logs, LoopLog::MatchesAgain { target, mismatches: self.consecutive_mismatches });
                            self.consecutive_mismatches = 0;
                            self.finish_cycle(logs, false)
                        } else {
                            self.finish_cycle(logs, false)
                        }
                    },
                    Err(e) => {
                        push_log(&mut logs, LoopLog::TopologyReadFailed(e));
                        self.finish_cycle(logs, false)
                    },
                }
            },
            (Phase::Applying, Observation::Applied(reading)) => {
                match self.pending.take() {
                    Some(target) => {
                        let arg = topology_to_mode_str(&target);
                        let (res, mut logs) = applied_result(reading, &arg);
                        match res {
                            Ok(()) => {
                                push_log(&mut logs, LoopLog::Corrected(target));
                                self.finish_cycle(logs, true)
                            },
                            Err(e) => {
                                push_log(&mut logs, LoopLog::CorrectionFailed(e));
                                self.finish_cycle(logs, false)
                            },
                        }
                    },
                    None => self.skip_cycle(no_logs()),
                }
            },
            _ => {
                let req = self.pending_request();
                StepOutput { request: req, logs: no_logs(), refresh_tray: false }
            },
        }
    }
}

// ---------------------------------------------------------------- laws

/// Every step keeps the loop's invariant.
pub proof fn lemma_step_keeps_wf(s: LoopView, o: ObservationView)
    requires
        s.wf(),
    ensures
        transition(s, o).0.wf(),
{
}

/// The loop only ever asks to switch to the target it was handed with the
/// last topology reading, and only when that reading showed a different
/// topology (or when it asks again for a switch already under way).
pub proof fn lemma_switch_only_to_target(s: LoopView, o: ObservationView)
    requires
        s.wf(),
    ensures
        transition(s, o).1.request matches RequestView::ApplyTopology { mode, .. } ==> {
            ||| (o matches ObservationView::Topology { target, reading } && mode == target
                && read_outcome(reading).0 != Ok::<ModeView, ReadErrorView>(target)
                && read_outcome(reading).0 is Ok)
            ||| (s.phase == Phase::Applying && s.pending == Some(mode))
        },
{
}

/// In tray mode, a cycle on an unlocked screen with monitoring enabled and
/// several displays, whose reading differs from the target, switches the
/// system back to the target; once that succeeds the tray is told to refresh.
pub proof fn lemma_tray_cycle_reverts(s: LoopView, n: u32, target: ModeView, current: ModeView)
    requires
        s.wf(),
        !s.service_mode,
        !s.session0_only,
        s.phase == Phase::Idle,
        s.consecutive_mismatches < u32::MAX,
        n >= 2,
        current != target,
    ensures
        ({
            let (s1, r1) = transition(s, ObservationView::Ticked);
            let (s2, r2) = transition(s1, ObservationView::ScreenLocked(false));
            let (s3, r3) = transition(s2, ObservationView::Monitoring(true));
            let (s4, r4) = transition(s3, ObservationView::MonitorCount(Ok(n)));
            let (s5, r5) = transition(s4, ObservationView::Topology {
                target,
                reading: TopologyReadingView::Local(Ok(current)),
            });
            let (s6, r6) = transition(s5, ObservationView::Applied(ApplyReadingView::Local(Ok(()))));
            &&& r1.request == RequestView::CheckScreenLocked
            &&& r2.request == RequestView::ReadMonitoring
            &&& r3.request == RequestView::CountMonitors
            &&& r4.request == (RequestView::ReadTopology { via_agent: false })
            &&& r5.request == (RequestView::ApplyTopology { mode: target, agent_arg: None })
            &&& r6.request == RequestView::WaitTick
            &&& r6.refresh_tray
            &&& r6.logs.contains(LogView::Corrected(target))
            &&& s6.phase == Phase::Idle
        }),
{
    let (s1, r1) = transition(s, ObservationView::Ticked);
    let (s2, r2) = transition(s1, ObservationView::ScreenLocked(false));
    let (s3, r3) = transition(s2, ObservationView::Monitoring(true));
    let (s4, r4) = transition(s3, ObservationView::MonitorCount(Ok(n)));
    let (s5, r5) = transition(s4, ObservationView::Topology {
        target,
        reading: TopologyReadingView::Local(Ok(current)),
    });
    let (s6, r6) = transition(s5, ObservationView::Applied(ApplyReadingView::Local(Ok(()))));
    let (res, logs) = apply_outcome(ApplyReadingView::Local(Ok(())), mode_text(target));
    assert(logs.push(LogView::Corrected(target))[logs.len() as int] == LogView::Corrected(target));
    if ((s5.heartbeat_counter + 1) % 256) as u8 >= 12 {
        assert(r6.logs[0] == LogView::Corrected(target));
    } else {
        assert(r6.logs[0] == LogView::Corrected(target));
    }
}

/// In service mode, when no tray holds the session, a cycle whose agent
/// reports a topology other than the target asks the agent to `set` the
/// target, naming it as the agent protocol does.
pub proof fn lemma_service_cycle_reverts(s: LoopView, output: Seq<char>, target: ModeView)
    requires
        s.wf(),
        s.service_mode,
        !s.session0_only,
        s.phase == Phase::Idle,
        s.consecutive_mismatches < u32::MAX,
        parsed_mode(spec_trim(output)) matches Some(c) && c != target,
    ensures
        ({
            let (s1, r1) = transition(s, ObservationView::Ticked);
            let (s2, r2) = transition(s1, ObservationView::TrayPresent(false));
            let (s3, r3) = transition(s2, ObservationView::Monitoring(true));
            let (s4, r4) = transition(s3, ObservationView::Topology {
                target,
                reading: TopologyReadingView::Agent(Ok(output)),
            });
            &&& r1.request == RequestView::CheckTrayPresent
            &&& r2.request == RequestView::ReadMonitoring
            &&& r3.request == (RequestView::ReadTopology { via_agent: true })
            &&& r4.request == (RequestView::ApplyTopology { mode: target, agent_arg: Some(mode_text(target)) })
            &&& s4.consecutive_mismatches == s.consecutive_mismatches + 1
        }),
{
}

/// The service steps back while a tray instance holds the session and its
/// user is actively on the desktop: it asks for nothing but the next tick.
pub proof fn lemma_service_yields_to_tray(s: LoopView)
    requires
        s.service_mode,
        s.phase == Phase::YieldCheck,
    ensures
        transition(s, ObservationView::UserActive(true)).1.request == RequestView::WaitTick,
        transition(s, ObservationView::UserActive(true)).0.phase == Phase::Idle,
        !transition(s, ObservationView::UserActive(true)).0.was_enabled,
{
}

/// With monitoring disabled the cycle ends at once and the mismatch count
/// is cleared; with the screen locked the tray pauses the same way.
pub proof fn lemma_disabled_or_locked_skips(s: LoopView)
    ensures
        s.phase == Phase::MonitoringCheck ==> {
            let (s1, r1) = transition(s, ObservationView::Monitoring(false));
            &&& r1.request == RequestView::WaitTick
            &&& s1.phase == Phase::Idle
            &&& s1.consecutive_mismatches == 0
        },
        s.phase == Phase::LockCheck ==> {
            let (s1, r1) = transition(s, ObservationView::ScreenLocked(true));
            &&& r1.request == RequestView::WaitTick
            &&& s1.phase == Phase::Idle
            &&& s1.consecutive_mismatches == 0
        },
{
}

/// A reading that matches the target completes the cycle and clears the
/// count of consecutive mismatches.
pub proof fn lemma_match_clears_mismatches(s: LoopView, target: ModeView)
    requires
        s.phase == Phase::TopologyCheck,
    ensures
        ({
            let (s1, r1) = transition(s, ObservationView::Topology {
                target,
                reading: TopologyReadingView::Local(Ok(target)),
            });
            &&& s1.consecutive_mismatches == 0
            &&& s1.phase == Phase::Idle
            &&& r1.request == RequestView::WaitTick
        }),
{
}

/// The heartbeat is logged on exactly every twelfth completed cycle.
pub proof fn lemma_heartbeat_every_twelve(s: LoopView, logs: Seq<LogView>, refresh: bool)
    requires
        s.wf(),
    ensures
        finish_cycle(s, logs, refresh).1.logs.len() == logs.len() + (if s.heartbeat_counter == 11 { 1int } else { 0int }),
        finish_cycle(s, logs, refresh).0.heartbeat_counter == (if s.heartbeat_counter == 11 { 0 } else { s.heartbeat_counter + 1 }),
{
}

/// A failed switch is not given up: the cycle ends, the mismatch count is
/// kept, and the next cycle that finds the system still off target asks for
/// the same switch again, counting one more mismatch.
pub proof fn lemma_failed_switch_is_retried(s: LoopView, target: ModeView, e: Seq<char>, n: u32, current: ModeView)
    requires
        s.wf(),
        !s.service_mode,
        !s.session0_only,
        s.phase == Phase::Applying,
        s.pending == Some(target),
        s.consecutive_mismatches < u32::MAX - 1,
        n >= 2,
        current != target,
    ensures
        ({
            let (s1, r1) = transition(s, ObservationView::Applied(ApplyReadingView::Local(Err(e))));
            let (s2, _) = transition(s1, ObservationView::Ticked);
            let (s3, _) = transition(s2, ObservationView::ScreenLocked(false));
            let (s4, _) = transition(s3, ObservationView::Monitoring(true));
            let (s5, _) = transition(s4, ObservationView::MonitorCount(Ok(n)));
            let (s6, r6) = transition(s5, ObservationView::Topology {
                target,
                reading: TopologyReadingView::Local(Ok(current)),
            });
            &&& !r1.refresh_tray
            &&& s1.phase == Phase::Idle
            &&& s1.consecutive_mismatches == s.consecutive_mismatches
            &&& r6.request == (RequestView::ApplyTopology { mode: target, agent_arg: None })
            &&& s6.consecutive_mismatches == s.consecutive_mismatches + 1
        }),
{
}


/// An answer that ends the cycle without a switch: the user is actively on
/// the desktop (the service yields to the tray, or session-0-only steps
/// back), the screen is locked (tray), monitoring is disabled, or the
/// monitor count failed or found at most one display (tray).
pub open spec fn skip_answer(p: Phase, o: ObservationView) -> bool {
    match (p, o) {
        (Phase::YieldCheck, ObservationView::UserActive(active)) => active,
        (Phase::LockCheck, ObservationView::ScreenLocked(locked)) => locked,
        (Phase::ActiveCheck, ObservationView::UserActive(active)) => active,
        (Phase::MonitoringCheck, ObservationView::Monitoring(enabled)) => !enabled,
        (Phase::CountCheck, ObservationView::MonitorCount(r)) => match r {
            Ok(n) => n <= 1,
            Err(_) => true,
        },
        _ => false,
    }
}

/// The order of the checks within a cycle.
pub open spec fn phase_rank(p: Phase) -> int {
    match p {
        Phase::Idle => 0,
        Phase::TrayCheck => 1,
        Phase::YieldCheck => 2,
        Phase::LockCheck => 3,
        Phase::DesktopCheck => 4,
        Phase::ActiveCheck => 5,
        Phase::MonitoringCheck => 6,
        Phase::CountCheck => 7,
        Phase::TopologyCheck => 8,
        Phase::Applying => 9,
    }
}

/// The states that the loop goes through from `s` as it is handed `obs`:
/// `s` itself, then the state after each answer.
pub open spec fn run_states(s: LoopView, obs: Seq<ObservationView>) -> Seq<LoopView>
    decreases obs.len(),
{
    if obs.len() == 0 {
        seq![s]
    } else {
        let prev = run_states(s, obs.drop_last());
        prev.push(transition(prev.last(), obs.last()).0)
    }
}

/// What the loop asks after each answer, as it is handed `obs` from `s`.
pub open spec fn run_requests(s: LoopView, obs: Seq<ObservationView>) -> Seq<RequestView>
    decreases obs.len(),
{
    if obs.len() == 0 {
        seq![]
    } else {
        let prev = run_states(s, obs.drop_last());
        run_requests(s, obs.drop_last()).push(transition(prev.last(), obs.last()).1.request)
    }
}

proof fn lemma_run_shape(s: LoopView, obs: Seq<ObservationView>)
    ensures
        run_states(s, obs).len() == obs.len() + 1,
        run_requests(s, obs).len() == obs.len(),
        run_states(s, obs)[0] == s,
        forall|j: int| 0 <= j < obs.len() ==> {
            let (s1, r1) = transition(run_states(s, obs)[j], obs[j]);
            &&& #[trigger] run_states(s, obs)[j + 1] == s1
            &&& run_requests(s, obs)[j] == r1.request
        },
    decreases obs.len(),
{
    if obs.len() > 0 {
        let init = obs.drop_last();
        lemma_run_shape(s, init);
        assert forall|j: int| 0 <= j < obs.len() implies {
            let (s1, r1) = transition(run_states(s, obs)[j], obs[j]);
            &&& #[trigger] run_states(s, obs)[j + 1] == s1
            &&& run_requests(s, obs)[j] == r1.request
        } by {
            if j < obs.len() - 1 {
                assert(run_states(s, obs)[j] == run_states(s, init)[j]);
                assert(run_states(s, obs)[j + 1] == run_states(s, init)[j + 1]);
                assert(obs[j] == init[j]);
            }
        }
    }
}

/// Within a cycle the checks come in order: a step either ends the cycle or
/// moves on to the same or a later check; a switch is asked for only on the
/// way to `Applying`, and a skipping answer ends the cycle and asks only for
/// the next tick.
proof fn lemma_step_order(s: LoopView, o: ObservationView)
    requires
        s.wf(),
    ensures
        ({
            let (s1, r1) = transition(s, o);
            &&& s1.phase == Phase::Idle || phase_rank(s1.phase) >= phase_rank(s.phase)
            &&& s.phase == Phase::Idle && !(o is Ticked) ==> s1.phase == Phase::Idle
            &&& r1.request is ApplyTopology ==> s1.phase == Phase::Applying
            &&& skip_answer(s.phase, o) ==> s1.phase == Phase::Idle && r1.request == RequestView::WaitTick
            &&& skip_answer(s.phase, o) ==> 2 <= phase_rank(s.phase) <= 7
        }),
{
}

/// No switch in a skipped cycle: once a cycle has started (a tick in the
/// idle state), if any of its answers is one that skips the cycle (see
/// [`skip_answer`]), then nothing the loop asked in that cycle, up to and
/// including that answer, is a switch, and the loop is idle again after it.
pub proof fn lemma_skipped_cycle_never_switches(s: LoopView, obs: Seq<ObservationView>, k: int)
    requires
        s.wf(),
        s.phase == Phase::Idle,
        0 < k < obs.len(),
        obs[0] == ObservationView::Ticked,
        forall|j: int| 1 <= j <= k ==> (#[trigger] run_states(s, obs)[j]).phase != Phase::Idle,
        skip_answer(run_states(s, obs)[k].phase, obs[k]),
    ensures
        forall|j: int| 0 <= j <= k ==> !(#[trigger] run_requests(s, obs)[j] is ApplyTopology),
        run_states(s, obs)[k + 1].phase == Phase::Idle,
        run_requests(s, obs)[k] == RequestView::WaitTick,
{
    lemma_run_shape(s, obs);
    let st = run_states(s, obs);
    let rq = run_requests(s, obs);
    assert forall|j: int| 0 <= j <= k implies st[j].wf() by {
        lemma_states_wf(s, obs, j);
    }
    lemma_step_order(st[k], obs[k]);
    // Along the cycle the checks only move forward, so every state up to
    // the skipping answer stands at a check before the topology reading.
    assert forall|j: int| 1 <= j <= k implies phase_rank((#[trigger] st[j]).phase) <= phase_rank(st[k].phase) by {
        lemma_rank_bounded(s, obs, j, k);
    }
    assert forall|j: int| 0 <= j <= k implies !(#[trigger] rq[j] is ApplyTopology) by {
        lemma_step_order(st[j], obs[j]);
        if j < k {
            assert(phase_rank(st[j + 1].phase) <= phase_rank(st[k].phase));
        }
    }
}

proof fn lemma_states_wf(s: LoopView, obs: Seq<ObservationView>, j: int)
    requires
        s.wf(),
        0 <= j <= obs.len(),
    ensures
        run_states(s, obs)[j].wf(),
    decreases j,
{
    lemma_run_shape(s, obs);
    if j > 0 {
        lemma_states_wf(s, obs, j - 1);
        lemma_step_keeps_wf(run_states(s, obs)[j - 1], obs[j - 1]);
        assert(run_states(s, obs)[(j - 1) + 1] == transition(run_states(s, obs)[j - 1], obs[j - 1]).0);
    }
}

proof fn lemma_rank_bounded(s: LoopView, obs: Seq<ObservationView>, j: int, k: int)
    requires
        s.wf(),
        1 <= j <= k < obs.len(),
        forall|i: int| 1 <= i <= k ==> (#[trigger] run_states(s, obs)[i]).phase != Phase::Idle,
    ensures
        phase_rank(run_states(s, obs)[j].phase) <= phase_rank(run_states(s, obs)[k].phase),
    decreases k - j,
{
    lemma_run_shape(s, obs);
    if j < k {
        lemma_rank_bounded(s, obs, j + 1, k);
        lemma_states_wf(s, obs, j);
        lemma_step_order(run_states(s, obs)[j], obs[j]);
        assert(run_states(s, obs)[j + 1] == transition(run_states(s, obs)[j], obs[j]).0);
        assert(run_states(s, obs)[j + 1].phase != Phase::Idle);
    }
}


/// Session-0-only steps back only for a user who is actively on the
/// desktop: at the active-user check a "not active" answer (no user, or a
/// locked screen) never ends the cycle, whatever the desktop check found;
/// the loop goes on to read the monitoring flag. Only an active user ends
/// the cycle there.
pub proof fn lemma_session0_enforces_unless_active(s: LoopView)
    requires
        s.phase == Phase::ActiveCheck,
    ensures
        transition(s, ObservationView::UserActive(false)).1.request == RequestView::ReadMonitoring,
        transition(s, ObservationView::UserActive(false)).0.phase == Phase::MonitoringCheck,
        transition(s, ObservationView::UserActive(true)).1.request == RequestView::WaitTick,
        transition(s, ObservationView::UserActive(true)).0.phase == Phase::Idle,
{
}

/// With `--enforce-session0-only`, a cycle in which a user is logged on
/// (or not) but is not actively on the desktop, for instance behind a
/// locked screen, goes on to enforcement: in service mode with no tray
/// present, and in tray mode on an unlocked screen, the loop asks for the
/// monitoring flag next.
pub proof fn lemma_session0_locked_screen_enforces(s: LoopView, on_desktop: bool)
    requires
        s.phase == Phase::Idle,
        s.session0_only,
    ensures
        s.service_mode ==> {
            let (s1, _) = transition(s, ObservationView::Ticked);
            let (s2, _) = transition(s1, ObservationView::TrayPresent(false));
            let (s3, _) = transition(s2, ObservationView::UserOnDesktop(on_desktop));
            let (s4, r4) = transition(s3, ObservationView::UserActive(false));
            &&& r4.request == RequestView::ReadMonitoring
            &&& s4.phase == Phase::MonitoringCheck
        },
        !s.service_mode ==> {
            let (s1, _) = transition(s, ObservationView::Ticked);
            let (s2, _) = transition(s1, ObservationView::ScreenLocked(false));
            let (s3, _) = transition(s2, ObservationView::UserOnDesktop(on_desktop));
            let (s4, r4) = transition(s3, ObservationView::UserActive(false));
            &&& r4.request == RequestView::ReadMonitoring
            &&& s4.phase == Phase::MonitoringCheck
        },
{
}

} // verus!
