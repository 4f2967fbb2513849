//! Decisions about the Windows sessions: who is on the console, which
//! token the session agent runs with, how the agent and the detached
//! relaunch are started, and the tray's per-session mutex.
use vstd::prelude::*;
use crate::text::{
    spec_trim, trim_str, lowercase_text, to_lowercase_str, trim_char, trim_matches_char,
    eq_ascii_nocase, eq_ignore_ascii_case, str_equal, decimal, decimal_text, lemma_decimal_injective, contains_char,
    join_spaced, join_with_spaces, strings_view,
};

verus! {

/// `WTSGetActiveConsoleSessionId` when no session is attached to the console.
pub const NO_CONSOLE_SESSION: u32 = 0xFFFF_FFFF;

/// `WTS_SESSIONSTATE_LOCK`, the session flag of a locked session.
pub const SESSION_STATE_LOCK: i32 = 0;

/// `WTS_SESSIONSTATE_UNLOCK`, the session flag of an unlocked session.
pub const SESSION_STATE_UNLOCK: i32 = 1;

/// The console session is locked: there is one, its information was read,
/// and it is at level 1 with the lock flag.
pub open spec fn session_locked(session_id: u32, info: Option<(u32, i32)>) -> bool {
    session_id != NO_CONSOLE_SESSION && match info {
        Some((level, flags)) => level == 1 && flags == SESSION_STATE_LOCK,
        None => false,
    }
}

/// Whether the active console session is locked (Win+L). `info` is the
/// level and session flags of `WTSSessionInfoEx` for `session_id`, or
/// `None` when it could not be read; no session, or no answer, counts as
/// not locked.
pub fn is_active_console_session_locked(session_id: u32, info: Option<(u32, i32)>) -> (r: bool)
    ensures
        r == session_locked(session_id, info),
{
    if session_id == NO_CONSOLE_SESSION {
        return false;
    }
    match info {
        Some((level, flags)) => level == 1 && flags == SESSION_STATE_LOCK,
        None => false,
    }
}

/// What is known of the console session's lock.
#[derive(Debug, Clone, Copy, PartialEq, Eq, Structural)]
pub enum LockState {
    Locked,
    Unlocked,
    /// No console session, the query failed, or it gave no level-1 lock flag.
    Unknown,
}

/// The lock state that `WTSSessionInfoEx` reports: locked or unlocked only
/// when there is a session and its level-1 flags say so.
pub open spec fn lock_state_of(session_id: u32, info: Option<(u32, i32)>) -> LockState {
    if session_id == NO_CONSOLE_SESSION {
        LockState::Unknown
    } else {
        match info {
            Some((level, flags)) => if level == 1 && flags == SESSION_STATE_LOCK {
                LockState::Locked
            } else if level == 1 && flags == SESSION_STATE_UNLOCK {
                LockState::Unlocked
            } else {
                LockState::Unknown
            },
            None => LockState::Unknown,
        }
    }
}

/// Reads the lock state of the console session from what the query gave.
pub fn console_lock_state(session_id: u32, info: Option<(u32, i32)>) -> (r: LockState)
    ensures
        r == lock_state_of(session_id, info),
{
    if session_id == NO_CONSOLE_SESSION {
        return LockState::Unknown;
    }
    match info {
        Some((level, flags)) => {
            if level == 1 && flags == SESSION_STATE_LOCK {
                LockState::Locked
            } else if level == 1 && flags == SESSION_STATE_UNLOCK {
                LockState::Unlocked
            } else {
                LockState::Unknown
            }
        },
        None => LockState::Unknown,
    }
}

/// The user name of a session, cleaned: NULs and white space cut from both ends.
pub open spec fn clean_user_name(raw: Seq<char>) -> Seq<char> {
    spec_trim(trim_char(raw, '\0'))
}

/// A real user is logged on: the name is not empty and not `SYSTEM`.
pub open spec fn real_user(raw: Seq<char>) -> bool {
    let name = clean_user_name(raw);
    name.len() > 0 && !eq_ascii_nocase(name, "SYSTEM"@)
}

pub open spec fn opt_text(s: Option<String>) -> Option<Seq<char>> {
    match s {
        Some(x) => Some(x@),
        None => None,
    }
}

/// A real user is logged on to the console session.
pub open spec fn user_logged_on(session_id: u32, user_name: Option<Seq<char>>) -> bool {
    session_id != NO_CONSOLE_SESSION && match user_name {
        Some(n) => real_user(n),
        None => false,
    }
}

/// Whether a real user is logged on to the active console session.
/// `user_name` is the `WTSUserName` of `session_id` (decoded), or `None`
/// when the query failed or returned nothing; no session, no answer, an
/// empty name or `SYSTEM` (Winlogon, before logon) all count as no user.
pub fn is_user_on_desktop(session_id: u32, user_name: Option<String>) -> (r: bool)
    ensures
        r == user_logged_on(session_id, opt_text(user_name)),
{
    if session_id == NO_CONSOLE_SESSION {
        return false;
    }
    match user_name {
        Some(raw) => {
            let no_nul = trim_matches_char(raw.as_str(), '\0');
            let name = trim_str(no_nul.as_str());
            name.unicode_len() > 0 && !eq_ignore_ascii_case(name, "SYSTEM")
        },
        None => false,
    }
}

/// The user is actively on the desktop: logged on, and the screen is known
/// to be unlocked. A locked screen, or a lock state that could not be read,
/// means not active (enforcement goes on).
pub fn is_user_actively_on_desktop(user_on_desktop: bool, lock: LockState) -> (r: bool)
    ensures
        r == (user_on_desktop && lock == LockState::Unlocked),
{
    user_on_desktop && match lock {
        LockState::Unlocked => true,
        _ => false,
    }
}

// ------------------------------------------------------------ agent token

/// A process from the process snapshot.
pub struct SessionProcess {
    pub pid: u32,
    /// The session the process runs in, when it could be read.
    pub session_id: Option<u32>,
    /// The executable name (decoded, NULs still in place).
    pub exe_name: String,
}

pub struct ProcessView {
    pub pid: u32,
    pub session_id: Option<u32>,
    pub exe_name: Seq<char>,
}

impl View for SessionProcess {
    type V = ProcessView;

    open spec fn view(&self) -> ProcessView {
        ProcessView { pid: self.pid, session_id: self.session_id, exe_name: self.exe_name@ }
    }
}

pub open spec fn processes_view(ps: Seq<SessionProcess>) -> Seq<ProcessView> {
    ps.map_values(|p: SessionProcess| p@)
}

/// The executable name as compared: NULs cut, lowercased.
pub open spec fn exe_key(raw: Seq<char>) -> Seq<char> {
    lowercase_text(trim_char(raw, '\0'))
}

/// The pids of `explorer.exe` and `winlogon.exe` in `session_id` (0 for
/// none); when several match, the last one in the snapshot counts.
pub open spec fn session_shell_pids(ps: Seq<ProcessView>, session_id: u32) -> (u32, u32)
    decreases ps.len(),
{
    if ps.len() == 0 {
        (0, 0)
    } else {
        let (e, w) = session_shell_pids(ps.drop_last(), session_id);
        let p = ps.last();
        if p.session_id == Some(session_id) {
            let name = exe_key(p.exe_name);
            if name == "explorer.exe"@ {
                (p.pid, w)
            } else if name == "winlogon.exe"@ {
                (e, p.pid)
            } else {
                (e, w)
            }
        } else {
            (e, w)
        }
    }
}

/// Finds the shell (`explorer.exe`) and logon (`winlogon.exe`) processes of a session.
pub fn find_session_processes(ps: &Vec<SessionProcess>, session_id: u32) -> (r: (u32, u32))
    ensures
        r == session_shell_pids(processes_view(ps@), session_id),
{
    let ghost pv = processes_view(ps@);
    let mut explorer: u32 = 0;
    let mut winlogon: u32 = 0;
    let mut i: usize = 0;
    assert(pv.take(0) =~= Seq::<ProcessView>::empty());
    while i < ps.len()
        invariant
            i <= ps@.len(),
            pv == processes_view(ps@),
            pv.len() == ps@.len(),
            (explorer, winlogon) == session_shell_pids(pv.take(i as int), session_id),
        decreases ps@.len() - i,
    {
        let p = &ps[i];
        assert(pv.take(i + 1).drop_last() =~= pv.take(i as int));
        assert(pv.take(i + 1).last() == p@);
        let same = match p.session_id {
            Some(s) => s == session_id,
            None => false,
        };
        if same {
            let no_nul = trim_matches_char(p.exe_name.as_str(), '\0');
            let name = to_lowercase_str(no_nul.as_str());
            if str_equal(name.as_str(), "explorer.exe") {
                explorer = p.pid;
            } else if str_equal(name.as_str(), "winlogon.exe") {
                winlogon = p.pid;
            }
        }
        i = i + 1;
    }
    assert(pv.take(ps@.len() as int) =~= pv);
    (explorer, winlogon)
}

/// Whether the active desktop must be asked of the session itself: only
/// when the session is locked and both its shell and logon processes run
/// (a Windows 11 lock screen may show either desktop).
pub fn needs_desktop_query(session_locked: bool, explorer_pid: u32, winlogon_pid: u32) -> (r: bool)
    ensures
        r == (session_locked && winlogon_pid != 0 && explorer_pid != 0),
{
    session_locked && winlogon_pid != 0 && explorer_pid != 0
}

/// The process whose token the agent runs with, and whether that is the
/// logon process (whose agent goes to the Winlogon desktop).
pub open spec fn token_source(explorer_pid: u32, winlogon_pid: u32, active_is_winlogon: bool) -> Option<(u32, bool)> {
    if active_is_winlogon && winlogon_pid != 0 {
        Some((winlogon_pid, true))
    } else if explorer_pid != 0 {
        Some((explorer_pid, false))
    } else if winlogon_pid != 0 {
        Some((winlogon_pid, true))
    } else {
        None
    }
}

/// The in-session query reported the Winlogon desktop (in any ASCII case).
pub open spec fn winlogon_active(active_desktop: Option<Seq<char>>) -> bool {
    match active_desktop {
        Some(d) => eq_ascii_nocase(d, "Winlogon"@),
        None => false,
    }
}

/// Chooses the token source. `active_desktop` is the name the in-session
/// query reported (only asked when [`needs_desktop_query`]); the Winlogon
/// desktop is active when that name is `Winlogon` in any ASCII case. `None`
/// is "No suitable process found in session".
pub fn choose_token_source(explorer_pid: u32, winlogon_pid: u32, active_desktop: Option<String>) -> (r: Option<(u32, bool)>)
    ensures
        r == token_source(explorer_pid, winlogon_pid, winlogon_active(opt_text(active_desktop))),
{
    let active_is_winlogon = match active_desktop {
        Some(d) => eq_ignore_ascii_case(d.as_str(), "Winlogon"),
        None => false,
    };
    if active_is_winlogon && winlogon_pid != 0 {
        Some((winlogon_pid, true))
    } else if explorer_pid != 0 {
        Some((explorer_pid, false))
    } else if winlogon_pid != 0 {
        Some((winlogon_pid, true))
    } else {
        None
    }
}

/// The desktop name that the in-session query printed: its trimmed output,
/// or `Default` when that is empty.
pub open spec fn reported_desktop(output: Seq<char>) -> Seq<char> {
    if spec_trim(output).len() == 0 { "Default"@ } else { spec_trim(output) }
}

/// Reads the desktop name out of the query's output.
pub fn desktop_name_from_output(output: &str) -> (r: String)
    ensures
        r@ == reported_desktop(output@),
{
    let t = trim_str(output);
    if t.unicode_len() == 0 {
        String::from_str("Default")
    } else {
        String::from_str(t)
    }
}

/// The window-station desktop the agent is started on.
pub fn agent_desktop(is_winlogon: bool) -> (r: String)
    ensures
        r@ == (if is_winlogon { "winsta0\\winlogon"@ } else { "winsta0\\default"@ }),
{
    if is_winlogon {
        String::from_str("winsta0\\winlogon")
    } else {
        String::from_str("winsta0\\default")
    }
}

/// The arguments, each after a space.
pub open spec fn spaced_args(args: Seq<Seq<char>>) -> Seq<char>
    decreases args.len(),
{
    if args.len() == 0 {
        Seq::empty()
    } else {
        spaced_args(args.drop_last()) + " "@ + args.last()
    }
}

/// The agent's command line: the quoted executable, `agent`, then the
/// arguments, each after a space, as they are.
pub open spec fn agent_command_text(exe: Seq<char>, args: Seq<Seq<char>>) -> Seq<char> {
    "\""@ + exe + "\" agent"@ + spaced_args(args)
}

/// Builds the command line of the session agent.
pub fn agent_command_line(exe_path: &str, args: &Vec<String>) -> (r: String)
    ensures
        r@ == agent_command_text(exe_path@, strings_view(args@)),
{
    let ghost av = strings_view(args@);
    let mut cmd = String::from_str("\"");
    cmd.append(exe_path);
    cmd.append("\" agent");
    let mut i: usize = 0;
    assert(av.take(0) =~= Seq::<Seq<char>>::empty());
    while i < args.len()
        invariant
            i <= args@.len(),
            av == strings_view(args@),
            av.len() == args@.len(),
            cmd@ == "\""@ + exe_path@ + "\" agent"@ + spaced_args(av.take(i as int)),
        decreases args@.len() - i,
    {
        assert(av.take(i + 1).drop_last() =~= av.take(i as int));
        assert(av.take(i + 1).last() == args@[i as int]@);
        let ghost before = cmd@;
        cmd.append(" ");
        cmd.append(args[i].as_str());
        assert(cmd@ =~= "\""@ + exe_path@ + "\" agent"@ + spaced_args(av.take(i + 1)));
        i = i + 1;
    }
    assert(av.take(args@.len() as int) =~= av);
    cmd
}

/// An argument of the relaunched command line: quoted when it holds a space.
pub open spec fn relaunch_arg(a: Seq<char>) -> Seq<char> {
    if a.contains(' ') { "\""@ + a + "\""@ } else { a }
}

/// The pieces of the detached relaunch's command line: the quoted
/// executable, the arguments, and the `--relaunched` marker that keeps the
/// new process from relaunching again.
pub open spec fn relaunch_parts(exe: Seq<char>, args: Seq<Seq<char>>) -> Seq<Seq<char>> {
    seq!["\""@ + exe + "\""@] + args.map_values(|a: Seq<char>| relaunch_arg(a)) + seq!["--relaunched"@]
}

/// Builds the command line of the detached relaunch.
pub fn detached_command_line(exe_path: &str, args: &Vec<String>) -> (r: String)
    ensures
        r@ == join_spaced(relaunch_parts(exe_path@, strings_view(args@))),
{
    let ghost av = strings_view(args@);
    let mut parts: Vec<String> = Vec::new();
    let mut first = String::from_str("\"");
    first.append(exe_path);
    first.append("\"");
    parts.push(first);
    let mut i: usize = 0;
    while i < args.len()
        invariant
            i <= args@.len(),
            av == strings_view(args@),
            av.len() == args@.len(),
            strings_view(parts@) == seq!["\""@ + exe_path@ + "\""@] + av.take(i as int).map_values(|a: Seq<char>| relaunch_arg(a)),
        decreases args@.len() - i,
    {
        let a = &args[i];
        let piece = if contains_char(a.as_str(), ' ') {
            let mut q = String::from_str("\"");
            q.append(a.as_str());
            q.append("\"");
            q
        } else {
            a.clone()
        };
        let ghost before = parts@;
        parts.push(piece);
        assert(av[i as int] == a@);
        assert(strings_view(parts@) =~= strings_view(before).push(relaunch_arg(a@)));
        assert(av.take(i + 1).map_values(|a: Seq<char>| relaunch_arg(a)) =~= av.take(i as int).map_values(|a: Seq<char>| relaunch_arg(a)).push(relaunch_arg(av[i as int])));
        i = i + 1;
    }
    let ghost before = parts@;
    parts.push(String::from_str("--relaunched"));
    assert(strings_view(parts@) =~= strings_view(before).push("--relaunched"@));
    assert(av.take(args@.len() as int) =~= av);
    assert(strings_view(parts@) =~= relaunch_parts(exe_path@, av));
    join_with_spaces(&parts)
}

/// Whether a tray start should relaunch itself detached from its console:
/// not when already relaunched, not as a service, not with a visible
/// console, and not for an agent command.
pub fn should_relaunch_detached(relaunched: bool, service: bool, show_console: bool, has_command: bool) -> (r: bool)
    ensures
        r == (!relaunched && !service && !show_console && !has_command),
{
    !relaunched && !service && !show_console && !has_command
}

// ------------------------------------------------------------ process setup

/// The priority classes a process can be given.
#[derive(Debug, Clone, Copy, PartialEq, Eq, Structural)]
pub enum ProcessPriority {
    Idle,
    BelowNormal,
    Normal,
    AboveNormal,
    High,
    /// Needs administrator rights.
    Realtime,
}

/// The `PROCESS_CREATION_FLAGS` value of each priority class, as
/// `SetPriorityClass` takes it.
pub open spec fn priority_class_value(p: ProcessPriority) -> u32 {
    match p {
        ProcessPriority::Idle => 0x40,
        ProcessPriority::BelowNormal => 0x4000,
        ProcessPriority::Normal => 0x20,
        ProcessPriority::AboveNormal => 0x8000,
        ProcessPriority::High => 0x80,
        ProcessPriority::Realtime => 0x100,
    }
}

impl ProcessPriority {
    /// The Windows priority class (`IDLE_PRIORITY_CLASS` and so on).
    pub fn to_windows_priority(&self) -> (r: u32)
        ensures
            r == priority_class_value(*self),
    {
        match self {
            ProcessPriority::Idle => 0x40,
            ProcessPriority::BelowNormal => 0x4000,
            ProcessPriority::Normal => 0x20,
            ProcessPriority::AboveNormal => 0x8000,
            ProcessPriority::High => 0x80,
            ProcessPriority::Realtime => 0x100,
        }
    }
}

/// The priority the program runs with.
pub fn startup_priority() -> (r: ProcessPriority)
    ensures
        r == ProcessPriority::High,
{
    ProcessPriority::High
}

/// What the start-up process settings log, given which of them took effect:
/// the shutdown level (logged only when set), the high priority (logged
/// either way), and the hidden console (when asked for).
pub open spec fn process_setup_logs(hide_console_flag: bool, shutdown_params_set: bool, priority_set: bool) -> Seq<Seq<char>> {
    let a: Seq<Seq<char>> = if shutdown_params_set {
        seq!["Process: Shutdown parameters set to 0x3FF (last to terminate)"@]
    } else {
        seq![]
    };
    let b = if priority_set {
        a.push("Process: Priority set to High"@)
    } else {
        a.push("Process: Failed to set priority (silently continuing)"@)
    };
    if hide_console_flag { b.push("Process: Console window hidden"@) } else { b }
}

/// The log lines of the start-up process settings.
pub fn init_process_settings(hide_console_flag: bool, shutdown_params_set: bool, priority_set: bool) -> (r: Vec<String>)
    ensures
        strings_view(r@) == process_setup_logs(hide_console_flag, shutdown_params_set, priority_set),
{
    let mut logs: Vec<String> = Vec::new();
    if shutdown_params_set {
        logs.push(String::from_str("Process: Shutdown parameters set to 0x3FF (last to terminate)"));
    }
    if priority_set {
        logs.push(String::from_str("Process: Priority set to High"));
    } else {
        logs.push(String::from_str("Process: Failed to set priority (silently continuing)"));
    }
    if hide_console_flag {
        logs.push(String::from_str("Process: Console window hidden"));
    }
    assert(strings_view(logs@) =~= process_setup_logs(hide_console_flag, shutdown_params_set, priority_set));
    logs
}

// ------------------------------------------------------------ the tray's mutex

/// How long a new tray waits for an old one to let go of the mutex.
pub const MUTEX_WAIT_TIMEOUT_MS: u32 = 5000;

/// The name of the tray's mutex for a session.
pub open spec fn tray_mutex_text(session_id: u32) -> Seq<char> {
    "Global\\MonitorTray_"@ + decimal_text(session_id as nat)
}

pub fn tray_mutex_name(session_id: u32) -> (r: String)
    ensures
        r@ == tray_mutex_text(session_id),
{
    let n = decimal(session_id as u64);
    String::from_str("Global\\MonitorTray_").concat(n.as_str())
}

/// The session a tray belongs to: its own process's session, else (should
/// that not be readable) the active console session.
pub fn tray_session_id(own_session: Option<u32>, active_console_session: u32) -> (r: u32)
    ensures
        r == (match own_session {
            Some(s) => s,
            None => active_console_session,
        }),
{
    match own_session {
        Some(s) => s,
        None => active_console_session,
    }
}

/// Whether waiting on an existing mutex gave this tray its ownership:
/// `WAIT_OBJECT_0` (released) or `WAIT_ABANDONED` (its owner exited).
pub fn mutex_acquired(wait_result: u32) -> (r: bool)
    ensures
        r == (wait_result == 0 || wait_result == 0x80),
{
    wait_result == 0 || wait_result == 0x80
}

/// `E_ACCESSDENIED` as an `HRESULT`.
pub const HRESULT_ACCESS_DENIED: i32 = -2147024891;

/// Whether a tray holds the session, from the result of opening its mutex:
/// it does when the mutex opened, and also when opening it was denied (the
/// mutex exists, but the service may not touch it).
pub fn tray_present(open_result: Result<(), i32>) -> (r: bool)
    ensures
        r == (match open_result {
            Ok(_) => true,
            Err(code) => code == HRESULT_ACCESS_DENIED,
        }),
{
    match open_result {
        Ok(()) => true,
        Err(code) => code == HRESULT_ACCESS_DENIED,
    }
}

/// The error of a tray that found another one running in its session.
pub open spec fn tray_conflict_text(session_id: u32) -> Seq<char> {
    "Another tray instance is running in Session "@ + decimal_text(session_id as nat) + " (wait timeout "@
        + decimal_text(MUTEX_WAIT_TIMEOUT_MS as nat) + "ms)"@
}

pub fn tray_conflict_message(session_id: u32) -> (r: String)
    ensures
        r@ == tray_conflict_text(session_id),
{
    let mut m = String::from_str("Another tray instance is running in Session ");
    let sid = decimal(session_id as u64);
    m.append(sid.as_str());
    m.append(" (wait timeout ");
    let t = decimal(MUTEX_WAIT_TIMEOUT_MS as u64);
    m.append(t.as_str());
    m.append("ms)");
    m
}

// ------------------------------------------------------------ laws

/// The detached relaunch always carries `--relaunched` last, and a start
/// that carries it never relaunches again: the relaunch cannot loop.
pub proof fn lemma_relaunch_once(exe: Seq<char>, args: Seq<Seq<char>>, service: bool, show_console: bool, has_command: bool)
    ensures
        relaunch_parts(exe, args).last() == "--relaunched"@,
        relaunch_parts(exe, args).len() == args.len() + 2,
{
}

/// The agent runs with the logon process's token only when there is one and
/// either the Winlogon desktop is active or no shell process runs; a shell
/// process otherwise always wins.
pub proof fn lemma_token_source(explorer_pid: u32, winlogon_pid: u32, active_is_winlogon: bool)
    ensures
        token_source(explorer_pid, winlogon_pid, active_is_winlogon) matches Some((pid, is_logon)) ==> {
            &&& pid != 0
            &&& is_logon <==> pid == winlogon_pid && (active_is_winlogon || explorer_pid == 0)
            &&& !is_logon ==> pid == explorer_pid
        },
        token_source(explorer_pid, winlogon_pid, active_is_winlogon) is None <==> explorer_pid == 0 && winlogon_pid == 0,
        explorer_pid != 0 && !active_is_winlogon ==> token_source(explorer_pid, winlogon_pid, active_is_winlogon) == Some((explorer_pid, false)),
{
}

/// The tray and the service meet on one name: the tray's mutex name for a
/// session is the name the service looks for exactly when both mean the
/// same session.
pub proof fn lemma_tray_mutex_names(a: u32, b: u32)
    ensures
        tray_mutex_text(a) == tray_mutex_text(b) <==> a == b,
{
    if tray_mutex_text(a) == tray_mutex_text(b) {
        let p = "Global\\MonitorTray_"@;
        assert(tray_mutex_text(a).skip(p.len() as int) =~= decimal_text(a as nat));
        assert(tray_mutex_text(b).skip(p.len() as int) =~= decimal_text(b as nat));
        lemma_decimal_injective(a as nat, b as nat);
    }
}

/// The user is actively on the desktop: a real user is logged on to the
/// console session and its screen is known to be unlocked.
pub open spec fn actively_on_desktop(session_id: u32, user_name: Option<Seq<char>>, info: Option<(u32, i32)>) -> bool {
    user_logged_on(session_id, user_name) && lock_state_of(session_id, info) == LockState::Unlocked
}

/// The session-0-only table: enforcement steps back only for a real user
/// on a screen known to be unlocked. No console session, a failed user
/// query, an empty name or `SYSTEM` (in any case) mean no user; a locked
/// screen, or a lock query that failed, means the user is not active,
/// whoever is logged on.
pub proof fn lemma_session0_table(session_id: u32, raw: Seq<char>, info: Option<(u32, i32)>)
    ensures
        !user_logged_on(session_id, None),
        !user_logged_on(NO_CONSOLE_SESSION, Some(raw)),
        !actively_on_desktop(NO_CONSOLE_SESSION, Some(raw), info),
        !actively_on_desktop(session_id, None, info),
        !actively_on_desktop(session_id, Some(raw), None),
        clean_user_name(raw).len() == 0 ==> !actively_on_desktop(session_id, Some(raw), info),
        eq_ascii_nocase(clean_user_name(raw), "SYSTEM"@) ==> !actively_on_desktop(session_id, Some(raw), info),
        session_locked(session_id, info) ==> !actively_on_desktop(session_id, Some(raw), info),
        user_logged_on(session_id, Some(raw)) && info == Some((1u32, SESSION_STATE_UNLOCK))
            ==> actively_on_desktop(session_id, Some(raw), info),
        lock_state_of(session_id, info) == LockState::Locked <==> session_locked(session_id, info),
{
}


/// The agent runs where the user's screen is: when the in-session query
/// reports the Winlogon desktop (`Winlogon` in any ASCII case) and the
/// session has a `winlogon.exe`, the agent gets winlogon's token on the
/// Winlogon desktop; when it reports `Default` and the session has an
/// `explorer.exe`, the agent gets explorer's token on the default desktop.
pub proof fn lemma_token_follows_reported_desktop(explorer_pid: u32, winlogon_pid: u32, d: Seq<char>)
    ensures
        winlogon_pid != 0 && eq_ascii_nocase(d, "Winlogon"@)
            ==> token_source(explorer_pid, winlogon_pid, winlogon_active(Some(d))) == Some((winlogon_pid, true)),
        winlogon_pid != 0 && d == "Winlogon"@
            ==> token_source(explorer_pid, winlogon_pid, winlogon_active(Some(d))) == Some((winlogon_pid, true)),
        explorer_pid != 0 && d == "Default"@
            ==> token_source(explorer_pid, winlogon_pid, winlogon_active(Some(d))) == Some((explorer_pid, false)),
{
    reveal_strlit("Winlogon");
    reveal_strlit("Default");
    if d == "Winlogon"@ {
        assert(eq_ascii_nocase(d, "Winlogon"@));
    }
    if d == "Default"@ {
        assert(!eq_ascii_nocase(d, "Winlogon"@));
    }
}

} // verus!
