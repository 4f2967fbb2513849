//! The program's shared state and the decisions of its command line, its
//! web API, its service control handler and its embedded web pages.
use vstd::prelude::*;
use crate::text::{spec_trim, trim_str, trim_start_char, trim_start_char_str};
use crate::topology::{ModeView, TopologyMode};

verus! {

/// The version the program reports.
pub open spec fn version_text() -> Seq<char> {
    "V0.2.0"@
}

pub fn version() -> (r: String)
    ensures
        r@ == version_text(),
{
    String::from_str("V0.2.0")
}

/// A mode that the command line's `--mode` accepts.
#[derive(Debug, Clone, Copy, PartialEq, Eq, Structural)]
pub enum ModeArg {
    Clone,
    Extend,
    Internal,
    External,
}

pub open spec fn mode_arg_view(m: ModeArg) -> ModeView {
    match m {
        ModeArg::Clone => ModeView::Clone,
        ModeArg::Extend => ModeView::Extend,
        ModeArg::Internal => ModeView::Internal,
        ModeArg::External => ModeView::External,
    }
}

impl From<ModeArg> for TopologyMode {
    fn from(mode: ModeArg) -> (r: TopologyMode) {
        match mode {
            ModeArg::Clone => TopologyMode::Clone,
            ModeArg::Extend => TopologyMode::Extend,
            ModeArg::Internal => TopologyMode::Internal,
            ModeArg::External => TopologyMode::External,
        }
    }
}

impl vstd::std_specs::convert::FromSpecImpl<ModeArg> for TopologyMode {
    open spec fn obeys_from_spec() -> bool {
        true
    }

    open spec fn from_spec(mode: ModeArg) -> TopologyMode {
        match mode {
            ModeArg::Clone => TopologyMode::Clone,
            ModeArg::Extend => TopologyMode::Extend,
            ModeArg::Internal => TopologyMode::Internal,
            ModeArg::External => TopologyMode::External,
        }
    }
}

/// The mode named by a `--mode` argument.
pub fn mode_from_arg(mode: ModeArg) -> (r: TopologyMode)
    ensures
        r@ == mode_arg_view(mode),
{
    TopologyMode::from(mode)
}

/// The mode the program starts with: the one given on the command line,
/// else the system's current one, else Clone.
pub fn resolve_initial_mode(cli_mode: Option<ModeArg>, system_mode: Option<TopologyMode>) -> (r: TopologyMode)
    ensures
        r@ == (match cli_mode {
            Some(m) => mode_arg_view(m),
            None => match system_mode {
                Some(s) => s@,
                None => ModeView::Clone,
            },
        }),
{
    match cli_mode {
        Some(m) => mode_from_arg(m),
        None => match system_mode {
            Some(s) => s,
            None => TopologyMode::Clone,
        },
    }
}

/// The state shared by the enforcement loop, the tray, the hotkeys and the web API.
pub struct AppState {
    /// The target mode: what the user last chose through this program.
    pub current_mode: TopologyMode,
    /// Whether runtime monitoring (enforcement) is on.
    pub monitoring_enabled: bool,
    /// The mode the program started with.
    pub initial_mode: TopologyMode,
    /// The enforcement interval in seconds.
    pub interval_seconds: u64,
    /// The service yields to a tray instance of the active session.
    pub yield_to_tray_instance: bool,
    /// The tray should refresh its menu and tooltip.
    pub force_refresh: bool,
    /// The service enforces only while no user is actively on the desktop.
    pub enforce_session0_only: bool,
}

impl AppState {
    /// The state at start: the target is the initial mode, monitoring is on
    /// unless disabled, and only a service yields to a tray.
    pub fn new(initial_mode: TopologyMode, interval_seconds: u64, service: bool, no_enforce: bool, enforce_session0_only: bool) -> (r: AppState)
        ensures
            r.current_mode@ == initial_mode@,
            r.initial_mode@ == initial_mode@,
            r.monitoring_enabled == !no_enforce,
            r.interval_seconds == interval_seconds,
            r.yield_to_tray_instance == service,
            !r.force_refresh,
            r.enforce_session0_only == enforce_session0_only,
    {
        AppState {
            current_mode: initial_mode.clone(),
            monitoring_enabled: !no_enforce,
            initial_mode,
            interval_seconds,
            yield_to_tray_instance: service,
            force_refresh: false,
            enforce_session0_only,
        }
    }

    /// A mode requested through the web API becomes the target at once, and
    /// the tray is told to refresh: the request is the user's intent, so the
    /// enforcement loop must not undo it.
    pub fn request_mode(&mut self, mode: &TopologyMode)
        ensures
            final(self).current_mode@ == mode@,
            final(self).force_refresh,
            final(self).monitoring_enabled == old(self).monitoring_enabled,
            final(self).initial_mode == old(self).initial_mode,
            final(self).interval_seconds == old(self).interval_seconds,
            final(self).yield_to_tray_instance == old(self).yield_to_tray_instance,
            final(self).enforce_session0_only == old(self).enforce_session0_only,
    {
        self.current_mode = mode.clone();
        self.force_refresh = true;
    }
}

/// The mode the web API reports: the target when there is a state (and it
/// could be read), else the system's current mode, else Clone.
pub fn reported_mode(state_mode: Option<TopologyMode>, system_mode: Option<TopologyMode>) -> (r: TopologyMode)
    ensures
        r@ == (match state_mode {
            Some(m) => m@,
            None => match system_mode {
                Some(s) => s@,
                None => ModeView::Clone,
            },
        }),
{
    match state_mode {
        Some(m) => m,
        None => match system_mode {
            Some(s) => s,
            None => TopologyMode::Clone,
        },
    }
}

/// What `/api/status` reports.
pub struct StatusReport {
    pub mode: TopologyMode,
    pub monitoring: bool,
    pub version: String,
}

/// The status: the reported mode, whether monitoring is on (off without a
/// state), and the version.
pub fn status_report(state_mode: Option<TopologyMode>, state_monitoring: Option<bool>, system_mode: Option<TopologyMode>) -> (r: StatusReport)
    ensures
        r.mode@ == (match state_mode {
            Some(m) => m@,
            None => match system_mode {
                Some(s) => s@,
                None => ModeView::Clone,
            },
        }),
        r.monitoring == (match state_monitoring {
            Some(b) => b,
            None => false,
        }),
        r.version@ == version_text(),
{
    let mode = reported_mode(state_mode, system_mode);
    let monitoring = match state_monitoring {
        Some(b) => b,
        None => false,
    };
    StatusReport { mode, monitoring, version: version() }
}

/// The reply of `POST /api/topology` when the session agent ran: its
/// output, trimmed.
pub fn agent_set_reply(output: &str) -> (r: String)
    ensures
        r@ == spec_trim(output@),
{
    String::from_str(trim_str(output))
}

/// The reply of `POST /api/topology` when the switch was made in this
/// process: `Success`, or `Error: ` and the reason.
pub fn local_set_reply(result: Result<(), String>) -> (r: String)
    ensures
        r@ == (match result {
            Ok(_) => "Success"@,
            Err(e) => "Error: "@ + e@,
        }),
{
    match result {
        Ok(()) => String::from_str("Success"),
        Err(e) => String::from_str("Error: ").concat(e.as_str()),
    }
}

/// The embedded file that a request path names: the path without its
/// leading slashes, or `index.html` when nothing is left.
pub open spec fn asset_path_text(uri_path: Seq<char>) -> Seq<char> {
    let p = trim_start_char(uri_path, '/');
    if p.len() == 0 { "index.html"@ } else { p }
}

pub fn asset_path(uri_path: &str) -> (r: String)
    ensures
        r@ == asset_path_text(uri_path@),
{
    let p = trim_start_char_str(uri_path, '/');
    if p.unicode_len() == 0 {
        String::from_str("index.html")
    } else {
        p
    }
}

/// What `mime_guess` guesses for a path: the first media type registered
/// for its extension, or `application/octet-stream`.
pub uninterp spec fn spec_guessed_mime(path: Seq<char>) -> Seq<char>;

/// Trusted: `mime_guess::from_path(path).first_or_octet_stream()`. Claims
/// that the result is the named guess for the path, and, as the crate's
/// documentation states, that a path without any `.` (so without an
/// extension) gets `application/octet-stream`.
#[verifier::external_body]
fn asset_content_type(path: &str) -> (r: String)
    ensures
        r@ == spec_guessed_mime(path@),
        !path@.contains('.') ==> r@ == "application/octet-stream"@,
{
    mime_guess::from_path(path).first_or_octet_stream().as_ref().to_string()
}

/// What serving a request path looks up: the embedded file's name and the
/// content type it is sent with.
pub struct AssetLookup {
    pub path: String,
    pub content_type: String,
}

/// Resolves a request path to the embedded file and its content type.
pub fn asset_lookup(uri_path: &str) -> (r: AssetLookup)
    ensures
        r.path@ == asset_path_text(uri_path@),
        r.content_type@ == spec_guessed_mime(asset_path_text(uri_path@)),
        !asset_path_text(uri_path@).contains('.') ==> r.content_type@ == "application/octet-stream"@,
{
    let path = asset_path(uri_path);
    let content_type = asset_content_type(path.as_str());
    AssetLookup { path, content_type }
}

/// A service control request.
#[derive(Debug, Clone, Copy, PartialEq, Eq, Structural)]
pub enum ServiceControlKind {
    Stop,
    Interrogate,
    Other,
}

/// The handler's answer to a control request.
#[derive(Debug, Clone, Copy, PartialEq, Eq, Structural)]
pub enum ServiceControlReply {
    NoError,
    NotImplemented,
}

/// The service answers Stop (and begins to shut down) and Interrogate;
/// anything else is not implemented.
pub fn service_control(kind: ServiceControlKind) -> (r: (ServiceControlReply, bool))
    ensures
        r == (match kind {
            ServiceControlKind::Stop => (ServiceControlReply::NoError, true),
            ServiceControlKind::Interrogate => (ServiceControlReply::NoError, false),
            ServiceControlKind::Other => (ServiceControlReply::NotImplemented, false),
        }),
{
    match kind {
        ServiceControlKind::Stop => (ServiceControlReply::NoError, true),
        ServiceControlKind::Interrogate => (ServiceControlReply::NoError, false),
        ServiceControlKind::Other => (ServiceControlReply::NotImplemented, false),
    }
}

} // verus!
