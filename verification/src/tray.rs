//! The tray icon's menu, tooltip and actions.
use vstd::prelude::*;
use crate::logger::{debug_str, spec_debug_str};
use crate::text::{replace_all, replace_str};
use crate::topology::{ModeView, TopologyMode};
use crate::hotkey::{HotkeyEvent, hotkey_id_event, hotkey_mode};

verus! {

/// An entry of the tray menu, top to bottom.
#[derive(Debug, Clone, Copy, PartialEq, Eq, Structural)]
pub enum MenuItem {
    Internal,
    Clone,
    Extend,
    External,
    Separator,
    /// "Runtime Monitoring", checked while monitoring is on.
    Monitoring,
    /// "Open Web Console", only with a web address.
    WebConsole,
    About,
    /// "Exit", unless hidden.
    Exit,
}

/// The menu: the four modes, a separator, the monitoring switch, then (with
/// a web address) a separator and the web console, then a separator, About,
/// and (unless hidden) Exit.
pub open spec fn menu_items(has_web_console: bool, hide_exit: bool) -> Seq<MenuItem> {
    let base = seq![MenuItem::Internal, MenuItem::Clone, MenuItem::Extend, MenuItem::External, MenuItem::Separator, MenuItem::Monitoring];
    let web: Seq<MenuItem> = if has_web_console { seq![MenuItem::Separator, MenuItem::WebConsole] } else { seq![] };
    let tail: Seq<MenuItem> = if hide_exit { seq![MenuItem::Separator, MenuItem::About] } else { seq![MenuItem::Separator, MenuItem::About, MenuItem::Exit] };
    base + web + tail
}

/// Lays out the tray menu.
pub fn menu_layout(has_web_console: bool, hide_exit: bool) -> (r: Vec<MenuItem>)
    ensures
        r@ == menu_items(has_web_console, hide_exit),
{
    let mut v: Vec<MenuItem> = Vec::new();
    v.push(MenuItem::Internal);
    v.push(MenuItem::Clone);
    v.push(MenuItem::Extend);
    v.push(MenuItem::External);
    v.push(MenuItem::Separator);
    v.push(MenuItem::Monitoring);
    if has_web_console {
        v.push(MenuItem::Separator);
        v.push(MenuItem::WebConsole);
    }
    v.push(MenuItem::Separator);
    v.push(MenuItem::About);
    if !hide_exit {
        v.push(MenuItem::Exit);
    }
    assert(v@ =~= menu_items(has_web_console, hide_exit));
    v
}

pub open spec fn menu_label_text(item: MenuItem) -> Seq<char> {
    match item {
        MenuItem::Internal => "Internal (Alt+Shift+Q)"@,
        MenuItem::Clone => "Clone (Alt+Shift+W)"@,
        MenuItem::Extend => "Extend (Alt+Shift+E)"@,
        MenuItem::External => "External (Alt+Shift+R)"@,
        MenuItem::Separator => Seq::empty(),
        MenuItem::Monitoring => "Runtime Monitoring (Alt+Shift+T)"@,
        MenuItem::WebConsole => "Open Web Console"@,
        MenuItem::About => "About"@,
        MenuItem::Exit => "Exit"@,
    }
}

/// The text of a menu entry (empty for a separator).
pub fn menu_label(item: MenuItem) -> (r: String)
    ensures
        r@ == menu_label_text(item),
{
    match item {
        MenuItem::Internal => String::from_str("Internal (Alt+Shift+Q)"),
        MenuItem::Clone => String::from_str("Clone (Alt+Shift+W)"),
        MenuItem::Extend => String::from_str("Extend (Alt+Shift+E)"),
        MenuItem::External => String::from_str("External (Alt+Shift+R)"),
        MenuItem::Separator => String::new(),
        MenuItem::Monitoring => String::from_str("Runtime Monitoring (Alt+Shift+T)"),
        MenuItem::WebConsole => String::from_str("Open Web Console"),
        MenuItem::About => String::from_str("About"),
        MenuItem::Exit => String::from_str("Exit"),
    }
}

/// The mode a menu entry switches to.
pub open spec fn menu_item_mode(item: MenuItem) -> Option<ModeView> {
    match item {
        MenuItem::Internal => Some(ModeView::Internal),
        MenuItem::Clone => Some(ModeView::Clone),
        MenuItem::Extend => Some(ModeView::Extend),
        MenuItem::External => Some(ModeView::External),
        _ => None,
    }
}

/// Which of the four mode entries carry the check mark: the one of `mode`
/// (none for a single-monitor mode). In menu order: internal, clone,
/// extend, external.
pub open spec fn checked_items(mode: ModeView) -> (bool, bool, bool, bool) {
    (mode is Internal, mode is Clone, mode is Extend, mode is External)
}

pub fn menu_checks(mode: &TopologyMode) -> (r: (bool, bool, bool, bool))
    ensures
        r == checked_items(mode@),
{
    match mode {
        TopologyMode::Internal => (true, false, false, false),
        TopologyMode::Clone => (false, true, false, false),
        TopologyMode::Extend => (false, false, true, false),
        TopologyMode::External => (false, false, false, true),
        TopologyMode::Single(_) => (false, false, false, false),
    }
}

/// How `Debug` writes a mode.
pub open spec fn mode_debug_text(m: ModeView) -> Seq<char> {
    match m {
        ModeView::Internal => "Internal"@,
        ModeView::External => "External"@,
        ModeView::Extend => "Extend"@,
        ModeView::Clone => "Clone"@,
        ModeView::Single(id) => "Single("@ + spec_debug_str(id) + ")"@,
    }
}

/// Writes a mode as `Debug` does.
pub fn mode_debug(m: &TopologyMode) -> (r: String)
    ensures
        r@ == mode_debug_text(m@),
{
    match m {
        TopologyMode::Internal => String::from_str("Internal"),
        TopologyMode::External => String::from_str("External"),
        TopologyMode::Extend => String::from_str("Extend"),
        TopologyMode::Clone => String::from_str("Clone"),
        TopologyMode::Single(id) => {
            let d = debug_str(id.as_str());
            String::from_str("Single(").concat(d.as_str()).concat(")")
        },
    }
}

/// The tooltip: the target mode, the initial mode, and the monitoring state.
pub open spec fn tooltip(target: ModeView, initial: ModeView, monitoring: bool) -> Seq<char> {
    "Display Manager: "@ + mode_debug_text(target) + " (Initial: "@ + mode_debug_text(initial) + ") ["@
        + (if monitoring { "Monitoring ON"@ } else { "Monitoring OFF"@ }) + "]"@
}

/// The tray's tooltip text.
pub fn tooltip_text(target: &TopologyMode, initial: &TopologyMode, monitoring: bool) -> (r: String)
    ensures
        r@ == tooltip(target@, initial@, monitoring),
{
    let mut t = String::from_str("Display Manager: ");
    let a = mode_debug(target);
    t.append(a.as_str());
    t.append(" (Initial: ");
    let b = mode_debug(initial);
    t.append(b.as_str());
    t.append(") [");
    if monitoring {
        t.append("Monitoring ON");
    } else {
        t.append("Monitoring OFF");
    }
    t.append("]");
    t
}

/// A mode chosen from the menu becomes the target only when the switch
/// succeeded; a failed switch leaves the target as it was.
pub fn apply_menu_choice(target: &mut TopologyMode, chosen: &TopologyMode, switched: bool) -> (r: bool)
    ensures
        r == switched,
        switched ==> final(target)@ == chosen@,
        !switched ==> final(target)@ == old(target)@,
{
    if switched {
        *target = chosen.clone();
    }
    switched
}

/// Flips the monitoring flag from the menu and gives its new value.
pub fn toggle_monitoring(monitoring_enabled: &mut bool) -> (r: bool)
    ensures
        *final(monitoring_enabled) == !*old(monitoring_enabled),
        r == *final(monitoring_enabled),
{
    *monitoring_enabled = !*monitoring_enabled;
    *monitoring_enabled
}

/// The web console's address as a browser can open it: `http://`, with a
/// wildcard `0.0.0.0` replaced by `127.0.0.1`.
pub open spec fn web_console_text(addr: Seq<char>) -> Seq<char> {
    "http://"@ + replace_all(addr, "0.0.0.0"@, "127.0.0.1"@)
}

pub fn web_console_url(addr: &str) -> (r: String)
    ensures
        r@ == web_console_text(addr@),
{
    proof {
        reveal_strlit("0.0.0.0");
    }
    let host = replace_str(addr, "0.0.0.0", "127.0.0.1");
    String::from_str("http://").concat(host.as_str())
}

/// The period after which the tray re-reads the system topology (ms).
pub const TRAY_POLL_INTERVAL_MS: u64 = 2000;

/// What a tray timer tick refreshes: the marks from the target when a
/// refresh was requested, and the marks from the system once the poll
/// interval has passed since the last poll.
pub fn tray_sync_plan(refresh_requested: bool, ms_since_last_poll: u64) -> (r: (bool, bool))
    ensures
        r == (refresh_requested, ms_since_last_poll >= TRAY_POLL_INTERVAL_MS),
{
    (refresh_requested, ms_since_last_poll >= TRAY_POLL_INTERVAL_MS)
}

/// A signed 16-bit half of a packed message position.
pub open spec fn signed_half(h: int) -> int {
    if h >= 32768 { h - 65536 } else { h }
}

/// The screen point packed into `GetMessagePos`'s result: x in the low
/// 16 bits, y in the high 16 bits, each signed.
pub fn message_point(pos: u32) -> (r: (i32, i32))
    ensures
        r.0 == signed_half((pos % 65536) as int),
        r.1 == signed_half((pos / 65536) as int),
{
    let lo = (pos % 65536) as i32;
    let hi = (pos / 65536) as i32;
    let x = if lo >= 32768 { lo - 65536 } else { lo };
    let y = if hi >= 32768 { hi - 65536 } else { hi };
    (x, y)
}

/// The menu shows Exit exactly when it is not hidden, and the web console
/// exactly when there is an address; the four modes and the monitoring
/// switch are always there, first.
pub proof fn lemma_menu_layout(has_web_console: bool, hide_exit: bool)
    ensures
        menu_items(has_web_console, hide_exit).contains(MenuItem::Exit) <==> !hide_exit,
        menu_items(has_web_console, hide_exit).contains(MenuItem::WebConsole) <==> has_web_console,
        menu_items(has_web_console, hide_exit).take(6) == seq![MenuItem::Internal, MenuItem::Clone, MenuItem::Extend, MenuItem::External, MenuItem::Separator, MenuItem::Monitoring],
{
    let items = menu_items(has_web_console, hide_exit);
    assert(items.take(6) =~= seq![MenuItem::Internal, MenuItem::Clone, MenuItem::Extend, MenuItem::External, MenuItem::Separator, MenuItem::Monitoring]);
    if !hide_exit {
        assert(items[items.len() - 1] == MenuItem::Exit);
    } else {
        assert forall|i: int| 0 <= i < items.len() implies items[i] != MenuItem::Exit by {}
    }
    if has_web_console {
        assert(items[7] == MenuItem::WebConsole);
    } else {
        assert forall|i: int| 0 <= i < items.len() implies items[i] != MenuItem::WebConsole by {}
    }
}

/// Exactly one mode entry is checked for each standard mode, and it is the
/// entry that switches to that mode.
pub proof fn lemma_checks_match_entries(m: ModeView)
    ensures
        !(m is Single) ==> {
            let (a, b, c, d) = checked_items(m);
            &&& (a && menu_item_mode(MenuItem::Internal) == Some(m)) || (b && menu_item_mode(MenuItem::Clone) == Some(m))
                || (c && menu_item_mode(MenuItem::Extend) == Some(m)) || (d && menu_item_mode(MenuItem::External) == Some(m))
            &&& (a as int) + (b as int) + (c as int) + (d as int) == 1
        },
{
}

/// The menu and the hotkeys agree: the mode entries, top to bottom, switch
/// to the modes of the hotkeys Alt+Shift+Q, W, E, R (ids 1 to 4), and the
/// monitoring entry does what Alt+Shift+T (id 5) does.
pub proof fn lemma_menu_matches_hotkeys(has_web_console: bool, hide_exit: bool)
    ensures
        forall|i: int| 0 <= i < 4 ==> #[trigger] menu_item_mode(menu_items(has_web_console, hide_exit)[i])
            == hotkey_mode(hotkey_id_event((i + 1) as i32).unwrap()),
        menu_items(has_web_console, hide_exit)[5] == MenuItem::Monitoring,
        hotkey_id_event(5) == Some(HotkeyEvent::ToggleMonitoring),
{
    let items = menu_items(has_web_console, hide_exit);
    assert(items[0] == MenuItem::Internal);
    assert(items[1] == MenuItem::Clone);
    assert(items[2] == MenuItem::Extend);
    assert(items[3] == MenuItem::External);
    assert(items[5] == MenuItem::Monitoring);
}

} // verus!
