//! Global hotkeys Alt+Shift+Q/W/E/R/T and what each does to the shared state.
use vstd::prelude::*;
use crate::topology::{ModeView, TopologyMode, opt_mode_view};

verus! {

/// A global hotkey press.
#[derive(Debug, Clone, Copy, PartialEq, Eq, Structural)]
pub enum HotkeyEvent {
    /// Alt+Shift+Q
    ToInternal,
    /// Alt+Shift+W
    ToClone,
    /// Alt+Shift+E
    ToExtend,
    /// Alt+Shift+R
    ToExternal,
    /// Alt+Shift+T
    ToggleMonitoring,
}

/// The topology a hotkey switches to; the monitoring toggle names none.
pub open spec fn hotkey_mode(e: HotkeyEvent) -> Option<ModeView> {
    match e {
        HotkeyEvent::ToInternal => Some(ModeView::Internal),
        HotkeyEvent::ToClone => Some(ModeView::Clone),
        HotkeyEvent::ToExtend => Some(ModeView::Extend),
        HotkeyEvent::ToExternal => Some(ModeView::External),
        HotkeyEvent::ToggleMonitoring => None,
    }
}

/// The event registered under a hotkey id (1 to 5 for Q, W, E, R, T).
pub open spec fn hotkey_id_event(id: i32) -> Option<HotkeyEvent> {
    if id == 1 {
        Some(HotkeyEvent::ToInternal)
    } else if id == 2 {
        Some(HotkeyEvent::ToClone)
    } else if id == 3 {
        Some(HotkeyEvent::ToExtend)
    } else if id == 4 {
        Some(HotkeyEvent::ToExternal)
    } else if id == 5 {
        Some(HotkeyEvent::ToggleMonitoring)
    } else {
        None
    }
}

/// Maps the id carried by a `WM_HOTKEY` message to its event.
pub fn hotkey_event_from_id(id: i32) -> (r: Option<HotkeyEvent>)
    ensures
        r == hotkey_id_event(id),
{
    match id {
        1 => Some(HotkeyEvent::ToInternal),
        2 => Some(HotkeyEvent::ToClone),
        3 => Some(HotkeyEvent::ToExtend),
        4 => Some(HotkeyEvent::ToExternal),
        5 => Some(HotkeyEvent::ToggleMonitoring),
        _ => None,
    }
}

/// The topology a hotkey switches to.
pub fn event_to_mode(event: HotkeyEvent) -> (r: Option<TopologyMode>)
    ensures
        opt_mode_view(r) == hotkey_mode(event),
{
    match event {
        HotkeyEvent::ToInternal => Some(TopologyMode::Internal),
        HotkeyEvent::ToClone => Some(TopologyMode::Clone),
        HotkeyEvent::ToExtend => Some(TopologyMode::Extend),
        HotkeyEvent::ToExternal => Some(TopologyMode::External),
        _ => None,
    }
}

/// The view of what `handle_hotkey_event` reports.
pub open spec fn hotkey_report_view(r: Option<(Option<TopologyMode>, Option<bool>)>) -> Option<(Option<ModeView>, Option<bool>)> {
    match r {
        Some((m, b)) => Some((opt_mode_view(m), b)),
        None => None,
    }
}

/// What a hotkey press reports, given the target mode and the monitoring flag
/// before it: a mode hotkey reports the new target only when it differs from
/// the old one; the toggle always reports the new flag.
pub open spec fn hotkey_report(e: HotkeyEvent, target: ModeView, monitoring: bool) -> Option<(Option<ModeView>, Option<bool>)> {
    match hotkey_mode(e) {
        Some(m) => if target != m { Some((Some(m), None)) } else { None },
        None => Some((None, Some(!monitoring))),
    }
}

/// Applies a hotkey press to the target mode and the monitoring flag. A mode
/// hotkey sets the target (it is never rolled back, whether or not the
/// system switch then succeeds); the toggle flips monitoring.
pub fn handle_hotkey_event(event: HotkeyEvent, current_mode: &mut TopologyMode, monitoring_enabled: &mut bool) -> (r: Option<(Option<TopologyMode>, Option<bool>)>)
    ensures
        hotkey_report_view(r) == hotkey_report(event, old(current_mode)@, *old(monitoring_enabled)),
        match hotkey_mode(event) {
            Some(m) => final(current_mode)@ == m && *final(monitoring_enabled) == *old(monitoring_enabled),
            None => final(current_mode)@ == old(current_mode)@ && *final(monitoring_enabled) == !*old(monitoring_enabled),
        },
{
    match event_to_mode(event) {
        Some(target) => {
            if !current_mode.same_as(&target) {
                *current_mode = target.clone();
                Some((Some(target), None))
            } else {
                None
            }
        },
        None => {
            let old_flag = *monitoring_enabled;
            *monitoring_enabled = !old_flag;
            Some((None, Some(!old_flag)))
        },
    }
}

/// Pressing the same mode hotkey twice leaves the target where the first
/// press put it and reports nothing the second time; pressing the toggle
/// twice restores the monitoring flag.
pub proof fn lemma_hotkey_idempotent(e: HotkeyEvent, target: ModeView, monitoring: bool)
    ensures
        hotkey_mode(e) matches Some(m) ==> hotkey_report(e, m, monitoring) is None,
        hotkey_mode(e) is None ==> hotkey_report(e, target, !monitoring) == Some((None::<ModeView>, Some(monitoring))),
{
}

} // verus!
