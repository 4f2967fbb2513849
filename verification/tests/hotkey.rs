use monitor_manager::hotkey::{HotkeyEvent, event_to_mode, handle_hotkey_event, hotkey_event_from_id};
use monitor_manager::topology::TopologyMode;

#[test]
fn hotkey_ids() {
    assert_eq!(hotkey_event_from_id(1), Some(HotkeyEvent::ToInternal));
    assert_eq!(hotkey_event_from_id(2), Some(HotkeyEvent::ToClone));
    assert_eq!(hotkey_event_from_id(3), Some(HotkeyEvent::ToExtend));
    assert_eq!(hotkey_event_from_id(4), Some(HotkeyEvent::ToExternal));
    assert_eq!(hotkey_event_from_id(5), Some(HotkeyEvent::ToggleMonitoring));
    assert_eq!(hotkey_event_from_id(6), None);
    assert_eq!(hotkey_event_from_id(0), None);
}

#[test]
fn event_modes() {
    assert_eq!(event_to_mode(HotkeyEvent::ToExtend), Some(TopologyMode::Extend));
    assert_eq!(event_to_mode(HotkeyEvent::ToggleMonitoring), None);
}

#[test]
fn mode_hotkey_sets_target_once() {
    let mut mode = TopologyMode::Extend;
    let mut monitoring = true;
    let r = handle_hotkey_event(HotkeyEvent::ToClone, &mut mode, &mut monitoring);
    assert_eq!(r, Some((Some(TopologyMode::Clone), None)));
    assert_eq!(mode, TopologyMode::Clone);
    assert!(monitoring);
    // Pressing it again changes nothing and reports nothing.
    let r = handle_hotkey_event(HotkeyEvent::ToClone, &mut mode, &mut monitoring);
    assert_eq!(r, None);
    assert_eq!(mode, TopologyMode::Clone);
}

#[test]
fn single_target_is_replaced_by_hotkey() {
    let mut mode = TopologyMode::Single("0:0:1".to_string());
    let mut monitoring = false;
    let r = handle_hotkey_event(HotkeyEvent::ToInternal, &mut mode, &mut monitoring);
    assert_eq!(r, Some((Some(TopologyMode::Internal), None)));
    assert_eq!(mode, TopologyMode::Internal);
}

#[test]
fn toggle_twice_restores() {
    let mut mode = TopologyMode::Clone;
    let mut monitoring = true;
    assert_eq!(handle_hotkey_event(HotkeyEvent::ToggleMonitoring, &mut mode, &mut monitoring), Some((None, Some(false))));
    assert!(!monitoring);
    assert_eq!(handle_hotkey_event(HotkeyEvent::ToggleMonitoring, &mut mode, &mut monitoring), Some((None, Some(true))));
    assert!(monitoring);
    assert_eq!(mode, TopologyMode::Clone);
}
