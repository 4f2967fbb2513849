use monitor_manager::hotkey::{event_to_mode, hotkey_event_from_id, HotkeyEvent};
use monitor_manager::tray::{
    MenuItem, apply_menu_choice, menu_checks, menu_label, menu_layout, message_point, mode_debug,
    toggle_monitoring, tooltip_text, tray_sync_plan, web_console_url,
};
use monitor_manager::topology::TopologyMode;

#[test]
fn layout() {
    assert_eq!(menu_layout(false, false), vec![
        MenuItem::Internal, MenuItem::Clone, MenuItem::Extend, MenuItem::External, MenuItem::Separator,
        MenuItem::Monitoring, MenuItem::Separator, MenuItem::About, MenuItem::Exit,
    ]);
    assert_eq!(menu_layout(true, true), vec![
        MenuItem::Internal, MenuItem::Clone, MenuItem::Extend, MenuItem::External, MenuItem::Separator,
        MenuItem::Monitoring, MenuItem::Separator, MenuItem::WebConsole, MenuItem::Separator, MenuItem::About,
    ]);
    assert_eq!(menu_label(MenuItem::Clone), "Clone (Alt+Shift+W)");
    assert_eq!(menu_label(MenuItem::Monitoring), "Runtime Monitoring (Alt+Shift+T)");
    assert_eq!(menu_label(MenuItem::Separator), "");
}

#[test]
fn checks() {
    assert_eq!(menu_checks(&TopologyMode::Extend), (false, false, true, false));
    assert_eq!(menu_checks(&TopologyMode::Internal), (true, false, false, false));
    assert_eq!(menu_checks(&TopologyMode::Single("1:0:2".to_string())), (false, false, false, false));
}

#[test]
fn tooltip() {
    assert_eq!(tooltip_text(&TopologyMode::Clone, &TopologyMode::Extend, true),
        "Display Manager: Clone (Initial: Extend) [Monitoring ON]");
    assert_eq!(tooltip_text(&TopologyMode::Single("0:0:1".to_string()), &TopologyMode::Clone, false),
        "Display Manager: Single(\"0:0:1\") (Initial: Clone) [Monitoring OFF]");
    for m in [TopologyMode::Internal, TopologyMode::Single("a\"b".to_string())] {
        assert_eq!(mode_debug(&m), format!("{:?}", m));
    }
}

#[test]
fn menu_choice_only_on_success() {
    let mut target = TopologyMode::Clone;
    assert!(!apply_menu_choice(&mut target, &TopologyMode::Extend, false));
    assert_eq!(target, TopologyMode::Clone);
    assert!(apply_menu_choice(&mut target, &TopologyMode::Extend, true));
    assert_eq!(target, TopologyMode::Extend);
    let mut on = true;
    assert!(!toggle_monitoring(&mut on));
    assert!(toggle_monitoring(&mut on));
}

#[test]
fn web_console() {
    assert_eq!(web_console_url("0.0.0.0:3000"), "http://127.0.0.1:3000");
    assert_eq!(web_console_url("192.168.1.2:80"), "http://192.168.1.2:80");
    assert_eq!(web_console_url("0.0.0.0.0.0.0"), "http://127.0.0.1.0.0.0");
}

#[test]
fn sync_plan_and_point() {
    assert_eq!(tray_sync_plan(true, 100), (true, false));
    assert_eq!(tray_sync_plan(false, 2000), (false, true));
    assert_eq!(message_point(0x0002_0001), (1, 2));
    assert_eq!(message_point(0xFFFF_FFFE), (-2, -1));
    assert_eq!(message_point(0x8000_7FFF), (32767, -32768));
}

#[test]
fn menu_entries_match_hotkeys() {
    let items = menu_layout(true, false);
    let entry_modes = [TopologyMode::Internal, TopologyMode::Clone, TopologyMode::Extend, TopologyMode::External];
    for (i, mode) in entry_modes.iter().enumerate() {
        let ev = hotkey_event_from_id(i as i32 + 1).unwrap();
        assert_eq!(event_to_mode(ev).as_ref(), Some(mode));
        let (a, b, c, d) = menu_checks(mode);
        assert_eq!([a, b, c, d].iter().filter(|x| **x).count(), 1);
        assert!([a, b, c, d][i]);
        assert!(menu_label(items[i]).contains(&format!("Alt+Shift+{}", ['Q', 'W', 'E', 'R'][i])));
    }
    assert_eq!(items[5], MenuItem::Monitoring);
    assert_eq!(hotkey_event_from_id(5), Some(HotkeyEvent::ToggleMonitoring));
}
