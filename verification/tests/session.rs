use monitor_manager::session::{
    SessionProcess, agent_command_line, agent_desktop, choose_token_source, desktop_name_from_output,
    detached_command_line, find_session_processes, init_process_settings, is_active_console_session_locked,
    is_user_actively_on_desktop, is_user_on_desktop, mutex_acquired, needs_desktop_query,
    should_relaunch_detached, tray_conflict_message, tray_mutex_name, tray_present, tray_session_id,
    startup_priority, ProcessPriority, NO_CONSOLE_SESSION, LockState, console_lock_state, HRESULT_ACCESS_DENIED,
};

#[test]
fn lock_state() {
    assert!(is_active_console_session_locked(1, Some((1, 0))));
    assert!(!is_active_console_session_locked(1, Some((1, 1))));
    assert!(!is_active_console_session_locked(1, Some((2, 0))));
    assert!(!is_active_console_session_locked(1, None));
    assert!(!is_active_console_session_locked(NO_CONSOLE_SESSION, Some((1, 0))));
}

#[test]
fn user_on_desktop() {
    assert!(is_user_on_desktop(1, Some("alice\0".to_string())));
    assert!(!is_user_on_desktop(1, Some("\0".to_string())));
    assert!(!is_user_on_desktop(1, Some(" System \0".to_string())));
    assert!(!is_user_on_desktop(1, Some("SYSTEM".to_string())));
    assert!(is_user_on_desktop(1, Some("systemd".to_string())));
    assert!(!is_user_on_desktop(1, None));
    assert!(!is_user_on_desktop(NO_CONSOLE_SESSION, Some("alice".to_string())));
}

#[test]
fn actively_on_desktop() {
    assert!(is_user_actively_on_desktop(true, LockState::Unlocked));
    assert!(!is_user_actively_on_desktop(true, LockState::Locked));
    // A failed lock query counts as not active: enforcement goes on.
    assert!(!is_user_actively_on_desktop(true, LockState::Unknown));
    assert!(!is_user_actively_on_desktop(false, LockState::Unlocked));
}

#[test]
fn lock_state_readings() {
    assert_eq!(console_lock_state(1, Some((1, 0))), LockState::Locked);
    assert_eq!(console_lock_state(1, Some((1, 1))), LockState::Unlocked);
    assert_eq!(console_lock_state(1, Some((1, -1))), LockState::Unknown);
    assert_eq!(console_lock_state(1, Some((2, 1))), LockState::Unknown);
    assert_eq!(console_lock_state(1, None), LockState::Unknown);
    assert_eq!(console_lock_state(NO_CONSOLE_SESSION, Some((1, 1))), LockState::Unknown);
    let failed = console_lock_state(1, None);
    assert!(!is_user_actively_on_desktop(is_user_on_desktop(1, Some("alice".to_string())), failed));
}

#[test]
fn priority_classes() {
    assert_eq!(ProcessPriority::Idle.to_windows_priority(), 0x40);
    assert_eq!(ProcessPriority::BelowNormal.to_windows_priority(), 0x4000);
    assert_eq!(ProcessPriority::Normal.to_windows_priority(), 0x20);
    assert_eq!(ProcessPriority::AboveNormal.to_windows_priority(), 0x8000);
    assert_eq!(ProcessPriority::High.to_windows_priority(), 0x80);
    assert_eq!(ProcessPriority::Realtime.to_windows_priority(), 0x100);
}

fn proc(pid: u32, session: Option<u32>, name: &str) -> SessionProcess {
    SessionProcess { pid, session_id: session, exe_name: name.to_string() }
}

#[test]
fn shell_processes_of_session() {
    let ps = vec![
        proc(4, Some(0), "System"),
        proc(100, Some(1), "Explorer.EXE\0\0"),
        proc(200, Some(1), "winlogon.exe"),
        proc(300, Some(2), "explorer.exe"),
        proc(400, None, "winlogon.exe"),
        proc(500, Some(1), "explorer.exe"),
    ];
    assert_eq!(find_session_processes(&ps, 1), (500, 200));
    assert_eq!(find_session_processes(&ps, 2), (300, 0));
    assert_eq!(find_session_processes(&ps, 3), (0, 0));
}

#[test]
fn token_choice() {
    assert!(needs_desktop_query(true, 1, 2));
    assert!(!needs_desktop_query(false, 1, 2));
    assert!(!needs_desktop_query(true, 0, 2));
    assert_eq!(choose_token_source(10, 20, Some("WINLOGON".to_string())), Some((20, true)));
    assert_eq!(choose_token_source(10, 20, Some("Default".to_string())), Some((10, false)));
    assert_eq!(choose_token_source(10, 20, None), Some((10, false)));
    assert_eq!(choose_token_source(0, 20, None), Some((20, true)));
    assert_eq!(choose_token_source(0, 0, Some("Winlogon".to_string())), None);
}

#[test]
fn desktop_names() {
    assert_eq!(desktop_name_from_output("Winlogon\r\n"), "Winlogon");
    assert_eq!(desktop_name_from_output("  "), "Default");
    assert_eq!(agent_desktop(true), "winsta0\\winlogon");
    assert_eq!(agent_desktop(false), "winsta0\\default");
}

#[test]
fn command_lines() {
    let args = vec!["set".to_string(), "single:0:0:1".to_string()];
    assert_eq!(agent_command_line("C:\\m.exe", &args), "\"C:\\m.exe\" agent set single:0:0:1");
    assert_eq!(agent_command_line("C:\\m.exe", &vec!["query-desktop".to_string()]), "\"C:\\m.exe\" agent query-desktop");
    let args = vec!["--mode".to_string(), "extend".to_string(), "--log-path".to_string(), "C:\\my logs\\a.log".to_string()];
    assert_eq!(
        detached_command_line("C:\\Program Files\\m.exe", &args),
        "\"C:\\Program Files\\m.exe\" --mode extend --log-path \"C:\\my logs\\a.log\" --relaunched"
    );
    assert_eq!(detached_command_line("m.exe", &vec![]), "\"m.exe\" --relaunched");
    assert!(should_relaunch_detached(false, false, false, false));
    assert!(!should_relaunch_detached(true, false, false, false));
    assert!(!should_relaunch_detached(false, true, false, false));
    assert!(!should_relaunch_detached(false, false, true, false));
    assert!(!should_relaunch_detached(false, false, false, true));
}

#[test]
fn process_setup_logs() {
    assert_eq!(init_process_settings(true, true, true), vec![
        "Process: Shutdown parameters set to 0x3FF (last to terminate)".to_string(),
        "Process: Priority set to High".to_string(),
        "Process: Console window hidden".to_string(),
    ]);
    assert_eq!(init_process_settings(false, false, false), vec![
        "Process: Failed to set priority (silently continuing)".to_string(),
    ]);
    assert_eq!(startup_priority(), ProcessPriority::High);
}

#[test]
fn tray_mutex() {
    assert_eq!(tray_mutex_name(0), "Global\\MonitorTray_0");
    assert_eq!(tray_mutex_name(1234), "Global\\MonitorTray_1234");
    assert_eq!(tray_mutex_name(u32::MAX), "Global\\MonitorTray_4294967295");
    assert_eq!(tray_session_id(Some(3), 7), 3);
    assert_eq!(tray_session_id(None, 7), 7);
    assert!(mutex_acquired(0));
    assert!(mutex_acquired(0x80));
    assert!(!mutex_acquired(0x102));
    assert!(tray_present(Ok(())));
    assert!(tray_present(Err(HRESULT_ACCESS_DENIED)));
    assert!(tray_present(Err(0x80070005u32 as i32)));
    assert!(!tray_present(Err(0x80070002u32 as i32)));
    assert_eq!(tray_conflict_message(2), "Another tray instance is running in Session 2 (wait timeout 5000ms)");
}

#[test]
fn mutex_names_identify_sessions() {
    let ids = [0u32, 1, 2, 10, 11, 100, 101, 4294967295];
    for a in ids {
        for b in ids {
            assert_eq!(tray_mutex_name(a) == tray_mutex_name(b), a == b);
        }
    }
}
