use monitor_manager::control::{
    AppState, ModeArg, ServiceControlKind, ServiceControlReply, agent_set_reply, asset_lookup, asset_path,
    local_set_reply, reported_mode, resolve_initial_mode, service_control, status_report, version, mode_from_arg,
};
use monitor_manager::topology::TopologyMode;

#[test]
fn initial_mode_priority() {
    assert_eq!(resolve_initial_mode(Some(ModeArg::Extend), Some(TopologyMode::Internal)), TopologyMode::Extend);
    assert_eq!(resolve_initial_mode(None, Some(TopologyMode::Internal)), TopologyMode::Internal);
    assert_eq!(resolve_initial_mode(None, None), TopologyMode::Clone);
    assert_eq!(TopologyMode::from(ModeArg::External), TopologyMode::External);
    assert_eq!(mode_from_arg(ModeArg::Clone), TopologyMode::Clone);
}

#[test]
fn app_state() {
    let mut s = AppState::new(TopologyMode::Clone, 2, true, false, true);
    assert_eq!(s.current_mode, TopologyMode::Clone);
    assert!(s.monitoring_enabled);
    assert!(s.yield_to_tray_instance);
    assert!(!s.force_refresh);
    s.request_mode(&TopologyMode::Extend);
    assert_eq!(s.current_mode, TopologyMode::Extend);
    assert_eq!(s.initial_mode, TopologyMode::Clone);
    assert!(s.force_refresh);
    let t = AppState::new(TopologyMode::Extend, 5, false, true, false);
    assert!(!t.monitoring_enabled);
    assert_eq!(t.interval_seconds, 5);
}

#[test]
fn reported_and_status() {
    assert_eq!(reported_mode(Some(TopologyMode::Extend), Some(TopologyMode::Clone)), TopologyMode::Extend);
    assert_eq!(reported_mode(None, Some(TopologyMode::Internal)), TopologyMode::Internal);
    assert_eq!(reported_mode(None, None), TopologyMode::Clone);
    let st = status_report(None, None, None);
    assert_eq!(st.mode, TopologyMode::Clone);
    assert!(!st.monitoring);
    assert_eq!(st.version, "V0.2.0");
    assert_eq!(version(), "V0.2.0");
    let st = status_report(Some(TopologyMode::Extend), Some(true), None);
    assert!(st.monitoring);
}

#[test]
fn set_replies() {
    assert_eq!(agent_set_reply("Success\r\n"), "Success");
    assert_eq!(local_set_reply(Ok(())), "Success");
    assert_eq!(local_set_reply(Err("SetDisplayConfig failed with error code: 87".to_string())),
        "Error: SetDisplayConfig failed with error code: 87");
}

#[test]
fn assets() {
    assert_eq!(asset_path("/"), "index.html");
    assert_eq!(asset_path(""), "index.html");
    assert_eq!(asset_path("//app.js"), "app.js");
    assert_eq!(asset_path("/css/site.css"), "css/site.css");
    let a = asset_lookup("/");
    assert_eq!(a.path, "index.html");
    assert_eq!(a.content_type, "text/html");
    assert_eq!(asset_lookup("/app.js").content_type, "text/javascript");
    assert_eq!(asset_lookup("/README").content_type, "application/octet-stream");
    assert_eq!(asset_lookup("/img/logo.PNG").content_type, "image/png");
}

#[test]
fn service_controls() {
    assert_eq!(service_control(ServiceControlKind::Stop), (ServiceControlReply::NoError, true));
    assert_eq!(service_control(ServiceControlKind::Interrogate), (ServiceControlReply::NoError, false));
    assert_eq!(service_control(ServiceControlKind::Other), (ServiceControlReply::NotImplemented, false));
}
