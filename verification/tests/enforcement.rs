use monitor_manager::enforcement::{
    ApplyReading, EnforcementLoop, LoopLog, Observation, ReadError, Request, StepOutput, TopologyReading,
};
use monitor_manager::topology::TopologyMode;

fn step(l: &mut EnforcementLoop, o: Observation) -> StepOutput {
    l.step(o)
}

/// Runs a tray-mode cycle up to the topology reading.
fn tray_until_read(l: &mut EnforcementLoop, count: u32) -> StepOutput {
    assert!(matches!(step(l, Observation::Ticked).request, Request::CheckScreenLocked));
    assert!(matches!(step(l, Observation::ScreenLocked(false)).request, Request::ReadMonitoring));
    assert!(matches!(step(l, Observation::Monitoring(true)).request, Request::CountMonitors));
    step(l, Observation::MonitorCount(Ok(count)))
}

#[test]
fn tray_cycle_reverts_tampering() {
    let mut l = EnforcementLoop::new(false, false, true);
    assert!(matches!(l.first_request(), Request::WaitTick));
    let r = tray_until_read(&mut l, 2);
    assert!(matches!(r.request, Request::ReadTopology { via_agent: false }));
    let r = step(&mut l, Observation::Topology {
        target: TopologyMode::Clone,
        reading: TopologyReading::Local(Ok(TopologyMode::Extend)),
    });
    match &r.request {
        Request::ApplyTopology { mode, agent_arg } => {
            assert_eq!(*mode, TopologyMode::Clone);
            assert!(agent_arg.is_none());
        }
        _ => panic!("expected a switch"),
    }
    assert!(matches!(&r.logs[0], LoopLog::Mismatch { count: 1, .. }));
    let r = step(&mut l, Observation::Applied(ApplyReading::Local(Ok(()))));
    assert!(matches!(r.request, Request::WaitTick));
    assert!(r.refresh_tray);
    assert!(matches!(&r.logs[0], LoopLog::Corrected(TopologyMode::Clone)));
    assert_eq!(l.consecutive_mismatches(), 1);
}

#[test]
fn match_after_mismatch_is_logged_and_clears() {
    let mut l = EnforcementLoop::new(false, false, true);
    tray_until_read(&mut l, 3);
    step(&mut l, Observation::Topology { target: TopologyMode::Clone, reading: TopologyReading::Local(Ok(TopologyMode::Extend)) });
    let r = step(&mut l, Observation::Applied(ApplyReading::Local(Err("busy".to_string()))));
    assert!(!r.refresh_tray);
    assert!(matches!(&r.logs[0], LoopLog::CorrectionFailed(e) if e == "busy"));
    tray_until_read(&mut l, 3);
    let r = step(&mut l, Observation::Topology { target: TopologyMode::Clone, reading: TopologyReading::Local(Ok(TopologyMode::Clone)) });
    assert!(matches!(r.request, Request::WaitTick));
    assert!(matches!(&r.logs[0], LoopLog::MatchesAgain { mismatches: 1, .. }));
    assert_eq!(l.consecutive_mismatches(), 0);
}

#[test]
fn single_monitor_and_disabled_skip() {
    let mut l = EnforcementLoop::new(false, false, true);
    let r = tray_until_read(&mut l, 1);
    assert!(matches!(r.request, Request::WaitTick));
    assert!(matches!(step(&mut l, Observation::Ticked).request, Request::CheckScreenLocked));
    step(&mut l, Observation::ScreenLocked(false));
    let r = step(&mut l, Observation::Monitoring(false));
    assert!(matches!(r.request, Request::WaitTick));
    assert!(matches!(&r.logs[0], LoopLog::MonitoringPaused));
}

#[test]
fn locked_screen_pauses_tray() {
    let mut l = EnforcementLoop::new(false, false, true);
    step(&mut l, Observation::Ticked);
    let r = step(&mut l, Observation::ScreenLocked(true));
    assert!(matches!(r.request, Request::WaitTick));
    assert!(matches!(&r.logs[0], LoopLog::TrayPaused));
    step(&mut l, Observation::Ticked);
    let r = step(&mut l, Observation::ScreenLocked(false));
    assert!(matches!(r.request, Request::ReadMonitoring));
    assert!(matches!(&r.logs[0], LoopLog::TrayResumed));
}

#[test]
fn service_uses_agent_and_yields() {
    let mut l = EnforcementLoop::new(true, false, true);
    assert!(matches!(step(&mut l, Observation::Ticked).request, Request::CheckTrayPresent));
    assert!(matches!(step(&mut l, Observation::TrayPresent(true)).request, Request::CheckUserActive));
    let r = step(&mut l, Observation::UserActive(true));
    assert!(matches!(r.request, Request::WaitTick));
    assert!(matches!(&r.logs[0], LoopLog::YieldingToTray));
    // Next cycle: no tray; the agent reports Extend while the target is Clone.
    step(&mut l, Observation::Ticked);
    let r = step(&mut l, Observation::TrayPresent(false));
    assert!(matches!(r.request, Request::ReadMonitoring));
    let r = step(&mut l, Observation::Monitoring(true));
    assert!(matches!(r.request, Request::ReadTopology { via_agent: true }));
    assert!(matches!(&r.logs[0], LoopLog::MonitoringResumed));
    let r = step(&mut l, Observation::Topology {
        target: TopologyMode::Clone,
        reading: TopologyReading::Agent(Ok("extend\r\n".to_string())),
    });
    match &r.request {
        Request::ApplyTopology { mode, agent_arg } => {
            assert_eq!(*mode, TopologyMode::Clone);
            assert_eq!(agent_arg.as_deref(), Some("clone"));
        }
        _ => panic!("expected a switch"),
    }
    let r = step(&mut l, Observation::Applied(ApplyReading::Agent(Ok("Success\r\n".to_string()))));
    assert!(r.refresh_tray);
    assert!(matches!(&r.logs[0], LoopLog::AgentSetOutput { arg, output } if arg == "clone" && output == "Success"));
}

#[test]
fn service_agent_failures() {
    let mut l = EnforcementLoop::new(true, false, true);
    step(&mut l, Observation::Ticked);
    step(&mut l, Observation::TrayPresent(false));
    step(&mut l, Observation::Monitoring(true));
    let r = step(&mut l, Observation::Topology {
        target: TopologyMode::Clone,
        reading: TopologyReading::Agent(Ok(" weird ".to_string())),
    });
    assert!(matches!(r.request, Request::WaitTick));
    assert!(matches!(&r.logs[0], LoopLog::AgentGetUnknown(t) if t == "weird"));
    assert!(matches!(&r.logs[1], LoopLog::TopologyReadFailed(ReadError::UnknownOutput(t)) if t == "weird"));
    step(&mut l, Observation::Ticked);
    step(&mut l, Observation::TrayPresent(false));
    step(&mut l, Observation::Monitoring(true));
    step(&mut l, Observation::Topology { target: TopologyMode::Clone, reading: TopologyReading::Agent(Ok("internal".to_string())) });
    let r = step(&mut l, Observation::Applied(ApplyReading::Agent(Ok("Error: denied".to_string()))));
    assert!(!r.refresh_tray);
    assert!(matches!(&r.logs[1], LoopLog::CorrectionFailed(e) if e == "Error: denied"));
}

#[test]
fn session0_only_skips_active_user() {
    let mut l = EnforcementLoop::new(true, true, true);
    step(&mut l, Observation::Ticked);
    let r = step(&mut l, Observation::TrayPresent(false));
    assert!(matches!(r.request, Request::CheckUserOnDesktop));
    let r = step(&mut l, Observation::UserOnDesktop(true));
    assert!(matches!(r.request, Request::CheckUserActive));
    assert!(matches!(&r.logs[0], LoopLog::UserLoggedOn));
    let r = step(&mut l, Observation::UserActive(true));
    assert!(matches!(r.request, Request::WaitTick));
}

#[test]
fn heartbeat_every_twelfth_cycle() {
    let mut l = EnforcementLoop::new(false, false, true);
    let mut beats = 0;
    for cycle in 1..=24 {
        tray_until_read(&mut l, 2);
        let r = step(&mut l, Observation::Topology { target: TopologyMode::Extend, reading: TopologyReading::Local(Ok(TopologyMode::Extend)) });
        let beat = r.logs.iter().any(|x| matches!(x, LoopLog::Heartbeat));
        assert_eq!(beat, cycle % 12 == 0);
        if beat { beats += 1; }
    }
    assert_eq!(beats, 2);
}

#[test]
fn unexpected_answer_repeats_question() {
    let mut l = EnforcementLoop::new(false, false, true);
    step(&mut l, Observation::Ticked);
    let r = step(&mut l, Observation::Monitoring(true));
    assert!(matches!(r.request, Request::CheckScreenLocked));
    assert!(r.logs.is_empty());
}

#[test]
fn local_read_failure_is_logged_and_completes_cycle() {
    let mut l = EnforcementLoop::new(false, false, true);
    tray_until_read(&mut l, 2);
    let r = step(&mut l, Observation::Topology {
        target: TopologyMode::Clone,
        reading: TopologyReading::Local(Err("QueryDisplayConfig failed".to_string())),
    });
    assert!(matches!(r.request, Request::WaitTick));
    assert!(matches!(&r.logs[0], LoopLog::TopologyReadFailed(ReadError::Failed(e)) if e == "QueryDisplayConfig failed"));
    let r = tray_until_read(&mut l, 0);
    assert!(matches!(r.request, Request::WaitTick));
    step(&mut l, Observation::Ticked);
    step(&mut l, Observation::ScreenLocked(false));
    step(&mut l, Observation::Monitoring(true));
    let r = step(&mut l, Observation::MonitorCount(Err("no paths".to_string())));
    assert!(matches!(&r.logs[0], LoopLog::MonitorCountFailed(e) if e == "no paths"));
}
