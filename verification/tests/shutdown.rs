use monitor_manager::shutdown::{
    EndSessionQuery, QueryAction, QueryLog, QueryObservation, SecureDesktopWatch, ShutdownInterceptor,
    WatchAction, WatchLog, WatchObservation, is_logoff_request,
};
use monitor_manager::topology::TopologyMode;

#[test]
fn new_interceptor_is_idle() {
    let g = ShutdownInterceptor::new();
    assert!(!g.is_script_initiated());
    assert!(!g.task_running());
}

#[test]
fn logoff_flag() {
    assert!(is_logoff_request(0x8000_0000));
    assert!(is_logoff_request(0xFFFF_FFFF));
    assert!(!is_logoff_request(0));
    assert!(!is_logoff_request(0x4000_0000));
}

#[test]
fn case1_correct_mode_allows() {
    let mut g = ShutdownInterceptor::new();
    let mut q = EndSessionQuery::new(TopologyMode::Clone);
    let s = q.step(&mut g, QueryObservation::Begin { is_logoff: false });
    assert!(matches!(s.action, QueryAction::CountMonitors));
    assert!(matches!(&s.logs[0], QueryLog::Detected { is_logoff: false }));
    let s = q.step(&mut g, QueryObservation::MonitorCount(Ok(2)));
    assert!(matches!(s.action, QueryAction::ReadTopology));
    let s = q.step(&mut g, QueryObservation::Topology { current: Ok(TopologyMode::Clone), target: TopologyMode::Extend });
    assert!(matches!(s.action, QueryAction::Allow));
    assert!(matches!(&s.logs[1], QueryLog::Correct));
}

#[test]
fn case2_restores_initial_not_target() {
    let mut g = ShutdownInterceptor::new();
    let mut q = EndSessionQuery::new(TopologyMode::Clone);
    q.step(&mut g, QueryObservation::Begin { is_logoff: true });
    q.step(&mut g, QueryObservation::MonitorCount(Ok(2)));
    let s = q.step(&mut g, QueryObservation::Topology { current: Ok(TopologyMode::Extend), target: TopologyMode::Extend });
    match &s.action {
        QueryAction::ApplyInitial(m) => assert_eq!(*m, TopologyMode::Clone),
        _ => panic!("expected a fix"),
    }
    let s = q.step(&mut g, QueryObservation::Applied(Ok(())));
    assert!(matches!(s.action, QueryAction::AllowAfterSettling));
    let mut q = EndSessionQuery::new(TopologyMode::Clone);
    q.step(&mut g, QueryObservation::Begin { is_logoff: true });
    q.step(&mut g, QueryObservation::MonitorCount(Ok(2)));
    q.step(&mut g, QueryObservation::Topology { current: Ok(TopologyMode::Extend), target: TopologyMode::Extend });
    let s = q.step(&mut g, QueryObservation::Applied(Err("no".to_string())));
    assert!(matches!(s.action, QueryAction::Allow));
    assert!(matches!(&s.logs[0], QueryLog::FixFailed(e) if e == "no"));
}

#[test]
fn single_monitor_or_count_failure_allows() {
    let mut g = ShutdownInterceptor::new();
    let mut q = EndSessionQuery::new(TopologyMode::Clone);
    q.step(&mut g, QueryObservation::Begin { is_logoff: false });
    let s = q.step(&mut g, QueryObservation::MonitorCount(Ok(1)));
    assert!(matches!(s.action, QueryAction::Allow));
    let mut q = EndSessionQuery::new(TopologyMode::Clone);
    q.step(&mut g, QueryObservation::Begin { is_logoff: false });
    let s = q.step(&mut g, QueryObservation::MonitorCount(Err("x".to_string())));
    assert!(matches!(s.action, QueryAction::Allow));
}

#[test]
fn case3_round_trip() {
    let mut g = ShutdownInterceptor::new();
    let mut q = EndSessionQuery::new(TopologyMode::Clone);
    q.step(&mut g, QueryObservation::Begin { is_logoff: true });
    q.step(&mut g, QueryObservation::MonitorCount(Ok(2)));
    let s = q.step(&mut g, QueryObservation::Topology { current: Err("secure desktop".to_string()), target: TopologyMode::Clone });
    let (initial, is_logoff) = match s.action {
        QueryAction::DenyAndWatch { initial, is_logoff } => (initial, is_logoff),
        _ => panic!("expected a refusal"),
    };
    assert!(is_logoff);
    assert!(g.task_running());
    // A second request while the watch runs passes.
    let mut q2 = EndSessionQuery::new(TopologyMode::Clone);
    assert!(matches!(q2.step(&mut g, QueryObservation::Begin { is_logoff: true }).action, QueryAction::Allow));

    let mut w = SecureDesktopWatch::new(initial, is_logoff);
    let s = w.start();
    assert!(matches!(s.action, WatchAction::SleepThenProbe { delay_ms: 100 }));
    assert!(matches!(&s.logs[0], WatchLog::Waiting));
    let s = w.step(&mut g, WatchObservation::Probed { count: Err("e".to_string()), mode: Ok(TopologyMode::Clone) });
    assert!(matches!(s.action, WatchAction::SleepThenProbe { .. }));
    let s = w.step(&mut g, WatchObservation::Probed { count: Ok(2), mode: Ok(TopologyMode::Extend) });
    assert!(matches!(s.action, WatchAction::ApplyInitial(TopologyMode::Clone)));
    let s = w.step(&mut g, WatchObservation::Applied(Ok(())));
    assert!(matches!(s.action, WatchAction::Reinitiate { is_logoff: true }));
    assert!(g.is_script_initiated());
    let s = w.step(&mut g, WatchObservation::Reinitiated);
    assert!(matches!(s.action, WatchAction::Finish));
    assert!(!g.task_running());
    // The re-initiated request passes without checks, once.
    let mut q3 = EndSessionQuery::new(TopologyMode::Clone);
    let s = q3.step(&mut g, QueryObservation::Begin { is_logoff: true });
    assert!(matches!(s.action, QueryAction::Allow));
    assert!(matches!(&s.logs[1], QueryLog::ScriptInitiated));
    assert!(!g.is_script_initiated());
    let mut q4 = EndSessionQuery::new(TopologyMode::Clone);
    assert!(matches!(q4.step(&mut g, QueryObservation::Begin { is_logoff: true }).action, QueryAction::CountMonitors));
}

#[test]
fn watch_gives_up_after_fifty_probes() {
    let mut g = ShutdownInterceptor::new();
    let mut q = EndSessionQuery::new(TopologyMode::Extend);
    q.step(&mut g, QueryObservation::Begin { is_logoff: false });
    q.step(&mut g, QueryObservation::MonitorCount(Ok(2)));
    q.step(&mut g, QueryObservation::Topology { current: Err("x".to_string()), target: TopologyMode::Extend });
    assert!(g.task_running());
    let mut w = SecureDesktopWatch::new(TopologyMode::Extend, false);
    let mut probes = 0;
    let mut still_waiting = 0;
    loop {
        let s = w.step(&mut g, WatchObservation::Probed { count: Err("x".to_string()), mode: Err("y".to_string()) });
        probes += 1;
        still_waiting += s.logs.iter().filter(|l| matches!(l, WatchLog::StillWaiting { .. })).count();
        if matches!(s.action, WatchAction::Finish) {
            assert!(matches!(s.logs.last(), Some(WatchLog::Timeout)));
            break;
        }
        assert!(probes < 60);
    }
    assert_eq!(probes, 50);
    assert_eq!(still_waiting, 5);
    assert!(!g.task_running());
}

#[test]
fn no_fix_needed_reinitiates_directly() {
    let mut g = ShutdownInterceptor::new();
    let mut w = SecureDesktopWatch::new(TopologyMode::Extend, false);
    let s = w.step(&mut g, WatchObservation::Probed { count: Ok(1), mode: Ok(TopologyMode::Clone) });
    assert!(matches!(s.action, WatchAction::Reinitiate { is_logoff: false }));
    assert!(matches!(&s.logs[1], WatchLog::NoFixNeeded));
    assert!(g.is_script_initiated());
}
