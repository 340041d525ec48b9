use starplug::actuator::{
    after_connect_attempt, dispatch_targets, is_actuator, on_service_event, ActuatorKind,
    ConnectAction, ServiceEvent, WatchdogAction, DEFAULT_RECONNECT_DELAY_MS,
};
use starplug::bounds::Bounds;
use starplug::dispatch::{Action, Dispatcher, Event, Phase, DEFAULT_IDLE_WINDOW_MS};
use starplug::intensity::Level;
use starplug::launch::host_arguments;
use starplug::locate::{find_target_pid, ProcessEntry, TARGET_PROCESS};
use starplug::supervise::{
    finish_terminate, terminate_without_kill, ChildHandle, Completion, SupervisionError,
    TerminateStep,
};

fn bounds() -> Bounds {
    Bounds { min: 40, max: 100 }
}

#[test]
fn first_sample_activates_and_commands() {
    let mut d = Dispatcher::new(bounds());
    assert_eq!(d.phase, Phase::Idle);
    assert_eq!(d.step(Event::Sample(70)), Action::Command(Level { num: 30, den: 60 }));
    assert_eq!(d.phase, Phase::Active);
}

#[test]
fn idle_window_stops_exactly_once() {
    let mut d = Dispatcher::new(bounds());
    d.step(Event::Sample(90));
    assert_eq!(d.step(Event::Quiet), Action::StopAll);
    assert_eq!(d.phase, Phase::Idle);
    assert_eq!(d.step(Event::Quiet), Action::Nothing);
    assert_eq!(d.step(Event::Quiet), Action::Nothing);
    assert_eq!(DEFAULT_IDLE_WINDOW_MS, 3000);
}

#[test]
fn quiet_while_idle_does_nothing() {
    let mut d = Dispatcher::new(bounds());
    assert_eq!(d.step(Event::Quiet), Action::Nothing);
    assert_eq!(d.phase, Phase::Idle);
}

#[test]
fn close_stops_once_and_ends_dispatch() {
    let mut d = Dispatcher::new(bounds());
    d.step(Event::Sample(50));
    assert_eq!(d.step(Event::Closed), Action::StopAll);
    assert_eq!(d.phase, Phase::Ended);
    assert_eq!(d.step(Event::Sample(80)), Action::Nothing);
    assert_eq!(d.step(Event::Quiet), Action::Nothing);
    assert_eq!(d.step(Event::Closed), Action::Nothing);
    let mut fresh = Dispatcher::new(bounds());
    assert_eq!(fresh.step(Event::Sample(100)), Action::Command(Level { num: 60, den: 60 }));
}

#[test]
fn close_while_idle_still_stops() {
    let mut d = Dispatcher::new(bounds());
    assert_eq!(d.step(Event::Closed), Action::StopAll);
}

#[test]
fn one_failed_device_does_not_affect_the_others() {
    let devices = vec![
        vec![ActuatorKind::Vibrate],
        vec![ActuatorKind::Vibrate, ActuatorKind::Rotate],
        vec![ActuatorKind::Oscillate, ActuatorKind::Vibrate],
    ];
    let mut d = Dispatcher::new(bounds());
    assert!(matches!(d.step(Event::Sample(70)), Action::Command(_)));
    // Every device gets its own command; the second one's failure is no event of
    // the session, which stays active and keeps commanding all three.
    assert_eq!(dispatch_targets(&devices, true), vec![0, 1, 2]);
    assert_eq!(d.phase, Phase::Active);
    assert_eq!(d.step(Event::Sample(100)), Action::Command(Level { num: 60, den: 60 }));
    assert_eq!(dispatch_targets(&devices, true), vec![0, 1, 2]);
}

#[test]
fn targets_skip_non_vibrators_and_disconnected() {
    let devices = vec![
        vec![ActuatorKind::Rotate],
        vec![],
        vec![ActuatorKind::Vibrate],
        vec![ActuatorKind::Other, ActuatorKind::Position],
    ];
    assert_eq!(dispatch_targets(&devices, true), vec![2]);
    assert_eq!(dispatch_targets(&devices, false), Vec::<usize>::new());
    assert_eq!(dispatch_targets(&vec![], true), Vec::<usize>::new());
    assert!(is_actuator(&vec![ActuatorKind::Inflate, ActuatorKind::Vibrate]));
    assert!(!is_actuator(&vec![ActuatorKind::Constrict]));
}

#[test]
fn connect_fails_twice_then_scans() {
    let outcomes = [false, false, true];
    let mut actions = Vec::new();
    for ok in outcomes {
        let a = after_connect_attempt(ok, DEFAULT_RECONNECT_DELAY_MS);
        actions.push(a);
        if a == ConnectAction::StartScanning {
            break;
        }
    }
    assert_eq!(
        actions,
        vec![
            ConnectAction::RetryAfter(5000),
            ConnectAction::RetryAfter(5000),
            ConnectAction::StartScanning
        ]
    );
    assert_eq!(after_connect_attempt(false, 250), ConnectAction::RetryAfter(250));
}

#[test]
fn watchdog_decisions() {
    assert_eq!(on_service_event(ServiceEvent::Disconnected), WatchdogAction::Reconnect);
    assert_eq!(on_service_event(ServiceEvent::TransportError), WatchdogAction::Report);
    assert_eq!(on_service_event(ServiceEvent::PingTimeout), WatchdogAction::Report);
    assert_eq!(on_service_event(ServiceEvent::Other), WatchdogAction::Ignore);
}

#[test]
fn terminate_after_exit_is_a_no_op() {
    let h = ChildHandle::new(4242);
    let step = h.terminate_step(Completion::Fired);
    assert_eq!(step, TerminateStep::AlreadyExited);
    assert_eq!(terminate_without_kill(step), Some(Ok(())));
}

#[test]
fn terminate_running_host_kills_it() {
    let h = ChildHandle::new(4242);
    let step = h.terminate_step(Completion::Pending);
    assert_eq!(step, TerminateStep::Kill(4242));
    assert_eq!(terminate_without_kill(step), None);
    assert_eq!(finish_terminate(true, true), Ok(()));
    assert_eq!(finish_terminate(false, true), Err(SupervisionError::KillFailed));
    assert_eq!(finish_terminate(true, false), Err(SupervisionError::SignalLost));
}

#[test]
fn terminate_with_lost_signal_fails() {
    let h = ChildHandle::new(7);
    let step = h.terminate_step(Completion::Lost);
    assert_eq!(step, TerminateStep::SignalLost);
    assert_eq!(terminate_without_kill(step), Some(Err(SupervisionError::SignalLost)));
}

#[test]
fn locator_finds_first_exact_match() {
    let entries = vec![
        ProcessEntry { pid: 1, exe_name: Some("launchd".to_string()) },
        ProcessEntry { pid: 9, exe_name: None },
        ProcessEntry { pid: 12, exe_name: Some("starcraft".to_string()) },
        ProcessEntry { pid: 30, exe_name: Some("StarCraft".to_string()) },
        ProcessEntry { pid: 31, exe_name: Some("StarCraft".to_string()) },
    ];
    assert_eq!(find_target_pid(&entries, &TARGET_PROCESS.to_string()), Some(30));
    assert_eq!(find_target_pid(&entries[..3].to_vec(), &TARGET_PROCESS.to_string()), None);
    assert_eq!(find_target_pid(&vec![], &TARGET_PROCESS.to_string()), None);
}

#[test]
fn host_arguments_import_the_script() {
    assert_eq!(
        host_arguments("/tmp/starplug_ab.py"),
        vec![
            "--batch".to_string(),
            "--source-quietly".to_string(),
            "--one-line".to_string(),
            "command script import '/tmp/starplug_ab.py'".to_string()
        ]
    );
}
