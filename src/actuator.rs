use vstd::prelude::*;

verus! {

/// The default time, in milliseconds, to wait before connecting to the control
/// service again.
pub const DEFAULT_RECONNECT_DELAY_MS: u64 = 5000;

/// The kind of a scalar actuator that a device advertises.
#[derive(Clone, Copy, Debug, PartialEq, Eq, Structural)]
pub enum ActuatorKind {
    Vibrate,
    Rotate,
    Oscillate,
    Constrict,
    Inflate,
    Position,
    Other,
}

pub open spec fn has_vibrate(kinds: Seq<ActuatorKind>) -> bool {
    exists|k: int| 0 <= k < kinds.len() && kinds[k] == ActuatorKind::Vibrate
}

/// Whether a device with these scalar actuators takes a normalized vibration level.
pub fn is_actuator(kinds: &Vec<ActuatorKind>) -> (r: bool)
    ensures
        r == has_vibrate(kinds@),
{
    let mut i: usize = 0;
    while i < kinds.len()
        invariant
            i <= kinds@.len(),
            forall|k: int| 0 <= k < i ==> kinds@[k] != ActuatorKind::Vibrate,
        decreases kinds.len() - i,
    {
        if kinds[i] == ActuatorKind::Vibrate {
            return true;
        }
        i = i + 1;
    }
    false
}

/// The positions, in order, of the devices that get a command in one dispatch cycle:
/// none while disconnected, else every device with a vibration actuator.
pub fn dispatch_targets(devices: &Vec<Vec<ActuatorKind>>, connected: bool) -> (r: Vec<usize>)
    ensures
        !connected ==> r@.len() == 0,
        connected ==> forall|i: int| 0 <= i < devices@.len() ==> (has_vibrate(
            #[trigger] devices@[i]@) <==> r@.contains(i as usize)),
        forall|k: int| 0 <= k < r@.len() ==> #[trigger] r@[k] < devices@.len(),
        forall|k: int, l: int| 0 <= k < l < r@.len() ==> r@[k] < r@[l],
{
    let mut out: Vec<usize> = Vec::new();
    if !connected {
        return out;
    }
    let mut i: usize = 0;
    while i < devices.len()
        invariant
            i <= devices@.len(),
            forall|j: int| 0 <= j < i ==> (has_vibrate(#[trigger] devices@[j]@) <==> out@.contains(
                j as usize)),
            forall|k: int| 0 <= k < out@.len() ==> #[trigger] out@[k] < i,
            forall|k: int, l: int| 0 <= k < l < out@.len() ==> out@[k] < out@[l],
        decreases devices.len() - i,
    {
        let ghost before = out@;
        if is_actuator(&devices[i]) {
            out.push(i);
            assert(out@[out@.len() - 1] == i);
        }
        assert forall|j: int| 0 <= j <= i implies (has_vibrate(#[trigger] devices@[j]@)
            <==> out@.contains(j as usize)) by {
            if j < i {
                if before.contains(j as usize) {
                    let k = choose|k: int| 0 <= k < before.len() && before[k] == j as usize;
                    assert(out@[k] == j as usize);
                }
                if out@.contains(j as usize) {
                    let k = choose|k: int| 0 <= k < out@.len() && out@[k] == j as usize;
                    if k < before.len() {
                        assert(before[k] == j as usize);
                    }
                }
            } else {
                if out@.contains(j as usize) {
                    let k = choose|k: int| 0 <= k < out@.len() && out@[k] == j as usize;
                    if k < before.len() {
                        assert(before[k] < i);
                    }
                }
            }
        }
        i = i + 1;
    }
    out
}

/// What the connect procedure does after one attempt.
#[derive(Clone, Copy, Debug, PartialEq, Eq, Structural)]
pub enum ConnectAction {
    /// Wait this many milliseconds, then try again.
    RetryAfter(u64),
    /// Connected: start scanning for devices.
    StartScanning,
}

pub open spec fn connect_step(ok: bool, delay_ms: u64) -> ConnectAction {
    if ok {
        ConnectAction::StartScanning
    } else {
        ConnectAction::RetryAfter(delay_ms)
    }
}

/// The decision after one connect attempt, which succeeded or not, with the
/// configured retry delay.
pub fn after_connect_attempt(ok: bool, delay_ms: u64) -> (r: ConnectAction)
    ensures
        r == connect_step(ok, delay_ms),
{
    if ok {
        ConnectAction::StartScanning
    } else {
        ConnectAction::RetryAfter(delay_ms)
    }
}

/// The actions of the connect procedure over a run of attempt outcomes; it ends at
/// the first success.
pub open spec fn connect_run(outcomes: Seq<bool>, delay_ms: u64) -> Seq<ConnectAction>
    decreases outcomes.len(),
{
    if outcomes.len() == 0 {
        Seq::empty()
    } else if outcomes[0] {
        seq![connect_step(true, delay_ms)]
    } else {
        seq![connect_step(false, delay_ms)] + connect_run(outcomes.drop_first(), delay_ms)
    }
}

/// After `n` failed attempts and then a success, the procedure waits the retry delay
/// exactly `n` times and then starts scanning.
pub proof fn lemma_retries_then_scan(n: nat, delay_ms: u64)
    ensures
        ({
            let run = connect_run(Seq::new(n, |k: int| false).push(true), delay_ms);
            &&& run.len() == n + 1
            &&& forall|k: int| 0 <= k < n ==> #[trigger] run[k] == ConnectAction::RetryAfter(
                delay_ms)
            &&& run[n as int] == ConnectAction::StartScanning
        }),
    decreases n,
{
    let o = Seq::new(n, |k: int| false).push(true);
    if n > 0 {
        lemma_retries_then_scan((n - 1) as nat, delay_ms);
        assert(o.drop_first() =~= Seq::new((n - 1) as nat, |k: int| false).push(true));
        assert(!o[0]);
    } else {
        assert(o[0]);
    }
}

/// A notification of the control service, as far as the watchdog tells them apart.
#[derive(Clone, Copy, Debug, PartialEq, Eq, Structural)]
pub enum ServiceEvent {
    Disconnected,
    TransportError,
    PingTimeout,
    Other,
}

/// What the watchdog does about a notification.
#[derive(Clone, Copy, Debug, PartialEq, Eq, Structural)]
pub enum WatchdogAction {
    /// Run the connect procedure again.
    Reconnect,
    /// Log it and go on.
    Report,
    /// Nothing.
    Ignore,
}

/// The watchdog's decision: reconnect on a disconnect, report errors and ping
/// timeouts, ignore the rest.
pub fn on_service_event(e: ServiceEvent) -> (r: WatchdogAction)
    ensures
        e == ServiceEvent::Disconnected <==> r == WatchdogAction::Reconnect,
        (e == ServiceEvent::TransportError || e == ServiceEvent::PingTimeout) <==> r
            == WatchdogAction::Report,
        e == ServiceEvent::Other <==> r == WatchdogAction::Ignore,
{
    match e {
        ServiceEvent::Disconnected => WatchdogAction::Reconnect,
        ServiceEvent::TransportError => WatchdogAction::Report,
        ServiceEvent::PingTimeout => WatchdogAction::Report,
        ServiceEvent::Other => WatchdogAction::Ignore,
    }
}

} // verus!
