use vstd::prelude::*;
use crate::bounds::Bounds;
use crate::intensity::{Level, clamped_num, intensity};

verus! {

/// The default time, in milliseconds, that a session may stay without a new sample
/// before the actuators are stopped.
pub const DEFAULT_IDLE_WINDOW_MS: u64 = 3000;

/// Where a dispatch session stands.
#[derive(Clone, Copy, Debug, PartialEq, Eq, Structural)]
pub enum Phase {
    /// No sample since the start or since the last idle window; actuators stopped.
    Idle,
    /// At least one sample, the last one within the idle window.
    Active,
    /// The telemetry channel closed; nothing more is dispatched.
    Ended,
}

/// What the dispatch loop observed.
#[derive(Clone, Copy, Debug, PartialEq, Eq, Structural)]
pub enum Event {
    /// A new sample arrived.
    Sample(i32),
    /// The idle window passed without a sample.
    Quiet,
    /// The telemetry channel closed.
    Closed,
}

/// What the dispatch loop must do next.
#[derive(Clone, Copy, Debug, PartialEq, Eq, Structural)]
pub enum Action {
    /// Send this level to every actuator.
    Command(Level),
    /// Stop all devices.
    StopAll,
    /// Nothing to do.
    Nothing,
}

pub open spec fn level_of(s: i32, b: Bounds) -> Level {
    Level { num: clamped_num(s as int, b.min as int, b.max as int) as u32, den: (b.max - b.min) as u32 }
}

pub open spec fn next_phase(p: Phase, e: Event) -> Phase {
    match (p, e) {
        (Phase::Ended, _) => Phase::Ended,
        (_, Event::Sample(_)) => Phase::Active,
        (_, Event::Quiet) => Phase::Idle,
        (_, Event::Closed) => Phase::Ended,
    }
}

pub open spec fn action_for(p: Phase, e: Event, b: Bounds) -> Action {
    match (p, e) {
        (Phase::Ended, _) => Action::Nothing,
        (_, Event::Sample(s)) => Action::Command(level_of(s, b)),
        (Phase::Active, Event::Quiet) => Action::StopAll,
        (_, Event::Quiet) => Action::Nothing,
        (_, Event::Closed) => Action::StopAll,
    }
}

/// The actions for a run of events, starting from phase `p`.
pub open spec fn run_actions(p: Phase, evs: Seq<Event>, b: Bounds) -> Seq<Action>
    decreases evs.len(),
{
    if evs.len() == 0 {
        Seq::empty()
    } else {
        seq![action_for(p, evs[0], b)] + run_actions(next_phase(p, evs[0]), evs.drop_first(), b)
    }
}

/// The phase after a run of events, starting from phase `p`.
pub open spec fn run_phase(p: Phase, evs: Seq<Event>) -> Phase
    decreases evs.len(),
{
    if evs.len() == 0 {
        p
    } else {
        run_phase(next_phase(p, evs[0]), evs.drop_first())
    }
}

/// The decisions of one dispatch session.
#[derive(Clone, Copy, Debug)]
pub struct Dispatcher {
    pub phase: Phase,
    pub bounds: Bounds,
}

impl Dispatcher {
    pub open spec fn wf(self) -> bool {
        self.bounds.wf()
    }

    /// A new session, idle until its first sample.
    pub fn new(bounds: Bounds) -> (r: Dispatcher)
        requires
            bounds.wf(),
        ensures
            r.wf(),
            r.phase == Phase::Idle,
            r.bounds == bounds,
    {
        Dispatcher { phase: Phase::Idle, bounds }
    }

    /// Takes one event and returns what to do about it.
    pub fn step(&mut self, e: Event) -> (r: Action)
        requires
            old(self).wf(),
        ensures
            final(self).wf(),
            final(self).bounds == old(self).bounds,
            final(self).phase == next_phase(old(self).phase, e),
            r == action_for(old(self).phase, e, old(self).bounds),
    {
        let b = self.bounds;
        match self.phase {
            Phase::Ended => Action::Nothing,
            _ => match e {
                Event::Sample(s) => {
                    self.phase = Phase::Active;
                    Action::Command(intensity(s, b.min, b.max))
                },
                Event::Quiet => {
                    let was_active = match self.phase {
                        Phase::Active => true,
                        _ => false,
                    };
                    self.phase = Phase::Idle;
                    if was_active {
                        Action::StopAll
                    } else {
                        Action::Nothing
                    }
                },
                Event::Closed => {
                    self.phase = Phase::Ended;
                    Action::StopAll
                },
            },
        }
    }
}

pub open spec fn all_quiet(evs: Seq<Event>) -> bool {
    forall|k: int| 0 <= k < evs.len() ==> #[trigger] evs[k] == Event::Quiet
}

proof fn lemma_quiet_from_idle(evs: Seq<Event>, b: Bounds)
    requires
        all_quiet(evs),
    ensures
        run_actions(Phase::Idle, evs, b) == Seq::new(evs.len(), |k: int| Action::Nothing),
        run_phase(Phase::Idle, evs) == Phase::Idle,
    decreases evs.len(),
{
    if evs.len() > 0 {
        assert(evs[0] == Event::Quiet);
        let rest = evs.drop_first();
        assert(all_quiet(rest)) by {
            assert forall|k: int| 0 <= k < rest.len() implies #[trigger] rest[k] == Event::Quiet by {
                assert(rest[k] == evs[k + 1]);
            }
        }
        lemma_quiet_from_idle(rest, b);
        assert(run_actions(Phase::Idle, evs, b) =~= Seq::new(evs.len(), |k: int| Action::Nothing));
    }
}

/// When an active session sees only idle windows pass, the first one stops all
/// devices and makes the session idle, and none after it issues anything.
pub proof fn lemma_idle_window_stops_once(evs: Seq<Event>, b: Bounds)
    requires
        evs.len() > 0,
        all_quiet(evs),
    ensures
        run_actions(Phase::Active, evs, b)[0] == Action::StopAll,
        forall|k: int| 1 <= k < evs.len() ==> #[trigger] run_actions(Phase::Active, evs, b)[k]
            == Action::Nothing,
        run_actions(Phase::Active, evs, b).len() == evs.len(),
        run_phase(Phase::Active, evs) == Phase::Idle,
{
    assert(evs[0] == Event::Quiet);
    let rest = evs.drop_first();
    assert(all_quiet(rest)) by {
        assert forall|k: int| 0 <= k < rest.len() implies #[trigger] rest[k] == Event::Quiet by {
            assert(rest[k] == evs[k + 1]);
        }
    }
    lemma_quiet_from_idle(rest, b);
}

proof fn lemma_ended_is_silent(evs: Seq<Event>, b: Bounds)
    ensures
        run_actions(Phase::Ended, evs, b) == Seq::new(evs.len(), |k: int| Action::Nothing),
        run_phase(Phase::Ended, evs) == Phase::Ended,
    decreases evs.len(),
{
    if evs.len() > 0 {
        lemma_ended_is_silent(evs.drop_first(), b);
        assert(run_actions(Phase::Ended, evs, b) =~= Seq::new(evs.len(), |k: int| Action::Nothing));
    }
}

/// When the telemetry channel closes, all devices are stopped once, and no event
/// after it, whatever it is, issues anything.
pub proof fn lemma_close_stops_once(p: Phase, evs: Seq<Event>, b: Bounds)
    requires
        p != Phase::Ended,
    ensures
        run_actions(p, seq![Event::Closed] + evs, b)[0] == Action::StopAll,
        run_actions(p, seq![Event::Closed] + evs, b).len() == evs.len() + 1,
        forall|k: int| 1 <= k <= evs.len() ==> #[trigger] run_actions(p, seq![Event::Closed] + evs, b)[k]
            == Action::Nothing,
{
    let all = seq![Event::Closed] + evs;
    assert(all[0] == Event::Closed);
    assert(all.drop_first() =~= evs);
    lemma_ended_is_silent(evs, b);
}

} // verus!
