//! The repeat loop as a state machine: sleep for the interval, dispatch a
//! tick, wait for the whole tick to complete, sleep again. The caller
//! performs each action and reports back the event that ended it.

use vstd::prelude::*;

verus! {

/// Where the scheduler stands.
#[derive(Clone, Copy, Debug, PartialEq, Eq, Structural)]
pub enum Phase {
    /// Created, not yet started.
    Starting,
    /// Waiting for the interval to elapse.
    Sleeping,
    /// A tick is running; no other starts until it completes.
    Dispatching,
}

/// What the caller reports.
#[derive(Clone, Copy, Debug, PartialEq, Eq, Structural)]
pub enum Event {
    /// The process has loaded its configuration.
    Started,
    /// The requested sleep is over.
    Woke,
    /// Every probe of the running tick has produced its outcome and been routed.
    TickDone,
}

/// What the caller is to do next.
#[derive(Clone, Copy, Debug, PartialEq, Eq, Structural)]
pub enum Action {
    /// Sleep this many seconds, then report `Woke`.
    Sleep(u64),
    /// Run one tick over all endpoints, then report `TickDone`.
    Dispatch,
    /// The event does not fit the phase: nothing to do.
    Ignore,
}

/// The scheduler of one process: its interval and its phase.
#[derive(Clone, Copy, Debug)]
pub struct Scheduler {
    /// Seconds slept before each tick.
    pub interval: u64,
    /// Current phase.
    pub phase: Phase,
}

/// One transition: the next phase and the action that goes with it.
pub open spec fn transition(interval: u64, phase: Phase, event: Event) -> (Phase, Action) {
    match (phase, event) {
        (Phase::Starting, Event::Started) => (Phase::Sleeping, Action::Sleep(interval)),
        (Phase::Sleeping, Event::Woke) => (Phase::Dispatching, Action::Dispatch),
        (Phase::Dispatching, Event::TickDone) => (Phase::Sleeping, Action::Sleep(interval)),
        _ => (phase, Action::Ignore),
    }
}

impl Scheduler {
    /// A scheduler that sleeps `interval` seconds before each tick.
    pub fn new(interval: u64) -> (r: Scheduler)
        requires
            interval > 0,
        ensures
            r.interval == interval,
            r.phase == Phase::Starting,
    {
        Scheduler { interval, phase: Phase::Starting }
    }

    /// Takes one event and returns the action to perform.
    pub fn step(&mut self, event: Event) -> (r: Action)
        ensures
            final(self).interval == old(self).interval,
            (final(self).phase, r) == transition(old(self).interval, old(self).phase, event),
    {
        let (phase, action) = match (self.phase, event) {
            (Phase::Starting, Event::Started) => (Phase::Sleeping, Action::Sleep(self.interval)),
            (Phase::Sleeping, Event::Woke) => (Phase::Dispatching, Action::Dispatch),
            (Phase::Dispatching, Event::TickDone) => (Phase::Sleeping, Action::Sleep(self.interval)),
            _ => (self.phase, Action::Ignore),
        };
        self.phase = phase;
        action
    }
}

/// The phase reached from `start` after the given events.
pub open spec fn phase_after(interval: u64, start: Phase, events: Seq<Event>) -> Phase
    decreases events.len(),
{
    if events.len() == 0 {
        start
    } else {
        transition(interval, phase_after(interval, start, events.drop_last()), events.last()).0
    }
}

/// The actions returned, one per event, from `start`.
pub open spec fn trace(interval: u64, start: Phase, events: Seq<Event>) -> Seq<Action>
    decreases events.len(),
{
    if events.len() == 0 {
        Seq::empty()
    } else {
        trace(interval, start, events.drop_last()).push(
            transition(interval, phase_after(interval, start, events.drop_last()), events.last()).1,
        )
    }
}

/// The last action of a trace that is not `Ignore`, if any.
pub open spec fn last_effective(actions: Seq<Action>) -> Option<Action>
    decreases actions.len(),
{
    if actions.len() == 0 {
        None
    } else if actions.last() == Action::Ignore {
        last_effective(actions.drop_last())
    } else {
        Some(actions.last())
    }
}

/// The phase of a started scheduler matches the last action it returned.
proof fn lemma_phase_tracks_actions(interval: u64, events: Seq<Event>)
    ensures
        ({
            let p = phase_after(interval, Phase::Starting, events);
            let last = last_effective(trace(interval, Phase::Starting, events));
            &&& p == Phase::Starting <==> last is None
            &&& p == Phase::Sleeping ==> last == Some(Action::Sleep(interval))
            &&& p == Phase::Dispatching ==> last == Some(Action::Dispatch)
        }),
    decreases events.len(),
{
    if events.len() > 0 {
        lemma_phase_tracks_actions(interval, events.drop_last());
        let t = trace(interval, Phase::Starting, events);
        assert(t.drop_last() =~= trace(interval, Phase::Starting, events.drop_last()));
    }
}

/// Ticks never overlap and are always spaced by a full interval: whatever
/// events came before, a tick is dispatched only when the last action
/// returned was a sleep of the whole interval, and a sleep is requested only
/// at the start or once the running tick has completed.
pub proof fn lemma_ticks_spaced_by_interval(interval: u64, events: Seq<Event>, next: Event)
    ensures
        ({
            let before = trace(interval, Phase::Starting, events);
            let a = transition(interval, phase_after(interval, Phase::Starting, events), next).1;
            &&& a == Action::Dispatch ==> last_effective(before) == Some(Action::Sleep(interval))
            &&& a is Sleep ==> {
                &&& a == Action::Sleep(interval)
                &&& (last_effective(before) is None || (last_effective(before) == Some(
                    Action::Dispatch,
                ) && next == Event::TickDone))
            }
        }),
{
    lemma_phase_tracks_actions(interval, events);
}

} // verus!
