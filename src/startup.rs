//! Startup sequencing and the heartbeat loop as a state machine. The caller
//! performs each action that a step returns and reports its outcome as the
//! next event; the machine decides what comes next.

use vstd::prelude::*;
use crate::bus::BusError;
use crate::clock::{ClockError, DelaySource};

verus! {

/// Half-period of the heartbeat, in milliseconds.
pub const HEARTBEAT_HALF_PERIOD_MS: u32 = 1000;

/// Which half of a loop iteration comes next.
#[derive(Clone, Copy, Debug, PartialEq, Eq, Structural)]
pub enum LoopStep {
    Toggle,
    Wait,
}

/// Where startup stands.
#[derive(Clone, Copy, Debug, PartialEq, Eq, Structural)]
pub enum Phase {
    /// Nothing configured yet.
    Uninitialized,
    /// Clocks applied; the delay source exists.
    ClockReady { delay: DelaySource },
    /// Heartbeat line and bus session set up; the sensor probe is pending.
    PeripheralsReady { delay: DelaySource },
    /// The heartbeat loop, for good.
    Running { delay: DelaySource, next: LoopStep },
    /// Startup failed, or an event came out of order: nothing runs any more.
    Halted,
}

/// What the caller is to do next.
#[derive(Clone, Copy, Debug, PartialEq, Eq, Structural)]
pub enum Action {
    /// Apply the clock configuration and report the delay source, or the error.
    ConfigureClocks,
    /// Set up the heartbeat line and the bus session.
    InitPeripherals,
    /// Issue the sensor's liveness probe.
    ProbeSensor,
    /// Toggle the heartbeat line.
    ToggleHeartbeat,
    /// Block on the delay source for `ms` milliseconds.
    Delay { ms: u32 },
    /// Stop for good.
    Halt,
}

/// Outcome of the last action, or power-on.
#[derive(Clone, Copy, Debug)]
pub enum Event {
    PowerOn,
    ClockConfigured(Result<DelaySource, ClockError>),
    PeripheralsInitialized,
    SensorProbed(Result<u8, BusError>),
    /// A toggle or a delay completed.
    Done,
}

/// The startup state machine.
///
/// The probe's outcome does not hold startup back: the heartbeat shows that
/// the board runs whether or not the sensor answers, so the outcome is kept in
/// `sensor_responded` for the caller to act on.
#[derive(Clone, Copy, Debug, PartialEq, Eq, Structural)]
pub struct Startup {
    pub phase: Phase,
    pub sensor_responded: bool,
}

/// The next state and the action to perform, from a state and an event.
pub open spec fn transition(s: Startup, e: Event) -> (Startup, Action) {
    let halted = Startup { phase: Phase::Halted, ..s };
    match (s.phase, e) {
        (Phase::Uninitialized, Event::PowerOn) => (s, Action::ConfigureClocks),
        (Phase::Uninitialized, Event::ClockConfigured(Ok(d))) => (
            Startup { phase: Phase::ClockReady { delay: d }, ..s },
            Action::InitPeripherals,
        ),
        (Phase::ClockReady { delay }, Event::PeripheralsInitialized) => (
            Startup { phase: Phase::PeripheralsReady { delay }, ..s },
            Action::ProbeSensor,
        ),
        (Phase::PeripheralsReady { delay }, Event::SensorProbed(p)) => (
            Startup { phase: Phase::Running { delay, next: LoopStep::Wait }, sensor_responded: p is Ok },
            Action::ToggleHeartbeat,
        ),
        (Phase::Running { delay, next: LoopStep::Wait }, Event::Done) => (
            Startup { phase: Phase::Running { delay, next: LoopStep::Toggle }, ..s },
            Action::Delay { ms: HEARTBEAT_HALF_PERIOD_MS },
        ),
        (Phase::Running { delay, next: LoopStep::Toggle }, Event::Done) => (
            Startup { phase: Phase::Running { delay, next: LoopStep::Wait }, ..s },
            Action::ToggleHeartbeat,
        ),
        _ => (halted, Action::Halt),
    }
}

/// The state after a run of events, and the actions they produced in order.
pub open spec fn run(s: Startup, events: Seq<Event>) -> (Startup, Seq<Action>)
    decreases events.len(),
{
    if events.len() == 0 {
        (s, Seq::empty())
    } else {
        let (s1, a) = transition(s, events[0]);
        let (s2, rest) = run(s1, events.subrange(1, events.len() as int));
        (s2, seq![a] + rest)
    }
}

/// `n` completions of a toggle or a delay.
pub open spec fn done_events(n: nat) -> Seq<Event> {
    Seq::new(n, |i: int| Event::Done)
}

/// The action at position `i` of the loop, counted from a loop whose next
/// half is `next`.
pub open spec fn loop_action(next: LoopStep, i: int) -> Action {
    let offset: int = if next == LoopStep::Toggle { 0 } else { 1 };
    if (i + offset) % 2 == 0 {
        Action::ToggleHeartbeat
    } else {
        Action::Delay { ms: HEARTBEAT_HALF_PERIOD_MS }
    }
}

/// The half of the loop that comes after `n` more halves from `next`.
pub open spec fn loop_step_after(next: LoopStep, n: nat) -> LoopStep {
    if n % 2 == 0 {
        next
    } else if next == LoopStep::Toggle {
        LoopStep::Wait
    } else {
        LoopStep::Toggle
    }
}

/// Once running, the loop only toggles the heartbeat and waits one
/// half-period of 1000 milliseconds, in strict alternation: each toggle is
/// followed by exactly one delay and each delay by one toggle, and the machine
/// stays in the loop whatever the number of completions.
pub proof fn heartbeat_alternates(delay: DelaySource, next: LoopStep, sensor_responded: bool, n: nat)
    ensures
        ({
            let s = Startup { phase: Phase::Running { delay, next }, sensor_responded };
            let r = run(s, done_events(n));
            &&& r.1.len() == n
            &&& forall|i: int| 0 <= i < n ==> #[trigger] r.1[i] == loop_action(next, i)
            &&& r.0 == Startup {
                phase: Phase::Running { delay, next: loop_step_after(next, n) },
                sensor_responded,
            }
        }),
    decreases n,
{
    let s = Startup { phase: Phase::Running { delay, next }, sensor_responded };
    if n > 0 {
        let (s1, a) = transition(s, Event::Done);
        let next1 = if next == LoopStep::Toggle { LoopStep::Wait } else { LoopStep::Toggle };
        assert(s1 == Startup { phase: Phase::Running { delay, next: next1 }, sensor_responded });
        heartbeat_alternates(delay, next1, sensor_responded, (n - 1) as nat);
        let ev = done_events(n);
        assert(ev.subrange(1, n as int) =~= done_events((n - 1) as nat));
        assert(ev[0] == Event::Done);
        let rest = run(s1, done_events((n - 1) as nat));
        assert(run(s, ev) == (rest.0, seq![a] + rest.1));
        assert forall|i: int| 0 <= i < n implies #[trigger] run(s, ev).1[i] == loop_action(next, i) by {
            if i > 0 {
                assert(run(s, ev).1[i] == rest.1[i - 1]);
                assert(rest.1[i - 1] == loop_action(next1, i - 1));
            }
        }
    } else {
        assert(run(s, done_events(n)).1 =~= Seq::<Action>::empty());
    }
}

/// Whether an event reports a failed clock configuration, or is no clock
/// report at all.
pub open spec fn no_clock_success(e: Event) -> bool {
    match e {
        Event::ClockConfigured(r) => r is Err,
        _ => true,
    }
}

/// Where clock configuration never succeeds, the heartbeat never toggles and
/// startup never leaves its first phase but to halt; once a clock failure is
/// reported the machine is halted.
pub proof fn clock_failure_never_toggles(s: Startup, events: Seq<Event>)
    requires
        s.phase == Phase::Uninitialized || s.phase == Phase::Halted,
        forall|i: int| 0 <= i < events.len() ==> no_clock_success(#[trigger] events[i]),
    ensures
        forall|i: int|
            0 <= i < run(s, events).1.len() ==> #[trigger] run(s, events).1[i]
                != Action::ToggleHeartbeat,
        run(s, events).0.phase == Phase::Uninitialized || run(s, events).0.phase == Phase::Halted,
        (exists|i: int| 0 <= i < events.len() && #[trigger] events[i] is ClockConfigured)
            ==> run(s, events).0.phase == Phase::Halted,
    decreases events.len(),
{
    if events.len() > 0 {
        let (s1, a) = transition(s, events[0]);
        let tail = events.subrange(1, events.len() as int);
        assert(no_clock_success(events[0]));
        assert forall|i: int| 0 <= i < tail.len() implies no_clock_success(#[trigger] tail[i]) by {
            assert(tail[i] == events[i + 1]);
        }
        clock_failure_never_toggles(s1, tail);
        let rest = run(s1, tail);
        assert(run(s, events) == (rest.0, seq![a] + rest.1));
        assert(a != Action::ToggleHeartbeat);
        assert forall|i: int| 0 <= i < run(s, events).1.len() implies #[trigger] run(s, events).1[i]
            != Action::ToggleHeartbeat by {
            if i > 0 {
                assert(run(s, events).1[i] == rest.1[i - 1]);
            }
        }
        if exists|i: int| 0 <= i < events.len() && #[trigger] events[i] is ClockConfigured {
            let i = choose|i: int| 0 <= i < events.len() && #[trigger] events[i] is ClockConfigured;
            if i > 0 {
                assert(tail[i - 1] is ClockConfigured);
            } else {
                assert(s1.phase == Phase::Halted);
                halt_is_final(s1, tail);
            }
        }
    }
}

/// A halted machine stays halted, whatever comes.
pub proof fn halt_is_final(s: Startup, events: Seq<Event>)
    requires
        s.phase == Phase::Halted,
    ensures
        run(s, events).0.phase == Phase::Halted,
        forall|i: int| 0 <= i < run(s, events).1.len() ==> #[trigger] run(s, events).1[i] == Action::Halt,
    decreases events.len(),
{
    if events.len() > 0 {
        let (s1, a) = transition(s, events[0]);
        let tail = events.subrange(1, events.len() as int);
        halt_is_final(s1, tail);
        let rest = run(s1, tail);
        assert(run(s, events) == (rest.0, seq![a] + rest.1));
        assert forall|i: int| 0 <= i < run(s, events).1.len() implies #[trigger] run(s, events).1[i]
            == Action::Halt by {
            if i > 0 {
                assert(run(s, events).1[i] == rest.1[i - 1]);
            }
        }
    }
}

impl Startup {
    /// A machine at power-on.
    pub fn new() -> (r: Startup)
        ensures
            r.phase == Phase::Uninitialized,
            !r.sensor_responded,
    {
        Startup { phase: Phase::Uninitialized, sensor_responded: false }
    }

    /// Takes the events in order and returns the actions they produced.
    pub fn run_events(&mut self, events: &Vec<Event>) -> (r: Vec<Action>)
        ensures
            (*final(self), r@) == run(*old(self), events@),
    {
        let mut actions: Vec<Action> = Vec::new();
        let mut i: usize = 0;
        proof {
            assert(events@.subrange(0, events@.len() as int) =~= events@);
            assert(actions@ + run(*self, events@).1 =~= run(*self, events@).1);
        }
        while i < events.len()
            invariant
                i <= events@.len(),
                run(*old(self), events@) == (
                    run(*self, events@.subrange(i as int, events@.len() as int)).0,
                    actions@ + run(*self, events@.subrange(i as int, events@.len() as int)).1,
                ),
            decreases events@.len() - i,
        {
            let ghost tail = events@.subrange(i as int, events@.len() as int);
            let a = self.step(events[i]);
            proof {
                assert(tail.subrange(1, tail.len() as int) =~= events@.subrange(
                    i + 1,
                    events@.len() as int,
                ));
                assert(tail[0] == events@[i as int]);
                assert(actions@ + (seq![a] + run(*self, tail.subrange(1, tail.len() as int)).1)
                    =~= actions@.push(a) + run(*self, tail.subrange(1, tail.len() as int)).1);
            }
            actions.push(a);
            i = i + 1;
        }
        proof {
            assert(events@.subrange(i as int, events@.len() as int) =~= Seq::<Event>::empty());
            assert(actions@ + Seq::<Action>::empty() =~= actions@);
        }
        actions
    }

    /// Takes one event and returns the action to perform.
    pub fn step(&mut self, event: Event) -> (r: Action)
        ensures
            (*final(self), r) == transition(*old(self), event),
    {
        let s = *self;
        match (s.phase, event) {
            (Phase::Uninitialized, Event::PowerOn) => Action::ConfigureClocks,
            (Phase::Uninitialized, Event::ClockConfigured(Ok(d))) => {
                self.phase = Phase::ClockReady { delay: d };
                Action::InitPeripherals
            },
            (Phase::ClockReady { delay }, Event::PeripheralsInitialized) => {
                self.phase = Phase::PeripheralsReady { delay };
                Action::ProbeSensor
            },
            (Phase::PeripheralsReady { delay }, Event::SensorProbed(p)) => {
                self.phase = Phase::Running { delay, next: LoopStep::Wait };
                self.sensor_responded = p.is_ok();
                Action::ToggleHeartbeat
            },
            (Phase::Running { delay, next: LoopStep::Wait }, Event::Done) => {
                self.phase = Phase::Running { delay, next: LoopStep::Toggle };
                Action::Delay { ms: HEARTBEAT_HALF_PERIOD_MS }
            },
            (Phase::Running { delay, next: LoopStep::Toggle }, Event::Done) => {
                self.phase = Phase::Running { delay, next: LoopStep::Wait };
                Action::ToggleHeartbeat
            },
            _ => {
                self.phase = Phase::Halted;
                Action::Halt
            },
        }
    }
}

} // verus!
