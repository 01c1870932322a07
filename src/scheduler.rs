use vstd::prelude::*;

verus! {

/// Where the polling loop stands.
#[derive(Debug, Clone, Copy, PartialEq, Eq, Structural)]
pub enum LoopState {
    /// Started; the first sweep comes without waiting.
    AwaitingFirstTick,
    /// Running; each sweep comes after one full interval.
    Ticking,
    /// Stopped for good.
    Terminating,
}

/// What ended the loop's wait.
#[derive(Debug, Clone, Copy, PartialEq, Eq, Structural)]
pub enum LoopEvent {
    Interrupt,
    Terminate,
    TimerElapsed,
}

/// What the loop does next.
#[derive(Debug, Clone, Copy, PartialEq, Eq, Structural)]
pub enum LoopAction {
    /// Check every target, in order.
    Sweep,
    /// Leave the loop.
    Exit,
}

pub open spec fn is_shutdown(e: LoopEvent) -> bool {
    e is Interrupt || e is Terminate
}

impl LoopState {
    /// The next state and action once `e` ends the wait.
    pub open spec fn next(self, e: LoopEvent) -> (LoopState, LoopAction) {
        if self is Terminating || is_shutdown(e) {
            (LoopState::Terminating, LoopAction::Exit)
        } else {
            (LoopState::Ticking, LoopAction::Sweep)
        }
    }

    pub fn initial() -> (r: LoopState)
        ensures
            r == LoopState::AwaitingFirstTick,
    {
        LoopState::AwaitingFirstTick
    }

    /// Whether the loop waits a full interval before its next sweep.
    pub fn sleeps_before_tick(&self) -> (r: bool)
        ensures
            r == (*self is Ticking),
    {
        match self {
            LoopState::Ticking => true,
            _ => false,
        }
    }

    /// Whether the loop still runs.
    pub fn is_active(&self) -> (r: bool)
        ensures
            r == !(*self is Terminating),
    {
        match self {
            LoopState::Terminating => false,
            _ => true,
        }
    }

    /// Decides what follows the event that ended the wait.
    pub fn step(self, e: LoopEvent) -> (r: (LoopState, LoopAction))
        ensures
            r == self.next(e),
    {
        match self {
            LoopState::Terminating => (LoopState::Terminating, LoopAction::Exit),
            _ => match e {
                LoopEvent::TimerElapsed => (LoopState::Ticking, LoopAction::Sweep),
                _ => (LoopState::Terminating, LoopAction::Exit),
            },
        }
    }
}

/// The actions that a run of events brings about, from state `s`.
pub open spec fn run(s: LoopState, events: Seq<LoopEvent>) -> Seq<LoopAction>
    decreases events.len(),
{
    if events.len() == 0 {
        Seq::empty()
    } else {
        let (n, a) = s.next(events[0]);
        seq![a] + run(n, events.drop_first())
    }
}

/// Once stopped, the loop never sweeps again.
pub proof fn lemma_terminated_never_sweeps(events: Seq<LoopEvent>)
    ensures
        run(LoopState::Terminating, events).len() == events.len(),
        forall|i: int|
            0 <= i < events.len() ==> #[trigger] run(LoopState::Terminating, events)[i]
                == LoopAction::Exit,
    decreases events.len(),
{
    if events.len() > 0 {
        lemma_terminated_never_sweeps(events.drop_first());
        let rest = run(LoopState::Terminating, events.drop_first());
        assert forall|i: int| 0 <= i < events.len() implies #[trigger] run(
            LoopState::Terminating,
            events,
        )[i] == LoopAction::Exit by {
            if i > 0 {
                assert(run(LoopState::Terminating, events)[i] == rest[i - 1]);
            }
        }
    }
}

/// A shutdown signal, in any state and in particular while the loop sleeps
/// between ticks, ends the loop at once: the next action is to exit, and no
/// sweep follows whatever comes after.
pub proof fn lemma_shutdown_stops_loop(s: LoopState, e: LoopEvent, later: Seq<LoopEvent>)
    requires
        is_shutdown(e),
    ensures
        s.next(e) == (LoopState::Terminating, LoopAction::Exit),
        forall|i: int| 0 <= i < later.len() ==> #[trigger] run(s, seq![e] + later)[i + 1]
            == LoopAction::Exit,
        run(s, seq![e] + later)[0] == LoopAction::Exit,
{
    let evs = seq![e] + later;
    assert(evs.drop_first() =~= later);
    lemma_terminated_never_sweeps(later);
    assert forall|i: int| 0 <= i < later.len() implies #[trigger] run(s, seq![e] + later)[i + 1]
        == LoopAction::Exit by {
        assert(run(s, evs)[i + 1] == run(LoopState::Terminating, later)[i]);
    }
}

} // verus!
