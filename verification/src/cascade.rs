//! The single-fire cascade protocol: the coordinator that arms exactly
//! one cascade per run, and a state model of the whole run under which
//! the run's guarantees — every exit reported, cascade at most once,
//! no cascade from a sibling exit unless kill-on-exit is set, and the
//! first exit firing when it is — are stated and proved.

use vstd::prelude::*;

use crate::signals::SignalKind;

verus! {

/// The single-fire dispatcher. It starts armed; the first trigger wins
/// the transition to fired, and every later trigger is discarded.
/// Whoever signals the sibling processes must hold this coordinator
/// exclusively while testing it, which makes the test-and-set atomic.
pub struct CascadeCoordinator {
    fired: bool,
}

impl CascadeCoordinator {
    /// Whether a cascade has already fired.
    pub closed spec fn has_fired(self) -> bool {
        self.fired
    }

    /// A fresh coordinator: armed, nothing fired yet.
    pub fn new() -> (c: Self)
        ensures
            !c.has_fired(),
    {
        CascadeCoordinator { fired: false }
    }

    /// Test-and-set: reports whether this trigger is the one that
    /// fires, and leaves the coordinator fired either way.
    pub fn try_fire(&mut self) -> (won: bool)
        ensures
            won == !old(self).has_fired(),
            final(self).has_fired(),
    {
        let won = !self.fired;
        self.fired = true;
        won
    }
}

/// One observable event of a run: a sibling process exiting, or a
/// termination-class signal arriving from outside.
pub enum RunEvent {
    /// The command with this index terminated.
    SiblingExit { idx: int },
    /// The operating system delivered a termination-class signal that
    /// is republished as this kind.
    ExternalSignal { kind: SignalKind },
}

/// The model state of a run: which command indices have had their
/// termination reported, and whether a cascade has fired.
pub struct RunState {
    /// Indices whose "exited with code" line has been emitted.
    pub reported: Set<int>,
    /// Whether the single cascade of this run has fired.
    pub fired: bool,
}

/// The state a run starts in: nothing reported, cascade armed.
pub open spec fn run_init() -> RunState {
    RunState { reported: Set::empty(), fired: false }
}

/// The cascade trigger an event raises, if any: an external signal
/// always triggers with its own kind; a sibling exit triggers a default
/// termination request, and only when kill-on-exit is set.
pub open spec fn event_trigger(kill_others: bool, e: RunEvent) -> Option<SignalKind> {
    match e {
        RunEvent::SiblingExit { .. } => if kill_others {
            Some(SignalKind::Term)
        } else {
            None
        },
        RunEvent::ExternalSignal { kind } => Some(kind),
    }
}

/// Whether handling this event in this state fires the cascade.
pub open spec fn step_fires(kill_others: bool, s: RunState, e: RunEvent) -> bool {
    &&& !s.fired
    &&& event_trigger(kill_others, e) matches Some(_)
}

/// The signal delivered to the sibling processes by this step, or
/// `None` where the step delivers nothing.
pub open spec fn step_action(kill_others: bool, s: RunState, e: RunEvent) -> Option<SignalKind> {
    if step_fires(kill_others, s, e) {
        event_trigger(kill_others, e)
    } else {
        None
    }
}

/// The state after one event: an exit marks its index reported, and any
/// trigger — acted upon or discarded — leaves the coordinator fired.
pub open spec fn run_step(kill_others: bool, s: RunState, e: RunEvent) -> RunState {
    RunState {
        reported: match e {
            RunEvent::SiblingExit { idx } => s.reported.insert(idx),
            RunEvent::ExternalSignal { .. } => s.reported,
        },
        fired: s.fired || (event_trigger(kill_others, e) matches Some(_)),
    }
}

/// The state after a whole sequence of events.
pub open spec fn run_steps(kill_others: bool, s: RunState, es: Seq<RunEvent>) -> RunState
    decreases es.len(),
{
    if es.len() == 0 {
        s
    } else {
        run_steps(kill_others, run_step(kill_others, s, es[0]), es.subrange(1, es.len() as int))
    }
}

/// How many of the events in the sequence fire a cascade.
pub open spec fn fire_count(kill_others: bool, s: RunState, es: Seq<RunEvent>) -> int
    decreases es.len(),
{
    if es.len() == 0 {
        0
    } else {
        (if step_fires(kill_others, s, es[0]) {
            1int
        } else {
            0int
        }) + fire_count(
            kill_others,
            run_step(kill_others, s, es[0]),
            es.subrange(1, es.len() as int),
        )
    }
}

/// The command indices that exit somewhere in the event sequence.
pub open spec fn exit_indices(es: Seq<RunEvent>) -> Set<int>
    decreases es.len(),
{
    if es.len() == 0 {
        Set::empty()
    } else {
        let rest = exit_indices(es.subrange(1, es.len() as int));
        match es[0] {
            RunEvent::SiblingExit { idx } => rest.insert(idx),
            RunEvent::ExternalSignal { .. } => rest,
        }
    }
}

/// Whether every event of the sequence is a sibling exit.
pub open spec fn all_sibling_exits(es: Seq<RunEvent>) -> bool {
    forall|k: int| 0 <= k < es.len() ==> (#[trigger] es[k] matches RunEvent::SiblingExit { .. })
}

/// The cascade fires at most once per run, however many sibling exits
/// and external signals occur and in whatever order; once it has fired,
/// no later event fires it again.
pub proof fn lemma_cascade_at_most_once(kill_others: bool, s: RunState, es: Seq<RunEvent>)
    ensures
        fire_count(kill_others, s, es) <= 1,
        s.fired ==> fire_count(kill_others, s, es) == 0,
    decreases es.len(),
{
    if es.len() > 0 {
        lemma_cascade_at_most_once(
            kill_others,
            run_step(kill_others, s, es[0]),
            es.subrange(1, es.len() as int),
        );
    }
}

/// With kill-on-exit unset, no sibling exit ever delivers a signal: a
/// run whose only events are exits performs no cascade at all.
pub proof fn lemma_no_cascade_without_flag(s: RunState, es: Seq<RunEvent>)
    requires
        all_sibling_exits(es),
    ensures
        fire_count(false, s, es) == 0,
    decreases es.len(),
{
    if es.len() > 0 {
        assert(es[0] matches RunEvent::SiblingExit { .. });
        lemma_no_cascade_without_flag(
            run_step(false, s, es[0]),
            es.subrange(1, es.len() as int),
        );
    }
}

/// With kill-on-exit set, the first exit to be handled while the
/// coordinator is still armed fires a cascade that delivers the default
/// termination request.
pub proof fn lemma_first_exit_fires(s: RunState, idx: int)
    requires
        !s.fired,
    ensures
        step_action(true, s, RunEvent::SiblingExit { idx }) == Some(SignalKind::Term),
        run_step(true, s, RunEvent::SiblingExit { idx }).fired,
{
}

/// Once the cascade has fired, every further trigger is discarded: the
/// step delivers nothing and the coordinator stays fired.
pub proof fn lemma_fired_discards(kill_others: bool, s: RunState, e: RunEvent)
    requires
        s.fired,
    ensures
        step_action(kill_others, s, e) == None::<SignalKind>,
        run_step(kill_others, s, e).fired,
{
}

/// After any sequence of events, the reported indices are exactly those
/// reported before plus the indices that exited during the sequence.
pub proof fn lemma_every_exit_reported(kill_others: bool, s: RunState, es: Seq<RunEvent>)
    ensures
        run_steps(kill_others, s, es).reported =~= s.reported + exit_indices(es),
    decreases es.len(),
{
    if es.len() > 0 {
        let s2 = run_step(kill_others, s, es[0]);
        lemma_every_exit_reported(kill_others, s2, es.subrange(1, es.len() as int));
    }
}

/// A run over events in which every command index from `0` to `n`
/// exits ends with exactly those indices reported: one termination
/// report per launched command.
pub proof fn lemma_full_run_reports_all(kill_others: bool, es: Seq<RunEvent>, n: int)
    requires
        exit_indices(es) =~= Set::new(|i: int| 0 <= i < n),
    ensures
        run_steps(kill_others, run_init(), es).reported =~= Set::new(|i: int| 0 <= i < n),
{
    lemma_every_exit_reported(kill_others, run_init(), es);
}

} // verus!
