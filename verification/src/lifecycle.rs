//! The life of the process as a state machine. The binary performs the
//! actions (binding, serving, waiting for signals) and reports what happened;
//! every decision about what to do next is taken here.

use vstd::prelude::*;

verus! {

/// Port on which the service listens, on all interfaces.
pub const LISTEN_PORT: u16 = 8000;

/// Where the process stands.
#[derive(Clone, Copy, Debug, PartialEq, Eq, Structural)]
pub enum Phase {
    /// Configuration is loaded, tracing installed, the listener being bound.
    Starting,
    /// Requests are accepted and handled.
    Serving,
    /// No new connections are accepted; requests in flight are finishing.
    Draining,
    /// All requests are finished; buffered spans are being flushed.
    Flushing,
    /// The process has ended in good order.
    Stopped,
    /// The process has ended on a fatal error.
    Aborted,
}

/// What the binary reports to the state machine.
#[derive(Clone, Copy, Debug, PartialEq, Eq, Structural)]
pub enum Event {
    /// The listener is bound and the signal handlers are installed.
    Started,
    /// Binding the listener or installing a signal handler failed.
    StartupFailed,
    /// The operating system sent an interrupt signal.
    Interrupt,
    /// The operating system sent a terminate signal.
    Terminate,
    /// The server reported an I/O error from which it cannot recover.
    ServeFailed,
    /// The last request in flight has been answered.
    Drained,
    /// The tracing exporter has been shut down.
    Flushed,
}

/// What the binary has to do next.
#[derive(Clone, Copy, Debug, PartialEq, Eq, Structural)]
pub enum Action {
    /// Nothing: the event does not concern the current phase.
    Nothing,
    /// Start accepting requests.
    Serve,
    /// Stop accepting connections and let requests in flight finish.
    Drain,
    /// Shut the tracing exporter down so that no buffered span is lost.
    FlushTracing,
    /// Leave with success.
    Exit,
    /// Leave at once, without cleanup.
    Abort,
}

/// A phase together with the action that led into it.
#[derive(Clone, Copy, Debug, PartialEq, Eq, Structural)]
pub struct Transition {
    pub phase: Phase,
    pub action: Action,
}

/// Whether an event is one of the two signals that ask the process to end.
pub open spec fn is_shutdown_signal(event: Event) -> bool {
    event == Event::Interrupt || event == Event::Terminate
}

/// Whether a phase is final: the process has ended.
pub open spec fn is_final(phase: Phase) -> bool {
    phase == Phase::Stopped || phase == Phase::Aborted
}

/// The transition table. A signal while serving begins the drain; the end of
/// the drain begins the flush; the end of the flush ends the process. A
/// failure while starting, serving or draining aborts. Every other pair of
/// phase and event changes nothing.
pub open spec fn transition(phase: Phase, event: Event) -> Transition {
    match (phase, event) {
        (Phase::Starting, Event::Started) => Transition {
            phase: Phase::Serving,
            action: Action::Serve,
        },
        (Phase::Starting, Event::StartupFailed) => Transition {
            phase: Phase::Aborted,
            action: Action::Abort,
        },
        (Phase::Serving, Event::Interrupt) | (Phase::Serving, Event::Terminate) => Transition {
            phase: Phase::Draining,
            action: Action::Drain,
        },
        (Phase::Serving, Event::ServeFailed) | (Phase::Draining, Event::ServeFailed) => Transition {
            phase: Phase::Aborted,
            action: Action::Abort,
        },
        (Phase::Draining, Event::Drained) => Transition {
            phase: Phase::Flushing,
            action: Action::FlushTracing,
        },
        (Phase::Flushing, Event::Flushed) => Transition {
            phase: Phase::Stopped,
            action: Action::Exit,
        },
        _ => Transition { phase, action: Action::Nothing },
    }
}

/// The phase reached from `phase` after a run of events, first event first.
pub open spec fn run(phase: Phase, events: Seq<Event>) -> Phase
    decreases events.len(),
{
    if events.len() == 0 {
        phase
    } else {
        run(transition(phase, events[0]).phase, events.skip(1))
    }
}

/// How far a phase is along the orderly path from start to end.
pub open spec fn progress(phase: Phase) -> nat {
    match phase {
        Phase::Starting => 0,
        Phase::Serving => 1,
        Phase::Draining => 2,
        Phase::Flushing => 3,
        Phase::Stopped => 4,
        Phase::Aborted => 4,
    }
}

/// The phase in which every process begins.
pub fn initial_phase() -> (phase: Phase)
    ensures
        phase == Phase::Starting,
{
    Phase::Starting
}

/// Takes one step: the phase that follows `phase` on `event`, and what the
/// binary has to do to get there.
pub fn step(phase: Phase, event: Event) -> (next: Transition)
    ensures
        next == transition(phase, event),
{
    match phase {
        Phase::Starting => match event {
            Event::Started => Transition { phase: Phase::Serving, action: Action::Serve },
            Event::StartupFailed => Transition { phase: Phase::Aborted, action: Action::Abort },
            _ => Transition { phase, action: Action::Nothing },
        },
        Phase::Serving => match event {
            Event::Interrupt | Event::Terminate => Transition {
                phase: Phase::Draining,
                action: Action::Drain,
            },
            Event::ServeFailed => Transition { phase: Phase::Aborted, action: Action::Abort },
            _ => Transition { phase, action: Action::Nothing },
        },
        Phase::Draining => match event {
            Event::Drained => Transition { phase: Phase::Flushing, action: Action::FlushTracing },
            Event::ServeFailed => Transition { phase: Phase::Aborted, action: Action::Abort },
            _ => Transition { phase, action: Action::Nothing },
        },
        Phase::Flushing => match event {
            Event::Flushed => Transition { phase: Phase::Stopped, action: Action::Exit },
            _ => Transition { phase, action: Action::Nothing },
        },
        Phase::Stopped | Phase::Aborted => Transition { phase, action: Action::Nothing },
    }
}

/// Whether the process has ended.
pub fn is_finished(phase: Phase) -> (finished: bool)
    ensures
        finished == is_final(phase),
{
    match phase {
        Phase::Stopped | Phase::Aborted => true,
        _ => false,
    }
}

/// Once the process has ended, no event changes its phase or asks for an
/// action.
pub proof fn lemma_final_phases_absorb(phase: Phase, event: Event)
    requires
        is_final(phase),
    ensures
        transition(phase, event) == (Transition { phase, action: Action::Nothing }),
{
}

/// While serving, either shutdown signal begins the drain, and nothing else
/// does.
pub proof fn lemma_drain_begins_on_signal(phase: Phase, event: Event)
    ensures
        transition(phase, event).action == Action::Drain <==> phase == Phase::Serving
            && is_shutdown_signal(event),
{
}

/// The tracing exporter is flushed exactly when the drain has ended, and the
/// process exits in good order only after the flush.
pub proof fn lemma_flush_follows_drain(phase: Phase, event: Event)
    ensures
        transition(phase, event).action == Action::FlushTracing <==> phase == Phase::Draining
            && event == Event::Drained,
        transition(phase, event).action == Action::Exit <==> phase == Phase::Flushing && event
            == Event::Flushed,
        transition(phase, event).phase == Phase::Stopped ==> phase == Phase::Stopped || phase
            == Phase::Flushing,
{
}

/// A step never goes back: the phase stays or moves towards the end, and it
/// moves exactly when an action is asked for.
pub proof fn lemma_step_advances(phase: Phase, event: Event)
    ensures
        progress(phase) <= progress(transition(phase, event).phase),
        transition(phase, event).action == Action::Nothing <==> transition(phase, event).phase
            == phase,
{
}

/// No run of events leads back from a later phase to an earlier one.
pub proof fn lemma_run_advances(phase: Phase, events: Seq<Event>)
    ensures
        progress(phase) <= progress(run(phase, events)),
        is_final(phase) ==> run(phase, events) == phase,
    decreases events.len(),
{
    if events.len() > 0 {
        lemma_step_advances(phase, events[0]);
        lemma_run_advances(transition(phase, events[0]).phase, events.skip(1));
    }
}

/// The orderly life of a process: started, signalled, drained and flushed,
/// it ends as stopped.
pub proof fn lemma_orderly_shutdown(signal: Event)
    requires
        is_shutdown_signal(signal),
    ensures
        run(Phase::Starting, seq![Event::Started, signal, Event::Drained, Event::Flushed])
            == Phase::Stopped,
{
    let events = seq![Event::Started, signal, Event::Drained, Event::Flushed];
    reveal_with_fuel(run, 5);
    assert(events.skip(1) =~= seq![signal, Event::Drained, Event::Flushed]);
    assert(events.skip(1).skip(1) =~= seq![Event::Drained, Event::Flushed]);
    assert(events.skip(1).skip(1).skip(1) =~= seq![Event::Flushed]);
    assert(events.skip(1).skip(1).skip(1).skip(1) =~= Seq::<Event>::empty());
}

} // verus!
