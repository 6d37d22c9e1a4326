//! The lifecycle of the background execution context that hosts the
//! scheduling loops. The context moves through
//! `Created -> Running -> TerminationRequested -> Stopped`: it starts
//! running once the spawned thread reports it ready, a termination
//! signal only requests shutdown, and the context actually stops when
//! the dispatch cycle under way completes — a running callback is never
//! preempted. `Stopped` is terminal.

use vstd::prelude::*;

verus! {

/// Where the background execution context stands in its life.
#[derive(Clone, Copy, Debug, PartialEq, Eq, Structural)]
pub enum ContextState {
    /// The context exists but its thread has not reported it ready.
    Created,
    /// The context dispatches timers and callbacks.
    Running,
    /// A termination signal arrived; the current dispatch cycle still
    /// runs to completion.
    TerminationRequested,
    /// The context has shut down; no transition leaves this state.
    Stopped,
}

/// What can happen to the execution context.
#[derive(Clone, Copy, Debug, PartialEq, Eq, Structural)]
pub enum ContextEvent {
    /// The background thread reports the context up and ready.
    Ready,
    /// A stop request arrived on the termination channel.
    TerminationSignal,
    /// The dispatch cycle under way has completed.
    DispatchComplete,
}

/// The context's next state after `event`.
///
/// A termination signal takes effect as a request only; the move to
/// `Stopped` waits for the running dispatch cycle to complete. A signal
/// sent to a context that was already asked to stop, or has stopped, is
/// a no-op, never an error. `Stopped` is terminal.
pub open spec fn spec_transition(state: ContextState, event: ContextEvent) -> ContextState {
    match (state, event) {
        (ContextState::Created, ContextEvent::Ready) => ContextState::Running,
        (ContextState::Created, ContextEvent::TerminationSignal)
            => ContextState::TerminationRequested,
        (ContextState::Running, ContextEvent::TerminationSignal)
            => ContextState::TerminationRequested,
        (ContextState::TerminationRequested, ContextEvent::DispatchComplete)
            => ContextState::Stopped,
        _ => state,
    }
}

/// Advances the execution context by one event.
pub fn transition(state: ContextState, event: ContextEvent) -> (next: ContextState)
    ensures
        next == spec_transition(state, event),
{
    match (state, event) {
        (ContextState::Created, ContextEvent::Ready) => ContextState::Running,
        (ContextState::Created, ContextEvent::TerminationSignal)
            => ContextState::TerminationRequested,
        (ContextState::Running, ContextEvent::TerminationSignal)
            => ContextState::TerminationRequested,
        (ContextState::TerminationRequested, ContextEvent::DispatchComplete)
            => ContextState::Stopped,
        _ => state,
    }
}

/// `Stopped` is terminal: no event moves the context out of it.
pub proof fn lemma_stopped_is_terminal(event: ContextEvent)
    ensures
        spec_transition(ContextState::Stopped, event) == ContextState::Stopped,
{
}

/// Shutdown ordering: from a state where a dispatch cycle is under way,
/// a termination signal alone never reaches `Stopped` — only the
/// completion of that dispatch cycle, after the request, does. Stopping
/// never preempts a running callback.
pub proof fn lemma_signal_does_not_stop(state: ContextState)
    requires
        state != ContextState::Stopped,
    ensures
        spec_transition(state, ContextEvent::TerminationSignal) != ContextState::Stopped,
{
}

} // verus!
