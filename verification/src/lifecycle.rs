//! The life of the process: it starts, binds and listens, or fails. The
//! caller performs each action and reports what happened as the next event.

use vstd::prelude::*;
use crate::server::{Address, EXIT_FAILURE};

verus! {

/// Where the process stands.
#[derive(Clone, Copy, Debug, PartialEq, Eq, Structural)]
pub enum Phase {
    /// The listener is not bound yet.
    Starting,
    /// The listener is bound and connections are accepted.
    Listening,
    /// The process is to exit with a failure status.
    Failed,
}

/// What the caller saw happen.
#[derive(Clone, Copy, Debug, PartialEq, Eq)]
pub enum Event {
    /// The listener was bound to this address.
    Bound(Address),
    /// The listener could not be bound.
    BindFailed,
    /// A connection was accepted.
    Accepted,
    /// Serving one connection ended with an error.
    ConnectionFailed,
    /// Accepting a connection failed.
    AcceptFailed,
}

/// What the caller is to do next.
#[derive(Clone, Copy, Debug, PartialEq, Eq)]
pub enum Action {
    /// Write the start-up line for this address to standard output.
    Announce(Address),
    /// Serve the accepted connection on its own, beside the others.
    Serve,
    /// Write the connection's error to the error stream and go on.
    Report,
    /// Write the error to the error stream and exit with this status.
    Exit(u8),
    /// Nothing.
    Ignore,
}

/// The phase after an event, and the action that the event calls for. An
/// event that has no place in a phase changes nothing.
pub open spec fn next(phase: Phase, event: Event) -> (Phase, Action) {
    match (phase, event) {
        (Phase::Starting, Event::Bound(address)) => (Phase::Listening, Action::Announce(address)),
        (Phase::Starting, Event::BindFailed) => (Phase::Failed, Action::Exit(EXIT_FAILURE)),
        (Phase::Listening, Event::Accepted) => (Phase::Listening, Action::Serve),
        (Phase::Listening, Event::ConnectionFailed) => (Phase::Listening, Action::Report),
        (Phase::Listening, Event::AcceptFailed) => (Phase::Failed, Action::Exit(EXIT_FAILURE)),
        _ => (phase, Action::Ignore),
    }
}

/// The phase in which a process begins.
pub fn start() -> (phase: Phase)
    ensures
        phase == Phase::Starting,
{
    Phase::Starting
}

/// Takes one event in one phase: gives the next phase and the action to
/// perform.
pub fn advance(phase: Phase, event: Event) -> (step: (Phase, Action))
    ensures
        step == next(phase, event),
        step.1 is Announce ==> phase == Phase::Starting && step.0 == Phase::Listening,
        step.1 is Exit <==> step.0 == Phase::Failed && phase != Phase::Failed,
{
    match phase {
        Phase::Starting => match event {
            Event::Bound(address) => (Phase::Listening, Action::Announce(address)),
            Event::BindFailed => (Phase::Failed, Action::Exit(EXIT_FAILURE)),
            _ => (phase, Action::Ignore),
        },
        Phase::Listening => match event {
            Event::Accepted => (Phase::Listening, Action::Serve),
            Event::ConnectionFailed => (Phase::Listening, Action::Report),
            Event::AcceptFailed => (Phase::Failed, Action::Exit(EXIT_FAILURE)),
            _ => (phase, Action::Ignore),
        },
        Phase::Failed => (phase, Action::Ignore),
    }
}

/// The start-up line is called for by a successful bind and by nothing else,
/// it names the address that was bound, and with it the process listens.
pub proof fn lemma_announced_when_listening(phase: Phase, event: Event)
    ensures
        next(phase, event).1 is Announce <==> phase == Phase::Starting && event is Bound,
        next(phase, event).1 matches Action::Announce(address) ==> event == Event::Bound(address)
            && next(phase, event).0 == Phase::Listening,
{
}

/// A failed bind ends the process with a status other than zero.
pub proof fn lemma_bind_failure_is_fatal()
    ensures
        next(Phase::Starting, Event::BindFailed) == (Phase::Failed, Action::Exit(EXIT_FAILURE)),
        EXIT_FAILURE != 0,
{
}

/// An error on one connection leaves the process listening.
pub proof fn lemma_connection_failure_is_isolated()
    ensures
        next(Phase::Listening, Event::ConnectionFailed).0 == Phase::Listening,
        !(next(Phase::Listening, Event::ConnectionFailed).1 is Exit),
{
}

/// Once failed, the process stays failed and asks for nothing more.
pub proof fn lemma_failed_is_final(event: Event)
    ensures
        next(Phase::Failed, event) == (Phase::Failed, Action::Ignore),
{
}

/// A process never goes back to starting, and a listening process stops
/// listening only when accepting fails.
pub proof fn lemma_phases_move_forward(phase: Phase, event: Event)
    ensures
        phase != Phase::Starting ==> next(phase, event).0 != Phase::Starting,
        phase == Phase::Listening && !(event is AcceptFailed) ==> next(phase, event).0
            == Phase::Listening,
{
}

} // verus!
