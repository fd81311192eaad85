//! The controller's lifecycle state machine. The controller binds a listening
//! endpoint, looks up the target process, triggers the module load, accepts
//! the payload's connection, and relays received bytes until the stream ends.
//! Every transition is a pure step from state and event to next state and
//! action; the surrounding process performs the action and feeds back what
//! happened as the next event.

use vstd::prelude::*;

verus! {

/// Why the controller run ended.
#[derive(PartialEq, Eq, Structural, Clone, Copy, Debug)]
pub enum FatalError {
    /// The fixed local endpoint could not be bound.
    BindFailure,
    /// No process with the target name was found.
    LookupFailure,
    /// The module-load primitive failed.
    InjectionFailure,
    /// A read on the accepted connection failed mid-stream.
    TransportError,
}

/// How a finished run ended: gracefully on end of stream, or on a fatal error.
#[derive(PartialEq, Eq, Structural, Clone, Copy, Debug)]
pub enum Outcome {
    /// The peer closed the stream; the run ends successfully.
    EndOfStream,
    /// A fatal error aborted the run.
    Fatal(FatalError),
}

/// The controller's lifecycle states.
#[derive(PartialEq, Eq, Structural, Clone, Copy, Debug)]
pub enum Phase {
    /// Nothing done yet.
    Idle,
    /// The local endpoint is bound and listening.
    Listening,
    /// The target was found and the module load was triggered.
    Injecting,
    /// The payload's connection was accepted.
    Connected,
    /// Received bytes are being forwarded to the output sink.
    Relaying,
    /// Terminal: the run is over, with the recorded outcome.
    Closed(Outcome),
}

/// What the outside world reports back to the machine.
#[derive(PartialEq, Eq, Structural, Clone, Copy, Debug)]
pub enum Event {
    /// The local endpoint was bound.
    BindSucceeded,
    /// The local endpoint could not be bound.
    BindFailed,
    /// The process lookup produced a target.
    TargetFound,
    /// The process lookup produced no match.
    TargetMissing,
    /// The module-load primitive reported success.
    InjectSucceeded,
    /// The module-load primitive reported failure.
    InjectFailed,
    /// An inbound connection was accepted.
    ConnectionAccepted,
    /// A read returned a nonempty chunk.
    ChunkReceived,
    /// A read returned zero bytes: the peer closed the stream.
    EndOfStream,
    /// A read failed.
    ReadError,
}

/// What the machine asks the outside world to do next.
#[derive(PartialEq, Eq, Structural, Clone, Copy, Debug)]
pub enum Action {
    /// Look the target process up by name.
    LookupTarget,
    /// Trigger the module load into the found target.
    Inject,
    /// Block on accept until the payload connects.
    AwaitConnection,
    /// Read the next chunk from the accepted connection.
    ReadChunk,
    /// Forward the chunk just read to the output sink, then read again.
    ForwardChunk,
    /// Stop: the run is over.
    Halt,
}

/// One transition of the controller. Unexpected events in a given state are
/// treated as transport-level faults only where a stream is open; before
/// that, they halt the run as a fatal error of the stage they belong to.
pub open spec fn step_spec(s: Phase, e: Event) -> (Phase, Action) {
    match (s, e) {
        (Phase::Idle, Event::BindSucceeded) => (Phase::Listening, Action::LookupTarget),
        (Phase::Idle, _) => (Phase::Closed(Outcome::Fatal(FatalError::BindFailure)), Action::Halt),
        (Phase::Listening, Event::TargetFound) => (Phase::Injecting, Action::Inject),
        (Phase::Listening, _) => (
            Phase::Closed(Outcome::Fatal(FatalError::LookupFailure)),
            Action::Halt,
        ),
        (Phase::Injecting, Event::InjectSucceeded) => (Phase::Injecting, Action::AwaitConnection),
        (Phase::Injecting, Event::ConnectionAccepted) => (Phase::Connected, Action::ReadChunk),
        (Phase::Injecting, _) => (
            Phase::Closed(Outcome::Fatal(FatalError::InjectionFailure)),
            Action::Halt,
        ),
        (Phase::Connected, Event::ChunkReceived) => (Phase::Relaying, Action::ForwardChunk),
        (Phase::Connected, Event::EndOfStream) => (
            Phase::Closed(Outcome::EndOfStream),
            Action::Halt,
        ),
        (Phase::Connected, _) => (
            Phase::Closed(Outcome::Fatal(FatalError::TransportError)),
            Action::Halt,
        ),
        (Phase::Relaying, Event::ChunkReceived) => (Phase::Relaying, Action::ForwardChunk),
        (Phase::Relaying, Event::EndOfStream) => (
            Phase::Closed(Outcome::EndOfStream),
            Action::Halt,
        ),
        (Phase::Relaying, _) => (
            Phase::Closed(Outcome::Fatal(FatalError::TransportError)),
            Action::Halt,
        ),
        (Phase::Closed(o), _) => (Phase::Closed(o), Action::Halt),
    }
}

/// One transition of the controller, executable.
pub fn step(s: Phase, e: Event) -> (r: (Phase, Action))
    ensures
        r == step_spec(s, e),
{
    match (s, e) {
        (Phase::Idle, Event::BindSucceeded) => (Phase::Listening, Action::LookupTarget),
        (Phase::Idle, _) => (Phase::Closed(Outcome::Fatal(FatalError::BindFailure)), Action::Halt),
        (Phase::Listening, Event::TargetFound) => (Phase::Injecting, Action::Inject),
        (Phase::Listening, _) => (
            Phase::Closed(Outcome::Fatal(FatalError::LookupFailure)),
            Action::Halt,
        ),
        (Phase::Injecting, Event::InjectSucceeded) => (Phase::Injecting, Action::AwaitConnection),
        (Phase::Injecting, Event::ConnectionAccepted) => (Phase::Connected, Action::ReadChunk),
        (Phase::Injecting, _) => (
            Phase::Closed(Outcome::Fatal(FatalError::InjectionFailure)),
            Action::Halt,
        ),
        (Phase::Connected, Event::ChunkReceived) => (Phase::Relaying, Action::ForwardChunk),
        (Phase::Connected, Event::EndOfStream) => (
            Phase::Closed(Outcome::EndOfStream),
            Action::Halt,
        ),
        (Phase::Connected, _) => (
            Phase::Closed(Outcome::Fatal(FatalError::TransportError)),
            Action::Halt,
        ),
        (Phase::Relaying, Event::ChunkReceived) => (Phase::Relaying, Action::ForwardChunk),
        (Phase::Relaying, Event::EndOfStream) => (
            Phase::Closed(Outcome::EndOfStream),
            Action::Halt,
        ),
        (Phase::Relaying, _) => (
            Phase::Closed(Outcome::Fatal(FatalError::TransportError)),
            Action::Halt,
        ),
        (Phase::Closed(o), _) => (Phase::Closed(o), Action::Halt),
    }
}

/// Whether an exit status should report success: only a graceful end of
/// stream does; every fatal error exits non-zero.
pub open spec fn exit_ok_spec(o: Outcome) -> bool {
    o == Outcome::EndOfStream
}

/// Exit status for a finished run.
pub fn exit_ok(o: Outcome) -> (r: bool)
    ensures
        r == exit_ok_spec(o),
{
    match o {
        Outcome::EndOfStream => true,
        Outcome::Fatal(_) => false,
    }
}

/// First match wins: the target is the first handle the lookup returned, and
/// an empty lookup result is a failure. Handles are process identifiers.
pub fn select_target(pids: &Vec<u32>) -> (r: Option<u32>)
    ensures
        pids@.len() == 0 ==> r is None,
        pids@.len() > 0 ==> r == Some(pids@[0]),
{
    if pids.len() == 0 {
        None
    } else {
        Some(pids[0])
    }
}

/// The state the controller reaches after a sequence of events, started from
/// `Idle`.
pub open spec fn run_phase(events: Seq<Event>) -> Phase
    decreases events.len(),
{
    if events.len() == 0 {
        Phase::Idle
    } else {
        step_spec(run_phase(events.drop_last()), events.last()).0
    }
}

/// The actions the controller issues along a sequence of events, in order,
/// started from `Idle`.
pub open spec fn run_actions(events: Seq<Event>) -> Seq<Action>
    decreases events.len(),
{
    if events.len() == 0 {
        Seq::empty()
    } else {
        run_actions(events.drop_last()).push(
            step_spec(run_phase(events.drop_last()), events.last()).1,
        )
    }
}

/// One action is issued per event.
pub proof fn lemma_one_action_per_event(events: Seq<Event>)
    ensures
        run_actions(events).len() == events.len(),
    decreases events.len(),
{
    if events.len() > 0 {
        lemma_one_action_per_event(events.drop_last());
    }
}

/// A closed run stays closed, does nothing more, and keeps its outcome.
pub proof fn lemma_closed_terminal(o: Outcome, e: Event)
    ensures
        step_spec(Phase::Closed(o), e) == (Phase::Closed(o), Action::Halt),
{
}

/// The module load is triggered only from `Listening`, and only when the
/// lookup produced a target.
pub proof fn lemma_inject_needs_target(s: Phase, e: Event)
    requires
        step_spec(s, e).1 == Action::Inject,
    ensures
        s == Phase::Listening && e == Event::TargetFound,
{
}

/// When the lookup never produces a target, the module load is never
/// triggered, whatever else happens.
pub proof fn lemma_no_target_no_injection(events: Seq<Event>)
    requires
        forall|i: int| 0 <= i < events.len() ==> events[i] != Event::TargetFound,
    ensures
        forall|i: int|
            0 <= i < run_actions(events).len() ==> run_actions(events)[i] != Action::Inject,
    decreases events.len(),
{
    lemma_one_action_per_event(events);
    if events.len() > 0 {
        let prefix = events.drop_last();
        assert(forall|i: int| 0 <= i < prefix.len() ==> prefix[i] == events[i]);
        lemma_no_target_no_injection(prefix);
        lemma_one_action_per_event(prefix);
        assert(events.last() != Event::TargetFound);
        if step_spec(run_phase(prefix), events.last()).1 == Action::Inject {
            lemma_inject_needs_target(run_phase(prefix), events.last());
        }
        assert(forall|i: int|
            0 <= i < prefix.len() ==> run_actions(events)[i] == run_actions(prefix)[i]);
    }
}

/// When the bind fails at the start, the run is closed at once as a bind
/// failure, exits non-zero, and never looks the target up nor triggers the
/// module load: every subsequent action is `Halt`.
pub proof fn lemma_bind_failure_fails_fast(events: Seq<Event>)
    requires
        events.len() > 0,
        events[0] == Event::BindFailed,
    ensures
        run_phase(events) == Phase::Closed(Outcome::Fatal(FatalError::BindFailure)),
        !exit_ok_spec(Outcome::Fatal(FatalError::BindFailure)),
        forall|i: int|
            0 <= i < run_actions(events).len() ==> run_actions(events)[i] == Action::Halt,
    decreases events.len(),
{
    lemma_one_action_per_event(events);
    let prefix = events.drop_last();
    if events.len() == 1 {
        assert(prefix.len() == 0);
    } else {
        assert(prefix[0] == events[0]);
        lemma_bind_failure_fails_fast(prefix);
        lemma_one_action_per_event(prefix);
        assert(forall|i: int|
            0 <= i < prefix.len() ==> run_actions(events)[i] == run_actions(prefix)[i]);
    }
}

/// With the endpoint bound, exactly one target found, the module load
/// succeeding and the payload connecting, the controller reaches `Connected`,
/// and its actions along the way are exactly: look the target up, inject,
/// await the connection, read the first chunk.
pub proof fn lemma_single_match_connects()
    ensures
        run_phase(
            seq![
                Event::BindSucceeded,
                Event::TargetFound,
                Event::InjectSucceeded,
                Event::ConnectionAccepted,
            ],
        ) == Phase::Connected,
        run_actions(
            seq![
                Event::BindSucceeded,
                Event::TargetFound,
                Event::InjectSucceeded,
                Event::ConnectionAccepted,
            ],
        ) =~= seq![Action::LookupTarget, Action::Inject, Action::AwaitConnection, Action::ReadChunk],
{
    let t4 = seq![
        Event::BindSucceeded,
        Event::TargetFound,
        Event::InjectSucceeded,
        Event::ConnectionAccepted,
    ];
    let t3 = seq![Event::BindSucceeded, Event::TargetFound, Event::InjectSucceeded];
    let t2 = seq![Event::BindSucceeded, Event::TargetFound];
    let t1 = seq![Event::BindSucceeded];
    let t0 = Seq::<Event>::empty();
    reveal_with_fuel(run_phase, 6);
    reveal_with_fuel(run_actions, 6);
    assert(t4.drop_last() =~= t3);
    assert(t3.drop_last() =~= t2);
    assert(t2.drop_last() =~= t1);
    assert(t1.drop_last() =~= t0);
    assert(run_phase(t1) == Phase::Listening);
    assert(run_phase(t2) == Phase::Injecting);
    assert(run_phase(t3) == Phase::Injecting);
    assert(run_phase(t4) == Phase::Connected);
}

/// The event a lookup result maps to: a first match or a fatal miss.
pub fn lookup_event(target: &Option<u32>) -> (e: Event)
    ensures
        e == (if target is Some {
            Event::TargetFound
        } else {
            Event::TargetMissing
        }),
{
    match target {
        Option::Some(_) => Event::TargetFound,
        Option::None => Event::TargetMissing,
    }
}

} // verus!
