//! The controller's lifecycle: the happy path to relaying, and the fail-fast
//! paths for each fatal error.

use inject_bridge::controller::{
    exit_ok, lookup_event, select_target, step, Action, Event, FatalError, Outcome, Phase,
};

#[test]
fn happy_path_reaches_relaying() {
    let (s, a) = step(Phase::Idle, Event::BindSucceeded);
    assert_eq!(s, Phase::Listening);
    assert_eq!(a, Action::LookupTarget);

    let (s, a) = step(s, Event::TargetFound);
    assert_eq!(s, Phase::Injecting);
    assert_eq!(a, Action::Inject);

    let (s, a) = step(s, Event::InjectSucceeded);
    assert_eq!(s, Phase::Injecting);
    assert_eq!(a, Action::AwaitConnection);

    let (s, a) = step(s, Event::ConnectionAccepted);
    assert_eq!(s, Phase::Connected);
    assert_eq!(a, Action::ReadChunk);

    let (s, a) = step(s, Event::ChunkReceived);
    assert_eq!(s, Phase::Relaying);
    assert_eq!(a, Action::ForwardChunk);

    let (s, a) = step(s, Event::ChunkReceived);
    assert_eq!(s, Phase::Relaying);
    assert_eq!(a, Action::ForwardChunk);
}

#[test]
fn graceful_peer_close_ends_successfully() {
    let (s, a) = step(Phase::Relaying, Event::EndOfStream);
    assert_eq!(s, Phase::Closed(Outcome::EndOfStream));
    assert_eq!(a, Action::Halt);
    assert!(exit_ok(Outcome::EndOfStream));
}

#[test]
fn bind_failure_is_fatal_before_any_lookup() {
    let (s, a) = step(Phase::Idle, Event::BindFailed);
    assert_eq!(s, Phase::Closed(Outcome::Fatal(FatalError::BindFailure)));
    assert_eq!(a, Action::Halt);
    assert!(!exit_ok(Outcome::Fatal(FatalError::BindFailure)));
    // Once closed, nothing revives the run: no lookup, no injection.
    let (s, a) = step(s, Event::TargetFound);
    assert_eq!(s, Phase::Closed(Outcome::Fatal(FatalError::BindFailure)));
    assert_eq!(a, Action::Halt);
}

#[test]
fn absent_target_is_fatal_without_injection() {
    let (s, a) = step(Phase::Listening, Event::TargetMissing);
    assert_eq!(s, Phase::Closed(Outcome::Fatal(FatalError::LookupFailure)));
    assert_eq!(a, Action::Halt);
    assert!(!exit_ok(Outcome::Fatal(FatalError::LookupFailure)));
    let (s, a) = step(s, Event::InjectSucceeded);
    assert_eq!(s, Phase::Closed(Outcome::Fatal(FatalError::LookupFailure)));
    assert_eq!(a, Action::Halt);
}

#[test]
fn failed_injection_is_fatal() {
    let (s, a) = step(Phase::Injecting, Event::InjectFailed);
    assert_eq!(s, Phase::Closed(Outcome::Fatal(FatalError::InjectionFailure)));
    assert_eq!(a, Action::Halt);
    assert!(!exit_ok(Outcome::Fatal(FatalError::InjectionFailure)));
}

#[test]
fn read_error_ends_relaying() {
    let (s, a) = step(Phase::Relaying, Event::ReadError);
    assert_eq!(s, Phase::Closed(Outcome::Fatal(FatalError::TransportError)));
    assert_eq!(a, Action::Halt);
    assert!(!exit_ok(Outcome::Fatal(FatalError::TransportError)));
    let (s, _) = step(Phase::Connected, Event::ReadError);
    assert_eq!(s, Phase::Closed(Outcome::Fatal(FatalError::TransportError)));
}

#[test]
fn first_match_wins() {
    assert_eq!(select_target(&vec![]), None);
    assert_eq!(select_target(&vec![4242]), Some(4242));
    assert_eq!(select_target(&vec![7, 8, 9]), Some(7));
}

#[test]
fn lookup_result_maps_to_the_right_event() {
    assert_eq!(lookup_event(&None), Event::TargetMissing);
    assert_eq!(lookup_event(&Some(7)), Event::TargetFound);
}
