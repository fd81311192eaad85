//! The payload runtime: its emission schedule and its connect semantics.

use inject_bridge::payload::{
    diagnostic_line, payload_step, PayloadAction, PayloadEvent, PayloadState,
};
use inject_bridge::{CONTROLLER_PORT, EMIT_INTERVAL_MS};

#[test]
fn the_schedule_greets_once_then_heartbeats() {
    assert_eq!(diagnostic_line(0), "Hello from inside notepad!");
    assert_eq!(diagnostic_line(1), "Code running inside notepad!");
    assert_eq!(diagnostic_line(2), "Code running inside notepad!");
    assert_eq!(diagnostic_line(1000), "Code running inside notepad!");
    assert_eq!(diagnostic_line(u64::MAX), "Code running inside notepad!");
}

#[test]
fn successful_connect_emits_the_greeting_at_once() {
    let (s, a) = payload_step(PayloadState::Starting, PayloadEvent::ConnectSucceeded);
    assert_eq!(s, PayloadState::Emitting { emitted: 1 });
    assert_eq!(a, PayloadAction::Emit(0));
}

#[test]
fn failed_connect_is_fatal_with_no_retry() {
    let (s, a) = payload_step(PayloadState::Starting, PayloadEvent::ConnectFailed);
    assert_eq!(s, PayloadState::Dead);
    assert_eq!(a, PayloadAction::Stop);
    // Dead is terminal: no interval revives the runtime.
    let (s, a) = payload_step(s, PayloadEvent::Tick);
    assert_eq!(s, PayloadState::Dead);
    assert_eq!(a, PayloadAction::Stop);
}

#[test]
fn one_line_per_interval_indefinitely() {
    let mut state = PayloadState::Starting;
    let mut lines: Vec<&'static str> = Vec::new();
    let (s, a) = payload_step(state, PayloadEvent::ConnectSucceeded);
    state = s;
    if let PayloadAction::Emit(i) = a {
        lines.push(diagnostic_line(i));
    }
    for _ in 0..5 {
        let (s, a) = payload_step(state, PayloadEvent::Tick);
        state = s;
        match a {
            PayloadAction::Emit(i) => lines.push(diagnostic_line(i)),
            _ => panic!("an elapsed interval must emit a line"),
        }
    }
    assert_eq!(state, PayloadState::Emitting { emitted: 6 });
    assert_eq!(lines.len(), 6);
    assert_eq!(lines[0], "Hello from inside notepad!");
    for line in &lines[1..] {
        assert_eq!(*line, "Code running inside notepad!");
    }
}

#[test]
fn the_emission_counter_never_wraps() {
    let (s, a) = payload_step(
        PayloadState::Emitting { emitted: u64::MAX },
        PayloadEvent::Tick,
    );
    assert_eq!(s, PayloadState::Emitting { emitted: u64::MAX });
    assert_eq!(a, PayloadAction::Emit(u64::MAX));
}

#[test]
fn the_fixed_endpoint_and_interval() {
    assert_eq!(CONTROLLER_PORT, 7331);
    assert_eq!(EMIT_INTERVAL_MS, 1000);
}
