//! The payload runtime's decisions inside the target process. The runtime
//! opens one outbound connection to the controller; a failed connect is fatal
//! to the runtime alone, with no retry. Once connected it emits a greeting,
//! then one heartbeat line per interval, indefinitely: the loop has no
//! termination of its own.

use vstd::prelude::*;

verus! {

/// The first line the payload emits, once, right after connecting.
pub open spec fn greeting_spec() -> Seq<char> {
    "Hello from inside notepad!"@
}

/// The line the payload emits on every later interval.
pub open spec fn heartbeat_spec() -> Seq<char> {
    "Code running inside notepad!"@
}

/// The diagnostic line owed at position `i` of the schedule: the greeting
/// first, then heartbeats forever.
pub open spec fn line_spec(i: nat) -> Seq<char> {
    if i == 0 {
        greeting_spec()
    } else {
        heartbeat_spec()
    }
}

/// The diagnostic line owed at position `i` of the schedule, executable.
pub fn diagnostic_line(i: u64) -> (r: &'static str)
    ensures
        r@ == line_spec(i as nat),
{
    if i == 0 {
        "Hello from inside notepad!"
    } else {
        "Code running inside notepad!"
    }
}

/// The payload runtime's states.
#[derive(PartialEq, Eq, Structural, Clone, Copy, Debug)]
pub enum PayloadState {
    /// Not yet connected to the controller.
    Starting,
    /// Connected; `emitted` lines of the schedule have been written.
    Emitting { emitted: u64 },
    /// The connect failed: the runtime is over, the target runs on
    /// undiagnosed. No retry.
    Dead,
}

/// What the outside world reports back to the runtime.
#[derive(PartialEq, Eq, Structural, Clone, Copy, Debug)]
pub enum PayloadEvent {
    /// The outbound connection to the controller was established.
    ConnectSucceeded,
    /// The outbound connection attempt failed.
    ConnectFailed,
    /// One emission interval has elapsed.
    Tick,
}

/// What the runtime asks the outside world to do next.
#[derive(PartialEq, Eq, Structural, Clone, Copy, Debug)]
pub enum PayloadAction {
    /// Write the diagnostic line at this schedule position, then sleep one
    /// interval.
    Emit(u64),
    /// Do nothing.
    Nothing,
    /// Stop: the runtime is dead.
    Stop,
}

/// The emission counter after one more line, capped so it cannot wrap. From
/// position one on every line is the heartbeat, so the cap never changes
/// which line is owed.
pub open spec fn next_count_spec(n: u64) -> u64 {
    if n == u64::MAX {
        n
    } else {
        (n + 1) as u64
    }
}

/// One transition of the payload runtime. The greeting goes out at once on a
/// successful connect; every elapsed interval emits the next line of the
/// schedule; a failed connect kills the runtime with no retry; `Dead` is
/// terminal.
pub open spec fn payload_step_spec(s: PayloadState, e: PayloadEvent) -> (
    PayloadState,
    PayloadAction,
) {
    match (s, e) {
        (PayloadState::Starting, PayloadEvent::ConnectSucceeded) => (
            PayloadState::Emitting { emitted: 1 },
            PayloadAction::Emit(0),
        ),
        (PayloadState::Starting, _) => (PayloadState::Dead, PayloadAction::Stop),
        (PayloadState::Emitting { emitted }, PayloadEvent::Tick) => (
            PayloadState::Emitting { emitted: next_count_spec(emitted) },
            PayloadAction::Emit(emitted),
        ),
        (PayloadState::Emitting { emitted }, _) => (
            PayloadState::Emitting { emitted },
            PayloadAction::Nothing,
        ),
        (PayloadState::Dead, _) => (PayloadState::Dead, PayloadAction::Stop),
    }
}

/// One transition of the payload runtime, executable.
pub fn payload_step(s: PayloadState, e: PayloadEvent) -> (r: (PayloadState, PayloadAction))
    ensures
        r == payload_step_spec(s, e),
{
    match (s, e) {
        (PayloadState::Starting, PayloadEvent::ConnectSucceeded) => (
            PayloadState::Emitting { emitted: 1 },
            PayloadAction::Emit(0),
        ),
        (PayloadState::Starting, _) => (PayloadState::Dead, PayloadAction::Stop),
        (PayloadState::Emitting { emitted }, PayloadEvent::Tick) => {
            let next: u64 = if emitted == u64::MAX {
                emitted
            } else {
                emitted + 1
            };
            (PayloadState::Emitting { emitted: next }, PayloadAction::Emit(emitted))
        },
        (PayloadState::Emitting { emitted }, _) => (
            PayloadState::Emitting { emitted },
            PayloadAction::Nothing,
        ),
        (PayloadState::Dead, _) => (PayloadState::Dead, PayloadAction::Stop),
    }
}

/// The state the payload runtime reaches after a sequence of events, from
/// `Starting`.
pub open spec fn payload_run(events: Seq<PayloadEvent>) -> PayloadState
    decreases events.len(),
{
    if events.len() == 0 {
        PayloadState::Starting
    } else {
        payload_step_spec(payload_run(events.drop_last()), events.last()).0
    }
}

/// The lines the payload runtime has emitted along a sequence of events, in
/// order.
pub open spec fn payload_emissions(events: Seq<PayloadEvent>) -> Seq<Seq<char>>
    decreases events.len(),
{
    if events.len() == 0 {
        Seq::empty()
    } else {
        let prev = payload_emissions(events.drop_last());
        match payload_step_spec(payload_run(events.drop_last()), events.last()).1 {
            PayloadAction::Emit(i) => prev.push(line_spec(i as nat)),
            _ => prev,
        }
    }
}

/// The first `n` lines of the diagnostic schedule.
pub open spec fn emitted_lines(n: nat) -> Seq<Seq<char>>
    decreases n,
{
    if n == 0 {
        Seq::empty()
    } else {
        emitted_lines((n - 1) as nat).push(line_spec((n - 1) as nat))
    }
}

/// One line per interval: the schedule's first `n` lines are `n` lines, the
/// first the greeting, every later one the heartbeat.
pub proof fn lemma_one_line_per_interval(n: nat)
    ensures
        emitted_lines(n).len() == n,
        forall|i: int| 0 <= i < n ==> emitted_lines(n)[i] == line_spec(i as nat),
    decreases n,
{
    if n > 0 {
        lemma_one_line_per_interval((n - 1) as nat);
    }
}

/// The diagnostic loop never ends of its own accord: every elapsed interval
/// emits the line owed at the current schedule position and leaves the
/// runtime emitting, ready for the next interval.
pub proof fn lemma_loop_never_ends(n: u64)
    ensures
        payload_step_spec(PayloadState::Emitting { emitted: n }, PayloadEvent::Tick).0 is Emitting,
        payload_step_spec(PayloadState::Emitting { emitted: n }, PayloadEvent::Tick).1
            == PayloadAction::Emit(n),
        n >= 1 ==> line_spec(n as nat) == heartbeat_spec(),
{
}

/// Each event emits at most one line, so the emission count never outruns
/// the event count; while the counter is in range it counts the emissions
/// exactly; and a runtime that is not emitting has emitted nothing.
pub proof fn lemma_emission_count(events: Seq<PayloadEvent>)
    requires
        events.len() < u64::MAX,
    ensures
        payload_emissions(events).len() <= events.len(),
        payload_run(events) matches PayloadState::Emitting { emitted } ==> emitted
            == payload_emissions(events).len(),
        !(payload_run(events) is Emitting) ==> payload_emissions(events).len() == 0,
    decreases events.len(),
{
    if events.len() > 0 {
        lemma_emission_count(events.drop_last());
    }
}

/// The payload's output is exactly the diagnostic schedule: in every run
/// short enough for the emission counter (far beyond any physical lifetime),
/// the lines emitted so far are the schedule's first lines in order — the
/// greeting exactly once and first, then only heartbeats, nothing else.
pub proof fn lemma_emission_schedule(events: Seq<PayloadEvent>)
    requires
        events.len() < u64::MAX,
    ensures
        payload_emissions(events) == emitted_lines(payload_emissions(events).len() as nat),
    decreases events.len(),
{
    if events.len() > 0 {
        let prefix = events.drop_last();
        lemma_emission_schedule(prefix);
        lemma_emission_count(prefix);
    }
}

} // verus!
