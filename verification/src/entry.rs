//! The module entry point's dispatch: the loader invokes a module's entry
//! function with an activation reason, and the entry function must decide,
//! without blocking, whether to hand work to a background context and which
//! status to report back to the loader.

use vstd::prelude::*;

verus! {

/// Activation reason the loader passes on process detach.
pub const PROCESS_DETACH: u32 = 0;

/// Activation reason the loader passes on process attach.
pub const PROCESS_ATTACH: u32 = 1;

/// Activation reason the loader passes on thread attach.
pub const THREAD_ATTACH: u32 = 2;

/// Activation reason the loader passes on thread detach.
pub const THREAD_DETACH: u32 = 3;

/// Status code reported back to the loader: the entry point succeeded.
pub const ENTRY_SUCCESS: u8 = 1;

/// Status code reported back to the loader: the entry point failed.
pub const ENTRY_FAILURE: u8 = 0;

/// What the entry point asks its caller to do. Spawning the payload runtime
/// is handed out as an instruction rather than performed here, so the entry
/// point itself never blocks the loader's invoking thread.
#[derive(PartialEq, Eq, Structural, Clone, Copy, Debug)]
pub enum EntryAction {
    /// Start the payload runtime on an independent background context.
    SpawnRuntime,
    /// Perform no work.
    Nothing,
}

/// The work owed for a given activation reason: the payload runtime starts
/// only on process attach; every other reason does nothing.
pub open spec fn entry_action_spec(reason: u32) -> EntryAction {
    if reason == PROCESS_ATTACH {
        EntryAction::SpawnRuntime
    } else {
        EntryAction::Nothing
    }
}

/// The status owed for a given activation reason: success for the four
/// reasons the loader defines, failure for anything else.
pub open spec fn entry_status_spec(reason: u32) -> u8 {
    if reason == PROCESS_ATTACH || reason == PROCESS_DETACH || reason == THREAD_ATTACH
        || reason == THREAD_DETACH {
        ENTRY_SUCCESS
    } else {
        ENTRY_FAILURE
    }
}

/// Dispatch on the loader's activation reason. Pure decision: no waiting, no
/// fallible work, so nothing can escape back to the loader.
pub fn entry_decision(reason: u32) -> (r: (EntryAction, u8))
    ensures
        r.0 == entry_action_spec(reason),
        r.1 == entry_status_spec(reason),
{
    if reason == PROCESS_ATTACH {
        (EntryAction::SpawnRuntime, ENTRY_SUCCESS)
    } else if reason == PROCESS_DETACH || reason == THREAD_ATTACH || reason == THREAD_DETACH {
        (EntryAction::Nothing, ENTRY_SUCCESS)
    } else {
        (EntryAction::Nothing, ENTRY_FAILURE)
    }
}

/// Guard against re-initialization: the attach handling may in principle fire
/// more than once, but at most one payload runtime may ever be started.
pub struct RuntimeGuard {
    /// Whether a payload runtime has already been started.
    pub started: bool,
}

impl RuntimeGuard {
    /// A fresh guard: no runtime started yet.
    pub fn new() -> (g: RuntimeGuard)
        ensures
            !g.started,
    {
        RuntimeGuard { started: false }
    }

    /// Claim the right to start the runtime. Returns true exactly when no
    /// runtime was started before, and records the start either way.
    pub fn try_start(&mut self) -> (r: bool)
        ensures
            r == !old(self).started,
            final(self).started,
    {
        let was = self.started;
        self.started = true;
        !was
    }
}

/// The relation `try_start` establishes between the guard's state before the
/// call, its state after, and the returned permission.
pub open spec fn try_start_rel(pre: bool, post: bool, granted: bool) -> bool {
    granted == !pre && post
}

/// At most one payload runtime per injection: of any two successive
/// `try_start` calls on the same guard, at most one is granted.
pub proof fn lemma_single_runtime(s0: bool, s1: bool, s2: bool, r1: bool, r2: bool)
    requires
        try_start_rel(s0, s1, r1),
        try_start_rel(s1, s2, r2),
    ensures
        !(r1 && r2),
{
}

} // verus!
