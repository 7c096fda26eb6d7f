//! The teardown policy for the client's handle to the server process.
//!
//! When the client's ownership scope ends, exactly one teardown transition
//! fires, and it behaves differently depending on why the scope ended:
//!
//! - If the owning thread is unwinding from a panic, nothing is waited for:
//!   the OS-level kill-on-drop request (see [`crate::spawn`]) closes the
//!   window at once, so a user with a bug to fix is never stalled.
//! - Otherwise the drawing stays visible: the client blocks on the
//!   supervision task until the child exits, then mirrors the child's exit
//!   status — a clean exit ends teardown silently, a failing exit makes the
//!   client terminate with the child's code (or a generic failure code when
//!   none is observable), and a failure of the wait itself is fatal.
//!
//! [`ServerLifecycle`] makes "exactly once" a verified precondition:
//! [`ServerLifecycle::begin_teardown`] may only be called on an active
//! handle and leaves it torn down.
use vstd::prelude::*;

verus! {

/// How a handle's teardown proceeds.
#[derive(Clone, Copy, Debug, PartialEq, Eq, Structural)]
pub enum TeardownMode {
    /// Do not wait for anything: the kill-on-drop request already made at
    /// spawn time terminates the child. Taken while unwinding from a panic.
    Immediate,
    /// Block on the supervision task until the child process exits, then
    /// act on its status. Taken on normal end of scope.
    AwaitChild,
}

/// What the supervision task reported when it was waited on.
#[derive(Clone, Copy, Debug, PartialEq, Eq, Structural)]
pub enum ChildWait {
    /// The child process exited. `success` is the OS's judgement of its
    /// status; `code` is its exit code where one is observable (a child
    /// terminated by a signal has none).
    Exited { success: bool, code: Option<i32> },
    /// Waiting on the supervision task itself failed: the OS lost track of
    /// the child, so its lifecycle can no longer be trusted.
    WaitFailed,
}

/// What the client does after waiting for the child.
#[derive(Clone, Copy, Debug, PartialEq, Eq, Structural)]
pub enum TeardownOutcome {
    /// The child exited successfully; teardown completes silently.
    Quiet,
    /// The child failed; the client process must terminate with this code
    /// so the rendering failure is visible to whoever invoked it.
    ExitClient { code: i32 },
    /// The wait itself failed; the client must raise a fatal error.
    Fatal,
}

/// The exit code the client falls back to when the child failed without an
/// observable code.
pub open spec fn generic_failure_code() -> i32 {
    1
}

/// The teardown mode owed for the way the owning scope ended: never wait
/// while unwinding from a panic, always wait otherwise.
pub open spec fn teardown_mode_spec(panicking: bool) -> TeardownMode {
    if panicking {
        TeardownMode::Immediate
    } else {
        TeardownMode::AwaitChild
    }
}

/// The action owed for what the wait on the child reported.
pub open spec fn teardown_outcome_spec(wait: ChildWait) -> TeardownOutcome {
    match wait {
        ChildWait::Exited { success, code } => if success {
            TeardownOutcome::Quiet
        } else {
            match code {
                Some(code) => TeardownOutcome::ExitClient { code },
                None => TeardownOutcome::ExitClient { code: generic_failure_code() },
            }
        },
        ChildWait::WaitFailed => TeardownOutcome::Fatal,
    }
}

/// Decides what the client does once the wait on the child has resolved.
pub fn teardown_outcome(wait: &ChildWait) -> (outcome: TeardownOutcome)
    ensures
        outcome == teardown_outcome_spec(*wait),
{
    match wait {
        ChildWait::Exited { success, code } => {
            if *success {
                TeardownOutcome::Quiet
            } else {
                match code {
                    Some(code) => TeardownOutcome::ExitClient { code: *code },
                    None => TeardownOutcome::ExitClient { code: 1 },
                }
            }
        },
        ChildWait::WaitFailed => TeardownOutcome::Fatal,
    }
}

/// The two states of the client's handle to the server process.
#[derive(Clone, Copy, Debug, PartialEq, Eq, Structural)]
pub enum HandleState {
    /// The handle still owns the supervision task.
    Active,
    /// Teardown has fired; the supervision task has been consumed.
    TornDown,
}

/// Tracks that the teardown transition of one handle fires exactly once:
/// it can only fire while the handle is active, and firing leaves the
/// handle torn down for good.
pub struct ServerLifecycle {
    /// Whether the supervision task is still owned.
    pub state: HandleState,
}

impl ServerLifecycle {
    /// A freshly spawned handle, its supervision task not yet consumed.
    pub fn new() -> (lifecycle: ServerLifecycle)
        ensures
            lifecycle.state is Active,
    {
        ServerLifecycle { state: HandleState::Active }
    }

    /// Fires the teardown transition and decides its mode from whether the
    /// owning thread is unwinding from a panic. Consumes the handle's claim
    /// to the supervision task, so it cannot fire a second time.
    pub fn begin_teardown(&mut self, panicking: bool) -> (mode: TeardownMode)
        requires
            old(self).state is Active,
        ensures
            final(self).state is TornDown,
            mode == teardown_mode_spec(panicking),
            panicking <==> mode is Immediate,
    {
        self.state = HandleState::TornDown;
        if panicking {
            TeardownMode::Immediate
        } else {
            TeardownMode::AwaitChild
        }
    }
}

/// Panic law: teardown on the panic path never waits on the child — its
/// mode involves no blocking at all, whatever the child has or has not done.
pub proof fn lemma_panic_teardown_never_waits(panicking: bool)
    requires
        panicking,
    ensures
        teardown_mode_spec(panicking) is Immediate,
        teardown_mode_spec(panicking) !is AwaitChild,
{
}

/// Normal-completion law: teardown without a panic always waits for the
/// child, and then mirrors the child's real status — a successful exit is
/// silent, a failing exit with an observable code terminates the client
/// with exactly that code, a failing exit without one uses the generic
/// failure code, and a failed wait is fatal.
pub proof fn lemma_normal_teardown_reflects_child(wait: ChildWait)
    ensures
        teardown_mode_spec(false) is AwaitChild,
        wait matches ChildWait::Exited { success: true, .. } ==> teardown_outcome_spec(
            wait,
        ) is Quiet,
        wait matches ChildWait::Exited { success: false, code: Some(code) }
            ==> teardown_outcome_spec(wait) == (TeardownOutcome::ExitClient { code }),
        wait matches ChildWait::Exited { success: false, code: None } ==> teardown_outcome_spec(
            wait,
        ) == (TeardownOutcome::ExitClient { code: generic_failure_code() }),
        wait is WaitFailed ==> teardown_outcome_spec(wait) is Fatal,
{
}

} // verus!
