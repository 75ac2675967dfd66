//! The execution state machine. The surrounding binary runs one sub-invocation
//! of the plan at a time and reports its exit status; the decision what to do
//! next — run the next sub-invocation, or stop with a final exit code — is
//! made here, so that the short-circuit semantics of a `&&` chain is a proved
//! property rather than a habit of the run loop.

use vstd::prelude::*;

verus! {

/// What the run loop must do after one sub-invocation has finished.
#[derive(Debug, PartialEq, Eq, Structural)]
pub enum ExecOutcome {
    /// Run the sub-invocation with this index next.
    Next(usize),
    /// Stop; the whole tool exits with this code.
    Finished(i32),
}

/// The decision after sub-invocation `i` of `n_subs` exited with `status`:
/// any failure stops the run at once and becomes the tool's own exit code; a
/// success moves on to the next sub-invocation, or finishes with 0 after the
/// last one.
pub open spec fn spec_execution_step(n_subs: int, i: int, status: i32) -> ExecOutcome {
    if status != 0 {
        ExecOutcome::Finished(status)
    } else if i + 1 < n_subs {
        ExecOutcome::Next((i + 1) as usize)
    } else {
        ExecOutcome::Finished(0)
    }
}

/// Decide what the run loop does after sub-invocation `i` of `n_subs` exited
/// with `status`.
pub fn execution_step(n_subs: usize, i: usize, status: i32) -> (r: ExecOutcome)
    requires
        i < n_subs,
    ensures
        r == spec_execution_step(n_subs as int, i as int, status),
{
    if status != 0 {
        ExecOutcome::Finished(status)
    } else if i + 1 < n_subs {
        ExecOutcome::Next(i + 1)
    } else {
        ExecOutcome::Finished(0)
    }
}

/// A failing sub-invocation's exit code becomes the tool's own exit code,
/// whatever its position in the chain.
pub proof fn lemma_exit_code_propagated(n_subs: int, i: int, status: i32)
    requires
        status != 0,
    ensures
        spec_execution_step(n_subs, i, status) == ExecOutcome::Finished(status),
{
}

/// After a failing sub-invocation, no further sub-invocation runs: the chain
/// short-circuits, as `&&` does in a shell.
pub proof fn lemma_failure_short_circuits(n_subs: int, i: int, status: i32)
    requires
        status != 0,
    ensures
        !(spec_execution_step(n_subs, i, status) matches ExecOutcome::Next(_)),
{
}

/// A run in which every sub-invocation succeeds walks the whole plan in order
/// and finishes with exit code 0.
pub proof fn lemma_success_walks_chain(n_subs: int, i: int)
    requires
        0 <= i < n_subs,
    ensures
        i + 1 < n_subs ==> spec_execution_step(n_subs, i, 0) == ExecOutcome::Next(
            (i + 1) as usize,
        ),
        i + 1 == n_subs ==> spec_execution_step(n_subs, i, 0) == ExecOutcome::Finished(0),
{
}

} // verus!
