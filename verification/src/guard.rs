//! Decision logic for the drop-time violation detector.
//!
//! Dropping a live cell without destructuring it is a discipline violation.
//! An enforcement shell around the cell detects the violation in its
//! end-of-life hook; the verdict it must act on — raise a recoverable
//! failure, terminate the process, or stay silent — is decided here, so the
//! rules of the detector are verified:
//!
//! * only a live (still armed) cell can trigger a violation;
//! * while another failure is already propagating the detector stays silent,
//!   so it never masks the original failure with a second one;
//! * under the unchecked policy the detector never fires at all.

use vstd::prelude::*;

verus! {

/// The configured severity of the violation detector, a build-time choice of
/// the enforcement shell.
#[derive(Debug, Clone, Copy, PartialEq, Eq, Structural)]
pub enum Policy {
    /// Raise a recoverable failure, so a test harness can observe it.
    CheckedPanic,
    /// Terminate the process: a violation indicates a logic error that is
    /// unsafe to continue running with.
    CheckedAbort,
    /// No detection at all, for callers that have proven the discipline
    /// upheld by other means.
    Unchecked,
}

/// What the end-of-life hook must do for one cell.
#[derive(Debug, Clone, Copy, PartialEq, Eq, Structural)]
pub enum Verdict {
    /// Raise a recoverable failure naming the wrapped type.
    Panic,
    /// Terminate the process.
    Abort,
    /// Do nothing.
    Silent,
}

/// The verdict for a cell reaching end-of-life: loud exactly when the cell is
/// still armed, no other failure is already propagating, and detection is
/// switched on.
pub open spec fn verdict_of(policy: Policy, armed: bool, failure_propagating: bool) -> Verdict {
    if !armed || failure_propagating {
        Verdict::Silent
    } else {
        match policy {
            Policy::CheckedPanic => Verdict::Panic,
            Policy::CheckedAbort => Verdict::Abort,
            Policy::Unchecked => Verdict::Silent,
        }
    }
}

/// Decides what the end-of-life hook of an enforcement shell must do, given
/// whether the cell's guard is still armed and whether a failure is already
/// propagating in the surrounding context.
pub fn drop_verdict(policy: Policy, armed: bool, failure_propagating: bool) -> (v: Verdict)
    ensures
        v == verdict_of(policy, armed, failure_propagating),
{
    if !armed || failure_propagating {
        Verdict::Silent
    } else {
        match policy {
            Policy::CheckedPanic => Verdict::Panic,
            Policy::CheckedAbort => Verdict::Abort,
            Policy::Unchecked => Verdict::Silent,
        }
    }
}

/// Law: the guard never double-fires. While a failure is already propagating,
/// the verdict is silent whatever the policy and whatever the cell's state.
pub proof fn lemma_no_double_failure(policy: Policy, armed: bool)
    ensures
        verdict_of(policy, armed, true) == Verdict::Silent,
{
}

/// Law: dropping a live cell is loud. Under either checked policy, a cell
/// whose guard is still armed gets a non-silent verdict when no other failure
/// is propagating, and the verdict matches the configured severity.
pub proof fn lemma_live_drop_fires(policy: Policy)
    requires
        policy != Policy::Unchecked,
    ensures
        verdict_of(policy, true, false) != Verdict::Silent,
        policy == Policy::CheckedPanic ==> verdict_of(policy, true, false) == Verdict::Panic,
        policy == Policy::CheckedAbort ==> verdict_of(policy, true, false) == Verdict::Abort,
{
}

/// Law: a disarmed guard is always silent. Both terminal operations disarm
/// the guard, so a sanctioned end of a chain never raises a failure.
pub proof fn lemma_disarmed_is_silent(policy: Policy, failure_propagating: bool)
    ensures
        verdict_of(policy, false, failure_propagating) == Verdict::Silent,
{
}

} // verus!
