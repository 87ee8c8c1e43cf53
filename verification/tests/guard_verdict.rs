use linear_type::{drop_verdict, Policy, Verdict};

#[test]
fn live_drop_panics_under_the_checked_panic_policy() {
    assert_eq!(drop_verdict(Policy::CheckedPanic, true, false), Verdict::Panic);
}

#[test]
fn live_drop_aborts_under_the_checked_abort_policy() {
    assert_eq!(drop_verdict(Policy::CheckedAbort, true, false), Verdict::Abort);
}

#[test]
fn guard_stays_silent_while_a_failure_is_already_propagating() {
    assert_eq!(drop_verdict(Policy::CheckedPanic, true, true), Verdict::Silent);
    assert_eq!(drop_verdict(Policy::CheckedAbort, true, true), Verdict::Silent);
}

#[test]
fn disarmed_guard_is_always_silent() {
    assert_eq!(drop_verdict(Policy::CheckedPanic, false, false), Verdict::Silent);
    assert_eq!(drop_verdict(Policy::CheckedAbort, false, false), Verdict::Silent);
    assert_eq!(drop_verdict(Policy::CheckedPanic, false, true), Verdict::Silent);
}

#[test]
fn unchecked_policy_never_fires() {
    assert_eq!(drop_verdict(Policy::Unchecked, true, false), Verdict::Silent);
    assert_eq!(drop_verdict(Policy::Unchecked, true, true), Verdict::Silent);
    assert_eq!(drop_verdict(Policy::Unchecked, false, false), Verdict::Silent);
}
