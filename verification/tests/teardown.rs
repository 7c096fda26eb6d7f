use turtle_canvas::teardown::{
    teardown_outcome, ChildWait, HandleState, ServerLifecycle, TeardownMode, TeardownOutcome,
};

#[test]
fn panicking_teardown_never_waits() {
    let mut lifecycle = ServerLifecycle::new();
    assert_eq!(lifecycle.state, HandleState::Active);
    let mode = lifecycle.begin_teardown(true);
    assert_eq!(mode, TeardownMode::Immediate);
    assert_eq!(lifecycle.state, HandleState::TornDown);
}

#[test]
fn normal_teardown_waits_for_the_child() {
    let mut lifecycle = ServerLifecycle::new();
    let mode = lifecycle.begin_teardown(false);
    assert_eq!(mode, TeardownMode::AwaitChild);
    assert_eq!(lifecycle.state, HandleState::TornDown);
}

#[test]
fn successful_child_exit_is_silent() {
    let wait = ChildWait::Exited { success: true, code: Some(0) };
    assert_eq!(teardown_outcome(&wait), TeardownOutcome::Quiet);
}

#[test]
fn child_exit_code_three_terminates_client_with_three() {
    let wait = ChildWait::Exited { success: false, code: Some(3) };
    assert_eq!(teardown_outcome(&wait), TeardownOutcome::ExitClient { code: 3 });
}

#[test]
fn child_killed_without_code_uses_generic_failure_code() {
    let wait = ChildWait::Exited { success: false, code: None };
    assert_eq!(teardown_outcome(&wait), TeardownOutcome::ExitClient { code: 1 });
}

#[test]
fn failed_wait_is_fatal() {
    assert_eq!(teardown_outcome(&ChildWait::WaitFailed), TeardownOutcome::Fatal);
}
