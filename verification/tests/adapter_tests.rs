use hooks_yew::adapter::{rendered_should_schedule, task_poll_decision, task_wake_decision,
    HookLifecycleState, PollDecision, TokenCounts, WakeDecision};

#[test]
fn two_rendered_calls_schedule_one_task() {
    let mut state = HookLifecycleState::new();
    let mut started: u32 = 0;
    if state.rendered() {
        started += 1;
    }
    if state.rendered() {
        started += 1;
    }
    assert_eq!(started, 1);
}

#[test]
fn completed_poll_lets_rendered_rearm() {
    let mut state = HookLifecycleState::new();
    assert!(state.rendered());
    assert!(!state.rendered());
    state.task_completed();
    assert!(state.rendered());
    assert!(!state.rendered());
}

#[test]
fn destroyed_owner_finishes_without_touching_the_hook() {
    // the task's weak handle finds no strong holder: the owner is gone
    assert_eq!(task_wake_decision(0), WakeDecision::FinishWithoutRender);
    assert_eq!(task_wake_decision(1), WakeDecision::PollHook);
    assert_eq!(task_wake_decision(2), WakeDecision::PollHook);
}

#[test]
fn poll_result_drives_the_task() {
    assert_eq!(task_poll_decision(true), PollDecision::FinishAndRender);
    assert_eq!(task_poll_decision(false), PollDecision::Suspend);
}

#[test]
fn changed_always_rerenders_and_clears_the_token() {
    let mut state = HookLifecycleState::new();
    assert!(state.rendered());
    // a poll task is pending, yet a properties change resets the obligation
    assert!(state.erased_changed());
    assert!(state.rendered());
}

#[test]
fn count_inspection_matches_the_state_machine() {
    assert!(rendered_should_schedule(&None));
    // previous task completed: one strong holder, no weak observer
    assert!(rendered_should_schedule(&Some(TokenCounts { strong: 1, weak: 0 })));
    // a task still holds its weak observer
    assert!(!rendered_should_schedule(&Some(TokenCounts { strong: 1, weak: 1 })));
    // an extra strong holder keeps the token pending
    assert!(!rendered_should_schedule(&Some(TokenCounts { strong: 2, weak: 0 })));
}
