use redirector::provision::{CreateOutcome, TargetState, NAMESPACE_EXISTS, RETRY_BUDGET};

use CreateOutcome::{AlreadyExists, Created, Failed};

#[test]
fn already_exists_is_ready_at_once() {
    let start = TargetState::start(RETRY_BUDGET);
    assert_eq!(start, TargetState::Attempting { remaining: 3 });
    assert_eq!(start.step(AlreadyExists), TargetState::Ready);
    assert_eq!(TargetState::start(1).step(AlreadyExists), TargetState::Ready);
    assert_eq!(TargetState::start(0).step(AlreadyExists), TargetState::Ready);
}

#[test]
fn created_is_ready_at_once() {
    assert_eq!(TargetState::start(3).step(Created), TargetState::Ready);
}

#[test]
fn two_failures_then_success_under_budget_three() {
    let s = TargetState::start(3);
    let s = s.step(Failed);
    assert_eq!(s, TargetState::Attempting { remaining: 2 });
    let s = s.step(Failed);
    assert_eq!(s, TargetState::Attempting { remaining: 1 });
    let s = s.step(Created);
    assert_eq!(s, TargetState::Ready);
    assert_eq!(
        TargetState::start(3).replay(&[Failed, Failed, Created]),
        TargetState::Ready
    );
}

#[test]
fn two_failures_then_success_under_budget_one() {
    let s = TargetState::start(1).step(Failed);
    assert_eq!(s, TargetState::Fatal);
    assert!(s.is_terminal());
    assert_eq!(
        TargetState::start(1).replay(&[Failed, Failed, Created]),
        TargetState::Fatal
    );
}

#[test]
fn budget_is_the_number_of_attempts() {
    assert_eq!(
        TargetState::start(3).replay(&[Failed, Failed, Failed]),
        TargetState::Fatal
    );
    assert_eq!(
        TargetState::start(3).replay(&[Failed, Failed, Failed, Created]),
        TargetState::Fatal
    );
    assert_eq!(
        TargetState::start(4).replay(&[Failed, Failed, Failed, AlreadyExists]),
        TargetState::Ready
    );
    assert_eq!(TargetState::start(0).replay(&[Failed]), TargetState::Fatal);
    assert_eq!(
        TargetState::start(255).replay(&[Failed; 254]),
        TargetState::Attempting { remaining: 1 }
    );
    assert_eq!(TargetState::start(255).replay(&[Failed; 255]), TargetState::Fatal);
}

#[test]
fn replay_of_nothing_changes_nothing() {
    assert_eq!(
        TargetState::start(2).replay(&[]),
        TargetState::Attempting { remaining: 2 }
    );
    assert!(!TargetState::start(2).is_terminal());
}

#[test]
fn final_states_stay() {
    for outcome in [Created, AlreadyExists, Failed] {
        assert_eq!(TargetState::Ready.step(outcome), TargetState::Ready);
        assert_eq!(TargetState::Fatal.step(outcome), TargetState::Fatal);
    }
    assert!(TargetState::Ready.is_terminal());
    assert_eq!(
        TargetState::start(3).replay(&[Created, Failed, Failed, Failed, Failed]),
        TargetState::Ready
    );
}

#[test]
fn refusal_codes() {
    assert_eq!(NAMESPACE_EXISTS, 48);
    assert_eq!(CreateOutcome::from_refusal(Some(48)), AlreadyExists);
    assert_eq!(CreateOutcome::from_refusal(Some(47)), Failed);
    assert_eq!(CreateOutcome::from_refusal(Some(-48)), Failed);
    assert_eq!(CreateOutcome::from_refusal(None), Failed);
}
