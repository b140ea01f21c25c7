use tourn_bot_core::confirm::{
    denial_reply, no_pending_reply, reply_for, ConfirmableTask, ConfirmationRegistry, Outcome,
};

#[test]
fn register_then_confirm_hands_out_the_task() {
    let mut registry = ConfirmationRegistry::new();
    assert!(!registry.has_pending(1));
    registry.register(1, ConfirmableTask::new(String::from("drop round 3")));
    assert!(registry.has_pending(1));
    match registry.confirm(1) {
        Outcome::Approved(task) => assert_eq!(task.into_action(), "drop round 3"),
        _ => panic!("a pending task should have been approved"),
    }
    assert!(!registry.has_pending(1));
}

#[test]
fn deny_discards_without_performing() {
    let mut registry = ConfirmationRegistry::new();
    registry.register(2, ConfirmableTask::new(String::from("remove player 9")));
    assert!(matches!(registry.deny(2), Outcome::Denied));
    assert!(!registry.has_pending(2));
    assert!(matches!(registry.confirm(2), Outcome::NothingPending));
}

#[test]
fn confirm_with_nothing_pending() {
    let mut registry = ConfirmationRegistry::new();
    assert!(matches!(registry.confirm(3), Outcome::NothingPending));
    assert!(matches!(registry.deny(3), Outcome::NothingPending));
}

#[test]
fn second_resolution_finds_nothing_pending() {
    let mut registry = ConfirmationRegistry::new();
    registry.register(4, ConfirmableTask::new(String::from("reset standings")));
    assert!(matches!(registry.confirm(4), Outcome::Approved(_)));
    assert!(matches!(registry.confirm(4), Outcome::NothingPending));
    assert!(matches!(registry.deny(4), Outcome::NothingPending));
    assert!(matches!(registry.confirm(4), Outcome::NothingPending));
}

#[test]
fn repeated_confirms_approve_at_most_once() {
    let mut registry = ConfirmationRegistry::new();
    registry.register(5, ConfirmableTask::new(String::from("cut to top eight")));
    let mut approvals = 0;
    for _ in 0..10 {
        if let Outcome::Approved(_) = registry.confirm(5) {
            approvals += 1;
        }
    }
    assert_eq!(approvals, 1);
}

#[test]
fn register_replaces_the_previous_task() {
    let mut registry = ConfirmationRegistry::new();
    registry.register(6, ConfirmableTask::new(String::from("first request")));
    registry.register(6, ConfirmableTask::new(String::from("second request")));
    match registry.confirm(6) {
        Outcome::Approved(task) => assert_eq!(task.into_action(), "second request"),
        _ => panic!("the replacing task should have been approved"),
    }
    assert!(matches!(registry.confirm(6), Outcome::NothingPending));
}

#[test]
fn users_do_not_interfere() {
    let mut registry = ConfirmationRegistry::new();
    registry.register(7, ConfirmableTask::new(String::from("for user seven")));
    registry.register(8, ConfirmableTask::new(String::from("for user eight")));
    assert!(matches!(registry.deny(7), Outcome::Denied));
    assert!(registry.has_pending(8));
    match registry.confirm(8) {
        Outcome::Approved(task) => assert_eq!(task.into_action(), "for user eight"),
        _ => panic!("user eight's task should still have been pending"),
    }
}

#[test]
fn replies_match_outcomes() {
    assert_eq!(
        no_pending_reply(),
        "Its seems that you don't have anything waiting for your approval."
    );
    assert_eq!(denial_reply(), "Alright, I won't do that.");
    assert_eq!(reply_for(&Outcome::Denied), Some("Alright, I won't do that."));
    assert_eq!(
        reply_for(&Outcome::NothingPending),
        Some("Its seems that you don't have anything waiting for your approval.")
    );
    let approved = Outcome::Approved(ConfirmableTask::new(String::from("announce pairings")));
    assert_eq!(reply_for(&approved), None);
}

#[test]
fn end_to_end_confirmation_flow() {
    let mut registry = ConfirmationRegistry::new();
    registry.register(42, ConfirmableTask::new(String::from("drop the current round")));
    assert!(registry.has_pending(42));

    let denied = registry.deny(42);
    assert!(matches!(denied, Outcome::Denied));
    assert_eq!(reply_for(&denied), Some("Alright, I won't do that."));
    assert!(!registry.has_pending(42));

    let retried = registry.confirm(42);
    assert!(matches!(retried, Outcome::NothingPending));
    assert_eq!(
        reply_for(&retried),
        Some("Its seems that you don't have anything waiting for your approval.")
    );
}
