use composition_session::negotiation::ContentSurfaceHandle;
use composition_session::negotiation::Environment;
use composition_session::negotiation::NegotiationError;
use composition_session::negotiation::OneShotSlot;
use composition_session::negotiation::SlotFault;
use composition_session::negotiation::StepCompletion;
use composition_session::negotiation::acquire_controller;
use composition_session::negotiation::acquire_environment;
use composition_session::negotiation::negotiate;

#[test]
fn environment_step_maps_its_three_outcomes() {
    assert_eq!(
        acquire_environment(StepCompletion { succeeded: false, object: None }),
        Err(NegotiationError::EnvironmentUnavailable)
    );
    assert_eq!(
        acquire_environment(StepCompletion { succeeded: true, object: None }),
        Err(NegotiationError::NullResult)
    );
    assert_eq!(
        acquire_environment(StepCompletion { succeeded: true, object: Some(3) }),
        Ok(Environment { id: 3 })
    );
}

#[test]
fn controller_step_maps_its_three_outcomes() {
    assert_eq!(
        acquire_controller(StepCompletion { succeeded: false, object: Some(9) }),
        Err(NegotiationError::ControllerUnavailable)
    );
    assert_eq!(
        acquire_controller(StepCompletion { succeeded: true, object: None }),
        Err(NegotiationError::NullResult)
    );
    assert_eq!(
        acquire_controller(StepCompletion { succeeded: true, object: Some(9) }),
        Ok(ContentSurfaceHandle { id: 9 })
    );
}

#[test]
fn both_steps_succeeding_yield_the_handle() {
    let r = negotiate(
        StepCompletion { succeeded: true, object: Some(3) },
        StepCompletion { succeeded: true, object: Some(7) },
    );
    assert_eq!(r, Ok(ContentSurfaceHandle { id: 7 }));
}

#[test]
fn failed_first_step_decides_alone() {
    // whatever the injected second-step completion, the outcome is the
    // first step's error
    let env_c = StepCompletion { succeeded: false, object: Some(3) };
    for ctrl_c in [
        StepCompletion { succeeded: true, object: Some(7) },
        StepCompletion { succeeded: true, object: None },
        StepCompletion { succeeded: false, object: None },
    ] {
        assert_eq!(negotiate(env_c, ctrl_c), Err(NegotiationError::EnvironmentUnavailable));
    }
}

#[test]
fn null_second_step_is_a_hard_failure() {
    let r = negotiate(
        StepCompletion { succeeded: true, object: Some(3) },
        StepCompletion { succeeded: true, object: None },
    );
    assert_eq!(r, Err(NegotiationError::NullResult));
}

#[test]
fn one_shot_slot_delivers_exactly_once() {
    let mut slot: OneShotSlot<u32> = OneShotSlot::new();
    assert_eq!(slot.take(), None);
    assert_eq!(slot.complete(42), Ok(()));
    assert_eq!(slot.take(), Some(42));
    assert_eq!(slot.take(), None);
}

#[test]
fn one_shot_slot_refuses_a_duplicate_completion() {
    let mut slot: OneShotSlot<u32> = OneShotSlot::new();
    assert_eq!(slot.complete(1), Ok(()));
    assert_eq!(slot.complete(2), Err(SlotFault::DuplicateCompletion));
    // the first delivery is the one that stays
    assert_eq!(slot.take(), Some(1));
    // a completion after the value was taken is still a duplicate
    assert_eq!(slot.complete(3), Err(SlotFault::DuplicateCompletion));
    assert_eq!(slot.take(), None);
}
