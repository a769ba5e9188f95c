use glfw3::{Error, Glfw, HandlerSlot, InitHint, InitOutcome, Lifecycle};

#[test]
fn wait_timeout_zero_or_negative_is_an_error() {
    assert!(Glfw::check_wait_timeout(0).is_err());
    assert!(Glfw::check_wait_timeout(-1).is_err());
    assert!(Glfw::check_wait_timeout(-1_000_000_000).is_err());
    assert!(Glfw::check_wait_timeout(1).is_ok());
    assert!(Glfw::check_wait_timeout(16_000_000).is_ok());
    let err = Glfw::check_wait_timeout(0).unwrap_err();
    assert_eq!(0x00010004, err.code);
    assert_eq!("Invalid timeout value", err.desc);
}

#[test]
fn wait_events_timeout_rejects_zero_without_waiting() {
    let mut state = Lifecycle::new();
    let glfw = Glfw::init(&mut state, &InitHint::none(), InitOutcome::Success).unwrap();
    let mut slot = HandlerSlot::new();
    // No native outcome is consulted for a zero timeout: the error comes
    // from the timeout check alone, and the slot is still cleared.
    let r = glfw.wait_events_timeout(&state, &mut slot, 0, None);
    let err = r.unwrap_err();
    assert_eq!(0x00010004, err.code);
    assert!(!slot.active);
    // A positive timeout goes through to the native outcome.
    let r = glfw.wait_events_timeout(&state, &mut slot, 16_000_000, None);
    assert!(r.is_ok());
    assert!(!slot.active);
    glfw.shutdown(&mut state);
}

#[test]
fn polling_clears_slot_on_error_path_too() {
    let mut state = Lifecycle::new();
    let glfw = Glfw::init(&mut state, &InitHint::none(), InitOutcome::Success).unwrap();
    let mut slot = HandlerSlot::new();
    let pending = Error { code: 0x00010001, desc: String::from("boom") };
    let r = glfw.poll_events(&state, &mut slot, Some(pending.clone()));
    assert_eq!(Err(pending.clone()), r);
    assert!(!slot.active);
    let r = glfw.wait_events(&state, &mut slot, Some(pending.clone()));
    assert_eq!(Err(pending), r);
    assert!(!slot.active);
    let r = glfw.wait_events(&state, &mut slot, None);
    assert_eq!(Ok(()), r);
    assert!(!slot.active);
    glfw.shutdown(&mut state);
}
