use glfw3::{
    call_handler, drop_event, key_event, monitor_event, mouse_button_event, set_handler,
    unset_handler, Action, ButtonEventError, Dispatch, Event, HandlerSlot, Key, KeyEventError,
    Modifiers, MonitorEvent, MonitorId, MouseButton, TimedEvent, WindowEvent, WindowId,
};

#[test]
fn key_event_decodes() {
    let r = key_event(7, 65, 30, 1, 0x0003);
    assert_eq!(
        Ok(TimedEvent {
            time: 7,
            event: WindowEvent::Key(Key::A, 30, Action::Press, Modifiers::from_bits_truncate(3)),
        }),
        r,
    );
}

#[test]
fn key_event_unknown_key_is_suppressed() {
    assert_eq!(Err(KeyEventError::UnknownKey(33)), key_event(0, 33, 0, 1, 0));
}

#[test]
fn key_event_unknown_action_is_suppressed() {
    assert_eq!(
        Err(KeyEventError::UnknownActionForKey(Key::Space, 9)),
        key_event(0, 32, 0, 9, 0),
    );
}

#[test]
fn key_event_unknown_key_and_action() {
    assert_eq!(
        Err(KeyEventError::UnknownKeyAndAction(33, 9)),
        key_event(0, 33, 0, 9, 0),
    );
}

#[test]
fn mouse_button_event_decodes() {
    let r = mouse_button_event(2, 1, 0, 0x0002);
    assert_eq!(
        Ok(TimedEvent {
            time: 2,
            event: WindowEvent::MouseButton(
                MouseButton::Button2,
                Action::Release,
                Modifiers::from_bits_truncate(2),
            ),
        }),
        r,
    );
}

#[test]
fn mouse_button_event_failures() {
    assert_eq!(
        Err(ButtonEventError::UnknownButton(8)),
        mouse_button_event(0, 8, 0, 0),
    );
    assert_eq!(
        Err(ButtonEventError::UnknownActionForButton(MouseButton::Button1, 5)),
        mouse_button_event(0, 0, 5, 0),
    );
    assert_eq!(
        Err(ButtonEventError::UnknownButtonAndAction(9, 5)),
        mouse_button_event(0, 9, 5, 0),
    );
}

#[test]
fn file_drop_keeps_valid_path_beside_invalid() {
    // One valid and one invalid path: exactly the valid one is delivered,
    // and the skip count lets the shell log the other.
    let (event, skipped) = drop_event(1, vec![Some(String::from("/tmp/a.txt")), None]);
    assert_eq!(1, skipped);
    assert_eq!(
        WindowEvent::FileDrop(vec![String::from("/tmp/a.txt")]),
        event.event,
    );
    assert_eq!(1, event.time);
}

#[test]
fn file_drop_preserves_order() {
    let (event, skipped) = drop_event(
        0,
        vec![None, Some(String::from("x")), None, Some(String::from("y"))],
    );
    assert_eq!(2, skipped);
    assert_eq!(
        WindowEvent::FileDrop(vec![String::from("x"), String::from("y")]),
        event.event,
    );
}

#[test]
fn file_drop_empty() {
    let (event, skipped) = drop_event(0, Vec::new());
    assert_eq!(0, skipped);
    assert_eq!(WindowEvent::FileDrop(Vec::new()), event.event);
}

#[test]
fn monitor_event_decodes() {
    let id = MonitorId(11);
    assert_eq!(Some(MonitorEvent::Connected(id)), monitor_event(id, 0x00040001));
    assert_eq!(Some(MonitorEvent::Disconnected(id)), monitor_event(id, 0x00040002));
    assert_eq!(None, monitor_event(id, 0));
    assert_eq!(None, monitor_event(id, 0x00040003));
    // The event taxonomy: a monitor event beside a window event.
    assert_ne!(Event::Monitor, Event::Window(WindowEvent::Close));
}

#[test]
fn dispatch_goes_to_installed_handler() {
    let mut slot = HandlerSlot::new();
    let ev = TimedEvent { time: 4, event: WindowEvent::Close };
    // No handler: the event passes through unchanged.
    assert_eq!(
        Dispatch::PassThrough(ev.clone()),
        call_handler(&slot, WindowId(5), ev.clone()),
    );
    // Handler installed: the event goes to it, with the window identity.
    let guard = set_handler(&mut slot);
    assert_eq!(
        Dispatch::Invoke(WindowId(5), ev.clone()),
        call_handler(&slot, WindowId(5), ev.clone()),
    );
    unset_handler(&mut slot, guard);
    assert!(!slot.active);
    assert_eq!(
        Dispatch::PassThrough(ev.clone()),
        call_handler(&slot, WindowId(5), ev),
    );
}

#[test]
fn slot_scoped_install_and_clear() {
    // Install / scope-exit cycles: the slot is empty immediately after
    // every exit, and only ever holds the one handler in between.
    let mut slot = HandlerSlot::new();
    for _ in 0..3 {
        assert!(!slot.active);
        let guard = set_handler(&mut slot);
        assert!(slot.active);
        unset_handler(&mut slot, guard);
        assert!(!slot.active);
    }
}
