use glfw3::{
    CreateOutcome, CreateWindowError, Error, Glfw, HandlerSlot, InitError, InitHint, InitOutcome,
    Lifecycle, LockState, Platform, TryInitError, WindowHint,
};

fn null_platform_hints() -> Vec<InitHint> {
    vec![InitHint::Platform(Platform::Null)]
}

#[test]
fn glfw_init_terminate() {
    let mut state = Lifecycle::new();
    let glfw = Glfw::init(&mut state, &null_platform_hints(), InitOutcome::Success);
    assert!(glfw.is_ok());
    assert!(state.initialized);
    glfw.unwrap().shutdown(&mut state);
    assert!(!state.initialized);
    assert_eq!(1, state.teardown_count);
}

#[test]
fn init() {
    let mut state = Lifecycle::new();
    let glfw = Glfw::init(&mut state, &null_platform_hints(), InitOutcome::Success)
        .expect("it failed");
    assert_eq!(Platform::Null, glfw.get_platform(0x00060005));
    println!("{:?}", glfw.get_platform(0x00060005));
}

#[test]
fn foo1() {
    let mut state = Lifecycle::new();
    let _glfw = Glfw::init(&mut state, &null_platform_hints(), InitOutcome::Success).unwrap();
}

#[test]
fn foo2() {
    let mut state = Lifecycle::new();
    let _glfw = Glfw::init(&mut state, &null_platform_hints(), InitOutcome::Success).unwrap();
}

#[test]
fn foo3() {
    let mut state = Lifecycle::new();
    let _glfw = Glfw::init(&mut state, &null_platform_hints(), InitOutcome::Success).unwrap();
}

#[test]
fn get_monitors() {
    let mut state = Lifecycle::new();
    let glfw = Glfw::init(&mut state, &null_platform_hints(), InitOutcome::Success).unwrap();
    let monitors = glfw.get_monitors(&mut state, &vec![400, 500]);
    assert_eq!(2, monitors.len());
    for monitor in monitors.iter() {
        println!("id: {}", monitor.monitor_id().monitor_ptr());
    }
    // The handle goes first; the library stays up for the monitors.
    glfw.shutdown(&mut state);
    assert!(state.initialized);
    assert_eq!(0, state.teardown_count);
    for monitor in monitors {
        monitor.release(&mut state);
    }
    assert!(!state.initialized);
    assert_eq!(1, state.teardown_count);
}

#[test]
fn create_window() {
    let mut state = Lifecycle::new();
    let glfw = Glfw::init(&mut state, &null_platform_hints(), InitOutcome::Success).unwrap();
    let _window = glfw
        .create_window(
            &mut state,
            &vec![WindowHint::ClientApi(glfw3::ClientApi::NoApi)],
            800,
            600,
            "test",
            None,
            None,
            CreateOutcome::Created { id: 1 },
        )
        .expect("create_window");
}

#[test]
fn init_create_poll_scenario() {
    // Default hints, one 800x600 window, one poll with nothing pending:
    // the poll succeeds and no handler is ever invoked (the slot is
    // installed only for the duration of the call and cleared after).
    let mut state = Lifecycle::new();
    let glfw = Glfw::init(&mut state, &InitHint::none(), InitOutcome::Success).unwrap();
    let window = glfw
        .create_window(
            &mut state,
            &WindowHint::none(),
            800,
            600,
            "t",
            None,
            None,
            CreateOutcome::Created { id: 10 },
        )
        .unwrap();
    let mut slot = HandlerSlot::new();
    let r = glfw.poll_events(&state, &mut slot, None);
    assert!(r.is_ok());
    assert!(!slot.active);
    window.destroy(&mut state);
    glfw.shutdown(&mut state);
    assert_eq!(1, state.teardown_count);
}

#[test]
fn second_init_would_block() {
    let mut state = Lifecycle::new();
    let glfw = Glfw::init(&mut state, &InitHint::none(), InitOutcome::Success).unwrap();
    let second = Glfw::try_init(&mut state, &InitHint::none(), InitOutcome::Success);
    assert_eq!(Err(TryInitError::WouldBlock), second.map(|_| ()));
    // The first initialization's guard is untouched by the refused attempt.
    assert!(state.initialized);
    assert_eq!(1, state.owners);
    glfw.shutdown(&mut state);
    // Released: a new initialization may proceed again.
    let third = Glfw::try_init(&mut state, &InitHint::none(), InitOutcome::Success);
    assert!(third.is_ok());
}

#[test]
fn init_poisoned_lock() {
    let mut state = Lifecycle {
        lock: LockState::Poisoned,
        initialized: false,
        owners: 0,
        teardown_count: 0,
        window_destroy_count: 0,
    };
    let r = Glfw::init(&mut state, &InitHint::none(), InitOutcome::Success);
    assert_eq!(Err(InitError::Poisoned), r.map(|_| ()));
    let r = Glfw::try_init(&mut state, &InitHint::none(), InitOutcome::Success);
    assert_eq!(Err(TryInitError::InitError(InitError::Poisoned)), r.map(|_| ()));
}

#[test]
fn init_hint_rejected_names_the_hint() {
    let mut state = Lifecycle::new();
    let boom = Error { code: 0x00010003, desc: String::from("bad hint") };
    // Index 7 of the applied sequence is the first caller hint: the seven
    // library defaults come first.
    let r = Glfw::init(
        &mut state,
        &null_platform_hints(),
        InitOutcome::HintRejected { index: 7, error: boom.clone() },
    );
    match r {
        Err(InitError::Hint(hint, err)) => {
            assert_eq!(InitHint::Platform(Platform::Null), hint);
            assert_eq!(boom, err);
        }
        other => panic!("expected a hint error, got {:?}", other.map(|_| ())),
    }
    // Index 0 is the first library default.
    let r = Glfw::init(
        &mut state,
        &null_platform_hints(),
        InitOutcome::HintRejected { index: 0, error: boom.clone() },
    );
    match r {
        Err(InitError::Hint(hint, _)) => {
            assert_eq!(InitHint::Platform(Platform::Any), hint);
        }
        other => panic!("expected a hint error, got {:?}", other.map(|_| ())),
    }
    assert!(!state.initialized);
}

#[test]
fn init_failed_without_pending_error() {
    let mut state = Lifecycle::new();
    let r = Glfw::init(&mut state, &InitHint::none(), InitOutcome::InitFailed { pending: None });
    match r {
        Err(InitError::Init(err)) => {
            assert_eq!(-1, err.code);
            assert_eq!("Unknown error", err.desc);
        }
        other => panic!("expected an init error, got {:?}", other.map(|_| ())),
    }
}

#[test]
fn init_callbacks_failed_tears_down() {
    let mut state = Lifecycle::new();
    let boom = Error { code: 0x00010008, desc: String::from("no monitor callback") };
    let r = Glfw::init(
        &mut state,
        &InitHint::none(),
        InitOutcome::CallbacksFailed { error: boom.clone() },
    );
    assert_eq!(Err(InitError::Init(boom)), r.map(|_| ()));
    // The half-initialized library was torn down again, exactly once.
    assert_eq!(1, state.teardown_count);
    assert!(!state.initialized);
}

#[test]
fn create_window_hint_rejected() {
    let mut state = Lifecycle::new();
    let glfw = Glfw::init(&mut state, &InitHint::none(), InitOutcome::Success).unwrap();
    let boom = Error { code: 0x00010003, desc: String::from("bad window hint") };
    let hints = vec![
        WindowHint::Resizable(true),
        WindowHint::ClientApi(glfw3::ClientApi::OpenGl),
    ];
    let r = glfw.create_window(
        &mut state,
        &hints,
        800,
        600,
        "t",
        None,
        None,
        CreateOutcome::HintRejected { index: 1, error: boom.clone() },
    );
    assert_eq!(
        Err(CreateWindowError::Hint(WindowHint::ClientApi(glfw3::ClientApi::OpenGl), boom)),
        r.map(|_| ()),
    );
    assert_eq!(1, state.owners);
    glfw.shutdown(&mut state);
}

#[test]
fn create_window_native_failure() {
    let mut state = Lifecycle::new();
    let glfw = Glfw::init(&mut state, &InitHint::none(), InitOutcome::Success).unwrap();
    let boom = Error { code: 0x00010009, desc: String::from("creation failed") };
    let r = glfw.create_window(
        &mut state,
        &WindowHint::none(),
        0,
        0,
        "t",
        None,
        None,
        CreateOutcome::CreateFailed { error: boom.clone() },
    );
    assert_eq!(Err(CreateWindowError::CreateWindow(boom)), r.map(|_| ()));
    glfw.shutdown(&mut state);
}

#[test]
fn teardown_only_on_last_owner() {
    let mut state = Lifecycle::new();
    let glfw = Glfw::init(&mut state, &InitHint::none(), InitOutcome::Success).unwrap();
    let window = glfw
        .create_window(
            &mut state,
            &WindowHint::none(),
            640,
            480,
            "w",
            None,
            None,
            CreateOutcome::Created { id: 3 },
        )
        .unwrap();
    let primary = glfw.get_primary_monitor(&mut state, Some(9)).unwrap();
    assert_eq!(3, state.owners);
    // Two non-last releases: native window destroy, but no teardown.
    window.destroy(&mut state);
    assert_eq!(1, state.window_destroy_count);
    assert_eq!(0, state.teardown_count);
    primary.release(&mut state);
    assert_eq!(0, state.teardown_count);
    assert!(state.initialized);
    // The last release tears down, exactly once.
    glfw.shutdown(&mut state);
    assert_eq!(1, state.teardown_count);
    assert!(!state.initialized);
    assert_eq!(LockState::Free, state.lock);
}

#[test]
fn get_error_translation() {
    assert_eq!(Ok(()), Glfw::get_error(0, String::from("")));
    let r = Glfw::get_error(0x00010001, String::from("not initialized"));
    assert_eq!(
        Err(Error { code: 0x00010001, desc: String::from("not initialized") }),
        r,
    );
}

#[test]
fn window_identity() {
    let mut state = Lifecycle::new();
    let glfw = Glfw::init(&mut state, &InitHint::none(), InitOutcome::Success).unwrap();
    let window = glfw
        .create_window(
            &mut state,
            &WindowHint::none(),
            1,
            1,
            "w",
            None,
            None,
            CreateOutcome::Created { id: 42 },
        )
        .unwrap();
    let id = window.window_id();
    assert_eq!(42, id.window_ptr());
    assert_eq!(42, id.window_mut_ptr());
    assert!(window.is_context_current(Some(id)));
    assert!(!window.is_context_current(None));
    assert!(!window.is_context_current(Some(glfw3::WindowId(43))));
    window.set_window_icon();
    window.destroy(&mut state);
    glfw.shutdown(&mut state);
}
