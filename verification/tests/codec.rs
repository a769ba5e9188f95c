use glfw3::{Action, Key, Modifiers, MouseButton, MouseButtonLeft, MouseButtonMiddle,
    MouseButtonRight, Platform};

#[test]
fn key_round_trip_over_all_recognized_codes() {
    // The recognized key-code ranges of the native table.
    let ranges: [(i32, i32); 13] = [
        (32, 32),
        (39, 39),
        (44, 57),
        (59, 59),
        (61, 61),
        (65, 93),
        (96, 96),
        (161, 162),
        (256, 269),
        (280, 284),
        (290, 314),
        (320, 336),
        (340, 348),
    ];
    for &(lo, hi) in ranges.iter() {
        for code in lo..=hi {
            let key = Key::try_from(code).expect("recognized code must decode");
            assert_eq!(code, key.code());
        }
    }
}

#[test]
fn key_unrecognized_codes_fail() {
    for code in [-1, 0, 31, 33, 38, 40, 43, 58, 60, 62, 64, 94, 95, 97, 160, 163, 255, 270, 279,
        285, 289, 315, 319, 337, 339, 349, 1000]
    {
        assert_eq!(Err(code), Key::try_from(code));
    }
}

#[test]
fn key_spot_values() {
    assert_eq!(Ok(Key::Space), Key::try_from(32));
    assert_eq!(Ok(Key::A), Key::try_from(65));
    assert_eq!(Ok(Key::Z), Key::try_from(90));
    assert_eq!(Ok(Key::Escape), Key::try_from(256));
    assert_eq!(Ok(Key::F25), Key::try_from(314));
    assert_eq!(Ok(Key::KpEqual), Key::try_from(336));
    assert_eq!(Ok(Key::Menu), Key::try_from(348));
    assert_eq!(-1, Key::Unknown.code());
}

#[test]
fn action_round_trip() {
    for code in 0..=2 {
        let action = Action::try_from(code).expect("recognized code must decode");
        assert_eq!(code, action.code());
    }
    assert_eq!(Ok(Action::Release), Action::try_from(0));
    assert_eq!(Ok(Action::Press), Action::try_from(1));
    assert_eq!(Ok(Action::Repeat), Action::try_from(2));
    assert_eq!(Err(3), Action::try_from(3));
    assert_eq!(Err(-1), Action::try_from(-1));
}

#[test]
fn mouse_button_round_trip() {
    for code in 0..=7 {
        let button = MouseButton::try_from(code).expect("recognized code must decode");
        assert_eq!(code, button.code());
    }
    assert_eq!(Ok(MouseButton::Button1), MouseButton::try_from(0));
    assert_eq!(Ok(MouseButton::Button8), MouseButton::try_from(7));
    assert_eq!(Err(8), MouseButton::try_from(8));
    assert_eq!(Err(-2), MouseButton::try_from(-2));
}

#[test]
fn platform_round_trip() {
    for code in 0x00060000..=0x00060005 {
        let platform = Platform::try_from(code).expect("recognized code must decode");
        assert_eq!(code, platform.code());
    }
    assert_eq!(Ok(Platform::Null), Platform::try_from(0x00060005));
    assert_eq!(Err(0x00060006), Platform::try_from(0x00060006));
    assert_eq!(Err(0), Platform::try_from(0));
}

#[test]
fn mouse_button_aliases() {
    assert_eq!(MouseButton::Button1, MouseButtonLeft);
    assert_eq!(MouseButton::Button2, MouseButtonRight);
    assert_eq!(MouseButton::Button3, MouseButtonMiddle);
}

#[test]
fn modifiers_truncate_undefined_bits() {
    let mods = Modifiers::from_bits_truncate(-1);
    assert_eq!(0x003F, mods.bits());
    let mods = Modifiers::from_bits_truncate(0x0041);
    assert_eq!(0x0001, mods.bits());
    assert_eq!(0, Modifiers::empty().bits());
    assert!(mods.contains(Modifiers::from_bits_truncate(0x0001)));
    assert!(!mods.contains(Modifiers::from_bits_truncate(0x0002)));
}
