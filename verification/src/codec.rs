//! Enum mirroring of the native boundary's integer constants: keys,
//! actions, mouse buttons, platforms, and the modifier bitset.
//!
//! Each category is a closed enumeration with an explicit, fallible
//! conversion from the native integer domain.  Unknown integers fail the
//! conversion rather than aliasing a valid value, and every recognized code
//! round-trips: decoding then encoding gives back the identical native
//! integer.

use vstd::prelude::*;

verus! {

/// A keyboard key, by the native boundary's key-code table.
#[derive(Copy, Clone, Eq, PartialEq, Ord, PartialOrd, Hash, Debug, Structural)]
pub enum Key {
    Space,
    Apostrophe,
    Comma,
    Minus,
    Period,
    Slash,
    Num0,
    Num1,
    Num2,
    Num3,
    Num4,
    Num5,
    Num6,
    Num7,
    Num8,
    Num9,
    Semicolon,
    Equal,
    A,
    B,
    C,
    D,
    E,
    F,
    G,
    H,
    I,
    J,
    K,
    L,
    M,
    N,
    O,
    P,
    Q,
    R,
    S,
    T,
    U,
    V,
    W,
    X,
    Y,
    Z,
    LeftBracket,
    Backslash,
    RightBracket,
    GraveAccent,
    World1,
    World2,
    Escape,
    Enter,
    Tab,
    Backspace,
    Insert,
    Delete,
    Right,
    Left,
    Down,
    Up,
    PageUp,
    PageDown,
    Home,
    End,
    CapsLock,
    ScrollLock,
    NumLock,
    PrintScreen,
    Pause,
    F1,
    F2,
    F3,
    F4,
    F5,
    F6,
    F7,
    F8,
    F9,
    F10,
    F11,
    F12,
    F13,
    F14,
    F15,
    F16,
    F17,
    F18,
    F19,
    F20,
    F21,
    F22,
    F23,
    F24,
    F25,
    Kp0,
    Kp1,
    Kp2,
    Kp3,
    Kp4,
    Kp5,
    Kp6,
    Kp7,
    Kp8,
    Kp9,
    KpDecimal,
    KpDivide,
    KpMultiply,
    KpSubtract,
    KpAdd,
    KpEnter,
    KpEqual,
    LeftShift,
    LeftControl,
    LeftAlt,
    LeftSuper,
    RightShift,
    RightControl,
    RightAlt,
    RightSuper,
    Menu,
    Unknown,
}

/// The native integer code of a key.
pub open spec fn key_code(k: Key) -> i32 {
    match k {
        Key::Space => 32,
        Key::Apostrophe => 39,
        Key::Comma => 44,
        Key::Minus => 45,
        Key::Period => 46,
        Key::Slash => 47,
        Key::Num0 => 48,
        Key::Num1 => 49,
        Key::Num2 => 50,
        Key::Num3 => 51,
        Key::Num4 => 52,
        Key::Num5 => 53,
        Key::Num6 => 54,
        Key::Num7 => 55,
        Key::Num8 => 56,
        Key::Num9 => 57,
        Key::Semicolon => 59,
        Key::Equal => 61,
        Key::A => 65,
        Key::B => 66,
        Key::C => 67,
        Key::D => 68,
        Key::E => 69,
        Key::F => 70,
        Key::G => 71,
        Key::H => 72,
        Key::I => 73,
        Key::J => 74,
        Key::K => 75,
        Key::L => 76,
        Key::M => 77,
        Key::N => 78,
        Key::O => 79,
        Key::P => 80,
        Key::Q => 81,
        Key::R => 82,
        Key::S => 83,
        Key::T => 84,
        Key::U => 85,
        Key::V => 86,
        Key::W => 87,
        Key::X => 88,
        Key::Y => 89,
        Key::Z => 90,
        Key::LeftBracket => 91,
        Key::Backslash => 92,
        Key::RightBracket => 93,
        Key::GraveAccent => 96,
        Key::World1 => 161,
        Key::World2 => 162,
        Key::Escape => 256,
        Key::Enter => 257,
        Key::Tab => 258,
        Key::Backspace => 259,
        Key::Insert => 260,
        Key::Delete => 261,
        Key::Right => 262,
        Key::Left => 263,
        Key::Down => 264,
        Key::Up => 265,
        Key::PageUp => 266,
        Key::PageDown => 267,
        Key::Home => 268,
        Key::End => 269,
        Key::CapsLock => 280,
        Key::ScrollLock => 281,
        Key::NumLock => 282,
        Key::PrintScreen => 283,
        Key::Pause => 284,
        Key::F1 => 290,
        Key::F2 => 291,
        Key::F3 => 292,
        Key::F4 => 293,
        Key::F5 => 294,
        Key::F6 => 295,
        Key::F7 => 296,
        Key::F8 => 297,
        Key::F9 => 298,
        Key::F10 => 299,
        Key::F11 => 300,
        Key::F12 => 301,
        Key::F13 => 302,
        Key::F14 => 303,
        Key::F15 => 304,
        Key::F16 => 305,
        Key::F17 => 306,
        Key::F18 => 307,
        Key::F19 => 308,
        Key::F20 => 309,
        Key::F21 => 310,
        Key::F22 => 311,
        Key::F23 => 312,
        Key::F24 => 313,
        Key::F25 => 314,
        Key::Kp0 => 320,
        Key::Kp1 => 321,
        Key::Kp2 => 322,
        Key::Kp3 => 323,
        Key::Kp4 => 324,
        Key::Kp5 => 325,
        Key::Kp6 => 326,
        Key::Kp7 => 327,
        Key::Kp8 => 328,
        Key::Kp9 => 329,
        Key::KpDecimal => 330,
        Key::KpDivide => 331,
        Key::KpMultiply => 332,
        Key::KpSubtract => 333,
        Key::KpAdd => 334,
        Key::KpEnter => 335,
        Key::KpEqual => 336,
        Key::LeftShift => 340,
        Key::LeftControl => 341,
        Key::LeftAlt => 342,
        Key::LeftSuper => 343,
        Key::RightShift => 344,
        Key::RightControl => 345,
        Key::RightAlt => 346,
        Key::RightSuper => 347,
        Key::Menu => 348,
        Key::Unknown => -1i32,
    }
}

/// Which key, if any, a native integer code decodes to.  `Key::Unknown`
/// (native code -1) is deliberately not decodable: it never arrives as a
/// recognized code.
pub open spec fn key_of(v: i32) -> Option<Key> {
    if v == 32 {
        Some(Key::Space)
    } else if v == 39 {
        Some(Key::Apostrophe)
    } else if v == 44 {
        Some(Key::Comma)
    } else if v == 45 {
        Some(Key::Minus)
    } else if v == 46 {
        Some(Key::Period)
    } else if v == 47 {
        Some(Key::Slash)
    } else if v == 48 {
        Some(Key::Num0)
    } else if v == 49 {
        Some(Key::Num1)
    } else if v == 50 {
        Some(Key::Num2)
    } else if v == 51 {
        Some(Key::Num3)
    } else if v == 52 {
        Some(Key::Num4)
    } else if v == 53 {
        Some(Key::Num5)
    } else if v == 54 {
        Some(Key::Num6)
    } else if v == 55 {
        Some(Key::Num7)
    } else if v == 56 {
        Some(Key::Num8)
    } else if v == 57 {
        Some(Key::Num9)
    } else if v == 59 {
        Some(Key::Semicolon)
    } else if v == 61 {
        Some(Key::Equal)
    } else if v == 65 {
        Some(Key::A)
    } else if v == 66 {
        Some(Key::B)
    } else if v == 67 {
        Some(Key::C)
    } else if v == 68 {
        Some(Key::D)
    } else if v == 69 {
        Some(Key::E)
    } else if v == 70 {
        Some(Key::F)
    } else if v == 71 {
        Some(Key::G)
    } else if v == 72 {
        Some(Key::H)
    } else if v == 73 {
        Some(Key::I)
    } else if v == 74 {
        Some(Key::J)
    } else if v == 75 {
        Some(Key::K)
    } else if v == 76 {
        Some(Key::L)
    } else if v == 77 {
        Some(Key::M)
    } else if v == 78 {
        Some(Key::N)
    } else if v == 79 {
        Some(Key::O)
    } else if v == 80 {
        Some(Key::P)
    } else if v == 81 {
        Some(Key::Q)
    } else if v == 82 {
        Some(Key::R)
    } else if v == 83 {
        Some(Key::S)
    } else if v == 84 {
        Some(Key::T)
    } else if v == 85 {
        Some(Key::U)
    } else if v == 86 {
        Some(Key::V)
    } else if v == 87 {
        Some(Key::W)
    } else if v == 88 {
        Some(Key::X)
    } else if v == 89 {
        Some(Key::Y)
    } else if v == 90 {
        Some(Key::Z)
    } else if v == 91 {
        Some(Key::LeftBracket)
    } else if v == 92 {
        Some(Key::Backslash)
    } else if v == 93 {
        Some(Key::RightBracket)
    } else if v == 96 {
        Some(Key::GraveAccent)
    } else if v == 161 {
        Some(Key::World1)
    } else if v == 162 {
        Some(Key::World2)
    } else if v == 256 {
        Some(Key::Escape)
    } else if v == 257 {
        Some(Key::Enter)
    } else if v == 258 {
        Some(Key::Tab)
    } else if v == 259 {
        Some(Key::Backspace)
    } else if v == 260 {
        Some(Key::Insert)
    } else if v == 261 {
        Some(Key::Delete)
    } else if v == 262 {
        Some(Key::Right)
    } else if v == 263 {
        Some(Key::Left)
    } else if v == 264 {
        Some(Key::Down)
    } else if v == 265 {
        Some(Key::Up)
    } else if v == 266 {
        Some(Key::PageUp)
    } else if v == 267 {
        Some(Key::PageDown)
    } else if v == 268 {
        Some(Key::Home)
    } else if v == 269 {
        Some(Key::End)
    } else if v == 280 {
        Some(Key::CapsLock)
    } else if v == 281 {
        Some(Key::ScrollLock)
    } else if v == 282 {
        Some(Key::NumLock)
    } else if v == 283 {
        Some(Key::PrintScreen)
    } else if v == 284 {
        Some(Key::Pause)
    } else if v == 290 {
        Some(Key::F1)
    } else if v == 291 {
        Some(Key::F2)
    } else if v == 292 {
        Some(Key::F3)
    } else if v == 293 {
        Some(Key::F4)
    } else if v == 294 {
        Some(Key::F5)
    } else if v == 295 {
        Some(Key::F6)
    } else if v == 296 {
        Some(Key::F7)
    } else if v == 297 {
        Some(Key::F8)
    } else if v == 298 {
        Some(Key::F9)
    } else if v == 299 {
        Some(Key::F10)
    } else if v == 300 {
        Some(Key::F11)
    } else if v == 301 {
        Some(Key::F12)
    } else if v == 302 {
        Some(Key::F13)
    } else if v == 303 {
        Some(Key::F14)
    } else if v == 304 {
        Some(Key::F15)
    } else if v == 305 {
        Some(Key::F16)
    } else if v == 306 {
        Some(Key::F17)
    } else if v == 307 {
        Some(Key::F18)
    } else if v == 308 {
        Some(Key::F19)
    } else if v == 309 {
        Some(Key::F20)
    } else if v == 310 {
        Some(Key::F21)
    } else if v == 311 {
        Some(Key::F22)
    } else if v == 312 {
        Some(Key::F23)
    } else if v == 313 {
        Some(Key::F24)
    } else if v == 314 {
        Some(Key::F25)
    } else if v == 320 {
        Some(Key::Kp0)
    } else if v == 321 {
        Some(Key::Kp1)
    } else if v == 322 {
        Some(Key::Kp2)
    } else if v == 323 {
        Some(Key::Kp3)
    } else if v == 324 {
        Some(Key::Kp4)
    } else if v == 325 {
        Some(Key::Kp5)
    } else if v == 326 {
        Some(Key::Kp6)
    } else if v == 327 {
        Some(Key::Kp7)
    } else if v == 328 {
        Some(Key::Kp8)
    } else if v == 329 {
        Some(Key::Kp9)
    } else if v == 330 {
        Some(Key::KpDecimal)
    } else if v == 331 {
        Some(Key::KpDivide)
    } else if v == 332 {
        Some(Key::KpMultiply)
    } else if v == 333 {
        Some(Key::KpSubtract)
    } else if v == 334 {
        Some(Key::KpAdd)
    } else if v == 335 {
        Some(Key::KpEnter)
    } else if v == 336 {
        Some(Key::KpEqual)
    } else if v == 340 {
        Some(Key::LeftShift)
    } else if v == 341 {
        Some(Key::LeftControl)
    } else if v == 342 {
        Some(Key::LeftAlt)
    } else if v == 343 {
        Some(Key::LeftSuper)
    } else if v == 344 {
        Some(Key::RightShift)
    } else if v == 345 {
        Some(Key::RightControl)
    } else if v == 346 {
        Some(Key::RightAlt)
    } else if v == 347 {
        Some(Key::RightSuper)
    } else if v == 348 {
        Some(Key::Menu)
    } else {
        None
    }
}

impl Key {
    /// Encode this key as its native integer code.
    pub fn code(&self) -> (r: i32)
        ensures
            r == key_code(*self),
    {
        match self {
            Key::Space => 32,
            Key::Apostrophe => 39,
            Key::Comma => 44,
            Key::Minus => 45,
            Key::Period => 46,
            Key::Slash => 47,
            Key::Num0 => 48,
            Key::Num1 => 49,
            Key::Num2 => 50,
            Key::Num3 => 51,
            Key::Num4 => 52,
            Key::Num5 => 53,
            Key::Num6 => 54,
            Key::Num7 => 55,
            Key::Num8 => 56,
            Key::Num9 => 57,
            Key::Semicolon => 59,
            Key::Equal => 61,
            Key::A => 65,
            Key::B => 66,
            Key::C => 67,
            Key::D => 68,
            Key::E => 69,
            Key::F => 70,
            Key::G => 71,
            Key::H => 72,
            Key::I => 73,
            Key::J => 74,
            Key::K => 75,
            Key::L => 76,
            Key::M => 77,
            Key::N => 78,
            Key::O => 79,
            Key::P => 80,
            Key::Q => 81,
            Key::R => 82,
            Key::S => 83,
            Key::T => 84,
            Key::U => 85,
            Key::V => 86,
            Key::W => 87,
            Key::X => 88,
            Key::Y => 89,
            Key::Z => 90,
            Key::LeftBracket => 91,
            Key::Backslash => 92,
            Key::RightBracket => 93,
            Key::GraveAccent => 96,
            Key::World1 => 161,
            Key::World2 => 162,
            Key::Escape => 256,
            Key::Enter => 257,
            Key::Tab => 258,
            Key::Backspace => 259,
            Key::Insert => 260,
            Key::Delete => 261,
            Key::Right => 262,
            Key::Left => 263,
            Key::Down => 264,
            Key::Up => 265,
            Key::PageUp => 266,
            Key::PageDown => 267,
            Key::Home => 268,
            Key::End => 269,
            Key::CapsLock => 280,
            Key::ScrollLock => 281,
            Key::NumLock => 282,
            Key::PrintScreen => 283,
            Key::Pause => 284,
            Key::F1 => 290,
            Key::F2 => 291,
            Key::F3 => 292,
            Key::F4 => 293,
            Key::F5 => 294,
            Key::F6 => 295,
            Key::F7 => 296,
            Key::F8 => 297,
            Key::F9 => 298,
            Key::F10 => 299,
            Key::F11 => 300,
            Key::F12 => 301,
            Key::F13 => 302,
            Key::F14 => 303,
            Key::F15 => 304,
            Key::F16 => 305,
            Key::F17 => 306,
            Key::F18 => 307,
            Key::F19 => 308,
            Key::F20 => 309,
            Key::F21 => 310,
            Key::F22 => 311,
            Key::F23 => 312,
            Key::F24 => 313,
            Key::F25 => 314,
            Key::Kp0 => 320,
            Key::Kp1 => 321,
            Key::Kp2 => 322,
            Key::Kp3 => 323,
            Key::Kp4 => 324,
            Key::Kp5 => 325,
            Key::Kp6 => 326,
            Key::Kp7 => 327,
            Key::Kp8 => 328,
            Key::Kp9 => 329,
            Key::KpDecimal => 330,
            Key::KpDivide => 331,
            Key::KpMultiply => 332,
            Key::KpSubtract => 333,
            Key::KpAdd => 334,
            Key::KpEnter => 335,
            Key::KpEqual => 336,
            Key::LeftShift => 340,
            Key::LeftControl => 341,
            Key::LeftAlt => 342,
            Key::LeftSuper => 343,
            Key::RightShift => 344,
            Key::RightControl => 345,
            Key::RightAlt => 346,
            Key::RightSuper => 347,
            Key::Menu => 348,
            Key::Unknown => -1i32,
        }
    }

    /// Decode a native integer code; unrecognized codes are returned
    /// unchanged as the error.
    #[verifier::rlimit(60)]
    pub fn try_from(value: i32) -> (r: Result<Key, i32>)
        ensures
            (r == match key_of(value) {
                Some(k) => Ok::<Key, i32>(k),
                None => Err::<Key, i32>(value),
            }),
    {
        match value {
            32 => Ok(Key::Space),
            39 => Ok(Key::Apostrophe),
            44 => Ok(Key::Comma),
            45 => Ok(Key::Minus),
            46 => Ok(Key::Period),
            47 => Ok(Key::Slash),
            48 => Ok(Key::Num0),
            49 => Ok(Key::Num1),
            50 => Ok(Key::Num2),
            51 => Ok(Key::Num3),
            52 => Ok(Key::Num4),
            53 => Ok(Key::Num5),
            54 => Ok(Key::Num6),
            55 => Ok(Key::Num7),
            56 => Ok(Key::Num8),
            57 => Ok(Key::Num9),
            59 => Ok(Key::Semicolon),
            61 => Ok(Key::Equal),
            65 => Ok(Key::A),
            66 => Ok(Key::B),
            67 => Ok(Key::C),
            68 => Ok(Key::D),
            69 => Ok(Key::E),
            70 => Ok(Key::F),
            71 => Ok(Key::G),
            72 => Ok(Key::H),
            73 => Ok(Key::I),
            74 => Ok(Key::J),
            75 => Ok(Key::K),
            76 => Ok(Key::L),
            77 => Ok(Key::M),
            78 => Ok(Key::N),
            79 => Ok(Key::O),
            80 => Ok(Key::P),
            81 => Ok(Key::Q),
            82 => Ok(Key::R),
            83 => Ok(Key::S),
            84 => Ok(Key::T),
            85 => Ok(Key::U),
            86 => Ok(Key::V),
            87 => Ok(Key::W),
            88 => Ok(Key::X),
            89 => Ok(Key::Y),
            90 => Ok(Key::Z),
            91 => Ok(Key::LeftBracket),
            92 => Ok(Key::Backslash),
            93 => Ok(Key::RightBracket),
            96 => Ok(Key::GraveAccent),
            161 => Ok(Key::World1),
            162 => Ok(Key::World2),
            256 => Ok(Key::Escape),
            257 => Ok(Key::Enter),
            258 => Ok(Key::Tab),
            259 => Ok(Key::Backspace),
            260 => Ok(Key::Insert),
            261 => Ok(Key::Delete),
            262 => Ok(Key::Right),
            263 => Ok(Key::Left),
            264 => Ok(Key::Down),
            265 => Ok(Key::Up),
            266 => Ok(Key::PageUp),
            267 => Ok(Key::PageDown),
            268 => Ok(Key::Home),
            269 => Ok(Key::End),
            280 => Ok(Key::CapsLock),
            281 => Ok(Key::ScrollLock),
            282 => Ok(Key::NumLock),
            283 => Ok(Key::PrintScreen),
            284 => Ok(Key::Pause),
            290 => Ok(Key::F1),
            291 => Ok(Key::F2),
            292 => Ok(Key::F3),
            293 => Ok(Key::F4),
            294 => Ok(Key::F5),
            295 => Ok(Key::F6),
            296 => Ok(Key::F7),
            297 => Ok(Key::F8),
            298 => Ok(Key::F9),
            299 => Ok(Key::F10),
            300 => Ok(Key::F11),
            301 => Ok(Key::F12),
            302 => Ok(Key::F13),
            303 => Ok(Key::F14),
            304 => Ok(Key::F15),
            305 => Ok(Key::F16),
            306 => Ok(Key::F17),
            307 => Ok(Key::F18),
            308 => Ok(Key::F19),
            309 => Ok(Key::F20),
            310 => Ok(Key::F21),
            311 => Ok(Key::F22),
            312 => Ok(Key::F23),
            313 => Ok(Key::F24),
            314 => Ok(Key::F25),
            320 => Ok(Key::Kp0),
            321 => Ok(Key::Kp1),
            322 => Ok(Key::Kp2),
            323 => Ok(Key::Kp3),
            324 => Ok(Key::Kp4),
            325 => Ok(Key::Kp5),
            326 => Ok(Key::Kp6),
            327 => Ok(Key::Kp7),
            328 => Ok(Key::Kp8),
            329 => Ok(Key::Kp9),
            330 => Ok(Key::KpDecimal),
            331 => Ok(Key::KpDivide),
            332 => Ok(Key::KpMultiply),
            333 => Ok(Key::KpSubtract),
            334 => Ok(Key::KpAdd),
            335 => Ok(Key::KpEnter),
            336 => Ok(Key::KpEqual),
            340 => Ok(Key::LeftShift),
            341 => Ok(Key::LeftControl),
            342 => Ok(Key::LeftAlt),
            343 => Ok(Key::LeftSuper),
            344 => Ok(Key::RightShift),
            345 => Ok(Key::RightControl),
            346 => Ok(Key::RightAlt),
            347 => Ok(Key::RightSuper),
            348 => Ok(Key::Menu),
            _ => Err(value),
        }
    }
}

/// Every recognized key code decodes, and decoding round-trips: encoding
/// the decoded key gives back the identical native integer.
pub proof fn lemma_key_decode_encode(v: i32)
    ensures
        key_of(v) matches Some(k) ==> key_code(k) == v,
{
}

/// Encoding round-trips: every key except `Key::Unknown` decodes back from
/// its own native code.
pub proof fn lemma_key_encode_decode(k: Key)
    requires
        k != Key::Unknown,
    ensures
        key_of(key_code(k)) == Some(k),
{
}

/// A key or mouse-button state transition.
#[derive(Copy, Clone, Eq, PartialEq, Ord, PartialOrd, Hash, Debug, Structural)]
pub enum Action {
    Release,
    Press,
    Repeat,
}

/// The native integer code of an action.
pub open spec fn action_code(a: Action) -> i32 {
    match a {
        Action::Release => 0,
        Action::Press => 1,
        Action::Repeat => 2,
    }
}

/// Which action, if any, a native integer code decodes to.
pub open spec fn action_of(v: i32) -> Option<Action> {
    if v == 0 {
        Some(Action::Release)
    } else if v == 1 {
        Some(Action::Press)
    } else if v == 2 {
        Some(Action::Repeat)
    } else {
        None
    }
}

impl Action {
    /// Encode this action as its native integer code.
    pub fn code(&self) -> (r: i32)
        ensures
            r == action_code(*self),
    {
        match self {
            Action::Release => 0,
            Action::Press => 1,
            Action::Repeat => 2,
        }
    }

    /// Decode a native integer code; unrecognized codes are returned
    /// unchanged as the error.
    pub fn try_from(value: i32) -> (r: Result<Action, i32>)
        ensures
            (r == match action_of(value) {
                Some(a) => Ok::<Action, i32>(a),
                None => Err::<Action, i32>(value),
            }),
    {
        match value {
            0 => Ok(Action::Release),
            1 => Ok(Action::Press),
            2 => Ok(Action::Repeat),
            _ => Err(value),
        }
    }
}

/// Decoding an action round-trips to the identical native integer.
pub proof fn lemma_action_decode_encode(v: i32)
    ensures
        action_of(v) matches Some(a) ==> action_code(a) == v,
{
}

/// Every action decodes back from its own native code.
pub proof fn lemma_action_encode_decode(a: Action)
    ensures
        action_of(action_code(a)) == Some(a),
{
}

/// A mouse button, by the native boundary's button numbering.
#[derive(Copy, Clone, Eq, PartialEq, Ord, PartialOrd, Hash, Debug, Structural)]
pub enum MouseButton {
    /// The left mouse button.
    Button1,
    /// The right mouse button.
    Button2,
    /// The middle mouse button.
    Button3,
    Button4,
    Button5,
    Button6,
    Button7,
    Button8,
}

/// The native integer code of a mouse button.
pub open spec fn button_code(b: MouseButton) -> i32 {
    match b {
        MouseButton::Button1 => 0,
        MouseButton::Button2 => 1,
        MouseButton::Button3 => 2,
        MouseButton::Button4 => 3,
        MouseButton::Button5 => 4,
        MouseButton::Button6 => 5,
        MouseButton::Button7 => 6,
        MouseButton::Button8 => 7,
    }
}

/// Which mouse button, if any, a native integer code decodes to.
pub open spec fn button_of(v: i32) -> Option<MouseButton> {
    if v == 0 {
        Some(MouseButton::Button1)
    } else if v == 1 {
        Some(MouseButton::Button2)
    } else if v == 2 {
        Some(MouseButton::Button3)
    } else if v == 3 {
        Some(MouseButton::Button4)
    } else if v == 4 {
        Some(MouseButton::Button5)
    } else if v == 5 {
        Some(MouseButton::Button6)
    } else if v == 6 {
        Some(MouseButton::Button7)
    } else if v == 7 {
        Some(MouseButton::Button8)
    } else {
        None
    }
}

impl MouseButton {
    /// Encode this button as its native integer code.
    pub fn code(&self) -> (r: i32)
        ensures
            r == button_code(*self),
    {
        match self {
            MouseButton::Button1 => 0,
            MouseButton::Button2 => 1,
            MouseButton::Button3 => 2,
            MouseButton::Button4 => 3,
            MouseButton::Button5 => 4,
            MouseButton::Button6 => 5,
            MouseButton::Button7 => 6,
            MouseButton::Button8 => 7,
        }
    }

    /// Decode a native integer code; unrecognized codes are returned
    /// unchanged as the error.
    pub fn try_from(value: i32) -> (r: Result<MouseButton, i32>)
        ensures
            (r == match button_of(value) {
                Some(b) => Ok::<MouseButton, i32>(b),
                None => Err::<MouseButton, i32>(value),
            }),
    {
        match value {
            0 => Ok(MouseButton::Button1),
            1 => Ok(MouseButton::Button2),
            2 => Ok(MouseButton::Button3),
            3 => Ok(MouseButton::Button4),
            4 => Ok(MouseButton::Button5),
            5 => Ok(MouseButton::Button6),
            6 => Ok(MouseButton::Button7),
            7 => Ok(MouseButton::Button8),
            _ => Err(value),
        }
    }
}

/// Decoding a mouse button round-trips to the identical native integer.
pub proof fn lemma_button_decode_encode(v: i32)
    ensures
        button_of(v) matches Some(b) ==> button_code(b) == v,
{
}

/// Every mouse button decodes back from its own native code.
pub proof fn lemma_button_encode_decode(b: MouseButton)
    ensures
        button_of(button_code(b)) == Some(b),
{
}

/// A platform (display backend) the native boundary can run on.
#[derive(Debug, Copy, Clone, PartialEq, Eq, Structural)]
pub enum Platform {
    Any,
    Win32,
    Cocoa,
    Wayland,
    X11,
    Null,
}

/// The native integer code of a platform.
pub open spec fn platform_code(p: Platform) -> i32 {
    match p {
        Platform::Any => 0x00060000,
        Platform::Win32 => 0x00060001,
        Platform::Cocoa => 0x00060002,
        Platform::Wayland => 0x00060003,
        Platform::X11 => 0x00060004,
        Platform::Null => 0x00060005,
    }
}

/// Which platform, if any, a native integer code decodes to.
pub open spec fn platform_of(v: i32) -> Option<Platform> {
    if v == 0x00060000 {
        Some(Platform::Any)
    } else if v == 0x00060001 {
        Some(Platform::Win32)
    } else if v == 0x00060002 {
        Some(Platform::Cocoa)
    } else if v == 0x00060003 {
        Some(Platform::Wayland)
    } else if v == 0x00060004 {
        Some(Platform::X11)
    } else if v == 0x00060005 {
        Some(Platform::Null)
    } else {
        None
    }
}

impl Platform {
    /// Encode this platform as its native integer code.
    pub fn code(&self) -> (r: i32)
        ensures
            r == platform_code(*self),
    {
        match self {
            Platform::Any => 0x00060000,
            Platform::Win32 => 0x00060001,
            Platform::Cocoa => 0x00060002,
            Platform::Wayland => 0x00060003,
            Platform::X11 => 0x00060004,
            Platform::Null => 0x00060005,
        }
    }

    /// Decode a native integer code; unrecognized codes are returned
    /// unchanged as the error.
    pub fn try_from(value: i32) -> (r: Result<Platform, i32>)
        ensures
            (r == match platform_of(value) {
                Some(p) => Ok::<Platform, i32>(p),
                None => Err::<Platform, i32>(value),
            }),
    {
        match value {
            0x00060000 => Ok(Platform::Any),
            0x00060001 => Ok(Platform::Win32),
            0x00060002 => Ok(Platform::Cocoa),
            0x00060003 => Ok(Platform::Wayland),
            0x00060004 => Ok(Platform::X11),
            0x00060005 => Ok(Platform::Null),
            _ => Err(value),
        }
    }
}

/// Decoding a platform round-trips to the identical native integer.
pub proof fn lemma_platform_decode_encode(v: i32)
    ensures
        platform_of(v) matches Some(p) ==> platform_code(p) == v,
{
}

/// Every platform decodes back from its own native code.
pub proof fn lemma_platform_encode_decode(p: Platform)
    ensures
        platform_of(platform_code(p)) == Some(p),
{
}

/// The shift-key modifier bit.
pub const MOD_SHIFT: i32 = 0x0001;

/// The control-key modifier bit.
pub const MOD_CONTROL: i32 = 0x0002;

/// The alt-key modifier bit.
pub const MOD_ALT: i32 = 0x0004;

/// The super-key modifier bit.
pub const MOD_SUPER: i32 = 0x0008;

/// The caps-lock modifier bit.
pub const MOD_CAPS_LOCK: i32 = 0x0010;

/// The num-lock modifier bit.
pub const MOD_NUM_LOCK: i32 = 0x0020;

/// All defined modifier bits together.
pub const MOD_MASK: i32 = 0x003F;

/// The modifier keys held during a key or mouse-button event, as a bitset
/// over the `MOD_` bits.
#[derive(Debug, Copy, Clone, PartialEq, Eq, Hash, Structural)]
pub struct Modifiers {
    pub bits: i32,
}

impl Modifiers {
    /// The empty modifier set.
    pub fn empty() -> (r: Modifiers)
        ensures
            r.bits == 0,
    {
        Modifiers { bits: 0 }
    }

    /// The raw bitset.
    pub fn bits(&self) -> (r: i32)
        ensures
            r == self.bits,
    {
        self.bits
    }

    /// Build a modifier set from a native bitset, silently dropping any
    /// bits that do not correspond to a defined modifier.
    pub fn from_bits_truncate(value: i32) -> (r: Modifiers)
        ensures
            r.bits == value & MOD_MASK,
    {
        Modifiers { bits: value & MOD_MASK }
    }

    /// Whether every modifier in `other` is also set in `self`.
    pub fn contains(&self, other: Modifiers) -> (r: bool)
        ensures
            r == (self.bits & other.bits == other.bits),
    {
        self.bits & other.bits == other.bits
    }
}

} // verus!
