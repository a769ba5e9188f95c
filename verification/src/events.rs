//! Event records and the decoding done inside native-callback trampolines.
//!
//! A trampoline receives raw native integers; before an event reaches the
//! caller's handler those are decoded into the structured enumerations of
//! [`crate::codec`].  An unrecognized key, button or action code never
//! produces a crafted event: the decode fails, the shell logs a warning and
//! the event is suppressed.  In a file-drop, each path that is not valid
//! text is individually skipped while the valid ones are still delivered.
//!
//! Timestamps, cursor coordinates, scroll offsets and content scales are
//! native floating-point values that this layer never interprets; they are
//! carried opaquely as their IEEE-754 bit patterns.

use vstd::prelude::*;

use crate::codec::{action_of, button_of, key_of, Action, Key, Modifiers, MouseButton, MOD_MASK};
use crate::monitor::MonitorId;

verus! {

/// A platform-specific key scancode, passed through undecoded.
pub type Scancode = i32;

/// A text-input code point (native-endian UTF-32).
pub type Codepoint = u32;

/// Something that happened to a window.  Two-component native float values
/// (cursor position, scroll offset) are carried as pairs of IEEE-754 `f64`
/// bit patterns; content scales as pairs of `f32` bit patterns.
#[derive(Clone, PartialEq, Debug)]
pub enum WindowEvent {
    Pos(i32, i32),
    Size(i32, i32),
    Close,
    Refresh,
    Focus(bool),
    Iconify(bool),
    FramebufferSize(i32, i32),
    MouseButton(MouseButton, Action, Modifiers),
    /// Cursor position, as `f64` bit patterns.
    CursorPos(u64, u64),
    CursorEnter(bool),
    /// Scroll offset, as `f64` bit patterns.
    Scroll(u64, u64),
    Key(Key, Scancode, Action, Modifiers),
    Char(Codepoint),
    CharModifiers(Codepoint, Modifiers),
    /// The dropped paths that were valid text, in their original order.
    FileDrop(Vec<String>),
    Maximize(bool),
    /// Content scale, as `f32` bit patterns.
    ContentScale(u32, u32),
}

/// Something that happened to the monitor configuration.
#[derive(Clone, PartialEq, Eq, Debug)]
pub enum MonitorEvent {
    Connected(MonitorId),
    Disconnected(MonitorId),
}

/// Any event the native boundary can deliver.
#[derive(Clone, PartialEq, Debug)]
pub enum Event {
    Monitor,
    Window(WindowEvent),
}

/// A window event paired with the native timestamp at which its callback
/// fired, as an `f64` bit pattern.
#[derive(Clone, PartialEq, Debug)]
pub struct TimedEvent {
    pub time: u64,
    pub event: WindowEvent,
}

/// Why a key callback's arguments could not be decoded.  The shell logs
/// the failure and suppresses the event.
#[derive(Debug, Clone, PartialEq, Eq)]
pub enum KeyEventError {
    /// The key code is not recognized.
    UnknownKey(i32),
    /// The key decoded, but the action code is not recognized.
    UnknownActionForKey(Key, i32),
    /// Neither the key code nor the action code is recognized.
    UnknownKeyAndAction(i32, i32),
}

/// Decode a key callback's raw arguments into a timed event.
///
/// The event is produced exactly when both the key and the action codes are
/// recognized; the modifier bitset is truncated to the defined bits.
pub fn key_event(time: u64, key: i32, scancode: Scancode, action: i32, mods: i32) -> (r: Result<
    TimedEvent,
    KeyEventError,
>)
    ensures
        (r == match (key_of(key), action_of(action)) {
            (Some(k), Some(a)) => Ok::<TimedEvent, KeyEventError>(
                TimedEvent {
                    time,
                    event: WindowEvent::Key(k, scancode, a, Modifiers { bits: mods & MOD_MASK }),
                },
            ),
            (None, Some(_)) => Err::<TimedEvent, KeyEventError>(KeyEventError::UnknownKey(key)),
            (Some(k), None) => Err::<TimedEvent, KeyEventError>(
                KeyEventError::UnknownActionForKey(k, action),
            ),
            (None, None) => Err::<TimedEvent, KeyEventError>(
                KeyEventError::UnknownKeyAndAction(key, action),
            ),
        }),
{
    let decoded_key = Key::try_from(key);
    let decoded_action = Action::try_from(action);
    let mods = Modifiers::from_bits_truncate(mods);
    match (decoded_key, decoded_action) {
        (Ok(k), Ok(a)) => Ok(TimedEvent { time, event: WindowEvent::Key(k, scancode, a, mods) }),
        (Err(k), Ok(_)) => Err(KeyEventError::UnknownKey(k)),
        (Ok(k), Err(a)) => Err(KeyEventError::UnknownActionForKey(k, a)),
        (Err(k), Err(a)) => Err(KeyEventError::UnknownKeyAndAction(k, a)),
    }
}

/// Why a mouse-button callback's arguments could not be decoded.  The
/// shell logs the failure and suppresses the event.
#[derive(Debug, Clone, PartialEq, Eq)]
pub enum ButtonEventError {
    /// The button code is not recognized.
    UnknownButton(i32),
    /// The button decoded, but the action code is not recognized.
    UnknownActionForButton(MouseButton, i32),
    /// Neither the button code nor the action code is recognized.
    UnknownButtonAndAction(i32, i32),
}

/// Decode a mouse-button callback's raw arguments into a timed event.
///
/// The event is produced exactly when both the button and the action codes
/// are recognized; the modifier bitset is truncated to the defined bits.
pub fn mouse_button_event(time: u64, button: i32, action: i32, mods: i32) -> (r: Result<
    TimedEvent,
    ButtonEventError,
>)
    ensures
        (r == match (button_of(button), action_of(action)) {
            (Some(b), Some(a)) => Ok::<TimedEvent, ButtonEventError>(
                TimedEvent {
                    time,
                    event: WindowEvent::MouseButton(b, a, Modifiers { bits: mods & MOD_MASK }),
                },
            ),
            (None, Some(_)) => Err::<TimedEvent, ButtonEventError>(
                ButtonEventError::UnknownButton(button),
            ),
            (Some(b), None) => Err::<TimedEvent, ButtonEventError>(
                ButtonEventError::UnknownActionForButton(b, action),
            ),
            (None, None) => Err::<TimedEvent, ButtonEventError>(
                ButtonEventError::UnknownButtonAndAction(button, action),
            ),
        }),
{
    let decoded_button = MouseButton::try_from(button);
    let decoded_action = Action::try_from(action);
    let mods = Modifiers::from_bits_truncate(mods);
    match (decoded_button, decoded_action) {
        (Ok(b), Ok(a)) => Ok(TimedEvent { time, event: WindowEvent::MouseButton(b, a, mods) }),
        (Err(b), Ok(_)) => Err(ButtonEventError::UnknownButton(b)),
        (Ok(b), Err(a)) => Err(ButtonEventError::UnknownActionForButton(b, a)),
        (Err(b), Err(a)) => Err(ButtonEventError::UnknownButtonAndAction(b, a)),
    }
}

/// Decode a monitor-configuration callback's raw arguments: the native
/// code for "connected" or "disconnected", or nothing for an unrecognized
/// code (which the shell logs and suppresses).
pub fn monitor_event(id: MonitorId, native: i32) -> (r: Option<MonitorEvent>)
    ensures
        native == 0x00040001 ==> r == Some(MonitorEvent::Connected(id)),
        native == 0x00040002 ==> r == Some(MonitorEvent::Disconnected(id)),
        native != 0x00040001 && native != 0x00040002 ==> r is None,
{
    if native == 0x00040001 {
        Some(MonitorEvent::Connected(id))
    } else if native == 0x00040002 {
        Some(MonitorEvent::Disconnected(id))
    } else {
        None
    }
}

/// The paths of a file drop that decoded as valid text, in their original
/// order; a `None` stands for a path that did not.
pub open spec fn kept_paths(s: Seq<Option<String>>) -> Seq<String>
    decreases s.len(),
{
    if s.len() == 0 {
        Seq::empty()
    } else {
        let rest = kept_paths(s.drop_last());
        match s.last() {
            Some(p) => rest.push(p),
            None => rest,
        }
    }
}

/// Build a file-drop event from the dropped paths as the shell decoded
/// them: `Some` for a path that was valid text, `None` for one that was
/// not.
///
/// Every valid path is delivered, in order, even when invalid ones sit
/// between them; the second result is how many paths were skipped, for the
/// shell to log.
pub fn drop_event(time: u64, paths: Vec<Option<String>>) -> (r: (TimedEvent, usize))
    ensures
        r.0.time == time,
        r.0.event matches WindowEvent::FileDrop(kept) && kept@ == kept_paths(paths@),
        r.1 + kept_paths(paths@).len() == paths@.len(),
{
    let mut kept: Vec<String> = Vec::new();
    let mut skipped: usize = 0;
    let n: usize = paths.len();
    let mut paths = paths;
    let ghost all = paths@;
    let mut i: usize = 0;
    while i < n
        invariant
            n == all.len(),
            paths@ == all.skip(i as int),
            kept@ == kept_paths(all.take(i as int)),
            skipped + kept@.len() == i,
            i <= n,
        decreases n - i,
    {
        let p = paths.remove(0);
        proof {
            assert(all.take(i + 1).drop_last() == all.take(i as int));
            assert(all.take(i + 1).last() == all[i as int]);
            assert(all.skip(i as int).remove(0) == all.skip(i + 1));
        }
        match p {
            Some(path) => kept.push(path),
            None => skipped = skipped + 1,
        }
        i = i + 1;
    }
    proof {
        assert(all.take(n as int) == all);
    }
    (TimedEvent { time, event: WindowEvent::FileDrop(kept) }, skipped)
}

} // verus!
