//! Safe, verified model of a native windowing/input library binding.
//!
//! The native boundary (window creation, monitor enumeration, event
//! delivery) is driven by an unverified shell; everything the shell has to
//! decide — which hints to apply and in what order, how native error codes
//! become structured errors, how raw key/button/action codes become
//! enumerated values, when the shared initialization guard is released and
//! native teardown fires, and how the per-thread handler slot is installed
//! and cleared — lives here, with contracts.

use vstd::prelude::*;

pub mod callbacks;
pub mod codec;
pub mod events;
pub mod lifecycle;
pub mod monitor;
pub mod window;

pub use callbacks::{call_handler, set_handler, unset_handler, Dispatch, HandlerSlot, SlotOp,
    UnsetHandlerGuard};
pub use codec::{Action, Key, Modifiers, MouseButton, Platform};
pub use events::{drop_event, key_event, monitor_event, mouse_button_event, ButtonEventError,
    Codepoint, Event, KeyEventError, MonitorEvent, Scancode, TimedEvent, WindowEvent};
pub use lifecycle::{plan_init_hints, AnglePlatformType, ClientApi, ContextCreationApi,
    ContextReleaseBehavior, ContextRobustness, CreateOutcome, CreateWindowError, Glfw, InitError,
    InitHint, InitOutcome, Lifecycle, LockState, TryInitError, WaylandLibDecor, WindowHint};
pub use monitor::{Monitor, MonitorId};
pub use window::{Window, WindowId};

/// Alias to `MouseButton1`, supplied for improved clarity.
pub use codec::MouseButton::Button1 as MouseButtonLeft;
/// Alias to `MouseButton2`, supplied for improved clarity.
pub use codec::MouseButton::Button2 as MouseButtonRight;
/// Alias to `MouseButton3`, supplied for improved clarity.
pub use codec::MouseButton::Button3 as MouseButtonMiddle;

verus! {

/// A structured error: the native library's numeric error code paired with
/// its human-readable description.
#[derive(Debug, Clone, PartialEq, Eq)]
pub struct Error {
    pub code: i32,
    pub desc: String,
}

/// The native code that means "no error is pending".
pub const NO_ERROR: i32 = 0;

/// The error value used when the native library reports failure but its
/// error query has nothing pending.
pub fn unknown_error() -> (r: Error)
    ensures
        r.code == -1,
        r.desc@ == "Unknown error"@,
{
    Error { code: -1, desc: String::from_str("Unknown error") }
}

} // verus!
