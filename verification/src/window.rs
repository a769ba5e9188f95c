//! Windows: ownership-tracked values standing for native window handles.
//!
//! A native window handle is an opaque pointer; here its identity is the
//! pointer value as an integer.  A live [`Window`] owns its handle and one
//! share of the library's initialization guard; destroying it frees the
//! native handle exactly once and releases the share, tearing the native
//! library down only when this was the last live holder.

use vstd::prelude::*;

use crate::lifecycle::{release_post, Lifecycle};

verus! {

/// The identity of a window: the native handle's address, as an integer.
/// Stable for the window's lifetime; no two live windows share one.
#[derive(Debug, Copy, Clone, PartialEq, Eq, PartialOrd, Ord, Hash, Structural)]
pub struct WindowId(pub usize);

impl WindowId {
    /// The identity as the numeric value of a pointer to the native window.
    pub fn window_ptr(self) -> (r: usize)
        ensures
            r == self.0,
    {
        self.0
    }

    /// The identity as the numeric value of a mutable pointer to the native
    /// window.
    pub fn window_mut_ptr(self) -> (r: usize)
        ensures
            r == self.0,
    {
        self.0
    }
}

/// An owned window: holds its native handle's identity and extends the
/// shared initialization guard's lifetime (counted in
/// [`Lifecycle::owners`]).
pub struct Window {
    pub id: WindowId,
}

impl Window {
    /// This window's identity.
    pub fn window_id(&self) -> (r: WindowId)
        ensures
            r == self.id,
    {
        self.id
    }

    /// Whether this window's context is the calling thread's current one,
    /// given which window (if any) the native boundary reports as current.
    pub fn is_context_current(&self, current: Option<WindowId>) -> (r: bool)
        ensures
            r == (current == Some(self.id)),
    {
        match current {
            Some(c) => c == self.id,
            None => false,
        }
    }

    /// Setting a window icon is not supported yet; this does nothing.
    pub fn set_window_icon(&self) {
    }

    /// Destroy this window: the shell frees the native handle (exactly
    /// once — the window is consumed) and this share of the initialization
    /// guard is released, tearing the library down if it was the last.
    pub fn destroy(self, state: &mut Lifecycle)
        requires
            old(state).wf(),
            old(state).initialized,
            old(state).window_destroy_count < u64::MAX,
            old(state).teardown_count < u64::MAX,
        ensures
            final(state).window_destroy_count == old(state).window_destroy_count + 1,
            release_post(
                (Lifecycle {
                    window_destroy_count: (old(state).window_destroy_count + 1) as u64,
                    ..*old(state)
                }),
                *final(state),
            ),
            final(state).wf(),
    {
        state.window_destroy_count = state.window_destroy_count + 1;
        state.release_owner();
    }

    /// Give up this window without freeing the native handle: its share of
    /// the initialization guard is still released, so the library may be
    /// torn down while the handle leaks.
    pub fn leak(window: Window, state: &mut Lifecycle)
        requires
            old(state).wf(),
            old(state).initialized,
            old(state).teardown_count < u64::MAX,
        ensures
            release_post(*old(state), *final(state)),
            final(state).wf(),
    {
        let Window { id: _ } = window;
        state.release_owner();
    }
}

} // verus!
