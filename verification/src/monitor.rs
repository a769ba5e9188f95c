//! Monitors: references to display devices enumerated by the native
//! boundary.
//!
//! A monitor is not owned or destroyed by the caller — only referenced —
//! but a live [`Monitor`] still holds one share of the library's
//! initialization guard, so the native library is not torn down under it.

use vstd::prelude::*;

use crate::lifecycle::{release_post, Lifecycle};

verus! {

/// The identity of a monitor: the native handle's address, as an integer.
/// Stable for the monitor's lifetime; no two live monitors share one.
#[derive(Debug, Copy, Clone, PartialEq, Eq, PartialOrd, Ord, Hash, Structural)]
pub struct MonitorId(pub usize);

impl MonitorId {
    /// The identity as the numeric value of a pointer to the native
    /// monitor.
    pub fn monitor_ptr(self) -> (r: usize)
        ensures
            r == self.0,
    {
        self.0
    }

    /// The identity as the numeric value of a mutable pointer to the native
    /// monitor.
    pub fn monitor_mut_ptr(self) -> (r: usize)
        ensures
            r == self.0,
    {
        self.0
    }
}

/// A reference to a live monitor, extending the shared initialization
/// guard's lifetime (counted in [`Lifecycle::owners`]).
pub struct Monitor {
    pub id: MonitorId,
}

impl Monitor {
    /// This monitor's identity.
    pub fn monitor_id(&self) -> (r: MonitorId)
        ensures
            r == self.id,
    {
        self.id
    }

    /// Let go of this monitor reference: no native call is made for the
    /// monitor itself, but its share of the initialization guard is
    /// released, tearing the library down if it was the last.
    pub fn release(self, state: &mut Lifecycle)
        requires
            old(state).wf(),
            old(state).initialized,
            old(state).teardown_count < u64::MAX,
        ensures
            release_post(*old(state), *final(state)),
            final(state).wf(),
    {
        let Monitor { id: _ } = self;
        state.release_owner();
    }
}

} // verus!
