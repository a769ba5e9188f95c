//! The callback dispatch registry: a per-thread, single-entry slot holding
//! the currently installed event handler.
//!
//! The native boundary accepts only bare function pointers for callbacks, so
//! the shell stores the caller's closure (type-erased) in thread-local
//! storage for the duration of one polling call.  This module is the
//! verified model of that slot: what the shell records here is whether a
//! handler is installed, and every trampoline asks [`call_handler`] whether
//! to invoke the handler or pass the event through.  Installation is scoped:
//! [`set_handler`] demands an empty slot and hands back a guard, and
//! [`unset_handler`] consumes the guard and leaves the slot empty on every
//! exit path.

use vstd::prelude::*;

use crate::events::TimedEvent;
use crate::window::WindowId;

verus! {

/// The per-thread active-handler slot.  `active` says whether a handler is
/// currently installed for the calling thread.
pub struct HandlerSlot {
    pub active: bool,
}

impl HandlerSlot {
    /// A fresh slot with no handler installed.
    pub fn new() -> (r: HandlerSlot)
        ensures
            !r.active,
    {
        HandlerSlot { active: false }
    }
}

/// Witness that a handler was installed; releasing it through
/// [`unset_handler`] is the only way to clear the slot, and consuming it by
/// value makes a double release impossible.
pub struct UnsetHandlerGuard {
    _private: (),
}

/// Install a handler into the slot for the calling thread.
///
/// The slot must be empty: at most one handler is ever active on a thread,
/// and reentrant installation (from inside a running handler) is refused by
/// this precondition rather than at run time.
pub fn set_handler(slot: &mut HandlerSlot) -> (guard: UnsetHandlerGuard)
    requires
        !old(slot).active,
    ensures
        final(slot).active,
{
    slot.active = true;
    UnsetHandlerGuard { _private: () }
}

/// Clear the slot, consuming the installation guard.
///
/// The shell runs this on every exit path of a polling call — normal
/// return, early error return, or unwind — so the slot is empty immediately
/// after any scope exits.
pub fn unset_handler(slot: &mut HandlerSlot, guard: UnsetHandlerGuard)
    ensures
        !final(slot).active,
{
    let UnsetHandlerGuard { _private } = guard;
    slot.active = false;
}

/// What a trampoline should do with a decoded event.
#[derive(Debug, Clone, PartialEq)]
pub enum Dispatch {
    /// A handler is installed: invoke it with this window identity and
    /// event.
    Invoke(WindowId, TimedEvent),
    /// No handler is installed: the event passes through unchanged.
    PassThrough(TimedEvent),
}

/// Decide how an event fired by the native boundary is dispatched: to the
/// installed handler if one is active, otherwise passed through unchanged.
pub fn call_handler(slot: &HandlerSlot, window_id: WindowId, event: TimedEvent) -> (r: Dispatch)
    ensures
        slot.active ==> r == Dispatch::Invoke(window_id, event),
        !slot.active ==> r == Dispatch::PassThrough(event),
{
    if slot.active {
        Dispatch::Invoke(window_id, event)
    } else {
        Dispatch::PassThrough(event)
    }
}

/// One step in the life of the slot, as the shell drives it: an
/// installation, or the exit of the scope that performed it.
pub enum SlotOp {
    Install,
    ScopeExit,
}

/// How many handlers the slot holds after the given steps: an installation
/// adds one, a scope exit clears the slot.
pub open spec fn slot_count_after(ops: Seq<SlotOp>) -> nat
    decreases ops.len(),
{
    if ops.len() == 0 {
        0
    } else {
        match ops.last() {
            SlotOp::Install => slot_count_after(ops.drop_last()) + 1,
            SlotOp::ScopeExit => 0,
        }
    }
}

/// A well-scoped history: every installation found the slot empty, which is
/// exactly what [`set_handler`]'s precondition demands of the shell.
pub open spec fn slot_ops_scoped(ops: Seq<SlotOp>) -> bool {
    forall|i: int|
        0 <= i < ops.len() && ops[i] is Install ==> slot_count_after(#[trigger] ops.take(i)) == 0
}

/// For all sequences of install / scope-exit steps on one thread, at most
/// one handler is ever active, and the slot is empty immediately after any
/// scope exit — including one taken on an early error return.
pub proof fn lemma_slot_single_handler(ops: Seq<SlotOp>)
    requires
        slot_ops_scoped(ops),
    ensures
        slot_count_after(ops) <= 1,
        ops.len() > 0 && ops.last() is ScopeExit ==> slot_count_after(ops) == 0,
    decreases ops.len(),
{
    if ops.len() > 0 {
        assert(ops.drop_last() == ops.take(ops.len() - 1));
        assert forall|i: int|
            0 <= i < ops.drop_last().len() && ops.drop_last()[i] is Install implies slot_count_after(
            #[trigger] ops.drop_last().take(i),
        ) == 0 by {
            assert(ops.drop_last().take(i) == ops.take(i));
        }
        lemma_slot_single_handler(ops.drop_last());
        if ops.last() is Install {
            assert(slot_count_after(ops.take(ops.len() - 1)) == 0);
        }
    }
}

} // verus!
