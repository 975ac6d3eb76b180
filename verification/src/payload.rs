//! The payload-side state: the hosting context and the unload flag.
//!
//! Inside the target process the injected module holds two pieces of
//! process-wide state: whether an initialized managed-runtime hosting
//! context is active, and whether the hosted runtime has signalled unload.
//! The exported procedures and the runtime's mark-unloaded callback mutate
//! this state; the embedding wraps one `PayloadState` in a synchronized
//! primitive, because the callback and a controller-driven poll can run on
//! different threads.
//!
//! Bring-up failure never crosses the call boundary: `on_load` returns unit
//! whatever the bring-up outcome was, and the outcome reaches the controller
//! only through configured logging channels. That asymmetry is deliberate.

use vstd::prelude::*;

verus! {

/// The process-wide payload state.
#[derive(Clone, Copy, Debug, PartialEq, Eq, Structural)]
pub struct PayloadState {
    /// An initialized managed-runtime hosting context is active.
    pub hosting_active: bool,
    /// The hosted runtime has signalled unload since the last load cycle.
    pub unloaded: bool,
}

/// One mutation of the payload state, in the order it was applied.
#[derive(Clone, Copy, Debug, PartialEq, Eq, Structural)]
pub enum PayloadEvent {
    /// The "load" procedure ran; the payload's bring-up succeeded or not.
    Load(bool),
    /// The hosted runtime's callback signalled unload.
    MarkUnloaded,
    /// The "remove_hostfxr" procedure ran.
    RemoveHost,
}

impl PayloadState {
    /// The state before the module has done anything.
    pub open spec fn spec_initial() -> PayloadState {
        PayloadState { hosting_active: false, unloaded: false }
    }

    /// How one event transforms the state: `Load(true)` activates the
    /// hosting context, `Load(false)` leaves the state alone (failure is
    /// sink-logged, not stored), `MarkUnloaded` raises the unload flag, and
    /// `RemoveHost` clears both.
    pub open spec fn spec_step(self, ev: PayloadEvent) -> PayloadState {
        match ev {
            PayloadEvent::Load(ok) => if ok {
                PayloadState { hosting_active: true, ..self }
            } else {
                self
            },
            PayloadEvent::MarkUnloaded => PayloadState { unloaded: true, ..self },
            PayloadEvent::RemoveHost => PayloadState { hosting_active: false, unloaded: false },
        }
    }

    /// The state after a whole sequence of events, oldest first.
    pub open spec fn spec_run(evs: Seq<PayloadEvent>) -> PayloadState
        decreases evs.len(),
    {
        if evs.len() == 0 {
            PayloadState::spec_initial()
        } else {
            PayloadState::spec_run(evs.drop_last()).spec_step(evs.last())
        }
    }

    /// Fresh state: no hosting context, unload flag down.
    pub fn new() -> (r: PayloadState)
        ensures
            r == PayloadState::spec_initial(),
    {
        PayloadState { hosting_active: false, unloaded: false }
    }

    /// The "load" procedure's effect on the state. `bring_up_ok` is the
    /// outcome of the managed-runtime bring-up; on success the hosting
    /// context becomes active, on failure nothing changes. Nothing of the
    /// outcome is returned: the caller across the process boundary cannot
    /// learn of payload-internal failure from this call.
    pub fn on_load(&mut self, bring_up_ok: bool)
        ensures
            *final(self) == old(self).spec_step(PayloadEvent::Load(bring_up_ok)),
    {
        if bring_up_ok {
            self.hosting_active = true;
        }
    }

    /// The "is_unloaded" procedure: a pure read of the unload flag.
    pub fn is_unloaded(&self) -> (r: bool)
        ensures
            r == self.unloaded,
    {
        self.unloaded
    }

    /// The mark-unloaded operation, invoked only as a callback by the hosted
    /// runtime: raises the unload flag.
    pub fn mark_unloaded(&mut self)
        ensures
            *final(self) == old(self).spec_step(PayloadEvent::MarkUnloaded),
    {
        self.unloaded = true;
    }

    /// The "remove_hostfxr" procedure: releases the hosting context and
    /// resets the unload flag.
    pub fn remove_host(&mut self)
        ensures
            *final(self) == old(self).spec_step(PayloadEvent::RemoveHost),
    {
        self.hosting_active = false;
        self.unloaded = false;
    }
}

/// A mark-unloaded callback has fired and no remove-host ran after it.
pub open spec fn spec_pending_unload(evs: Seq<PayloadEvent>) -> bool
    decreases evs.len(),
{
    if evs.len() == 0 {
        false
    } else {
        match evs.last() {
            PayloadEvent::MarkUnloaded => true,
            PayloadEvent::RemoveHost => false,
            PayloadEvent::Load(_) => spec_pending_unload(evs.drop_last()),
        }
    }
}

/// The unload-flag law, operational form: after any sequence of events,
/// `is_unloaded` reads true exactly when a mark-unloaded callback has fired
/// and no remove-host ran after it. In particular the flag is false until
/// the callback first fires, then true for every read until remove-host
/// runs.
pub proof fn lemma_unload_flag(evs: Seq<PayloadEvent>)
    ensures
        PayloadState::spec_run(evs).unloaded == spec_pending_unload(evs),
    decreases evs.len(),
{
    if evs.len() == 0 {
    } else {
        lemma_unload_flag(evs.drop_last());
    }
}

/// Position `i` holds a mark-unloaded that still stands: no later position
/// holds a remove-host.
pub open spec fn spec_mark_stands(evs: Seq<PayloadEvent>, i: int) -> bool {
    &&& 0 <= i < evs.len()
    &&& evs[i] == PayloadEvent::MarkUnloaded
    &&& forall|j: int| i < j < evs.len() ==> #[trigger] evs[j] != PayloadEvent::RemoveHost
}

/// The unload-flag law, positional form: a mark-unloaded pends exactly when
/// some position holds `MarkUnloaded` and every later position is not
/// `RemoveHost`.
pub proof fn lemma_pending_unload_positions(evs: Seq<PayloadEvent>)
    ensures
        spec_pending_unload(evs) <==> exists|i: int| #[trigger] spec_mark_stands(evs, i),
    decreases evs.len(),
{
    if evs.len() == 0 {
        assert(forall|i: int| !(#[trigger] spec_mark_stands(evs, i)));
    } else {
        let prefix = evs.drop_last();
        let n = evs.len() - 1;
        lemma_pending_unload_positions(prefix);
        match evs.last() {
            PayloadEvent::MarkUnloaded => {
                assert(spec_mark_stands(evs, n));
            },
            PayloadEvent::RemoveHost => {
                assert forall|i: int| !(#[trigger] spec_mark_stands(evs, i)) by {
                    if spec_mark_stands(evs, i) {
                        assert(i < n);
                        assert(evs[n] != PayloadEvent::RemoveHost);
                    }
                }
            },
            PayloadEvent::Load(_) => {
                if spec_pending_unload(prefix) {
                    let i = choose|i: int| #[trigger] spec_mark_stands(prefix, i);
                    assert(evs[i] == prefix[i]);
                    assert forall|j: int|
                        i < j < evs.len() implies #[trigger] evs[j] != PayloadEvent::RemoveHost by {
                        if j < n {
                            assert(prefix[j] != PayloadEvent::RemoveHost);
                        }
                    }
                    assert(spec_mark_stands(evs, i));
                } else {
                    assert forall|i: int| !(#[trigger] spec_mark_stands(evs, i)) by {
                        if spec_mark_stands(evs, i) {
                            assert(i < n);
                            assert forall|j: int|
                                i < j < prefix.len() implies #[trigger] prefix[j]
                                != PayloadEvent::RemoveHost by {
                                assert(evs[j] != PayloadEvent::RemoveHost);
                            }
                            assert(spec_mark_stands(prefix, i));
                        }
                    }
                }
            },
        }
    }
}

} // verus!
