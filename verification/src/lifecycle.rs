//! The controller-side lifecycle state machine.
//!
//! The controller drives a session through load / await-unload / teardown.
//! All decisions live in `step`: a pure transition from the current session
//! state and one reported outcome to the next state and the next thing to
//! do. The embedding performs each `Action` — injection, procedure
//! resolution, remote calls, the poll delay, the liveness check — and
//! reports what happened as the next `Event`. Every remote operation is
//! synchronous and at most one is in flight per session.
//!
//! A failure at any step surfaces as a distinct error and ends the session;
//! there are no automatic retries. A dead target during await-unload is
//! fatal: teardown is not attempted, because the module handle is invalid
//! once the process is gone (`lemma_target_died_no_teardown`). When the
//! configuration does not request unload-awaiting, `Loaded` is terminal and
//! the module handle is never ejected (`lemma_no_teardown_without_unload`).

use vstd::prelude::*;
use crate::errors::Error;

verus! {

/// Where a session stands. Between the named resting states the machine
/// tracks which operation it has asked the embedding to perform.
#[derive(Clone, Copy, Debug, PartialEq, Eq, Structural)]
pub enum Phase {
    /// Nothing has happened; injection is pending.
    Idle,
    /// The module is in the target; the "load" procedure is being resolved.
    ResolvingLoad,
    /// The "load" call is in flight.
    CallingLoad,
    /// "load" returned; the completion callback is running.
    FiringCallback,
    /// The payload is loaded; terminal when unload-awaiting is off.
    Loaded,
    /// The "is_unloaded" procedure is being resolved.
    ResolvingIsUnloaded,
    /// Polling "is_unloaded" every interval.
    AwaitingUnload,
    /// The poll read false; checking that the target is still alive.
    CheckingLiveness,
    /// The unload signal arrived; resolving "remove_hostfxr".
    ResolvingRemoveHost,
    /// The "remove_hostfxr" call is in flight.
    CallingRemoveHost,
    /// Teardown call done; invalidating the module handle.
    Ejecting,
    /// Teardown complete.
    TornDown,
    /// The session failed at some step with this error.
    Failed(Error),
}

/// What the embedding must do next.
#[derive(Clone, Copy, Debug, PartialEq, Eq, Structural)]
pub enum Action {
    /// Resolve the target process and load the module into it.
    Inject,
    /// Resolve the exported "load" procedure.
    ResolveLoad,
    /// Call "load" with the encoded configuration path and the log flags.
    CallLoad,
    /// Run the controller-supplied completion callback.
    FireCallback,
    /// Resolve the exported "is_unloaded" procedure.
    ResolveIsUnloaded,
    /// Wait one poll interval, then call "is_unloaded".
    Poll,
    /// Check whether the target process is still alive.
    CheckLiveness,
    /// Resolve the exported "remove_hostfxr" procedure.
    ResolveRemoveHost,
    /// Call "remove_hostfxr".
    CallRemoveHost,
    /// Invalidate the module handle.
    Eject,
    /// The session ended successfully.
    Done,
    /// The session ended with this error.
    Fail(Error),
}

/// What the embedding reports after performing an action.
#[derive(Clone, Copy, Debug)]
pub enum Event {
    /// Injection succeeded or failed.
    Injected(bool),
    /// The "load" procedure was found, or not.
    LoadResolved(bool),
    /// The "load" call dispatched cleanly, or not.
    LoadReturned(bool),
    /// The completion callback has run.
    CallbackDone,
    /// The "is_unloaded" procedure was found, or not.
    IsUnloadedResolved(bool),
    /// One poll of "is_unloaded": the value read, or `None` when the call's
    /// dispatch failed, which the controller reads as "not yet unloaded".
    Polled(Option<bool>),
    /// The target process is alive, or not.
    Liveness(bool),
    /// The "remove_hostfxr" procedure was found, or not.
    RemoveHostResolved(bool),
    /// The "remove_hostfxr" call dispatched cleanly, or not.
    RemoveHostReturned(bool),
    /// The module handle was invalidated cleanly, or not.
    Ejected(bool),
}

/// One controller session.
#[derive(Clone, Copy, Debug, PartialEq, Eq, Structural)]
pub struct Session {
    pub phase: Phase,
    /// The configuration requested awaiting the unload signal.
    pub await_unload: bool,
    /// A completion callback is registered.
    pub has_callback: bool,
    /// How many polls of "is_unloaded" have completed.
    pub polls: u64,
}

impl Session {
    /// The state of a session that has not started.
    pub open spec fn spec_initial(await_unload: bool, has_callback: bool) -> Session {
        Session { phase: Phase::Idle, await_unload, has_callback, polls: 0 }
    }

    /// Begin a session: injection is the first pending action.
    pub fn new(await_unload: bool, has_callback: bool) -> (r: Session)
        ensures
            r == Session::spec_initial(await_unload, has_callback),
    {
        Session { phase: Phase::Idle, await_unload, has_callback, polls: 0 }
    }

    /// The action a session is waiting on.
    pub open spec fn spec_pending(self) -> Action {
        match self.phase {
            Phase::Idle => Action::Inject,
            Phase::ResolvingLoad => Action::ResolveLoad,
            Phase::CallingLoad => Action::CallLoad,
            Phase::FiringCallback => Action::FireCallback,
            Phase::Loaded => Action::Done,
            Phase::ResolvingIsUnloaded => Action::ResolveIsUnloaded,
            Phase::AwaitingUnload => Action::Poll,
            Phase::CheckingLiveness => Action::CheckLiveness,
            Phase::ResolvingRemoveHost => Action::ResolveRemoveHost,
            Phase::CallingRemoveHost => Action::CallRemoveHost,
            Phase::Ejecting => Action::Eject,
            Phase::TornDown => Action::Done,
            Phase::Failed(e) => Action::Fail(e),
        }
    }

    /// The session after a failing step.
    pub open spec fn spec_fail(self, e: Error) -> (Session, Action) {
        (Session { phase: Phase::Failed(e), ..self }, Action::Fail(e))
    }

    /// Where a successful "load" leads: straight to awaiting the unload
    /// signal when the configuration asks for it, else to the terminal
    /// `Loaded` state.
    pub open spec fn spec_after_load(self) -> (Session, Action) {
        if self.await_unload {
            (
                Session { phase: Phase::ResolvingIsUnloaded, ..self },
                Action::ResolveIsUnloaded,
            )
        } else {
            (Session { phase: Phase::Loaded, ..self }, Action::Done)
        }
    }

    /// The transition relation: the next session state and next action for
    /// each state and reported outcome. An event that the current state is
    /// not waiting on changes nothing and re-issues the pending action.
    pub open spec fn spec_step(self, ev: Event) -> (Session, Action) {
        match self.phase {
            Phase::Idle => match ev {
                Event::Injected(ok) => if ok {
                    (Session { phase: Phase::ResolvingLoad, ..self }, Action::ResolveLoad)
                } else {
                    self.spec_fail(Error::InjectionError)
                },
                _ => (self, self.spec_pending()),
            },
            Phase::ResolvingLoad => match ev {
                Event::LoadResolved(found) => if found {
                    (Session { phase: Phase::CallingLoad, ..self }, Action::CallLoad)
                } else {
                    self.spec_fail(Error::ProcedureNotFound)
                },
                _ => (self, self.spec_pending()),
            },
            Phase::CallingLoad => match ev {
                Event::LoadReturned(ok) => if !ok {
                    self.spec_fail(Error::CallError)
                } else if self.has_callback {
                    (Session { phase: Phase::FiringCallback, ..self }, Action::FireCallback)
                } else {
                    self.spec_after_load()
                },
                _ => (self, self.spec_pending()),
            },
            Phase::FiringCallback => match ev {
                Event::CallbackDone => self.spec_after_load(),
                _ => (self, self.spec_pending()),
            },
            Phase::ResolvingIsUnloaded => match ev {
                Event::IsUnloadedResolved(found) => if found {
                    (Session { phase: Phase::AwaitingUnload, ..self }, Action::Poll)
                } else {
                    self.spec_fail(Error::ProcedureNotFound)
                },
                _ => (self, self.spec_pending()),
            },
            Phase::AwaitingUnload => match ev {
                Event::Polled(read) => {
                    let bumped = Session {
                        polls: if self.polls == u64::MAX {
                            self.polls
                        } else {
                            (self.polls + 1) as u64
                        },
                        ..self
                    };
                    if read == Some(true) {
                        (
                            Session { phase: Phase::ResolvingRemoveHost, ..bumped },
                            Action::ResolveRemoveHost,
                        )
                    } else {
                        (
                            Session { phase: Phase::CheckingLiveness, ..bumped },
                            Action::CheckLiveness,
                        )
                    }
                },
                _ => (self, self.spec_pending()),
            },
            Phase::CheckingLiveness => match ev {
                Event::Liveness(alive) => if alive {
                    (Session { phase: Phase::AwaitingUnload, ..self }, Action::Poll)
                } else {
                    self.spec_fail(Error::TargetDied)
                },
                _ => (self, self.spec_pending()),
            },
            Phase::ResolvingRemoveHost => match ev {
                Event::RemoveHostResolved(found) => if found {
                    (Session { phase: Phase::CallingRemoveHost, ..self }, Action::CallRemoveHost)
                } else {
                    self.spec_fail(Error::ProcedureNotFound)
                },
                _ => (self, self.spec_pending()),
            },
            Phase::CallingRemoveHost => match ev {
                Event::RemoveHostReturned(ok) => if ok {
                    (Session { phase: Phase::Ejecting, ..self }, Action::Eject)
                } else {
                    self.spec_fail(Error::CallError)
                },
                _ => (self, self.spec_pending()),
            },
            Phase::Ejecting => match ev {
                Event::Ejected(ok) => if ok {
                    (Session { phase: Phase::TornDown, ..self }, Action::Done)
                } else {
                    self.spec_fail(Error::EjectError)
                },
                _ => (self, self.spec_pending()),
            },
            Phase::Loaded => (self, self.spec_pending()),
            Phase::TornDown => (self, self.spec_pending()),
            Phase::Failed(_) => (self, self.spec_pending()),
        }
    }
}

/// Advance one step: the next session state and the next action.
pub fn step(s: &Session, ev: &Event) -> (r: (Session, Action))
    ensures
        r == s.spec_step(*ev),
{
    match s.phase {
        Phase::Idle => match ev {
            Event::Injected(ok) => if *ok {
                (Session { phase: Phase::ResolvingLoad, ..*s }, Action::ResolveLoad)
            } else {
                fail(s, Error::InjectionError)
            },
            _ => (*s, pending(s)),
        },
        Phase::ResolvingLoad => match ev {
            Event::LoadResolved(found) => if *found {
                (Session { phase: Phase::CallingLoad, ..*s }, Action::CallLoad)
            } else {
                fail(s, Error::ProcedureNotFound)
            },
            _ => (*s, pending(s)),
        },
        Phase::CallingLoad => match ev {
            Event::LoadReturned(ok) => if !*ok {
                fail(s, Error::CallError)
            } else if s.has_callback {
                (Session { phase: Phase::FiringCallback, ..*s }, Action::FireCallback)
            } else {
                after_load(s)
            },
            _ => (*s, pending(s)),
        },
        Phase::FiringCallback => match ev {
            Event::CallbackDone => after_load(s),
            _ => (*s, pending(s)),
        },
        Phase::ResolvingIsUnloaded => match ev {
            Event::IsUnloadedResolved(found) => if *found {
                (Session { phase: Phase::AwaitingUnload, ..*s }, Action::Poll)
            } else {
                fail(s, Error::ProcedureNotFound)
            },
            _ => (*s, pending(s)),
        },
        Phase::AwaitingUnload => match ev {
            Event::Polled(read) => {
                let bumped = Session {
                    polls: if s.polls == u64::MAX {
                        s.polls
                    } else {
                        s.polls + 1
                    },
                    ..*s
                };
                if matches!(read, Some(true)) {
                    (
                        Session { phase: Phase::ResolvingRemoveHost, ..bumped },
                        Action::ResolveRemoveHost,
                    )
                } else {
                    (Session { phase: Phase::CheckingLiveness, ..bumped }, Action::CheckLiveness)
                }
            },
            _ => (*s, pending(s)),
        },
        Phase::CheckingLiveness => match ev {
            Event::Liveness(alive) => if *alive {
                (Session { phase: Phase::AwaitingUnload, ..*s }, Action::Poll)
            } else {
                fail(s, Error::TargetDied)
            },
            _ => (*s, pending(s)),
        },
        Phase::ResolvingRemoveHost => match ev {
            Event::RemoveHostResolved(found) => if *found {
                (Session { phase: Phase::CallingRemoveHost, ..*s }, Action::CallRemoveHost)
            } else {
                fail(s, Error::ProcedureNotFound)
            },
            _ => (*s, pending(s)),
        },
        Phase::CallingRemoveHost => match ev {
            Event::RemoveHostReturned(ok) => if *ok {
                (Session { phase: Phase::Ejecting, ..*s }, Action::Eject)
            } else {
                fail(s, Error::CallError)
            },
            _ => (*s, pending(s)),
        },
        Phase::Ejecting => match ev {
            Event::Ejected(ok) => if *ok {
                (Session { phase: Phase::TornDown, ..*s }, Action::Done)
            } else {
                fail(s, Error::EjectError)
            },
            _ => (*s, pending(s)),
        },
        Phase::Loaded => (*s, pending(s)),
        Phase::TornDown => (*s, pending(s)),
        Phase::Failed(_) => (*s, pending(s)),
    }
}

/// The action a session is waiting on.
pub fn pending(s: &Session) -> (r: Action)
    ensures
        r == s.spec_pending(),
{
    match s.phase {
        Phase::Idle => Action::Inject,
        Phase::ResolvingLoad => Action::ResolveLoad,
        Phase::CallingLoad => Action::CallLoad,
        Phase::FiringCallback => Action::FireCallback,
        Phase::Loaded => Action::Done,
        Phase::ResolvingIsUnloaded => Action::ResolveIsUnloaded,
        Phase::AwaitingUnload => Action::Poll,
        Phase::CheckingLiveness => Action::CheckLiveness,
        Phase::ResolvingRemoveHost => Action::ResolveRemoveHost,
        Phase::CallingRemoveHost => Action::CallRemoveHost,
        Phase::Ejecting => Action::Eject,
        Phase::TornDown => Action::Done,
        Phase::Failed(e) => Action::Fail(e),
    }
}

/// End the session with a step's distinct error.
fn fail(s: &Session, e: Error) -> (r: (Session, Action))
    ensures
        r == s.spec_fail(e),
{
    (Session { phase: Phase::Failed(e), ..*s }, Action::Fail(e))
}

/// Advance past a successful "load".
fn after_load(s: &Session) -> (r: (Session, Action))
    ensures
        r == s.spec_after_load(),
{
    if s.await_unload {
        (Session { phase: Phase::ResolvingIsUnloaded, ..*s }, Action::ResolveIsUnloaded)
    } else {
        (Session { phase: Phase::Loaded, ..*s }, Action::Done)
    }
}

/// The session state after a whole run of reported outcomes, oldest first.
pub open spec fn spec_run(s0: Session, evs: Seq<Event>) -> Session
    decreases evs.len(),
{
    if evs.len() == 0 {
        s0
    } else {
        spec_run(s0, evs.drop_last()).spec_step(evs.last()).0
    }
}

/// Whether a run ever issued the given action.
pub open spec fn spec_attempted(s0: Session, evs: Seq<Event>, a: Action) -> bool
    decreases evs.len(),
{
    if evs.len() == 0 {
        false
    } else {
        spec_attempted(s0, evs.drop_last(), a) || spec_run(s0, evs.drop_last()).spec_step(
            evs.last(),
        ).1 == a
    }
}

/// The phases a session passes once the unload signal has been observed.
pub open spec fn spec_in_teardown(s: Session) -> bool {
    match s.phase {
        Phase::CallingRemoveHost => true,
        Phase::Ejecting => true,
        Phase::TornDown => true,
        Phase::Failed(e) => e == Error::CallError || e == Error::EjectError,
        _ => false,
    }
}

/// Teardown is attempted only from the teardown phases, and the teardown
/// phases are never left for anything else.
proof fn lemma_teardown_inductive(s0: Session, evs: Seq<Event>)
    requires
        s0.phase == Phase::Idle,
    ensures
        (spec_attempted(s0, evs, Action::CallRemoveHost) || spec_attempted(
            s0,
            evs,
            Action::Eject,
        )) ==> spec_in_teardown(spec_run(s0, evs)),
    decreases evs.len(),
{
    if evs.len() == 0 {
    } else {
        lemma_teardown_inductive(s0, evs.drop_last());
    }
}

/// A session that failed because the target died never attempted teardown:
/// neither "remove_hostfxr" nor an eject was ever issued.
pub proof fn lemma_target_died_no_teardown(s0: Session, evs: Seq<Event>)
    requires
        s0.phase == Phase::Idle,
        spec_run(s0, evs).phase == Phase::Failed(Error::TargetDied),
    ensures
        !spec_attempted(s0, evs, Action::CallRemoveHost),
        !spec_attempted(s0, evs, Action::Eject),
{
    lemma_teardown_inductive(s0, evs);
}

/// The phases only an unload-awaiting session can reach.
pub open spec fn spec_in_unload_side(s: Session) -> bool {
    match s.phase {
        Phase::ResolvingIsUnloaded => true,
        Phase::AwaitingUnload => true,
        Phase::CheckingLiveness => true,
        Phase::ResolvingRemoveHost => true,
        Phase::CallingRemoveHost => true,
        Phase::Ejecting => true,
        Phase::TornDown => true,
        Phase::Failed(e) => e == Error::TargetDied || e == Error::EjectError,
        _ => false,
    }
}

/// A session with unload-awaiting off never enters the unload side.
proof fn lemma_unload_side_inductive(s0: Session, evs: Seq<Event>)
    requires
        s0.phase == Phase::Idle,
        !s0.await_unload,
    ensures
        !spec_in_unload_side(spec_run(s0, evs)),
        spec_run(s0, evs).await_unload == s0.await_unload,
        !spec_attempted(s0, evs, Action::CallRemoveHost),
        !spec_attempted(s0, evs, Action::Eject),
        !spec_attempted(s0, evs, Action::Poll),
    decreases evs.len(),
{
    if evs.len() == 0 {
    } else {
        lemma_unload_side_inductive(s0, evs.drop_last());
    }
}

/// When the configuration does not request unload-awaiting, `Loaded` is
/// terminal: the session never polls, never calls "remove_hostfxr", and the
/// module handle is never ejected, whatever the embedding reports.
pub proof fn lemma_no_teardown_without_unload(s0: Session, evs: Seq<Event>)
    requires
        s0.phase == Phase::Idle,
        !s0.await_unload,
    ensures
        !spec_attempted(s0, evs, Action::CallRemoveHost),
        !spec_attempted(s0, evs, Action::Eject),
        !spec_attempted(s0, evs, Action::Poll),
{
    lemma_unload_side_inductive(s0, evs);
}

} // verus!
