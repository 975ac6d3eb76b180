use goalnet::errors::Error;
use goalnet::lifecycle::{step, Action, Event, Phase, Session};

fn drive(s: Session, evs: &[Event]) -> (Session, Vec<Action>) {
    let mut cur = s;
    let mut actions = Vec::new();
    for ev in evs {
        let (next, action) = step(&cur, ev);
        cur = next;
        actions.push(action);
    }
    (cur, actions)
}

#[test]
fn scenario_no_unload_ends_loaded_and_never_ejects() {
    let s0 = Session::new(false, true);
    let (end, actions) = drive(
        s0,
        &[
            Event::Injected(true),
            Event::LoadResolved(true),
            Event::LoadReturned(true),
            Event::CallbackDone,
        ],
    );
    assert_eq!(end.phase, Phase::Loaded);
    assert_eq!(
        actions,
        vec![Action::ResolveLoad, Action::CallLoad, Action::FireCallback, Action::Done]
    );
    assert!(!actions.contains(&Action::Eject));
    assert!(!actions.contains(&Action::CallRemoveHost));
}

#[test]
fn scenario_unload_normal_path() {
    let s0 = Session::new(true, false);
    let (end, actions) = drive(
        s0,
        &[
            Event::Injected(true),
            Event::LoadResolved(true),
            Event::LoadReturned(true),
            Event::IsUnloadedResolved(true),
            Event::Polled(Some(false)),
            Event::Liveness(true),
            Event::Polled(Some(false)),
            Event::Liveness(true),
            Event::Polled(Some(false)),
            Event::Liveness(true),
            Event::Polled(Some(true)),
            Event::RemoveHostResolved(true),
            Event::RemoveHostReturned(true),
            Event::Ejected(true),
        ],
    );
    assert_eq!(end.phase, Phase::TornDown);
    assert_eq!(end.polls, 4);
    assert_eq!(*actions.last().unwrap(), Action::Done);
    assert_eq!(actions[10], Action::ResolveRemoveHost);
    assert_eq!(actions[11], Action::CallRemoveHost);
    assert_eq!(actions[12], Action::Eject);
}

#[test]
fn scenario_target_dies_mid_wait() {
    let s0 = Session::new(true, false);
    let (end, actions) = drive(
        s0,
        &[
            Event::Injected(true),
            Event::LoadResolved(true),
            Event::LoadReturned(true),
            Event::IsUnloadedResolved(true),
            Event::Polled(Some(false)),
            Event::Liveness(true),
            Event::Polled(None),
            Event::Liveness(false),
        ],
    );
    assert_eq!(end.phase, Phase::Failed(Error::TargetDied));
    assert_eq!(*actions.last().unwrap(), Action::Fail(Error::TargetDied));
    assert!(!actions.contains(&Action::CallRemoveHost));
    assert!(!actions.contains(&Action::Eject));
}

#[test]
fn failed_poll_reads_as_not_unloaded() {
    let s0 = Session {
        phase: Phase::AwaitingUnload,
        await_unload: true,
        has_callback: false,
        polls: 0,
    };
    let (next, action) = step(&s0, &Event::Polled(None));
    assert_eq!(next.phase, Phase::CheckingLiveness);
    assert_eq!(next.polls, 1);
    assert_eq!(action, Action::CheckLiveness);
}

#[test]
fn injection_failure_aborts_with_injection_error() {
    let s0 = Session::new(false, false);
    let (end, action) = step(&s0, &Event::Injected(false));
    assert_eq!(end.phase, Phase::Failed(Error::InjectionError));
    assert_eq!(action, Action::Fail(Error::InjectionError));
}

#[test]
fn missing_load_procedure_fails_distinctly() {
    let s0 = Session::new(false, false);
    let (s1, _) = step(&s0, &Event::Injected(true));
    let (end, action) = step(&s1, &Event::LoadResolved(false));
    assert_eq!(end.phase, Phase::Failed(Error::ProcedureNotFound));
    assert_eq!(action, Action::Fail(Error::ProcedureNotFound));
}

#[test]
fn eject_failure_fails_with_eject_error() {
    let s0 = Session {
        phase: Phase::Ejecting,
        await_unload: true,
        has_callback: false,
        polls: 4,
    };
    let (end, action) = step(&s0, &Event::Ejected(false));
    assert_eq!(end.phase, Phase::Failed(Error::EjectError));
    assert_eq!(action, Action::Fail(Error::EjectError));
}

#[test]
fn unexpected_event_changes_nothing() {
    let s0 = Session::new(true, false);
    let (same, action) = step(&s0, &Event::Liveness(true));
    assert_eq!(same, s0);
    assert_eq!(action, Action::Inject);
}

#[test]
fn load_call_failure_is_call_error() {
    let s0 = Session::new(false, false);
    let (s1, _) = step(&s0, &Event::Injected(true));
    let (s2, _) = step(&s1, &Event::LoadResolved(true));
    let (end, action) = step(&s2, &Event::LoadReturned(false));
    assert_eq!(end.phase, Phase::Failed(Error::CallError));
    assert_eq!(action, Action::Fail(Error::CallError));
}
