use localhost_manager::error::RegistryError;
use localhost_manager::guard::{
    is_lock_stale, read_step, Action, Event, ReadStep, Session, LOCK_RETRY_MS, LOCK_TIMEOUT_MS,
    READ_RETRY_MS, STALE_LOCK_MS,
};
use localhost_manager::store::{load_registry, Mutation};

struct World {
    file: Option<String>,
    lock: Option<usize>,
}

/// Performs what a session asks for on the world and gives the event to report back.
fn perform(world: &mut World, who: usize, action: Action, waited: &mut u64) -> Option<Event> {
    match action {
        Action::AcquireLock => match world.lock {
            None => {
                world.lock = Some(who);
                Some(Event::LockAcquired)
            }
            Some(_) => Some(Event::LockBusy { waited_ms: *waited }),
        },
        Action::RetryLock { after_ms } => {
            *waited += after_ms;
            match world.lock {
                None => {
                    world.lock = Some(who);
                    Some(Event::LockAcquired)
                }
                Some(_) => Some(Event::LockBusy { waited_ms: *waited }),
            }
        }
        Action::ReadFile => {
            assert_eq!(world.lock, Some(who));
            Some(Event::FileRead(world.file.clone()))
        }
        Action::WriteFile(text) => {
            assert_eq!(world.lock, Some(who));
            world.file = Some(text);
            Some(Event::Written)
        }
        Action::ReleaseLock => {
            assert_eq!(world.lock, Some(who));
            world.lock = None;
            Some(Event::Released)
        }
        Action::Done(_) | Action::Nothing => None,
    }
}

const TWO_HOSTS: &str = r#"{"a.test": {"active": true}, "b.test": {"active": true}}"#;

#[test]
fn two_toggles_issued_together_are_both_in_the_file() {
    let mut world = World { file: Some(TWO_HOSTS.to_string()), lock: None };
    let mut first = Session::new(Mutation::ToggleActive("a.test".into()));
    let mut second = Session::new(Mutation::ToggleActive("b.test".into()));
    let mut first_waited = 0u64;
    let mut second_waited = 0u64;
    let (s, a) = first.step(Event::Begin);
    first = s;
    let mut first_event = perform(&mut world, 1, a, &mut first_waited);
    let (s, a) = second.step(Event::Begin);
    second = s;
    let mut second_event = perform(&mut world, 2, a, &mut second_waited);
    assert_eq!(world.lock, Some(1));
    assert!(matches!(second_event, Some(Event::LockBusy { waited_ms: 0 })));
    let mut first_outcome = None;
    let mut second_outcome = None;
    let mut rounds = 0;
    while first_outcome.is_none() || second_outcome.is_none() {
        rounds += 1;
        assert!(rounds < 100);
        if let Some(event) = first_event.take() {
            let (s, a) = first.step(event);
            first = s;
            if let Action::Done(outcome) = a {
                first_outcome = Some(outcome);
            } else {
                first_event = perform(&mut world, 1, a, &mut first_waited);
            }
        }
        if let Some(event) = second_event.take() {
            let (s, a) = second.step(event);
            second = s;
            if let Action::Done(outcome) = a {
                second_outcome = Some(outcome);
            } else {
                second_event = perform(&mut world, 2, a, &mut second_waited);
            }
        }
        assert!(!(first.is_holding_lock() && second.is_holding_lock()));
    }
    assert_eq!(first_outcome, Some(Ok(())));
    assert_eq!(second_outcome, Some(Ok(())));
    assert!(first.is_finished() && second.is_finished());
    assert_eq!(world.lock, None);
    let registry = load_registry(world.file.as_deref()).unwrap();
    assert!(!registry.get("a.test").unwrap().active);
    assert!(!registry.get("b.test").unwrap().active);
}

#[test]
fn a_session_runs_lock_read_write_release() {
    let session = Session::new(Mutation::SetAllActive(false));
    assert!(!session.is_finished());
    let (session, action) = session.step(Event::Begin);
    assert!(matches!(action, Action::AcquireLock));
    assert!(!session.is_holding_lock());
    let (session, action) = session.step(Event::LockAcquired);
    assert!(matches!(action, Action::ReadFile));
    assert!(session.is_holding_lock());
    let (session, action) = session.step(Event::FileRead(Some(TWO_HOSTS.to_string())));
    let text = match action {
        Action::WriteFile(text) => text,
        _ => panic!("a write was expected"),
    };
    let written = load_registry(Some(&text)).unwrap();
    assert!(!written.get("a.test").unwrap().active);
    assert!(!written.get("b.test").unwrap().active);
    assert!(session.is_holding_lock());
    let (session, action) = session.step(Event::Written);
    assert!(matches!(action, Action::ReleaseLock));
    assert!(session.is_holding_lock());
    let (session, action) = session.step(Event::Released);
    assert!(matches!(action, Action::Done(Ok(()))));
    assert!(session.is_finished());
    assert!(!session.is_holding_lock());
    let (session, action) = session.step(Event::Begin);
    assert!(matches!(action, Action::Nothing));
    assert!(session.is_finished());
}

#[test]
fn waiting_for_the_lock_ends_with_a_timeout() {
    let (session, _) = Session::new(Mutation::SetAllActive(true)).step(Event::Begin);
    let (session, action) = session.step(Event::LockBusy { waited_ms: 0 });
    assert!(matches!(action, Action::RetryLock { after_ms } if after_ms == LOCK_RETRY_MS));
    let (session, action) = session.step(Event::LockBusy { waited_ms: LOCK_TIMEOUT_MS - 1 });
    assert!(matches!(action, Action::RetryLock { .. }));
    assert!(!session.is_finished());
    let (session, action) = session.step(Event::LockBusy { waited_ms: LOCK_TIMEOUT_MS });
    assert!(matches!(action, Action::Done(Err(RegistryError::LockTimeout))));
    assert!(session.is_finished());
    assert_eq!(LOCK_TIMEOUT_MS, 3000);
}

#[test]
fn a_failed_change_releases_the_lock_and_writes_nothing() {
    let (session, _) = Session::new(Mutation::DeleteOne("nope.test".into())).step(Event::Begin);
    let (session, _) = session.step(Event::LockAcquired);
    let (session, action) = session.step(Event::FileRead(None));
    assert!(matches!(action, Action::ReleaseLock));
    assert!(session.is_holding_lock());
    let (session, action) = session.step(Event::Released);
    match action {
        Action::Done(Err(error)) => assert_eq!(error, RegistryError::NotFound("nope.test".into())),
        _ => panic!("a failure was expected"),
    }
    assert!(session.is_finished());
}

#[test]
fn failures_of_the_file_release_the_lock() {
    let (session, _) = Session::new(Mutation::SetAllActive(true)).step(Event::Begin);
    let (session, _) = session.step(Event::LockAcquired);
    let (session, action) = session.step(Event::ReadFailed("denied".into()));
    assert!(matches!(action, Action::ReleaseLock));
    let (_, action) = session.step(Event::Released);
    match action {
        Action::Done(Err(error)) => assert_eq!(error, RegistryError::Io("denied".into())),
        _ => panic!("a failure was expected"),
    }
    let (session, _) = Session::new(Mutation::SetAllActive(true)).step(Event::Begin);
    let (session, _) = session.step(Event::LockAcquired);
    let (session, _) = session.step(Event::FileRead(Some("{}".into())));
    let (session, action) = session.step(Event::WriteFailed("disk full".into()));
    assert!(matches!(action, Action::ReleaseLock));
    assert!(session.is_holding_lock());
    let (session, action) = session.step(Event::Written);
    assert!(matches!(action, Action::ReleaseLock));
    let (_, action) = session.step(Event::Released);
    match action {
        Action::Done(Err(error)) => assert_eq!(error, RegistryError::Io("disk full".into())),
        _ => panic!("a failure was expected"),
    }
}

#[test]
fn a_lock_that_cannot_be_asked_for_ends_the_session() {
    let (session, _) = Session::new(Mutation::SetAllActive(true)).step(Event::Begin);
    let (session, action) = session.step(Event::LockFailed("no such directory".into()));
    match action {
        Action::Done(Err(error)) => assert_eq!(error, RegistryError::Io("no such directory".into())),
        _ => panic!("a failure was expected"),
    }
    assert!(session.is_finished());
}

#[test]
fn events_out_of_turn_end_the_session_safely() {
    let (session, action) = Session::new(Mutation::SetAllActive(true)).step(Event::Written);
    assert!(matches!(action, Action::Done(Err(RegistryError::Io(_)))));
    assert!(session.is_finished());
    let (session, _) = Session::new(Mutation::SetAllActive(true)).step(Event::Begin);
    let (session, _) = session.step(Event::LockAcquired);
    let (session, action) = session.step(Event::LockAcquired);
    assert!(matches!(action, Action::ReleaseLock));
    assert!(session.is_holding_lock());
    let (session, action) = session.step(Event::Released);
    assert!(matches!(action, Action::Done(Err(RegistryError::Io(_)))));
    assert!(session.is_finished());
}

#[test]
fn a_reader_retries_once_and_then_reports() {
    match read_step(Some("{\"a.test\": {}}"), 0) {
        ReadStep::Deliver(registry) => assert!(registry.contains("a.test")),
        _ => panic!("the registry was expected"),
    }
    match read_step(None, 0) {
        ReadStep::Deliver(registry) => assert_eq!(registry.len(), 0),
        _ => panic!("the registry was expected"),
    }
    match read_step(Some("{\"a.te"), 0) {
        ReadStep::RetryAfter { ms } => assert_eq!(ms, READ_RETRY_MS),
        _ => panic!("a retry was expected"),
    }
    match read_step(Some("{\"a.te"), 1) {
        ReadStep::Unavailable(error) => assert!(matches!(error, RegistryError::Parse(_))),
        _ => panic!("a report was expected"),
    }
}

#[test]
fn a_lock_is_stale_only_beyond_the_limit() {
    assert_eq!(STALE_LOCK_MS, 30000);
    assert!(!is_lock_stale(0));
    assert!(!is_lock_stale(LOCK_TIMEOUT_MS));
    assert!(!is_lock_stale(STALE_LOCK_MS));
    assert!(is_lock_stale(STALE_LOCK_MS + 1));
    assert!(is_lock_stale(u64::MAX));
    assert!(LOCK_TIMEOUT_MS < STALE_LOCK_MS);
}
