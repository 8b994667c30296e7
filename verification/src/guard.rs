//! The guard that serialises writers of the registry file.
//!
//! Several actors change the file without knowing of one another. Each
//! change is a session: take the lock that goes with the file, read the file,
//! compute its new content, write it, release the lock. A session decides;
//! its driver performs what the session asks for and reports back what
//! happened. However a session ends after the lock was granted, it has asked
//! for the release of the lock before.

use crate::error::{ErrorView, RegistryError};
use crate::store::{
    cycle_allows, load_failure, load_registry, loadable, loads, mutate_content, view_content,
    Mutation, MutationView,
};
use crate::registry::Registry;
use vstd::prelude::*;

verus! {

/// How long a session waits for the lock before it gives up, in
/// milliseconds.
pub const LOCK_TIMEOUT_MS: u64 = 3000;

/// How long a session waits before it asks for the lock again, in
/// milliseconds.
pub const LOCK_RETRY_MS: u64 = 50;

/// How long a lock may be held before it counts as left behind by a holder
/// that died, in milliseconds. It is ten times the time that a session waits
/// for the lock, and far more than a session needs for its cycle.
pub const STALE_LOCK_MS: u64 = 30000;

/// How long a reader waits before it reads a file again that it could not
/// make sense of, in milliseconds.
pub const READ_RETRY_MS: u64 = 100;

/// The cause that is reported where the driver reports what the session did
/// not ask for.
pub open spec fn out_of_turn() -> Seq<char> {
    "the driver reported an event out of turn"@
}

/// What the driver reports to a session.
#[derive(Debug)]
pub enum Event {
    /// The session is to start.
    Begin,
    /// The lock was granted.
    LockAcquired,
    /// Another holds the lock; the session has waited this long in all.
    LockBusy { waited_ms: u64 },
    /// The lock could not be asked for.
    LockFailed(String),
    /// The content of the file; `None` where the file does not exist.
    FileRead(Option<String>),
    /// The file could not be read.
    ReadFailed(String),
    /// The new content is in place.
    Written,
    /// The new content could not be written; the file is as it was.
    WriteFailed(String),
    /// The lock was released.
    Released,
}

/// What a session asks its driver to do next.
#[derive(Debug)]
pub enum Action {
    /// Ask for the lock.
    AcquireLock,
    /// Ask for the lock again after a pause.
    RetryLock { after_ms: u64 },
    /// Read the file.
    ReadFile,
    /// Put this text in place of the content of the file.
    WriteFile(String),
    /// Release the lock.
    ReleaseLock,
    /// The session is over, with this outcome.
    Done(Result<(), RegistryError>),
    /// The session was over before; there is nothing to do.
    Nothing,
}

/// One change to the registry file on its way.
#[derive(Debug)]
pub enum Session {
    /// Not yet started.
    Idle(Mutation),
    /// Waiting for the lock.
    Acquiring(Mutation),
    /// Holding the lock, waiting for the content of the file.
    Reading(Mutation),
    /// Holding the lock, waiting for the new content to be written.
    Writing,
    /// Holding the lock, waiting for its release; the outcome is settled.
    Releasing(Result<(), RegistryError>),
    /// Over.
    Finished,
}

/// Model of an event.
pub enum EventView {
    Begin,
    LockAcquired,
    LockBusy { waited_ms: u64 },
    LockFailed(Seq<char>),
    FileRead(Option<Seq<char>>),
    ReadFailed(Seq<char>),
    Written,
    WriteFailed(Seq<char>),
    Released,
}

/// Model of an action.
pub enum ActionView {
    AcquireLock,
    RetryLock { after_ms: u64 },
    ReadFile,
    WriteFile(Seq<char>),
    ReleaseLock,
    Done(Result<(), ErrorView>),
    Nothing,
}

/// Model of a session.
pub enum SessionView {
    Idle(MutationView),
    Acquiring(MutationView),
    Reading(MutationView),
    Writing,
    Releasing(Result<(), ErrorView>),
    Finished,
}

/// The model of the outcome of a session.
pub open spec fn view_done(outcome: Result<(), RegistryError>) -> Result<(), ErrorView> {
    match outcome {
        Ok(_) => Ok(()),
        Err(error) => Err(error@),
    }
}

impl View for Event {
    type V = EventView;

    open spec fn view(&self) -> EventView {
        match self {
            Event::Begin => EventView::Begin,
            Event::LockAcquired => EventView::LockAcquired,
            Event::LockBusy { waited_ms } => EventView::LockBusy { waited_ms: *waited_ms },
            Event::LockFailed(cause) => EventView::LockFailed(cause@),
            Event::FileRead(content) => EventView::FileRead(
                match content {
                    Some(text) => Some(text@),
                    None => None,
                },
            ),
            Event::ReadFailed(cause) => EventView::ReadFailed(cause@),
            Event::Written => EventView::Written,
            Event::WriteFailed(cause) => EventView::WriteFailed(cause@),
            Event::Released => EventView::Released,
        }
    }
}

impl View for Action {
    type V = ActionView;

    open spec fn view(&self) -> ActionView {
        match self {
            Action::AcquireLock => ActionView::AcquireLock,
            Action::RetryLock { after_ms } => ActionView::RetryLock { after_ms: *after_ms },
            Action::ReadFile => ActionView::ReadFile,
            Action::WriteFile(text) => ActionView::WriteFile(text@),
            Action::ReleaseLock => ActionView::ReleaseLock,
            Action::Done(outcome) => ActionView::Done(view_done(*outcome)),
            Action::Nothing => ActionView::Nothing,
        }
    }
}

impl View for Session {
    type V = SessionView;

    open spec fn view(&self) -> SessionView {
        match self {
            Session::Idle(mutation) => SessionView::Idle(mutation@),
            Session::Acquiring(mutation) => SessionView::Acquiring(mutation@),
            Session::Reading(mutation) => SessionView::Reading(mutation@),
            Session::Writing => SessionView::Writing,
            Session::Releasing(outcome) => SessionView::Releasing(view_done(*outcome)),
            Session::Finished => SessionView::Finished,
        }
    }
}

/// Whether the session holds the lock.
pub open spec fn holds_lock(session: SessionView) -> bool {
    session is Reading || session is Writing || session is Releasing
}

/// A session that ends without ever having held the lock.
pub open spec fn ends_unlocked(after: SessionView, action: ActionView, error: ErrorView) -> bool {
    after == SessionView::Finished && action == ActionView::Done(Err(error))
}

/// A session that holds the lock and gives up: it asks for the release and
/// keeps the failure for when the lock is released.
pub open spec fn gives_up(after: SessionView, action: ActionView, error: ErrorView) -> bool {
    after == SessionView::Releasing(Err(error)) && action == ActionView::ReleaseLock
}

/// The steps that a session may take: for the session before and the event,
/// the session after and the action it asks for.
pub open spec fn step_allows(
    before: SessionView,
    event: EventView,
    after: SessionView,
    action: ActionView,
) -> bool {
    match before {
        SessionView::Idle(mutation) => match event {
            EventView::Begin => after == SessionView::Acquiring(mutation) && action
                == ActionView::AcquireLock,
            _ => ends_unlocked(after, action, ErrorView::Io(out_of_turn())),
        },
        SessionView::Acquiring(mutation) => match event {
            EventView::LockAcquired => after == SessionView::Reading(mutation) && action
                == ActionView::ReadFile,
            EventView::LockBusy { waited_ms } => if waited_ms >= LOCK_TIMEOUT_MS {
                ends_unlocked(after, action, ErrorView::LockTimeout)
            } else {
                after == SessionView::Acquiring(mutation) && action == (ActionView::RetryLock {
                    after_ms: LOCK_RETRY_MS,
                })
            },
            EventView::LockFailed(cause) => ends_unlocked(after, action, ErrorView::Io(cause)),
            _ => ends_unlocked(after, action, ErrorView::Io(out_of_turn())),
        },
        SessionView::Reading(mutation) => match event {
            EventView::FileRead(content) => exists|written: Result<Seq<char>, ErrorView>|
                #[trigger] cycle_allows(content, mutation, written) && match written {
                    Ok(text) => after == SessionView::Writing && action == ActionView::WriteFile(
                        text,
                    ),
                    Err(error) => gives_up(after, action, error),
                },
            EventView::ReadFailed(cause) => gives_up(after, action, ErrorView::Io(cause)),
            _ => gives_up(after, action, ErrorView::Io(out_of_turn())),
        },
        SessionView::Writing => match event {
            EventView::Written => after == SessionView::Releasing(Ok(())) && action
                == ActionView::ReleaseLock,
            EventView::WriteFailed(cause) => gives_up(after, action, ErrorView::Io(cause)),
            _ => gives_up(after, action, ErrorView::Io(out_of_turn())),
        },
        SessionView::Releasing(outcome) => match event {
            EventView::Released => after == SessionView::Finished && action == ActionView::Done(
                outcome,
            ),
            _ => after == before && action == ActionView::ReleaseLock,
        },
        SessionView::Finished => after == SessionView::Finished && action == ActionView::Nothing,
    }
}

/// Whether a lock of the given age counts as left behind: a driver may take
/// such a lock away before it asks for the lock itself.
pub fn is_lock_stale(age_ms: u64) -> (stale: bool)
    ensures
        stale == (age_ms > STALE_LOCK_MS),
{
    age_ms > STALE_LOCK_MS
}

/// The failure for an event that the session did not ask for.
fn out_of_turn_error() -> (error: RegistryError)
    ensures
        error@ == ErrorView::Io(out_of_turn()),
{
    RegistryError::Io("the driver reported an event out of turn".to_owned())
}

impl Session {
    /// A session for one change, not yet started.
    pub fn new(mutation: Mutation) -> (session: Session)
        ensures
            session@ == SessionView::Idle(mutation@),
    {
        Session::Idle(mutation)
    }

    /// Whether the session is over.
    pub fn is_finished(&self) -> (over: bool)
        ensures
            over == (self@ is Finished),
    {
        match self {
            Session::Finished => true,
            _ => false,
        }
    }

    /// Whether the session holds the lock.
    pub fn is_holding_lock(&self) -> (held: bool)
        ensures
            held == holds_lock(self@),
    {
        match self {
            Session::Reading(_) => true,
            Session::Writing => true,
            Session::Releasing(_) => true,
            _ => false,
        }
    }

    /// Takes one step: given what the driver reports, the session moves on
    /// and says what the driver is to do next.
    pub fn step(self, event: Event) -> (next: (Session, Action))
        ensures
            step_allows(self@, event@, next.0@, next.1@),
    {
        match self {
            Session::Idle(mutation) => match event {
                Event::Begin => (Session::Acquiring(mutation), Action::AcquireLock),
                _ => (Session::Finished, Action::Done(Err(out_of_turn_error()))),
            },
            Session::Acquiring(mutation) => match event {
                Event::LockAcquired => (Session::Reading(mutation), Action::ReadFile),
                Event::LockBusy { waited_ms } => {
                    if waited_ms >= LOCK_TIMEOUT_MS {
                        (Session::Finished, Action::Done(Err(RegistryError::LockTimeout)))
                    } else {
                        (Session::Acquiring(mutation), Action::RetryLock { after_ms: LOCK_RETRY_MS })
                    }
                },
                Event::LockFailed(cause) => (
                    Session::Finished,
                    Action::Done(Err(RegistryError::Io(cause))),
                ),
                _ => (Session::Finished, Action::Done(Err(out_of_turn_error()))),
            },
            Session::Reading(mutation) => match event {
                Event::FileRead(content) => {
                    let written = match &content {
                        Some(text) => mutate_content(Some(text.as_str()), mutation),
                        None => mutate_content(None, mutation),
                    };
                    match written {
                        Ok(text) => (Session::Writing, Action::WriteFile(text)),
                        Err(error) => (Session::Releasing(Err(error)), Action::ReleaseLock),
                    }
                },
                Event::ReadFailed(cause) => (
                    Session::Releasing(Err(RegistryError::Io(cause))),
                    Action::ReleaseLock,
                ),
                _ => (Session::Releasing(Err(out_of_turn_error())), Action::ReleaseLock),
            },
            Session::Writing => match event {
                Event::Written => (Session::Releasing(Ok(())), Action::ReleaseLock),
                Event::WriteFailed(cause) => (
                    Session::Releasing(Err(RegistryError::Io(cause))),
                    Action::ReleaseLock,
                ),
                _ => (Session::Releasing(Err(out_of_turn_error())), Action::ReleaseLock),
            },
            Session::Releasing(outcome) => match event {
                Event::Released => (Session::Finished, Action::Done(outcome)),
                _ => (Session::Releasing(outcome), Action::ReleaseLock),
            },
            Session::Finished => (Session::Finished, Action::Nothing),
        }
    }
}

/// What a reader does with what it read.
#[derive(Debug)]
pub enum ReadStep {
    /// Here is the registry.
    Deliver(Registry),
    /// The file made no sense, perhaps because it is being written: read it
    /// again after a pause.
    RetryAfter { ms: u64 },
    /// The file makes no sense for the second time.
    Unavailable(RegistryError),
}

/// One step of a reader, who takes no lock. The first reading that cannot be
/// loaded is read again after a pause; the second is reported.
pub fn read_step(content: Option<&str>, earlier_attempts: u32) -> (step: ReadStep)
    ensures
        match step {
            ReadStep::Deliver(registry) => loads(view_content(content), registry@),
            ReadStep::RetryAfter { ms } => !loadable(view_content(content)) && earlier_attempts
                == 0 && ms == READ_RETRY_MS,
            ReadStep::Unavailable(error) => !loadable(view_content(content)) && earlier_attempts
                > 0 && error@ == load_failure(view_content(content)),
        },
        step is Deliver <==> loadable(view_content(content)),
{
    match load_registry(content) {
        Ok(registry) => ReadStep::Deliver(registry),
        Err(error) => {
            if earlier_attempts == 0 {
                ReadStep::RetryAfter { ms: READ_RETRY_MS }
            } else {
                ReadStep::Unavailable(error)
            }
        },
    }
}

} // verus!
