//! What holds of the guard: of one session step by step, and of several
//! sessions that share the file and its lock.

use crate::error::ErrorView;
use crate::guard::{
    holds_lock, step_allows, ActionView, EventView, SessionView, LOCK_RETRY_MS, LOCK_TIMEOUT_MS,
};
use crate::store::{cycle_allows, MutationView};
use vstd::prelude::*;

verus! {

/// A session that goes over holds the lock no longer.
pub proof fn lemma_done_without_lock(
    before: SessionView,
    event: EventView,
    after: SessionView,
    action: ActionView,
)
    requires
        step_allows(before, event, after, action),
    ensures
        action is Done ==> after is Finished,
        after is Finished ==> !holds_lock(after),
        action is Done || action is Nothing <==> after is Finished,
{
}

/// The lock is released on every way out: a session that holds the lock goes
/// over only when the driver reports the release, which the session asked
/// for when it settled its outcome, be it success or failure.
pub proof fn lemma_release_before_finish(
    before: SessionView,
    event: EventView,
    after: SessionView,
    action: ActionView,
)
    requires
        step_allows(before, event, after, action),
        holds_lock(before),
    ensures
        after is Finished ==> before is Releasing && event is Released,
        !(after is Finished) ==> holds_lock(after),
        after is Releasing ==> action is ReleaseLock,
{
}

/// A session comes to hold the lock only when the driver reports that the
/// lock was granted.
pub proof fn lemma_lock_only_when_granted(
    before: SessionView,
    event: EventView,
    after: SessionView,
    action: ActionView,
)
    requires
        step_allows(before, event, after, action),
        !holds_lock(before),
        holds_lock(after),
    ensures
        before is Acquiring,
        event is LockAcquired,
        action is ReadFile,
{
}

/// The file is written only under the lock, with the text that one
/// read-modify-write cycle makes of the content that was read under the same
/// hold of the lock. A change that fails asks for no write: the file stays
/// as it is.
pub proof fn lemma_write_under_lock(
    before: SessionView,
    event: EventView,
    after: SessionView,
    action: ActionView,
)
    requires
        step_allows(before, event, after, action),
    ensures
        action matches ActionView::WriteFile(text) ==> {
            &&& before matches SessionView::Reading(mutation)
            &&& event matches EventView::FileRead(content)
            &&& holds_lock(after)
            &&& cycle_allows(content, mutation, Ok(text))
        },
        action is ReadFile ==> holds_lock(after),
{
}

/// A session that has waited for the lock as long as the limit gives up with
/// a timeout and never held the lock.
pub proof fn lemma_lock_timeout(
    before: SessionView,
    waited_ms: u64,
    after: SessionView,
    action: ActionView,
)
    requires
        before is Acquiring,
        step_allows(before, EventView::LockBusy { waited_ms }, after, action),
    ensures
        waited_ms >= LOCK_TIMEOUT_MS ==> action == ActionView::Done(Err(ErrorView::LockTimeout))
            && after is Finished,
        waited_ms < LOCK_TIMEOUT_MS ==> after == before && action == (ActionView::RetryLock {
            after_ms: LOCK_RETRY_MS,
        }),
{
}

/// The file and its lock, as the sessions that share them find them.
pub struct World {
    /// The content of the file; `None` where the file does not exist.
    pub file: Option<Seq<char>>,
    /// The number of the session that holds the lock, if any does.
    pub holder: Option<int>,
}

/// A session with what its driver knows of it.
pub struct Actor {
    /// The session.
    pub session: SessionView,
    /// What the session asked for last.
    pub asked: ActionView,
    /// The change that the session is to make.
    pub mutation: MutationView,
    /// The content that the session's driver read last.
    pub seen: Option<Seq<char>>,
}

/// Several sessions that share one file and its lock.
pub struct System {
    pub world: World,
    pub actors: Seq<Actor>,
}

/// What a driver that keeps to the rules does for session `who`, and what it
/// reports. It grants the lock only when nobody holds it; it reports the
/// content of the file as it is; a write puts the text in place or fails and
/// leaves the file as it was; a release frees the lock of its own session.
///
/// A driver that takes a stale lock away keeps to these rules as long as the
/// holder of that lock is dead: a dead holder is no session of the system,
/// and its lock counts as free. It steps outside them when the holder is
/// alive and has held the lock for longer than `STALE_LOCK_MS`. Then two
/// sessions hold the lock at once, and what is proved below of the system
/// holds no longer: the slower write may undo the other. So the laws are laws
/// of runs in which every session gives the lock back within
/// `STALE_LOCK_MS`.
pub open spec fn drives(
    who: int,
    actor: Actor,
    world: World,
    event: EventView,
    after: World,
) -> bool {
    match actor.session {
        SessionView::Idle(_) => event == EventView::Begin && after == world,
        SessionView::Finished => false,
        _ => match actor.asked {
            ActionView::AcquireLock | ActionView::RetryLock { .. } => {
                ||| world.holder is None && event == EventView::LockAcquired && after == (World {
                    holder: Some(who),
                    ..world
                })
                ||| world.holder is Some && event is LockBusy && after == world
                ||| event is LockFailed && after == world
            },
            ActionView::ReadFile => {
                ||| event == EventView::FileRead(world.file) && after == world
                ||| event is ReadFailed && after == world
            },
            ActionView::WriteFile(text) => {
                ||| event == EventView::Written && after == (World { file: Some(text), ..world })
                ||| event is WriteFailed && after == world
            },
            ActionView::ReleaseLock => event == EventView::Released && after == (World {
                holder: if world.holder == Some(who) {
                    None
                } else {
                    world.holder
                },
                ..world
            }),
            _ => false,
        },
    }
}

/// One step of the system: the driver of session `who` does what the session
/// asked for and reports it, and the session takes its step. Every other
/// session stays as it is.
pub open spec fn system_step(before: System, who: int, event: EventView, after: System) -> bool {
    &&& 0 <= who < before.actors.len()
    &&& after.actors.len() == before.actors.len()
    &&& forall|i: int|
        0 <= i < before.actors.len() && i != who ==> #[trigger] after.actors[i]
            == before.actors[i]
    &&& drives(who, before.actors[who], before.world, event, after.world)
    &&& step_allows(
        before.actors[who].session,
        event,
        after.actors[who].session,
        after.actors[who].asked,
    )
    &&& after.actors[who].mutation == before.actors[who].mutation
    &&& after.actors[who].seen == match event {
        EventView::FileRead(content) => content,
        _ => before.actors[who].seen,
    }
}

/// What holds of a session in a system that keeps to the rules: it holds the
/// lock exactly when the world says so; what it asked for last fits its
/// state; and while it waits for its write, the file still has the content
/// that it read, and the text it wants written is what one cycle makes of
/// that content.
pub open spec fn actor_in_order(world: World, who: int, actor: Actor) -> bool {
    &&& world.holder == Some(who) <==> holds_lock(actor.session)
    &&& match actor.session {
        SessionView::Idle(mutation) => mutation == actor.mutation,
        SessionView::Acquiring(mutation) => mutation == actor.mutation && (actor.asked
            is AcquireLock || actor.asked is RetryLock),
        SessionView::Reading(mutation) => mutation == actor.mutation && actor.asked is ReadFile,
        SessionView::Writing => actor.asked is WriteFile && cycle_allows(
            actor.seen,
            actor.mutation,
            Ok(actor.asked->WriteFile_0),
        ) && world.file == actor.seen,
        SessionView::Releasing(_) => actor.asked is ReleaseLock,
        SessionView::Finished => actor.asked is Done || actor.asked is Nothing,
    }
}

/// Every session of the system is in order.
pub open spec fn in_order(system: System) -> bool {
    forall|i: int|
        0 <= i < system.actors.len() ==> actor_in_order(system.world, i, #[trigger] system.actors[i])
}

/// A system of sessions that have not started, with nobody holding the lock,
/// is in order, whatever the file holds.
pub proof fn lemma_start_in_order(system: System)
    requires
        system.world.holder is None,
        forall|i: int|
            0 <= i < system.actors.len() ==> (#[trigger] system.actors[i]).session
                == SessionView::Idle(system.actors[i].mutation),
    ensures
        in_order(system),
{
}

/// Every step keeps the system in order, whichever session takes it and
/// whatever its driver reports within the rules.
pub proof fn lemma_step_keeps_order(before: System, who: int, event: EventView, after: System)
    requires
        in_order(before),
        system_step(before, who, event, after),
    ensures
        in_order(after),
{
}

/// The lock is exclusive: in a system in order no two sessions hold it.
pub proof fn lemma_one_holder(system: System, first: int, second: int)
    requires
        in_order(system),
        0 <= first < system.actors.len(),
        0 <= second < system.actors.len(),
        holds_lock(system.actors[first].session),
        holds_lock(system.actors[second].session),
    ensures
        first == second,
{
}

/// No update is lost: whenever a session's write goes through, the text that
/// replaces the content of the file is what one read-modify-write cycle of
/// that session's change makes of the very content that it replaces. So the
/// changes of sessions that run side by side take effect one after another,
/// each on what the one before left.
pub proof fn lemma_write_is_a_cycle(before: System, who: int, after: System)
    requires
        in_order(before),
        system_step(before, who, EventView::Written, after),
    ensures
        after.world.file matches Some(text) && cycle_allows(
            before.world.file,
            before.actors[who].mutation,
            Ok(text),
        ),
        before.world.holder == Some(who),
{
}

/// What is not a write that went through leaves the file as it is: only a
/// session that holds the lock changes the file, and only by its write.
pub proof fn lemma_file_changes_by_writes_only(
    before: System,
    who: int,
    event: EventView,
    after: System,
)
    requires
        in_order(before),
        system_step(before, who, event, after),
        event != EventView::Written,
    ensures
        after.world.file == before.world.file,
{
}

} // verus!
