//! What holds of every run of the guest's machine.

use vstd::prelude::*;
use crate::descriptor::{TaskOutcomeView, TaskView};
use crate::guest::{
    transition, GuestActionView, GuestConfigView, GuestError, GuestEventView, GuestState,
};
use crate::mounts::mounted;

verus! {

/// The state of a guest that started and was then told `events`, in order.
pub open spec fn state_after(config: GuestConfigView, events: Seq<GuestEventView>) -> GuestState
    decreases events.len(),
{
    if events.len() == 0 {
        GuestState::AwaitingMount
    } else {
        transition(config, state_after(config, events.drop_last()), events.last()).0
    }
}

/// The action with which a guest that started answers the last of `events`;
/// with no event yet, the action that every run starts with.
pub open spec fn action_after(config: GuestConfigView, events: Seq<GuestEventView>)
    -> GuestActionView {
    if events.len() == 0 {
        GuestActionView::ReadClock
    } else {
        transition(config, state_after(config, events.drop_last()), events.last()).1
    }
}

/// How often a guest that started and was told `events` asked for the result
/// envelope to be written.
pub open spec fn writes(config: GuestConfigView, events: Seq<GuestEventView>) -> nat
    decreases events.len(),
{
    if events.len() == 0 {
        0
    } else if action_after(config, events) is PersistResult {
        writes(config, events.drop_last()) + 1
    } else {
        writes(config, events.drop_last())
    }
}

/// One look at the clock and at the mount table.
pub struct Reading {
    /// Nanoseconds since the wait began.
    pub nanos: nat,
    /// The text of the mount table.
    pub table: Seq<char>,
}

impl Reading {
    /// Whether this reading lies within the timeout of `config`.
    pub open spec fn in_time(self, config: GuestConfigView) -> bool {
        self.nanos <= config.mount_timeout_nanos()
    }

    /// Whether this reading shows the workspace of `config` as mounted.
    pub open spec fn shows_mount(self, config: GuestConfigView) -> bool {
        mounted(self.table, config.workspace)
    }

    /// Whether this reading leaves the guest waiting: it lies within the
    /// timeout and does not show the workspace.
    pub open spec fn idle(self, config: GuestConfigView) -> bool {
        self.in_time(config) && !self.shows_mount(config)
    }
}

/// The events that a driver reports for `readings`: for each, the clock and
/// then the mount table.
pub open spec fn polling(readings: Seq<Reading>) -> Seq<GuestEventView>
    decreases readings.len(),
{
    if readings.len() == 0 {
        Seq::empty()
    } else {
        polling(readings.drop_last()).push(
            GuestEventView::Elapsed { nanos: readings.last().nanos },
        ).push(GuestEventView::MountTable(readings.last().table))
    }
}

/// The events of a run in which everything goes well: idle `readings`, then a
/// reading `sighting` that shows the mount, the `task` that was loaded, the
/// `outcome` of the callback and the word that the envelope was written.
pub open spec fn full_run(
    readings: Seq<Reading>,
    sighting: Reading,
    task: TaskView,
    outcome: TaskOutcomeView,
) -> Seq<GuestEventView> {
    polling(readings.push(sighting)).push(GuestEventView::DescriptorLoaded(task)).push(
        GuestEventView::CallbackReturned(outcome),
    ).push(GuestEventView::ResultWritten)
}

/// As long as every reading lies within the timeout and none shows the
/// workspace, the guest keeps waiting: it does not time out before the
/// timeout has passed. After each such reading it sleeps for one polling
/// interval, so the next look at the mount table comes one interval later.
pub proof fn lemma_wait_goes_on(config: GuestConfigView, readings: Seq<Reading>)
    requires
        forall|i: int| 0 <= i < readings.len() ==> (#[trigger] readings[i]).idle(config),
    ensures
        state_after(config, polling(readings)) == GuestState::AwaitingMount,
        readings.len() > 0 ==> action_after(config, polling(readings)) == (GuestActionView::Sleep {
            millis: config.poll_interval_millis,
        }),
    decreases readings.len(),
{
    if readings.len() > 0 {
        let earlier = readings.drop_last();
        let last = readings.last();
        lemma_wait_goes_on(config, earlier);
        let clock = polling(earlier).push(GuestEventView::Elapsed { nanos: last.nanos });
        assert(clock.drop_last() == polling(earlier));
        assert(state_after(config, clock) == GuestState::AwaitingMount);
        assert(polling(readings).drop_last() == clock);
    }
}

/// After readings that leave the guest waiting, the first reading of the
/// clock beyond the timeout ends the run with a mount timeout.
pub proof fn lemma_timeout_after_ceiling(
    config: GuestConfigView,
    readings: Seq<Reading>,
    nanos: nat,
)
    requires
        forall|i: int| 0 <= i < readings.len() ==> (#[trigger] readings[i]).idle(config),
        nanos > config.mount_timeout_nanos(),
    ensures
        state_after(config, polling(readings).push(GuestEventView::Elapsed { nanos }))
            == GuestState::Failed(GuestError::MountTimeout),
        action_after(config, polling(readings).push(GuestEventView::Elapsed { nanos }))
            == GuestActionView::Abort(GuestError::MountTimeout),
{
    lemma_wait_goes_on(config, readings);
    let events = polling(readings).push(GuestEventView::Elapsed { nanos });
    assert(events.drop_last() == polling(readings));
}

/// After readings that leave the guest waiting, the first reading within the
/// timeout that shows the workspace ends the wait at once: the guest goes on
/// to load the task descriptor.
pub proof fn lemma_mount_seen(config: GuestConfigView, readings: Seq<Reading>, sighting: Reading)
    requires
        forall|i: int| 0 <= i < readings.len() ==> (#[trigger] readings[i]).idle(config),
        sighting.in_time(config),
        sighting.shows_mount(config),
    ensures
        state_after(config, polling(readings.push(sighting))) == GuestState::LoadingDescriptor,
        action_after(config, polling(readings.push(sighting))) == GuestActionView::LoadDescriptor,
{
    lemma_wait_goes_on(config, readings);
    let all = readings.push(sighting);
    assert(all.drop_last() == readings);
    let clock = polling(readings).push(GuestEventView::Elapsed { nanos: sighting.nanos });
    assert(clock.drop_last() == polling(readings));
    assert(polling(all).drop_last() == clock);
}

/// In a run in which everything goes well the callback is given the task
/// that was loaded, what it returns is what is written, result or error
/// alike, and the guest ends with the result persisted.
pub proof fn lemma_outcome_is_persisted(
    config: GuestConfigView,
    readings: Seq<Reading>,
    sighting: Reading,
    task: TaskView,
    outcome: TaskOutcomeView,
)
    requires
        forall|i: int| 0 <= i < readings.len() ==> (#[trigger] readings[i]).idle(config),
        sighting.in_time(config),
        sighting.shows_mount(config),
    ensures
        action_after(config, full_run(readings, sighting, task, outcome).drop_last().drop_last())
            == GuestActionView::RunCallback(task),
        action_after(config, full_run(readings, sighting, task, outcome).drop_last())
            == GuestActionView::PersistResult(outcome),
        action_after(config, full_run(readings, sighting, task, outcome))
            == GuestActionView::Finish,
        state_after(config, full_run(readings, sighting, task, outcome))
            == GuestState::ResultPersisted,
{
    lemma_mount_seen(config, readings, sighting);
    let mounted = polling(readings.push(sighting));
    let loaded = mounted.push(GuestEventView::DescriptorLoaded(task));
    let returned = loaded.push(GuestEventView::CallbackReturned(outcome));
    let written = returned.push(GuestEventView::ResultWritten);
    assert(loaded.drop_last() == mounted);
    assert(returned.drop_last() == loaded);
    assert(written.drop_last() == returned);
    assert(state_after(config, loaded) == GuestState::CallbackRunning);
    assert(state_after(config, returned) == GuestState::PersistingResult);
}

/// Whatever a guest is told, it asks for the result envelope to be written
/// at most once; it has asked exactly once when the result is persisted or
/// being persisted, and not yet while it waits, loads or runs the callback.
pub proof fn lemma_result_written_at_most_once(
    config: GuestConfigView,
    events: Seq<GuestEventView>,
)
    ensures
        writes(config, events) <= 1,
        match state_after(config, events) {
            GuestState::AwaitingMount
            | GuestState::LoadingDescriptor
            | GuestState::CallbackRunning => writes(config, events) == 0,
            GuestState::PersistingResult | GuestState::ResultPersisted => writes(config, events)
                == 1,
            GuestState::Failed(_) => true,
        },
    decreases events.len(),
{
    if events.len() > 0 {
        lemma_result_written_at_most_once(config, events.drop_last());
    }
}

/// What a guest has asked for stays asked for: more events never lower the
/// count of writes.
pub proof fn lemma_writes_only_grow(
    config: GuestConfigView,
    events: Seq<GuestEventView>,
    more: Seq<GuestEventView>,
)
    ensures
        writes(config, events) <= writes(config, events + more),
    decreases more.len(),
{
    if more.len() == 0 {
        assert(events + more == events);
    } else {
        lemma_writes_only_grow(config, events, more.drop_last());
        assert((events + more).drop_last() == events + more.drop_last());
    }
}

/// An envelope that is already in the workspace is never written over: a
/// guest that is told so gives up, and whatever it is told after that, it
/// does not ask for the envelope to be written again.
pub proof fn lemma_existing_result_is_kept(
    config: GuestConfigView,
    events: Seq<GuestEventView>,
    more: Seq<GuestEventView>,
)
    requires
        state_after(config, events) == GuestState::PersistingResult,
    ensures
        state_after(config, events.push(GuestEventView::ResultExists)) == GuestState::Failed(
            GuestError::ResultExists,
        ),
        action_after(config, events.push(GuestEventView::ResultExists)) == GuestActionView::Abort(
            GuestError::ResultExists,
        ),
        writes(config, events.push(GuestEventView::ResultExists) + more) == writes(config, events),
        writes(config, events) == 1,
{
    let refused = events.push(GuestEventView::ResultExists);
    assert(refused.drop_last() == events);
    lemma_result_written_at_most_once(config, events);
    lemma_result_written_at_most_once(config, refused + more);
    lemma_writes_only_grow(config, refused, more);
}

/// Once a run has ended, in success or in failure, no event changes its
/// state.
pub proof fn lemma_ended_run_stays(
    config: GuestConfigView,
    events: Seq<GuestEventView>,
    event: GuestEventView,
)
    requires
        state_after(config, events) is ResultPersisted || state_after(config, events) is Failed,
    ensures
        state_after(config, events.push(event)) == state_after(config, events),
{
    assert(events.push(event).drop_last() == events);
}

} // verus!
