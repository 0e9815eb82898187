//! The guest's side of the hand-off, as a state machine.
//!
//! The guest waits for the workspace to be mounted, loads the task
//! descriptor, runs the callback and leaves the outcome in the workspace.
//! The machine does none of this itself. It is told what happened, as a
//! [`GuestEvent`], and answers with the next thing to do, a [`GuestAction`];
//! whoever drives it performs the action and reports back.
//!
//! A run starts in [`GuestState::AwaitingMount`] with the action
//! [`GuestAction::ReadClock`].

use vstd::prelude::*;
use vstd::string::*;
use crate::descriptor::{
    outcome_view, Task, TaskOutcome, TaskOutcomeView, TaskView, TASK_FILE_NAME,
    TASK_RESULT_FILE_NAME, WORKSPACE_PATH,
};
use crate::mounts::{mount_present, mounted};
use crate::paths::{join_path, joined};

verus! {

/// Nanoseconds in a millisecond.
pub const NANOS_PER_MILLI: u128 = 1_000_000;

/// Pause between two looks at the mount table, in milliseconds.
pub const POLL_INTERVAL_MILLIS: u64 = 1_000;

/// The longest wait for the workspace mount, in milliseconds.
pub const MOUNT_TIMEOUT_MILLIS: u64 = 30_000;

/// What the guest is set up with.
#[derive(Clone, Debug, PartialEq, Eq)]
pub struct GuestConfig {
    /// Where the workspace is mounted; also the mount point looked for in
    /// the mount table.
    pub workspace: String,
    /// Pause between two looks at the mount table, in milliseconds.
    pub poll_interval_millis: u64,
    /// The wait for the mount is given up once more than this many
    /// milliseconds have passed.
    pub mount_timeout_millis: u64,
}

/// Mathematical value of a [`GuestConfig`].
pub struct GuestConfigView {
    pub workspace: Seq<char>,
    pub poll_interval_millis: nat,
    pub mount_timeout_millis: nat,
}

impl GuestConfigView {
    /// The longest wait for the mount, in nanoseconds.
    pub open spec fn mount_timeout_nanos(self) -> nat {
        self.mount_timeout_millis * (NANOS_PER_MILLI as nat)
    }
}

impl View for GuestConfig {
    type V = GuestConfigView;

    open spec fn view(&self) -> GuestConfigView {
        GuestConfigView {
            workspace: self.workspace@,
            poll_interval_millis: self.poll_interval_millis as nat,
            mount_timeout_millis: self.mount_timeout_millis as nat,
        }
    }
}

impl GuestConfig {
    /// The usual setup: the workspace at its well-known place, one look at
    /// the mount table per second, for at most thirty seconds.
    pub fn standard() -> (config: GuestConfig)
        ensures
            config@ == (GuestConfigView {
                workspace: WORKSPACE_PATH@,
                poll_interval_millis: POLL_INTERVAL_MILLIS as nat,
                mount_timeout_millis: MOUNT_TIMEOUT_MILLIS as nat,
            }),
    {
        GuestConfig {
            workspace: String::from_str(WORKSPACE_PATH),
            poll_interval_millis: POLL_INTERVAL_MILLIS,
            mount_timeout_millis: MOUNT_TIMEOUT_MILLIS,
        }
    }
}

impl GuestConfig {
    /// Where the task descriptor is found.
    pub fn task_file(&self) -> (path: String)
        ensures
            path@ == joined(self@.workspace, TASK_FILE_NAME@),
    {
        join_path(self.workspace.as_str(), TASK_FILE_NAME)
    }

    /// Where the result envelope goes.
    pub fn task_result_file(&self) -> (path: String)
        ensures
            path@ == joined(self@.workspace, TASK_RESULT_FILE_NAME@),
    {
        join_path(self.workspace.as_str(), TASK_RESULT_FILE_NAME)
    }
}

/// Why a guest gave up.
#[derive(Clone, Copy, Debug, PartialEq, Eq, Structural)]
pub enum GuestError {
    /// The workspace was not mounted in time.
    MountTimeout,
    /// The mount table could not be read, so nothing is known of the mount.
    MountTableUnreadable,
    /// The task descriptor could not be opened or read.
    DescriptorUnreadable,
    /// The task descriptor does not decode to a task.
    DecodeError,
    /// The workspace already holds a result envelope.
    ResultExists,
    /// The result envelope could not be written.
    ResultUnwritable,
    /// An event was reported that answers no action of the state it came in.
    OutOfTurn,
}

/// Where a guest stands.
#[derive(Clone, Copy, Debug, PartialEq, Eq, Structural)]
pub enum GuestState {
    /// Waiting for the workspace to show in the mount table.
    AwaitingMount,
    /// The workspace is mounted; the task descriptor is being loaded.
    LoadingDescriptor,
    /// The callback runs on the loaded task.
    CallbackRunning,
    /// The callback's outcome is being written to the workspace.
    PersistingResult,
    /// The outcome is in the workspace: the guest is done.
    ResultPersisted,
    /// The guest gave up.
    Failed(GuestError),
}

/// What the driver reports to the machine.
#[derive(Debug, PartialEq, Eq)]
pub enum GuestEvent {
    /// The time since the wait for the mount began.
    Elapsed { nanos: u128 },
    /// The text of the mount table.
    MountTable(String),
    /// The mount table could not be read.
    MountTableUnreadable,
    /// The task descriptor, read and decoded.
    DescriptorLoaded(Task),
    /// The task descriptor could not be opened or read.
    DescriptorUnreadable,
    /// The task descriptor was read but does not decode.
    DescriptorMalformed,
    /// The callback returned.
    CallbackReturned(TaskOutcome),
    /// The result envelope was created, written and flushed.
    ResultWritten,
    /// The result envelope was not created because one exists already.
    ResultExists,
    /// Creating or writing the result envelope failed otherwise.
    ResultUnwritable,
}

/// Mathematical value of a [`GuestEvent`].
pub enum GuestEventView {
    Elapsed { nanos: nat },
    MountTable(Seq<char>),
    MountTableUnreadable,
    DescriptorLoaded(TaskView),
    DescriptorUnreadable,
    DescriptorMalformed,
    CallbackReturned(TaskOutcomeView),
    ResultWritten,
    ResultExists,
    ResultUnwritable,
}

impl View for GuestEvent {
    type V = GuestEventView;

    open spec fn view(&self) -> GuestEventView {
        match *self {
            GuestEvent::Elapsed { nanos } => GuestEventView::Elapsed { nanos: nanos as nat },
            GuestEvent::MountTable(text) => GuestEventView::MountTable(text@),
            GuestEvent::MountTableUnreadable => GuestEventView::MountTableUnreadable,
            GuestEvent::DescriptorLoaded(task) => GuestEventView::DescriptorLoaded(task@),
            GuestEvent::DescriptorUnreadable => GuestEventView::DescriptorUnreadable,
            GuestEvent::DescriptorMalformed => GuestEventView::DescriptorMalformed,
            GuestEvent::CallbackReturned(outcome) => GuestEventView::CallbackReturned(
                outcome_view(outcome),
            ),
            GuestEvent::ResultWritten => GuestEventView::ResultWritten,
            GuestEvent::ResultExists => GuestEventView::ResultExists,
            GuestEvent::ResultUnwritable => GuestEventView::ResultUnwritable,
        }
    }
}

/// What the machine asks of the driver.
#[derive(Debug, PartialEq, Eq)]
pub enum GuestAction {
    /// Report the time since the wait began, as [`GuestEvent::Elapsed`].
    ReadClock,
    /// Read the mount table and report its text.
    ReadMountTable,
    /// Sleep for so many milliseconds, then report the time since the wait
    /// began.
    Sleep { millis: u64 },
    /// Open the task descriptor in the workspace, decode it and report the
    /// task.
    LoadDescriptor,
    /// Run the callback on the task given here and report what it returned.
    RunCallback(Task),
    /// Create the result envelope in the workspace, failing if it exists;
    /// write this outcome to it and flush; report how that went.
    PersistResult(TaskOutcome),
    /// Nothing is left to do: the outcome is in the workspace.
    Finish,
    /// Nothing can be done any more: give up for this reason.
    Abort(GuestError),
}

/// Mathematical value of a [`GuestAction`].
pub enum GuestActionView {
    ReadClock,
    ReadMountTable,
    Sleep { millis: nat },
    LoadDescriptor,
    RunCallback(TaskView),
    PersistResult(TaskOutcomeView),
    Finish,
    Abort(GuestError),
}

impl View for GuestAction {
    type V = GuestActionView;

    open spec fn view(&self) -> GuestActionView {
        match *self {
            GuestAction::ReadClock => GuestActionView::ReadClock,
            GuestAction::ReadMountTable => GuestActionView::ReadMountTable,
            GuestAction::Sleep { millis } => GuestActionView::Sleep { millis: millis as nat },
            GuestAction::LoadDescriptor => GuestActionView::LoadDescriptor,
            GuestAction::RunCallback(task) => GuestActionView::RunCallback(task@),
            GuestAction::PersistResult(outcome) => GuestActionView::PersistResult(
                outcome_view(outcome),
            ),
            GuestAction::Finish => GuestActionView::Finish,
            GuestAction::Abort(error) => GuestActionView::Abort(error),
        }
    }
}

/// The state and the action that follow when a guest gives up.
pub open spec fn failure(error: GuestError) -> (GuestState, GuestActionView) {
    (GuestState::Failed(error), GuestActionView::Abort(error))
}

/// The transition of the machine: the state that follows `state` when
/// `event` is reported, and the action asked for.
///
/// While the guest waits for the mount, a reading of the clock beyond the
/// timeout ends the run, and any other has the mount table read. A table
/// that shows the workspace has the descriptor loaded; any other puts the
/// guest to sleep for one interval. The loaded task goes to the callback, and
/// what the callback returns, result or error, goes to the workspace as it
/// is. A failure to read or write ends the run, and so does an event that
/// answers none of the state's actions. Once the run has ended nothing
/// changes any more.
pub open spec fn transition(config: GuestConfigView, state: GuestState, event: GuestEventView) -> (
    GuestState,
    GuestActionView,
) {
    match state {
        GuestState::AwaitingMount => match event {
            GuestEventView::Elapsed { nanos } => if nanos > config.mount_timeout_nanos() {
                failure(GuestError::MountTimeout)
            } else {
                (GuestState::AwaitingMount, GuestActionView::ReadMountTable)
            },
            GuestEventView::MountTable(table) => if mounted(table, config.workspace) {
                (GuestState::LoadingDescriptor, GuestActionView::LoadDescriptor)
            } else {
                (
                    GuestState::AwaitingMount,
                    GuestActionView::Sleep { millis: config.poll_interval_millis },
                )
            },
            GuestEventView::MountTableUnreadable => failure(GuestError::MountTableUnreadable),
            _ => failure(GuestError::OutOfTurn),
        },
        GuestState::LoadingDescriptor => match event {
            GuestEventView::DescriptorLoaded(task) => (
                GuestState::CallbackRunning,
                GuestActionView::RunCallback(task),
            ),
            GuestEventView::DescriptorUnreadable => failure(GuestError::DescriptorUnreadable),
            GuestEventView::DescriptorMalformed => failure(GuestError::DecodeError),
            _ => failure(GuestError::OutOfTurn),
        },
        GuestState::CallbackRunning => match event {
            GuestEventView::CallbackReturned(outcome) => (
                GuestState::PersistingResult,
                GuestActionView::PersistResult(outcome),
            ),
            _ => failure(GuestError::OutOfTurn),
        },
        GuestState::PersistingResult => match event {
            GuestEventView::ResultWritten => (GuestState::ResultPersisted, GuestActionView::Finish),
            GuestEventView::ResultExists => failure(GuestError::ResultExists),
            GuestEventView::ResultUnwritable => failure(GuestError::ResultUnwritable),
            _ => failure(GuestError::OutOfTurn),
        },
        GuestState::ResultPersisted => (GuestState::ResultPersisted, GuestActionView::Finish),
        GuestState::Failed(error) => failure(error),
    }
}

/// The state in which every run starts.
pub fn initial_state() -> (state: GuestState)
    ensures
        state == GuestState::AwaitingMount,
{
    GuestState::AwaitingMount
}

/// The action with which every run starts.
pub fn initial_action() -> (action: GuestAction)
    ensures
        action@ == GuestActionView::ReadClock,
{
    GuestAction::ReadClock
}

/// The state and the action for a guest that gives up.
fn fail(error: GuestError) -> (next: (GuestState, GuestAction))
    ensures
        (next.0, next.1@) == failure(error),
{
    (GuestState::Failed(error), GuestAction::Abort(error))
}

/// Takes the machine one step: from `state`, on `event`, to the next state
/// and the action to perform.
pub fn step(config: &GuestConfig, state: GuestState, event: GuestEvent) -> (next: (
    GuestState,
    GuestAction,
))
    ensures
        (next.0, next.1@) == transition(config@, state, event@),
{
    match state {
        GuestState::AwaitingMount => match event {
            GuestEvent::Elapsed { nanos } => {
                let timeout: u128 = (config.mount_timeout_millis as u128) * NANOS_PER_MILLI;
                if nanos > timeout {
                    fail(GuestError::MountTimeout)
                } else {
                    (GuestState::AwaitingMount, GuestAction::ReadMountTable)
                }
            },
            GuestEvent::MountTable(table) => {
                if mount_present(table.as_str(), config.workspace.as_str()) {
                    (GuestState::LoadingDescriptor, GuestAction::LoadDescriptor)
                } else {
                    (
                        GuestState::AwaitingMount,
                        GuestAction::Sleep { millis: config.poll_interval_millis },
                    )
                }
            },
            GuestEvent::MountTableUnreadable => fail(GuestError::MountTableUnreadable),
            _ => fail(GuestError::OutOfTurn),
        },
        GuestState::LoadingDescriptor => match event {
            GuestEvent::DescriptorLoaded(task) => (
                GuestState::CallbackRunning,
                GuestAction::RunCallback(task),
            ),
            GuestEvent::DescriptorUnreadable => fail(GuestError::DescriptorUnreadable),
            GuestEvent::DescriptorMalformed => fail(GuestError::DecodeError),
            _ => fail(GuestError::OutOfTurn),
        },
        GuestState::CallbackRunning => match event {
            GuestEvent::CallbackReturned(outcome) => (
                GuestState::PersistingResult,
                GuestAction::PersistResult(outcome),
            ),
            _ => fail(GuestError::OutOfTurn),
        },
        GuestState::PersistingResult => match event {
            GuestEvent::ResultWritten => (GuestState::ResultPersisted, GuestAction::Finish),
            GuestEvent::ResultExists => fail(GuestError::ResultExists),
            GuestEvent::ResultUnwritable => fail(GuestError::ResultUnwritable),
            _ => fail(GuestError::OutOfTurn),
        },
        GuestState::ResultPersisted => (GuestState::ResultPersisted, GuestAction::Finish),
        GuestState::Failed(error) => fail(error),
    }
}

} // verus!
