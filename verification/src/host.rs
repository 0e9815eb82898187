//! The host's side of the hand-off, as a state machine.
//!
//! The host checks the workspace, leaves the task descriptor in it, starts
//! the guest, waits for it to shut down and collects the outcome. As on the
//! guest's side the machine only decides: it is told what happened, as a
//! [`HostEvent`], and answers with a [`HostAction`] for its driver.
//!
//! A run starts in the first step of [`HostState::PreflightCheck`] with the
//! action [`HostAction::CheckWorkspace`].

use vstd::prelude::*;
use vstd::string::*;
use crate::config::{Config, ConfigView};
use crate::descriptor::{
    outcome_view, Task, TaskOutcome, TaskOutcomeView, TaskResult, TaskResultView, TaskView,
};
use crate::launcher::{vm_arguments, vm_arguments_of};
use crate::text::{chars_of, stands_at};

verus! {

/// Whether the operator's `answer` allows a stale result to be removed: its
/// first line, without the line ending, is the word `yes`.
pub open spec fn confirmed(answer: Seq<char>) -> bool {
    ||| answer == "yes"@
    ||| "yes\n"@.is_prefix_of(answer)
    ||| "yes\r\n"@.is_prefix_of(answer)
}

/// Tells whether the operator's `answer` allows a stale result to be
/// removed.
pub fn confirms(answer: &str) -> (granted: bool)
    ensures
        granted == confirmed(answer@),
{
    let given = chars_of(answer);
    let plain = chars_of("yes");
    let with_feed = chars_of("yes\n");
    let with_return = chars_of("yes\r\n");
    proof {
        reveal_strlit("yes");
        reveal_strlit("yes\n");
        reveal_strlit("yes\r\n");
    }
    if given.len() == 3 && stands_at(&given, &plain, 0) {
        assert(given@.subrange(0, 3) =~= given@);
        return true;
    }
    if given.len() >= 4 && stands_at(&given, &with_feed, 0) {
        return true;
    }
    if given.len() >= 5 && stands_at(&given, &with_return, 0) {
        return true;
    }
    proof {
        if answer@ == "yes"@ {
            assert(given@.subrange(0, 3) =~= given@);
        }
    }
    false
}

/// Why a host gave up.
#[derive(Clone, Copy, Debug, PartialEq, Eq, Structural)]
pub enum HostError {
    /// The workspace directory does not exist.
    MissingWorkspace,
    /// The workspace holds a result from an earlier run, and the operator
    /// did not allow its removal.
    StaleResultDeclined,
    /// The operator could not be asked, or the answer could not be read.
    ConfirmationUnreadable,
    /// The stale result could not be removed.
    StaleResultUnremovable,
    /// The task descriptor could not be written.
    DescriptorUnwritable,
    /// The guest left no result: it could not be started, or it shut down
    /// before it wrote one.
    MissingResult,
    /// The guest left a result that does not decode.
    DecodeError,
    /// The guest ran, and the callback failed.
    CallbackFailed,
    /// An event was reported that answers no action of the state it came in.
    OutOfTurn,
}

/// A step of the checks that come before anything is written.
#[derive(Clone, Copy, Debug, PartialEq, Eq, Structural)]
pub enum PreflightStep {
    /// Is the workspace there?
    Workspace,
    /// Does it hold a result from an earlier run?
    StaleResult,
    /// The operator is asked whether that result may be removed.
    Confirmation,
    /// That result is being removed.
    Removal,
}

/// Where a host stands.
#[derive(Clone, Copy, Debug, PartialEq, Eq, Structural)]
pub enum HostState {
    /// The workspace is being checked.
    PreflightCheck(PreflightStep),
    /// The task descriptor is being written.
    WritingDescriptor,
    /// The guest runs.
    VmRunning,
    /// The guest has shut down; its result is being read.
    CollectingResult,
    /// The callback's result is in the host's hands: the host is done.
    ResultCollected,
    /// The host gave up.
    Aborted(HostError),
}

/// What the driver reports to the machine.
#[derive(Debug, PartialEq, Eq)]
pub enum HostEvent {
    /// Whether the workspace directory exists.
    WorkspaceChecked { exists: bool },
    /// Whether the workspace holds a result envelope.
    StaleResultChecked { present: bool },
    /// What the operator answered, as it was typed.
    Answer(String),
    /// The operator could not be asked, or gave no answer that could be read.
    AnswerUnreadable,
    /// The stale result is gone.
    StaleResultRemoved,
    /// The stale result could not be removed.
    StaleResultUnremovable,
    /// The task descriptor was written and flushed.
    DescriptorWritten,
    /// The task descriptor could not be written.
    DescriptorUnwritable,
    /// The guest shut down, with this exit code if it had one.
    VmExited { code: Option<i32> },
    /// The guest could not be started.
    VmLaunchFailed,
    /// The result envelope, read and decoded.
    ResultLoaded(TaskOutcome),
    /// There is no result envelope, or it could not be read.
    ResultMissing,
    /// The result envelope was read but does not decode.
    ResultMalformed,
}

/// Mathematical value of a [`HostEvent`].
pub enum HostEventView {
    WorkspaceChecked { exists: bool },
    StaleResultChecked { present: bool },
    Answer(Seq<char>),
    AnswerUnreadable,
    StaleResultRemoved,
    StaleResultUnremovable,
    DescriptorWritten,
    DescriptorUnwritable,
    VmExited { code: Option<i32> },
    VmLaunchFailed,
    ResultLoaded(TaskOutcomeView),
    ResultMissing,
    ResultMalformed,
}

impl View for HostEvent {
    type V = HostEventView;

    open spec fn view(&self) -> HostEventView {
        match *self {
            HostEvent::WorkspaceChecked { exists } => HostEventView::WorkspaceChecked { exists },
            HostEvent::StaleResultChecked { present } => HostEventView::StaleResultChecked {
                present,
            },
            HostEvent::Answer(text) => HostEventView::Answer(text@),
            HostEvent::AnswerUnreadable => HostEventView::AnswerUnreadable,
            HostEvent::StaleResultRemoved => HostEventView::StaleResultRemoved,
            HostEvent::StaleResultUnremovable => HostEventView::StaleResultUnremovable,
            HostEvent::DescriptorWritten => HostEventView::DescriptorWritten,
            HostEvent::DescriptorUnwritable => HostEventView::DescriptorUnwritable,
            HostEvent::VmExited { code } => HostEventView::VmExited { code },
            HostEvent::VmLaunchFailed => HostEventView::VmLaunchFailed,
            HostEvent::ResultLoaded(outcome) => HostEventView::ResultLoaded(outcome_view(outcome)),
            HostEvent::ResultMissing => HostEventView::ResultMissing,
            HostEvent::ResultMalformed => HostEventView::ResultMalformed,
        }
    }
}

/// What the machine asks of the driver.
#[derive(Debug, PartialEq, Eq)]
pub enum HostAction {
    /// Report whether the workspace directory exists.
    CheckWorkspace,
    /// Report whether the workspace holds a result envelope.
    CheckStaleResult,
    /// Ask the operator whether the stale result may be removed, and report
    /// the answer.
    AskConfirmation,
    /// Remove the stale result and report how that went.
    RemoveStaleResult,
    /// Write the task given here to the task descriptor, flush, and report how that
    /// went.
    WriteDescriptor(Task),
    /// Start the hypervisor with these arguments, wait until it exits, and
    /// report that.
    LaunchVm(Vec<String>),
    /// Read and decode the result envelope, and report it.
    CollectResult,
    /// Hand this result to the caller: the run succeeded.
    Deliver(TaskResult),
    /// Report to the caller that the callback failed with this message.
    ReportFailure(String),
    /// Give up for this reason.
    Abort(HostError),
    /// Nothing is left to do: the result has been delivered.
    Rest,
}

/// Mathematical value of a [`HostAction`].
pub enum HostActionView {
    CheckWorkspace,
    CheckStaleResult,
    AskConfirmation,
    RemoveStaleResult,
    WriteDescriptor(TaskView),
    LaunchVm(Seq<Seq<char>>),
    CollectResult,
    Deliver(TaskResultView),
    ReportFailure(Seq<char>),
    Abort(HostError),
    Rest,
}

impl View for HostAction {
    type V = HostActionView;

    open spec fn view(&self) -> HostActionView {
        match *self {
            HostAction::CheckWorkspace => HostActionView::CheckWorkspace,
            HostAction::CheckStaleResult => HostActionView::CheckStaleResult,
            HostAction::AskConfirmation => HostActionView::AskConfirmation,
            HostAction::RemoveStaleResult => HostActionView::RemoveStaleResult,
            HostAction::WriteDescriptor(task) => HostActionView::WriteDescriptor(task@),
            HostAction::LaunchVm(args) => HostActionView::LaunchVm(args.deep_view()),
            HostAction::CollectResult => HostActionView::CollectResult,
            HostAction::Deliver(result) => HostActionView::Deliver(result@),
            HostAction::ReportFailure(message) => HostActionView::ReportFailure(message@),
            HostAction::Abort(error) => HostActionView::Abort(error),
            HostAction::Rest => HostActionView::Rest,
        }
    }
}

/// The state and the action that follow when a host gives up.
pub open spec fn failure(error: HostError) -> (HostState, HostActionView) {
    (HostState::Aborted(error), HostActionView::Abort(error))
}

/// The state and the action of a host that goes on to write the descriptor.
pub open spec fn describe(config: ConfigView) -> (HostState, HostActionView) {
    (HostState::WritingDescriptor, HostActionView::WriteDescriptor(config.task()))
}

/// The transition of the machine: the state that follows `state` when
/// `event` is reported, and the action asked for.
///
/// Without a workspace the host gives up. A result from an earlier run must
/// go before anything is written: the operator is asked, and unless the
/// answer is `yes` the host gives up. Then the task of `config` is written,
/// and after that the guest is started. When the guest has shut down,
/// whatever its exit code, the result is read: a result is delivered, the
/// message of a failed callback is reported as it is, and a missing or
/// undecodable envelope is told apart from both. A failure to read or write
/// ends the run, and so does an event that answers none of the state's
/// actions. Once the run has ended nothing changes any more.
pub open spec fn transition(config: ConfigView, state: HostState, event: HostEventView) -> (
    HostState,
    HostActionView,
) {
    match state {
        HostState::PreflightCheck(PreflightStep::Workspace) => match event {
            HostEventView::WorkspaceChecked { exists } => if exists {
                (
                    HostState::PreflightCheck(PreflightStep::StaleResult),
                    HostActionView::CheckStaleResult,
                )
            } else {
                failure(HostError::MissingWorkspace)
            },
            _ => failure(HostError::OutOfTurn),
        },
        HostState::PreflightCheck(PreflightStep::StaleResult) => match event {
            HostEventView::StaleResultChecked { present } => if present {
                (
                    HostState::PreflightCheck(PreflightStep::Confirmation),
                    HostActionView::AskConfirmation,
                )
            } else {
                describe(config)
            },
            _ => failure(HostError::OutOfTurn),
        },
        HostState::PreflightCheck(PreflightStep::Confirmation) => match event {
            HostEventView::Answer(answer) => if confirmed(answer) {
                (
                    HostState::PreflightCheck(PreflightStep::Removal),
                    HostActionView::RemoveStaleResult,
                )
            } else {
                failure(HostError::StaleResultDeclined)
            },
            HostEventView::AnswerUnreadable => failure(HostError::ConfirmationUnreadable),
            _ => failure(HostError::OutOfTurn),
        },
        HostState::PreflightCheck(PreflightStep::Removal) => match event {
            HostEventView::StaleResultRemoved => describe(config),
            HostEventView::StaleResultUnremovable => failure(HostError::StaleResultUnremovable),
            _ => failure(HostError::OutOfTurn),
        },
        HostState::WritingDescriptor => match event {
            HostEventView::DescriptorWritten => (
                HostState::VmRunning,
                HostActionView::LaunchVm(vm_arguments_of(config)),
            ),
            HostEventView::DescriptorUnwritable => failure(HostError::DescriptorUnwritable),
            _ => failure(HostError::OutOfTurn),
        },
        HostState::VmRunning => match event {
            HostEventView::VmExited { code } => (
                HostState::CollectingResult,
                HostActionView::CollectResult,
            ),
            HostEventView::VmLaunchFailed => failure(HostError::MissingResult),
            _ => failure(HostError::OutOfTurn),
        },
        HostState::CollectingResult => match event {
            HostEventView::ResultLoaded(Ok(result)) => (
                HostState::ResultCollected,
                HostActionView::Deliver(result),
            ),
            HostEventView::ResultLoaded(Err(message)) => (
                HostState::Aborted(HostError::CallbackFailed),
                HostActionView::ReportFailure(message),
            ),
            HostEventView::ResultMissing => failure(HostError::MissingResult),
            HostEventView::ResultMalformed => failure(HostError::DecodeError),
            _ => failure(HostError::OutOfTurn),
        },
        HostState::ResultCollected => (HostState::ResultCollected, HostActionView::Rest),
        HostState::Aborted(error) => failure(error),
    }
}

/// The state in which every run starts.
pub fn initial_state() -> (state: HostState)
    ensures
        state == HostState::PreflightCheck(PreflightStep::Workspace),
{
    HostState::PreflightCheck(PreflightStep::Workspace)
}

/// The action with which every run starts.
pub fn initial_action() -> (action: HostAction)
    ensures
        action@ == HostActionView::CheckWorkspace,
{
    HostAction::CheckWorkspace
}

/// The state and the action for a host that gives up.
fn fail(error: HostError) -> (next: (HostState, HostAction))
    ensures
        (next.0, next.1@) == failure(error),
{
    (HostState::Aborted(error), HostAction::Abort(error))
}

/// The state and the action for a host that goes on to write the
/// descriptor.
fn write_descriptor(config: &Config) -> (next: (HostState, HostAction))
    ensures
        (next.0, next.1@) == describe(config@),
{
    (HostState::WritingDescriptor, HostAction::WriteDescriptor(config.task()))
}

/// Takes the machine one step: from `state`, on `event`, to the next state
/// and the action to perform.
pub fn step(config: &Config, state: HostState, event: HostEvent) -> (next: (HostState, HostAction))
    ensures
        (next.0, next.1@) == transition(config@, state, event@),
{
    match state {
        HostState::PreflightCheck(PreflightStep::Workspace) => match event {
            HostEvent::WorkspaceChecked { exists } => if exists {
                (
                    HostState::PreflightCheck(PreflightStep::StaleResult),
                    HostAction::CheckStaleResult,
                )
            } else {
                fail(HostError::MissingWorkspace)
            },
            _ => fail(HostError::OutOfTurn),
        },
        HostState::PreflightCheck(PreflightStep::StaleResult) => match event {
            HostEvent::StaleResultChecked { present } => if present {
                (
                    HostState::PreflightCheck(PreflightStep::Confirmation),
                    HostAction::AskConfirmation,
                )
            } else {
                write_descriptor(config)
            },
            _ => fail(HostError::OutOfTurn),
        },
        HostState::PreflightCheck(PreflightStep::Confirmation) => match event {
            HostEvent::Answer(answer) => if confirms(answer.as_str()) {
                (HostState::PreflightCheck(PreflightStep::Removal), HostAction::RemoveStaleResult)
            } else {
                fail(HostError::StaleResultDeclined)
            },
            HostEvent::AnswerUnreadable => fail(HostError::ConfirmationUnreadable),
            _ => fail(HostError::OutOfTurn),
        },
        HostState::PreflightCheck(PreflightStep::Removal) => match event {
            HostEvent::StaleResultRemoved => write_descriptor(config),
            HostEvent::StaleResultUnremovable => fail(HostError::StaleResultUnremovable),
            _ => fail(HostError::OutOfTurn),
        },
        HostState::WritingDescriptor => match event {
            HostEvent::DescriptorWritten => (
                HostState::VmRunning,
                HostAction::LaunchVm(vm_arguments(config)),
            ),
            HostEvent::DescriptorUnwritable => fail(HostError::DescriptorUnwritable),
            _ => fail(HostError::OutOfTurn),
        },
        HostState::VmRunning => match event {
            HostEvent::VmExited { code } => (HostState::CollectingResult, HostAction::CollectResult),
            HostEvent::VmLaunchFailed => fail(HostError::MissingResult),
            _ => fail(HostError::OutOfTurn),
        },
        HostState::CollectingResult => match event {
            HostEvent::ResultLoaded(Ok(result)) => (
                HostState::ResultCollected,
                HostAction::Deliver(result),
            ),
            HostEvent::ResultLoaded(Err(message)) => (
                HostState::Aborted(HostError::CallbackFailed),
                HostAction::ReportFailure(message),
            ),
            HostEvent::ResultMissing => fail(HostError::MissingResult),
            HostEvent::ResultMalformed => fail(HostError::DecodeError),
            _ => fail(HostError::OutOfTurn),
        },
        HostState::ResultCollected => (HostState::ResultCollected, HostAction::Rest),
        HostState::Aborted(error) => fail(error),
    }
}

} // verus!
