//! What holds of every run of the host's machine.

use vstd::prelude::*;
use crate::config::ConfigView;
use crate::descriptor::TaskOutcomeView;
use crate::host::{
    confirmed, transition, HostActionView, HostError, HostEventView, HostState, PreflightStep,
};
use crate::launcher::vm_arguments_of;

verus! {

/// The state of a host that started and was then told `events`, in order.
pub open spec fn state_after(config: ConfigView, events: Seq<HostEventView>) -> HostState
    decreases events.len(),
{
    if events.len() == 0 {
        HostState::PreflightCheck(PreflightStep::Workspace)
    } else {
        transition(config, state_after(config, events.drop_last()), events.last()).0
    }
}

/// The action with which a host that started answers the last of `events`;
/// with no event yet, the action that every run starts with.
pub open spec fn action_after(config: ConfigView, events: Seq<HostEventView>) -> HostActionView {
    if events.len() == 0 {
        HostActionView::CheckWorkspace
    } else {
        transition(config, state_after(config, events.drop_last()), events.last()).1
    }
}

/// How often a host that started and was told `events` asked for the task
/// descriptor to be written.
pub open spec fn descriptors(config: ConfigView, events: Seq<HostEventView>) -> nat
    decreases events.len(),
{
    if events.len() == 0 {
        0
    } else if action_after(config, events) is WriteDescriptor {
        descriptors(config, events.drop_last()) + 1
    } else {
        descriptors(config, events.drop_last())
    }
}

/// How often a host that started and was told `events` asked for the guest
/// to be started.
pub open spec fn launches(config: ConfigView, events: Seq<HostEventView>) -> nat
    decreases events.len(),
{
    if events.len() == 0 {
        0
    } else if action_after(config, events) is LaunchVm {
        launches(config, events.drop_last()) + 1
    } else {
        launches(config, events.drop_last())
    }
}

/// Whether `events` begin with a workspace that has passed the checks: it
/// exists, and it holds no earlier result, or held one that was removed
/// after the operator had agreed.
pub open spec fn cleared(events: Seq<HostEventView>) -> bool {
    &&& events.len() >= 2
    &&& events[0] == (HostEventView::WorkspaceChecked { exists: true })
    &&& {
        ||| events[1] == (HostEventView::StaleResultChecked { present: false })
        ||| {
            &&& events.len() >= 4
            &&& events[1] == (HostEventView::StaleResultChecked { present: true })
            &&& events[2] matches HostEventView::Answer(answer)
            &&& confirmed(answer)
            &&& events[3] == HostEventView::StaleResultRemoved
        }
    }
}

/// The events of a run on a workspace that holds no earlier result, in which
/// the guest exits with `code` and leaves `outcome` behind.
pub open spec fn clean_run(code: Option<i32>, outcome: TaskOutcomeView) -> Seq<HostEventView> {
    seq![
        HostEventView::WorkspaceChecked { exists: true },
        HostEventView::StaleResultChecked { present: false },
        HostEventView::DescriptorWritten,
        HostEventView::VmExited { code },
        HostEventView::ResultLoaded(outcome),
    ]
}

/// What a host knows of the events so far, by the state it is in.
spec fn stands_on(config: ConfigView, events: Seq<HostEventView>) -> bool {
    match state_after(config, events) {
        HostState::PreflightCheck(PreflightStep::Workspace) => events.len() == 0,
        HostState::PreflightCheck(PreflightStep::StaleResult) => {
            &&& events.len() == 1
            &&& events[0] == (HostEventView::WorkspaceChecked { exists: true })
        },
        HostState::PreflightCheck(PreflightStep::Confirmation) => {
            &&& events.len() == 2
            &&& events[0] == (HostEventView::WorkspaceChecked { exists: true })
            &&& events[1] == (HostEventView::StaleResultChecked { present: true })
        },
        HostState::PreflightCheck(PreflightStep::Removal) => {
            &&& events.len() == 3
            &&& events[0] == (HostEventView::WorkspaceChecked { exists: true })
            &&& events[1] == (HostEventView::StaleResultChecked { present: true })
            &&& events[2] matches HostEventView::Answer(answer)
            &&& confirmed(answer)
        },
        HostState::WritingDescriptor
        | HostState::VmRunning
        | HostState::CollectingResult
        | HostState::ResultCollected => cleared(events),
        HostState::Aborted(_) => true,
    }
}

/// Every run keeps to [`stands_on`], and has asked for the descriptor only
/// on a workspace that passed the checks.
proof fn lemma_stands_on(config: ConfigView, events: Seq<HostEventView>)
    ensures
        stands_on(config, events),
        descriptors(config, events) >= 1 ==> cleared(events),
    decreases events.len(),
{
    if events.len() > 0 {
        let earlier = events.drop_last();
        lemma_stands_on(config, earlier);
        assert(forall|i: int| 0 <= i < earlier.len() ==> earlier[i] == events[i]);
    }
}

/// Nothing is written to a workspace that has not passed the checks:
/// whatever a host is told, once it has asked for the descriptor to be
/// written the workspace was found to exist, and to hold no earlier result
/// or one that the operator allowed to be removed, and that was removed.
pub proof fn lemma_descriptor_needs_cleared_workspace(
    config: ConfigView,
    events: Seq<HostEventView>,
)
    requires
        descriptors(config, events) >= 1,
    ensures
        cleared(events),
{
    lemma_stands_on(config, events);
}

/// Whatever a host is told, it asks for the descriptor to be written at most
/// once and for the guest to be started at most once, and never for the
/// second before the first: the guest finds exactly one descriptor, which
/// is not touched again.
pub proof fn lemma_one_descriptor_then_one_launch(config: ConfigView, events: Seq<HostEventView>)
    ensures
        launches(config, events) <= descriptors(config, events) <= 1,
        match state_after(config, events) {
            HostState::PreflightCheck(_) => descriptors(config, events) == 0,
            HostState::WritingDescriptor => descriptors(config, events) == 1 && launches(
                config,
                events,
            ) == 0,
            HostState::VmRunning
            | HostState::CollectingResult
            | HostState::ResultCollected => launches(config, events) == 1,
            HostState::Aborted(_) => true,
        },
    decreases events.len(),
{
    if events.len() > 0 {
        lemma_one_descriptor_then_one_launch(config, events.drop_last());
    }
}

/// The exit code of the guest decides nothing: the host goes on in the same
/// way whatever it is.
pub proof fn lemma_exit_code_decides_nothing(
    config: ConfigView,
    state: HostState,
    code: Option<i32>,
    other: Option<i32>,
)
    ensures
        transition(config, state, HostEventView::VmExited { code }) == transition(
            config,
            state,
            HostEventView::VmExited { code: other },
        ),
{
}

/// On a workspace without an earlier result the host writes the task of its
/// configuration, starts the guest with the arguments made from that
/// configuration, and ends with what the guest left behind: a result is
/// delivered as it is, and the message of a failed callback is reported as
/// it is.
pub proof fn lemma_clean_run(config: ConfigView, code: Option<i32>, outcome: TaskOutcomeView)
    ensures
        action_after(config, clean_run(code, outcome).take(2)) == HostActionView::WriteDescriptor(
            config.task(),
        ),
        action_after(config, clean_run(code, outcome).take(3)) == HostActionView::LaunchVm(
            vm_arguments_of(config),
        ),
        action_after(config, clean_run(code, outcome).take(4)) == HostActionView::CollectResult,
        match outcome {
            Ok(result) => {
                &&& action_after(config, clean_run(code, outcome)) == HostActionView::Deliver(
                    result,
                )
                &&& state_after(config, clean_run(code, outcome)) == HostState::ResultCollected
            },
            Err(message) => {
                &&& action_after(config, clean_run(code, outcome)) == HostActionView::ReportFailure(
                    message,
                )
                &&& state_after(config, clean_run(code, outcome)) == HostState::Aborted(
                    HostError::CallbackFailed,
                )
            },
        },
{
    let run = clean_run(code, outcome);
    assert(run.take(1).drop_last() == run.take(0));
    assert(run.take(2).drop_last() == run.take(1));
    assert(run.take(3).drop_last() == run.take(2));
    assert(run.take(4).drop_last() == run.take(3));
    assert(run.drop_last() == run.take(4));
    assert(state_after(config, run.take(0)) == HostState::PreflightCheck(PreflightStep::Workspace));
    assert(state_after(config, run.take(1)) == HostState::PreflightCheck(
        PreflightStep::StaleResult,
    ));
    assert(state_after(config, run.take(2)) == HostState::WritingDescriptor);
    assert(state_after(config, run.take(3)) == HostState::VmRunning);
    assert(state_after(config, run.take(4)) == HostState::CollectingResult);
}

/// A result from an earlier run stops the host unless the operator agrees:
/// on any answer but `yes` the host gives up and asks for nothing to be
/// removed or written.
pub proof fn lemma_stale_result_needs_consent(config: ConfigView, answer: Seq<char>)
    ensures
        ({
            let asked = seq![
                HostEventView::WorkspaceChecked { exists: true },
                HostEventView::StaleResultChecked { present: true },
            ];
            let answered = asked.push(HostEventView::Answer(answer));
            &&& action_after(config, asked) == HostActionView::AskConfirmation
            &&& confirmed(answer) ==> action_after(config, answered)
                == HostActionView::RemoveStaleResult
            &&& !confirmed(answer) ==> {
                &&& action_after(config, answered) == HostActionView::Abort(
                    HostError::StaleResultDeclined,
                )
                &&& state_after(config, answered) == HostState::Aborted(
                    HostError::StaleResultDeclined,
                )
                &&& descriptors(config, answered) == 0
            }
        }),
{
    let asked = seq![
        HostEventView::WorkspaceChecked { exists: true },
        HostEventView::StaleResultChecked { present: true },
    ];
    let answered = asked.push(HostEventView::Answer(answer));
    let checked = asked.drop_last();
    assert(answered.drop_last() == asked);
    assert(checked.drop_last() == Seq::<HostEventView>::empty());
    assert(state_after(config, checked.drop_last()) == HostState::PreflightCheck(
        PreflightStep::Workspace,
    ));
    assert(state_after(config, checked) == HostState::PreflightCheck(PreflightStep::StaleResult));
    assert(state_after(config, asked) == HostState::PreflightCheck(PreflightStep::Confirmation));
    lemma_one_descriptor_then_one_launch(config, asked);
}

/// Once a run has ended, in success or in failure, no event changes its
/// state.
pub proof fn lemma_ended_run_stays(
    config: ConfigView,
    events: Seq<HostEventView>,
    event: HostEventView,
)
    requires
        state_after(config, events) is ResultCollected || state_after(config, events) is Aborted,
    ensures
        state_after(config, events.push(event)) == state_after(config, events),
{
    assert(events.push(event).drop_last() == events);
}

} // verus!
