//! The two machines joined by the workspace.
//!
//! Host and guest never talk to each other. What links them is that the
//! guest loads the descriptor that the host wrote, and that the host loads
//! the envelope that the guest wrote. The laws here follow one task through
//! both machines under that reading of the workspace.

use vstd::prelude::*;
use crate::config::ConfigView;
use crate::descriptor::TaskOutcomeView;
use crate::guest::{GuestActionView, GuestConfigView, GuestState};
use crate::guest_laws::{full_run, Reading};
use crate::host::{HostActionView, HostError, HostState};
use crate::host_laws::clean_run;

verus! {

/// How a host ends a run in which the guest left `outcome` behind: with the
/// result, or with the message of the callback's error.
pub open spec fn conclusion(outcome: TaskOutcomeView) -> (HostState, HostActionView) {
    match outcome {
        Ok(result) => (HostState::ResultCollected, HostActionView::Deliver(result)),
        Err(message) => (
            HostState::Aborted(HostError::CallbackFailed),
            HostActionView::ReportFailure(message),
        ),
    }
}

/// One task from the host's caller to the callback and back.
///
/// The host, on a workspace without an earlier result, writes a descriptor
/// and starts the guest. The guest sees the workspace mounted in time, loads
/// what the host wrote and runs the callback on it, which returns `outcome`.
/// The guest writes what the callback returned, and the host, whatever the
/// guest's exit code, loads what the guest wrote.
///
/// Then the callback was run on the task of the host's configuration, the
/// envelope was written once and holds `outcome`, and the host ends with
/// `outcome`: a result is delivered unchanged, an error's message is
/// reported unchanged.
pub proof fn lemma_hand_off(
    host: ConfigView,
    guest: GuestConfigView,
    readings: Seq<Reading>,
    sighting: Reading,
    code: Option<i32>,
    outcome: TaskOutcomeView,
)
    requires
        forall|i: int| 0 <= i < readings.len() ==> (#[trigger] readings[i]).idle(guest),
        sighting.in_time(guest),
        sighting.shows_mount(guest),
    ensures
        ({
            let probe = clean_run(code, outcome);
            let written = crate::host_laws::action_after(host, probe.take(2));
            let guest_run = full_run(readings, sighting, written->WriteDescriptor_0, outcome);
            let invoked = crate::guest_laws::action_after(guest, guest_run.drop_last().drop_last());
            let persisted = crate::guest_laws::action_after(guest, guest_run.drop_last());
            let host_run = clean_run(code, persisted->PersistResult_0);
            &&& written is WriteDescriptor
            &&& invoked == GuestActionView::RunCallback(host.task())
            &&& persisted == GuestActionView::PersistResult(outcome)
            &&& crate::guest_laws::writes(guest, guest_run) == 1
            &&& crate::guest_laws::state_after(guest, guest_run) == GuestState::ResultPersisted
            &&& (
                crate::host_laws::state_after(host, host_run),
                crate::host_laws::action_after(host, host_run),
            ) == conclusion(outcome)
        }),
{
    crate::host_laws::lemma_clean_run(host, code, outcome);
    let task = host.task();
    crate::guest_laws::lemma_outcome_is_persisted(guest, readings, sighting, task, outcome);
    crate::guest_laws::lemma_result_written_at_most_once(
        guest,
        full_run(readings, sighting, task, outcome),
    );
}

} // verus!
