use gevulot_shim::descriptor::{Task, TaskOutcome};
use gevulot_shim::guest::{
    initial_action, initial_state, step, GuestAction, GuestConfig, GuestError, GuestEvent,
    GuestState, MOUNT_TIMEOUT_MILLIS, NANOS_PER_MILLI, POLL_INTERVAL_MILLIS,
};

const MOUNTED: &str = "proc /proc proc rw 0 0\n0 /workspace 9p rw 0 0\n";
const UNMOUNTED: &str = "proc /proc proc rw 0 0\n";
const SECOND: u128 = 1_000_000_000;

fn sample_task() -> Task {
    Task { id: "task01".to_string(), args: vec!["--x".to_string()], files: Vec::new() }
}

fn all_events() -> Vec<GuestEvent> {
    vec![
        GuestEvent::Elapsed { nanos: 0 },
        GuestEvent::MountTable(MOUNTED.to_string()),
        GuestEvent::MountTableUnreadable,
        GuestEvent::DescriptorLoaded(sample_task()),
        GuestEvent::DescriptorUnreadable,
        GuestEvent::DescriptorMalformed,
        GuestEvent::CallbackReturned(Err("boom".to_string())),
        GuestEvent::ResultWritten,
        GuestEvent::ResultExists,
        GuestEvent::ResultUnwritable,
    ]
}

#[test]
fn standard_guest_config() {
    let c = GuestConfig::standard();
    assert_eq!(c.workspace, "/workspace");
    assert_eq!(c.poll_interval_millis, 1_000);
    assert_eq!(c.mount_timeout_millis, 30_000);
    assert_eq!(POLL_INTERVAL_MILLIS, 1_000);
    assert_eq!(MOUNT_TIMEOUT_MILLIS, 30_000);
    assert_eq!(NANOS_PER_MILLI, 1_000_000);
}

#[test]
fn guest_starts_by_reading_the_clock() {
    assert_eq!(initial_state(), GuestState::AwaitingMount);
    assert_eq!(initial_action(), GuestAction::ReadClock);
}

#[test]
fn timeout_only_after_the_ceiling() {
    let c = GuestConfig::standard();
    for nanos in [0, SECOND, 29 * SECOND, 30 * SECOND] {
        assert_eq!(
            step(&c, GuestState::AwaitingMount, GuestEvent::Elapsed { nanos }),
            (GuestState::AwaitingMount, GuestAction::ReadMountTable)
        );
    }
    for nanos in [30 * SECOND + 1, 31 * SECOND, u128::MAX] {
        assert_eq!(
            step(&c, GuestState::AwaitingMount, GuestEvent::Elapsed { nanos }),
            (
                GuestState::Failed(GuestError::MountTimeout),
                GuestAction::Abort(GuestError::MountTimeout)
            )
        );
    }
}

#[test]
fn timeout_with_largest_ceiling_does_not_overflow() {
    let c = GuestConfig {
        workspace: "/workspace".to_string(),
        poll_interval_millis: u64::MAX,
        mount_timeout_millis: u64::MAX,
    };
    let ceiling = (u64::MAX as u128) * 1_000_000;
    assert_eq!(
        step(&c, GuestState::AwaitingMount, GuestEvent::Elapsed { nanos: ceiling }).0,
        GuestState::AwaitingMount
    );
    assert_eq!(
        step(&c, GuestState::AwaitingMount, GuestEvent::Elapsed { nanos: ceiling + 1 }).0,
        GuestState::Failed(GuestError::MountTimeout)
    );
}

#[test]
fn mount_table_decides_between_sleep_and_load() {
    let c = GuestConfig::standard();
    assert_eq!(
        step(&c, GuestState::AwaitingMount, GuestEvent::MountTable(UNMOUNTED.to_string())),
        (GuestState::AwaitingMount, GuestAction::Sleep { millis: 1_000 })
    );
    assert_eq!(
        step(&c, GuestState::AwaitingMount, GuestEvent::MountTable(MOUNTED.to_string())),
        (GuestState::LoadingDescriptor, GuestAction::LoadDescriptor)
    );
}

#[test]
fn unreadable_mount_table_is_not_unmounted() {
    let c = GuestConfig::standard();
    assert_eq!(
        step(&c, GuestState::AwaitingMount, GuestEvent::MountTableUnreadable),
        (
            GuestState::Failed(GuestError::MountTableUnreadable),
            GuestAction::Abort(GuestError::MountTableUnreadable)
        )
    );
}

/// Drives the wait with one reading per interval and a table that shows the
/// mount from the poll numbered `appears` on; returns the number of polls and
/// the state the wait ended in.
fn wait(config: &GuestConfig, appears: Option<u64>) -> (u64, GuestState) {
    let mut state = initial_state();
    let mut action = initial_action();
    let mut elapsed_millis: u64 = 0;
    let mut polls: u64 = 0;
    loop {
        let event = match action {
            GuestAction::ReadClock => GuestEvent::Elapsed { nanos: elapsed_millis as u128 * 1_000_000 },
            GuestAction::ReadMountTable => {
                polls += 1;
                let shown = appears.map_or(false, |n| polls >= n);
                GuestEvent::MountTable(if shown { MOUNTED } else { UNMOUNTED }.to_string())
            }
            GuestAction::Sleep { millis } => {
                elapsed_millis += millis;
                GuestEvent::Elapsed { nanos: elapsed_millis as u128 * 1_000_000 }
            }
            _ => return (polls, state),
        };
        let next = step(config, state, event);
        state = next.0;
        action = next.1;
    }
}

#[test]
fn wait_times_out_when_mount_never_appears() {
    let (polls, state) = wait(&GuestConfig::standard(), None);
    assert_eq!(state, GuestState::Failed(GuestError::MountTimeout));
    assert_eq!(polls, 31);
    let quick = GuestConfig {
        workspace: "/workspace".to_string(),
        poll_interval_millis: 10,
        mount_timeout_millis: 25,
    };
    let (polls, state) = wait(&quick, None);
    assert_eq!(state, GuestState::Failed(GuestError::MountTimeout));
    assert_eq!(polls, 3);
}

#[test]
fn wait_ends_at_the_poll_that_shows_the_mount() {
    for n in [1u64, 2, 5, 31] {
        let (polls, state) = wait(&GuestConfig::standard(), Some(n));
        assert_eq!(state, GuestState::LoadingDescriptor);
        assert_eq!(polls, n);
    }
    let (polls, state) = wait(&GuestConfig::standard(), Some(32));
    assert_eq!(state, GuestState::Failed(GuestError::MountTimeout));
    assert_eq!(polls, 31);
}

#[test]
fn loaded_task_goes_to_the_callback() {
    let c = GuestConfig::standard();
    assert_eq!(
        step(&c, GuestState::LoadingDescriptor, GuestEvent::DescriptorLoaded(sample_task())),
        (GuestState::CallbackRunning, GuestAction::RunCallback(sample_task()))
    );
}

#[test]
fn descriptor_failures_are_fatal() {
    let c = GuestConfig::standard();
    assert_eq!(
        step(&c, GuestState::LoadingDescriptor, GuestEvent::DescriptorUnreadable),
        (
            GuestState::Failed(GuestError::DescriptorUnreadable),
            GuestAction::Abort(GuestError::DescriptorUnreadable)
        )
    );
    assert_eq!(
        step(&c, GuestState::LoadingDescriptor, GuestEvent::DescriptorMalformed),
        (GuestState::Failed(GuestError::DecodeError), GuestAction::Abort(GuestError::DecodeError))
    );
}

#[test]
fn callback_outcome_is_persisted_as_it_is() {
    let c = GuestConfig::standard();
    let ok: TaskOutcome = sample_task().result(vec![1, 2, 3], Vec::new());
    let expected: TaskOutcome = sample_task().result(vec![1, 2, 3], Vec::new());
    assert_eq!(
        step(&c, GuestState::CallbackRunning, GuestEvent::CallbackReturned(ok)),
        (GuestState::PersistingResult, GuestAction::PersistResult(expected))
    );
    assert_eq!(
        step(
            &c,
            GuestState::CallbackRunning,
            GuestEvent::CallbackReturned(Err("boom".to_string()))
        ),
        (GuestState::PersistingResult, GuestAction::PersistResult(Err("boom".to_string())))
    );
}

#[test]
fn persisting_ends_the_run() {
    let c = GuestConfig::standard();
    assert_eq!(
        step(&c, GuestState::PersistingResult, GuestEvent::ResultWritten),
        (GuestState::ResultPersisted, GuestAction::Finish)
    );
    assert_eq!(
        step(&c, GuestState::PersistingResult, GuestEvent::ResultExists),
        (GuestState::Failed(GuestError::ResultExists), GuestAction::Abort(GuestError::ResultExists))
    );
    assert_eq!(
        step(&c, GuestState::PersistingResult, GuestEvent::ResultUnwritable),
        (
            GuestState::Failed(GuestError::ResultUnwritable),
            GuestAction::Abort(GuestError::ResultUnwritable)
        )
    );
}

#[test]
fn ended_runs_do_not_move() {
    let c = GuestConfig::standard();
    for event in all_events() {
        assert_eq!(
            step(&c, GuestState::ResultPersisted, event),
            (GuestState::ResultPersisted, GuestAction::Finish)
        );
    }
    for event in all_events() {
        assert_eq!(
            step(&c, GuestState::Failed(GuestError::ResultExists), event),
            (GuestState::Failed(GuestError::ResultExists), GuestAction::Abort(GuestError::ResultExists))
        );
    }
}

#[test]
fn events_out_of_turn_end_the_run() {
    let c = GuestConfig::standard();
    let out_of_turn =
        (GuestState::Failed(GuestError::OutOfTurn), GuestAction::Abort(GuestError::OutOfTurn));
    let expected: [(GuestState, [bool; 10]); 4] = [
        (
            GuestState::AwaitingMount,
            [true, true, true, false, false, false, false, false, false, false],
        ),
        (
            GuestState::LoadingDescriptor,
            [false, false, false, true, true, true, false, false, false, false],
        ),
        (
            GuestState::CallbackRunning,
            [false, false, false, false, false, false, true, false, false, false],
        ),
        (
            GuestState::PersistingResult,
            [false, false, false, false, false, false, false, true, true, true],
        ),
    ];
    for (state, in_turn) in expected {
        for (event, in_turn) in all_events().into_iter().zip(in_turn) {
            let next = step(&c, state, event);
            assert_eq!(next != out_of_turn, in_turn, "{state:?} {next:?}");
        }
    }
}

#[test]
fn guest_writes_the_envelope_once() {
    let c = GuestConfig::standard();
    let mut events = vec![
        GuestEvent::Elapsed { nanos: 0 },
        GuestEvent::MountTable(MOUNTED.to_string()),
        GuestEvent::DescriptorLoaded(sample_task()),
        GuestEvent::CallbackReturned(Err("boom".to_string())),
        GuestEvent::ResultExists,
    ];
    events.extend(all_events());
    let mut state = initial_state();
    let mut writes = 0;
    for event in events {
        let next = step(&c, state, event);
        state = next.0;
        if matches!(next.1, GuestAction::PersistResult(_)) {
            writes += 1;
        }
    }
    assert_eq!(writes, 1);
    assert_eq!(state, GuestState::Failed(GuestError::ResultExists));
}

#[test]
fn guest_places_the_descriptors() {
    let c = GuestConfig::standard();
    assert_eq!(c.task_file(), "/workspace/task.json");
    assert_eq!(c.task_result_file(), "/workspace/task_result.json");
    let c = GuestConfig {
        workspace: "/tmp/ws/".to_string(),
        poll_interval_millis: 1,
        mount_timeout_millis: 2,
    };
    assert_eq!(c.task_file(), "/tmp/ws/task.json");
    assert_eq!(c.task_result_file(), "/tmp/ws/task_result.json");
}
