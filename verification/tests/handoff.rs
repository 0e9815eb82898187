use gevulot_shim::config::Config;
use gevulot_shim::descriptor::{Task, TaskOutcome, TaskResult};
use gevulot_shim::guest::{GuestAction, GuestConfig, GuestError, GuestEvent, GuestState};
use gevulot_shim::host::{HostAction, HostError, HostEvent, HostState};

/// The workspace between the two drivers below: the two descriptors, as
/// values.
struct Workspace {
    task: Option<Task>,
    result: Option<TaskOutcome>,
}

/// Runs the guest's machine against `workspace`, which is mounted from the
/// poll numbered `appears` on.
fn run_guest(
    workspace: &mut Workspace,
    appears: u32,
    callback: impl Fn(Task) -> TaskOutcome,
) -> GuestState {
    let config = GuestConfig::standard();
    let mut state = gevulot_shim::guest::initial_state();
    let mut action = gevulot_shim::guest::initial_action();
    let mut elapsed: u128 = 0;
    let mut polls = 0;
    loop {
        let event = match action {
            GuestAction::ReadClock => GuestEvent::Elapsed { nanos: elapsed },
            GuestAction::ReadMountTable => {
                polls += 1;
                let table = if polls >= appears { "0 /workspace 9p rw 0 0\n" } else { "" };
                GuestEvent::MountTable(table.to_string())
            }
            GuestAction::Sleep { millis } => {
                elapsed += millis as u128 * 1_000_000;
                GuestEvent::Elapsed { nanos: elapsed }
            }
            GuestAction::LoadDescriptor => match workspace.task.clone() {
                Some(task) => GuestEvent::DescriptorLoaded(task),
                None => GuestEvent::DescriptorUnreadable,
            },
            GuestAction::RunCallback(task) => GuestEvent::CallbackReturned(callback(task)),
            GuestAction::PersistResult(outcome) => {
                if workspace.result.is_some() {
                    GuestEvent::ResultExists
                } else {
                    workspace.result = Some(outcome);
                    GuestEvent::ResultWritten
                }
            }
            GuestAction::Finish | GuestAction::Abort(_) => return state,
        };
        let next = gevulot_shim::guest::step(&config, state, event);
        state = next.0;
        action = next.1;
    }
}

/// Runs the host's machine against `workspace`; the guest is `guest`.
fn run_host(
    config: &Config,
    workspace: &mut Workspace,
    answer: &str,
    guest: impl Fn(&mut Workspace) -> Option<i32>,
) -> (HostState, HostAction) {
    let mut state = gevulot_shim::host::initial_state();
    let mut action = gevulot_shim::host::initial_action();
    loop {
        let event = match action {
            HostAction::CheckWorkspace => HostEvent::WorkspaceChecked { exists: true },
            HostAction::CheckStaleResult => {
                HostEvent::StaleResultChecked { present: workspace.result.is_some() }
            }
            HostAction::AskConfirmation => HostEvent::Answer(answer.to_string()),
            HostAction::RemoveStaleResult => {
                workspace.result = None;
                HostEvent::StaleResultRemoved
            }
            HostAction::WriteDescriptor(task) => {
                workspace.task = Some(task);
                HostEvent::DescriptorWritten
            }
            HostAction::LaunchVm(_) => HostEvent::VmExited { code: guest(workspace) },
            HostAction::CollectResult => match workspace.result.clone() {
                Some(outcome) => HostEvent::ResultLoaded(outcome),
                None => HostEvent::ResultMissing,
            },
            last => return (state, last),
        };
        let next = gevulot_shim::host::step(config, state, event);
        state = next.0;
        action = next.1;
    }
}

fn config() -> Config {
    Config {
        file: Vec::new(),
        gpu: Vec::new(),
        smp: 1,
        mem: 512,
        workspace: "/tmp/ws".to_string(),
        task_id: "task01".to_string(),
        program: "prog.img".to_string(),
        args: vec!["--x".to_string()],
    }
}

#[test]
fn end_to_end_success() {
    let mut workspace = Workspace { task: None, result: None };
    let (state, action) = run_host(&config(), &mut workspace, "", |ws| {
        let guest = run_guest(ws, 3, |task| {
            assert_eq!(
                task,
                Task { id: "task01".to_string(), args: vec!["--x".to_string()], files: Vec::new() }
            );
            task.result(vec![1, 2, 3], Vec::new())
        });
        assert_eq!(guest, GuestState::ResultPersisted);
        Some(0)
    });
    assert_eq!(state, HostState::ResultCollected);
    match action {
        HostAction::Deliver(result) => {
            assert_eq!(result.id(), "task01");
            assert_eq!(result.data(), &vec![1u8, 2, 3]);
            assert!(result.files().is_empty());
        }
        other => panic!("{other:?}"),
    }
}

#[test]
fn end_to_end_callback_failure() {
    let mut workspace = Workspace { task: None, result: None };
    let (state, action) = run_host(&config(), &mut workspace, "", |ws| {
        let guest = run_guest(ws, 1, |_| Err("boom".to_string()));
        assert_eq!(guest, GuestState::ResultPersisted);
        Some(0)
    });
    assert_eq!(workspace.result, Some(Err("boom".to_string())));
    assert_eq!(state, HostState::Aborted(HostError::CallbackFailed));
    assert_eq!(action, HostAction::ReportFailure("boom".to_string()));
}

#[test]
fn end_to_end_guest_times_out() {
    let mut workspace = Workspace { task: None, result: None };
    let (state, action) = run_host(&config(), &mut workspace, "", |ws| {
        let guest = run_guest(ws, 1_000, |task| task.result(Vec::new(), Vec::new()));
        assert_eq!(guest, GuestState::Failed(GuestError::MountTimeout));
        Some(101)
    });
    assert_eq!(workspace.result, None);
    assert_eq!(state, HostState::Aborted(HostError::MissingResult));
    assert_eq!(action, HostAction::Abort(HostError::MissingResult));
}

#[test]
fn existing_result_is_not_overwritten() {
    let stale: TaskOutcome = Ok(TaskResult::from_parts("old".to_string(), vec![9], Vec::new()));
    let mut workspace = Workspace {
        task: Some(Task { id: "task01".to_string(), args: Vec::new(), files: Vec::new() }),
        result: Some(stale.clone()),
    };
    let guest = run_guest(&mut workspace, 1, |task| task.result(vec![1], Vec::new()));
    assert_eq!(guest, GuestState::Failed(GuestError::ResultExists));
    assert_eq!(workspace.result, Some(stale));
}

#[test]
fn stale_result_is_removed_only_on_yes() {
    let stale: TaskOutcome = Err("left over".to_string());
    let mut workspace = Workspace { task: None, result: Some(stale.clone()) };
    let (state, action) = run_host(&config(), &mut workspace, "no\n", |_| panic!("guest started"));
    assert_eq!(state, HostState::Aborted(HostError::StaleResultDeclined));
    assert_eq!(action, HostAction::Abort(HostError::StaleResultDeclined));
    assert_eq!(workspace.result, Some(stale));
    assert_eq!(workspace.task, None);

    let (state, action) = run_host(&config(), &mut workspace, "yes\n", |ws| {
        run_guest(ws, 1, |task| task.result(vec![4], Vec::new()));
        None
    });
    assert_eq!(state, HostState::ResultCollected);
    assert_eq!(
        action,
        HostAction::Deliver(TaskResult::from_parts("task01".to_string(), vec![4], Vec::new()))
    );
}
