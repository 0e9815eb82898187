//! The two descriptors that cross the workspace: the task handed to the
//! guest and the result it hands back.

use vstd::prelude::*;
use vstd::string::*;
use crate::paths::{joined, join_path};

verus! {

/// Name of the task descriptor, directly under the workspace root.
pub const TASK_FILE_NAME: &'static str = "task.json";

/// Name of the result envelope, directly under the workspace root.
pub const TASK_RESULT_FILE_NAME: &'static str = "task_result.json";

/// Where the guest expects the workspace to be mounted.
pub const WORKSPACE_PATH: &'static str = "/workspace";

/// Identifier of a task: chosen by the caller and echoed back in the result.
pub type TaskId = String;

/// What the guest leaves behind: the callback's result, or the message of
/// the error it failed with.
pub type TaskOutcome = Result<TaskResult, String>;

/// The unit of work handed to the guest.
#[derive(Clone, Debug, PartialEq, Eq)]
pub struct Task {
    pub id: TaskId,
    pub args: Vec<String>,
    pub files: Vec<String>,
}

/// Mathematical value of a [`Task`].
pub struct TaskView {
    pub id: Seq<char>,
    pub args: Seq<Seq<char>>,
    pub files: Seq<Seq<char>>,
}

impl View for Task {
    type V = TaskView;

    open spec fn view(&self) -> TaskView {
        TaskView { id: self.id@, args: self.args.deep_view(), files: self.files.deep_view() }
    }
}

/// What a callback produced for a task.
#[derive(Clone, Debug, PartialEq, Eq)]
pub struct TaskResult {
    id: TaskId,
    data: Vec<u8>,
    files: Vec<String>,
}

/// Mathematical value of a [`TaskResult`].
pub struct TaskResultView {
    pub id: Seq<char>,
    pub data: Seq<u8>,
    pub files: Seq<Seq<char>>,
}

impl View for TaskResult {
    type V = TaskResultView;

    closed spec fn view(&self) -> TaskResultView {
        TaskResultView { id: self.id@, data: self.data@, files: self.files.deep_view() }
    }
}

/// Mathematical value of a [`TaskOutcome`].
pub type TaskOutcomeView = Result<TaskResultView, Seq<char>>;

/// The value of an outcome: that of the result, or the error's message.
pub open spec fn outcome_view(outcome: TaskOutcome) -> TaskOutcomeView {
    match outcome {
        Ok(result) => Ok(result@),
        Err(message) => Err(message@),
    }
}

impl TaskResult {
    /// A result made of its three parts.
    pub fn from_parts(id: TaskId, data: Vec<u8>, files: Vec<String>) -> (result: TaskResult)
        ensures
            result@ == (TaskResultView { id: id@, data: data@, files: files.deep_view() }),
    {
        TaskResult { id, data, files }
    }

    /// The identifier of the task that this result answers.
    pub fn id(&self) -> (id: &String)
        ensures
            id@ == self@.id,
    {
        &self.id
    }

    /// The callback's payload.
    pub fn data(&self) -> (data: &Vec<u8>)
        ensures
            data@ == self@.data,
    {
        &self.data
    }

    /// Names of the files that the callback left in the workspace.
    pub fn files(&self) -> (files: &Vec<String>)
        ensures
            files.deep_view() == self@.files,
    {
        &self.files
    }
}

impl Task {
    /// The successful outcome of the task: a result that carries the task's
    /// identifier together with the given payload and output files.
    pub fn result(&self, data: Vec<u8>, files: Vec<String>) -> (outcome: TaskOutcome)
        ensures
            outcome is Ok,
            outcome->Ok_0@ == (TaskResultView {
                id: self@.id,
                data: data@,
                files: files.deep_view(),
            }),
    {
        Ok(TaskResult { id: self.id.clone(), data, files })
    }

    /// Every input file of the task, paired with its place in `workspace`.
    pub fn get_task_files_path<'a>(&'a self, workspace: &str) -> (resolved: Vec<(&'a str, String)>)
        ensures
            resolved.len() == self.files.len(),
            forall|i: int|
                0 <= i < resolved.len() ==> {
                    &&& (#[trigger] resolved[i]).0@ == self@.files[i]
                    &&& resolved[i].1@ == joined(workspace@, self@.files[i])
                },
    {
        let mut resolved: Vec<(&'a str, String)> = Vec::new();
        let mut i: usize = 0;
        while i < self.files.len()
            invariant
                i <= self.files.len(),
                resolved.len() == i,
                forall|k: int|
                    0 <= k < i ==> {
                        &&& (#[trigger] resolved[k]).0@ == self.files[k]@
                        &&& resolved[k].1@ == joined(workspace@, self.files[k]@)
                    },
            decreases self.files.len() - i,
        {
            let name: &'a str = self.files[i].as_str();
            let path = join_path(workspace, name);
            resolved.push((name, path));
            i += 1;
        }
        resolved
    }
}

} // verus!
