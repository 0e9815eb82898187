//! What the host is told about one run: the task, the program image, the
//! workspace and the resources of the guest.

use vstd::prelude::*;
use vstd::string::*;
use crate::descriptor::{Task, TaskView, TASK_FILE_NAME, TASK_RESULT_FILE_NAME};
use crate::paths::{joined, join_path};
use crate::text::copy_texts;

verus! {

/// Configuration of one run of the host.
pub struct Config {
    /// Files to be added to the program's execution.
    pub file: Vec<String>,
    /// Host addresses of the devices to pass through to the guest.
    pub gpu: Vec<String>,
    /// Number of processor cores of the guest.
    pub smp: u16,
    /// Memory of the guest, in megabytes.
    pub mem: u32,
    /// The directory shared with the guest.
    pub workspace: String,
    /// Identifier to put in the task descriptor.
    pub task_id: String,
    /// The bootable image of the program.
    pub program: String,
    /// Arguments of the program.
    pub args: Vec<String>,
}

/// Mathematical value of a [`Config`].
pub struct ConfigView {
    pub file: Seq<Seq<char>>,
    pub gpu: Seq<Seq<char>>,
    pub smp: nat,
    pub mem: nat,
    pub workspace: Seq<char>,
    pub task_id: Seq<char>,
    pub program: Seq<char>,
    pub args: Seq<Seq<char>>,
}

impl ConfigView {
    /// The task that a run with this configuration hands to the guest.
    pub open spec fn task(self) -> TaskView {
        TaskView { id: self.task_id, args: self.args, files: self.file }
    }
}

impl View for Config {
    type V = ConfigView;

    open spec fn view(&self) -> ConfigView {
        ConfigView {
            file: self.file.deep_view(),
            gpu: self.gpu.deep_view(),
            smp: self.smp as nat,
            mem: self.mem as nat,
            workspace: self.workspace@,
            task_id: self.task_id@,
            program: self.program@,
            args: self.args.deep_view(),
        }
    }
}

impl Config {
    /// The task descriptor of this run.
    pub fn task(&self) -> (task: Task)
        ensures
            task@ == self@.task(),
    {
        Task {
            id: self.task_id.clone(),
            args: copy_texts(&self.args),
            files: copy_texts(&self.file),
        }
    }

    /// Where the task descriptor goes.
    pub fn task_file(&self) -> (path: String)
        ensures
            path@ == joined(self@.workspace, TASK_FILE_NAME@),
    {
        join_path(self.workspace.as_str(), TASK_FILE_NAME)
    }

    /// Where the guest leaves the result envelope.
    pub fn task_result_file(&self) -> (path: String)
        ensures
            path@ == joined(self@.workspace, TASK_RESULT_FILE_NAME@),
    {
        join_path(self.workspace.as_str(), TASK_RESULT_FILE_NAME)
    }
}

} // verus!
