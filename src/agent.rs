//! The agent's control loop as a state machine: from its state and the reply
//! to the one request in flight, the next state and the next request.
//! Whoever drives it performs each request and feeds the reply back.

use vstd::prelude::*;
use crate::task::{staged_path, AgentError, Task, TaskResult};

verus! {

/// How long to sleep when the host has no task, in milliseconds.
pub const IDLE_SLEEP_MS: u64 = 1000;

/// One line of the manifest submitted with a result: an output file's path
/// and the checksum of the bytes uploaded for it.
pub struct ManifestEntry {
    pub path: String,
    pub checksum: [u8; 32],
}

/// Where the agent stands; each state but the last two awaits the reply to
/// one request.
pub enum Phase {
    /// Awaiting the reply to a task request.
    Polling,
    /// Awaiting the end of an idle sleep.
    Sleeping,
    /// Awaiting the download of input file number `staged.len()` of `task`.
    /// `dests` pairs each input name with the path it is stored at; `staged`
    /// holds the paths already stored.
    Staging { task: Task, dests: Vec<(String, String)>, staged: Vec<String> },
    /// Awaiting the outcome of the execution logic.
    Executing,
    /// Awaiting the upload of output file number `manifest.len()` of `result`.
    Uploading { result: TaskResult, manifest: Vec<ManifestEntry> },
    /// Awaiting the host's reply to a submitted result.
    Submitting,
    /// Stopped because the host asked for no more work.
    Finished,
    /// Stopped on a failure.
    Failed(AgentError),
}

/// A reply to the request in flight.
pub enum Event {
    /// The host offered a task.
    TaskOffered(Task),
    /// The host has no task at the moment.
    NoTask,
    /// The host answered the task request with an error code.
    TaskRefused(i32),
    /// The idle sleep is over.
    Slept,
    /// The requested input file is stored at the requested path.
    FileStaged,
    /// The requested input file could not be fetched or stored.
    StagingFailed,
    /// The execution logic produced this result.
    Executed(TaskResult),
    /// The execution logic failed.
    ExecutionFailed,
    /// The requested output file went up; this is its checksum.
    FileUploaded([u8; 32]),
    /// The requested output file could not be uploaded.
    UploadFailed,
    /// The host took the result; the flag says whether to ask for more work.
    Submitted(bool),
    /// The host did not take the result.
    SubmitFailed,
}

/// The next request to perform.
pub enum Action {
    /// Ask the host for a task.
    GetTask,
    /// Sleep this many milliseconds.
    Sleep(u64),
    /// Download input file `name` of task `task_id` and store it at `dest`.
    FetchFile { task_id: String, name: String, dest: String },
    /// Run the execution logic on this fully staged task.
    Execute(Task),
    /// Upload the local file `path` for task `task_id`.
    UploadFile { task_id: String, path: String },
    /// Submit a task's result payload and its output manifest.
    SubmitResult { task_id: String, data: Vec<u8>, manifest: Vec<ManifestEntry> },
    /// Nothing more: the loop is over.
    Stop,
}

/// True when `event` is a reply to the request that `phase` awaits.
pub open spec fn answers(phase: Phase, event: Event) -> bool {
    match phase {
        Phase::Polling => event is TaskOffered || event is NoTask || event is TaskRefused,
        Phase::Sleeping => event is Slept,
        Phase::Staging { .. } => event is FileStaged || event is StagingFailed,
        Phase::Executing => event is Executed || event is ExecutionFailed,
        Phase::Uploading { .. } => event is FileUploaded || event is UploadFailed,
        Phase::Submitting => event is Submitted || event is SubmitFailed,
        _ => false,
    }
}

/// True when the agent has stopped.
pub open spec fn terminated(phase: Phase) -> bool {
    phase is Finished || phase is Failed
}

/// The request in flight, as a state: a phase that awaits a reply is
/// reached exactly when a request goes out.
pub open spec fn awaits(phase: Phase, action: Action) -> bool {
    match action {
        Action::GetTask => phase is Polling,
        Action::Sleep(_) => phase is Sleeping,
        Action::FetchFile { .. } => phase is Staging,
        Action::Execute(_) => phase is Executing,
        Action::UploadFile { .. } => phase is Uploading,
        Action::SubmitResult { .. } => phase is Submitting,
        Action::Stop => terminated(phase),
    }
}

/// The polling loop of one agent, bound to the workspace directory that
/// input files are staged under.
pub struct Agent {
    workspace: String,
    phase: Phase,
}

impl Agent {
    pub closed spec fn workspace(&self) -> Seq<char> {
        self.workspace@
    }

    pub closed spec fn phase(&self) -> Phase {
        self.phase
    }

    /// The bookkeeping of the staging and uploading phases is consistent:
    /// the next file exists, and what is done so far matches the task or
    /// the result, in order.
    pub closed spec fn wf(&self) -> bool {
        match self.phase {
            Phase::Staging { task, dests, staged } => {
                &&& dests@.len() == task.files@.len()
                &&& staged@.len() < task.files@.len()
                &&& forall|i: int|
                    0 <= i < dests@.len() ==> (#[trigger] dests@[i]).0@ == task.files@[i]@
                        && dests@[i].1@ == staged_path(self.workspace@, task.id@, task.files@[i]@)
                &&& forall|i: int| 0 <= i < staged@.len() ==> (#[trigger] staged@[i])@ == dests@[i].1@
            },
            Phase::Uploading { result, manifest } => {
                &&& manifest@.len() < result.outputs().len()
                &&& forall|i: int|
                    0 <= i < manifest@.len() ==> (#[trigger] manifest@[i]).path@ == result.outputs()[i]@
            },
            _ => true,
        }
    }

    /// A fresh agent, and its first request: ask for a task.
    pub fn new(workspace: String) -> (r: (Agent, Action))
        ensures
            r.0.wf(),
            r.0.workspace() == workspace@,
            r.0.phase() is Polling,
            r.1 is GetTask,
    {
        (Agent { workspace, phase: Phase::Polling }, Action::GetTask)
    }

    /// Whether the loop is over, and how it ended.
    pub fn outcome(&self) -> (r: Option<Result<(), AgentError>>)
        ensures
            self.phase() is Finished ==> r == Some(Ok::<(), AgentError>(())),
            self.phase() matches Phase::Failed(e) ==> r == Some(Err::<(), AgentError>(e)),
            !terminated(self.phase()) ==> r is None,
    {
        match &self.phase {
            Phase::Finished => Some(Ok(())),
            Phase::Failed(e) => Some(Err(*e)),
            _ => None,
        }
    }
    /// Stops the agent on a failure.
    fn fail(workspace: String, e: AgentError) -> (r: (Agent, Action))
        ensures
            r.0.wf(),
            r.0.workspace() == workspace@,
            r.0.phase() == Phase::Failed(e),
            r.1 is Stop,
    {
        (Agent { workspace, phase: Phase::Failed(e) }, Action::Stop)
    }

    /// Takes the reply to the request in flight and returns the agent's next
    /// state and its next request.
    ///
    /// One request is in flight at a time: a new request goes out only when
    /// the event answers the one before; any other event stops the agent with
    /// a failure, and a stopped agent stays stopped. No task: sleep, then ask
    /// again. A task: fetch its input files one by one, in order, then run it
    /// with its file list rewritten to the local paths; a failed fetch stops
    /// the agent before the task runs. A result: upload its output files one
    /// by one, in order, then submit it with the manifest of their checksums.
    /// The host's continuation flag decides between asking for the next task
    /// and stopping gracefully, which happens in no other way.
    pub fn step(self, event: Event) -> (r: (Agent, Action))
        requires
            self.wf(),
        ensures
            r.0.wf(),
            r.0.workspace() == self.workspace(),
            awaits(r.0.phase(), r.1),
            !(r.1 is Stop) ==> answers(self.phase(), event),
            terminated(self.phase()) ==> r.1 is Stop && r.0.phase() == self.phase(),
            !terminated(self.phase()) && !answers(self.phase(), event) ==> r.0.phase()
                == Phase::Failed(AgentError::UnexpectedEvent),
            r.1 is Execute ==> (self.phase() is Polling && (event matches Event::TaskOffered(t)
                && t.files@.len() == 0)) || (event is FileStaged && (self.phase() matches Phase::Staging {
                task,
                staged,
                ..
            } && staged@.len() + 1 == task.files@.len())),
            r.0.phase() is Finished ==> self.phase() is Finished || (self.phase() is Submitting
                && event == Event::Submitted(false)),
            self.phase() is Polling ==> match event {
                Event::NoTask => r.1 == Action::Sleep(IDLE_SLEEP_MS) && r.0.phase() is Sleeping,
                Event::TaskRefused(c) => r.0.phase() == Phase::Failed(AgentError::TaskRefused(c)),
                Event::TaskOffered(t) => if t.files@.len() == 0 {
                    r.1 == Action::Execute(t) && r.0.phase() is Executing
                } else {
                    &&& r.1 matches Action::FetchFile { task_id, name, dest }
                    &&& task_id@ == t.id@ && name@ == t.files@[0]@
                    &&& dest@ == staged_path(self.workspace(), t.id@, t.files@[0]@)
                    &&& r.0.phase() matches Phase::Staging { task, staged, .. }
                    &&& task == t && staged@.len() == 0
                },
                _ => true,
            },
            self.phase() is Sleeping && event is Slept ==> r.1 is GetTask && r.0.phase() is Polling,
            self.phase() matches Phase::Staging { task, dests, staged } ==> match event {
                Event::FileStaged => if staged@.len() + 1 == task.files@.len() {
                    &&& r.1 matches Action::Execute(t)
                    &&& t.id == task.id && t.args == task.args
                    &&& t.files@.len() == task.files@.len()
                    &&& forall|i: int|
                        0 <= i < t.files@.len() ==> (#[trigger] t.files@[i])@ == staged_path(
                            self.workspace(),
                            task.id@,
                            task.files@[i]@,
                        )
                    &&& r.0.phase() is Executing
                } else {
                    &&& r.1 matches Action::FetchFile { task_id, name, dest }
                    &&& task_id@ == task.id@
                    &&& name@ == task.files@[staged@.len() as int + 1]@
                    &&& dest@ == staged_path(
                        self.workspace(),
                        task.id@,
                        task.files@[staged@.len() as int + 1]@,
                    )
                    &&& r.0.phase() matches Phase::Staging { task: task2, staged: staged2, .. }
                    &&& task2 == task && staged2@.len() == staged@.len() + 1
                },
                Event::StagingFailed => r.0.phase() == Phase::Failed(AgentError::StagingFailed),
                _ => true,
            },
            self.phase() is Executing ==> match event {
                Event::Executed(res) => if res.outputs().len() == 0 {
                    &&& r.1 matches Action::SubmitResult { task_id, data, manifest }
                    &&& task_id@ == res.task_id() && data@ == res.payload() && manifest@.len() == 0
                    &&& r.0.phase() is Submitting
                } else {
                    &&& r.1 matches Action::UploadFile { task_id, path }
                    &&& task_id@ == res.task_id() && path@ == res.outputs()[0]@
                    &&& r.0.phase() matches Phase::Uploading { result, manifest }
                    &&& result == res && manifest@.len() == 0
                },
                Event::ExecutionFailed => r.0.phase() == Phase::Failed(AgentError::ExecutionFailed),
                _ => true,
            },
            self.phase() matches Phase::Uploading { result, manifest } ==> match event {
                Event::FileUploaded(c) => if manifest@.len() + 1 == result.outputs().len() {
                    &&& r.1 matches Action::SubmitResult { task_id, data, manifest: m }
                    &&& task_id@ == result.task_id() && data@ == result.payload()
                    &&& m@.len() == manifest@.len() + 1 && m@.drop_last() == manifest@
                    &&& m@.last().path@ == result.outputs()[manifest@.len() as int]@
                    &&& m@.last().checksum == c
                    &&& r.0.phase() is Submitting
                } else {
                    &&& r.1 matches Action::UploadFile { task_id, path }
                    &&& task_id@ == result.task_id()
                    &&& path@ == result.outputs()[manifest@.len() as int + 1]@
                    &&& r.0.phase() matches Phase::Uploading { result: result2, manifest: m }
                    &&& result2 == result
                    &&& m@.len() == manifest@.len() + 1 && m@.drop_last() == manifest@
                    &&& m@.last().path@ == result.outputs()[manifest@.len() as int]@
                    &&& m@.last().checksum == c
                },
                Event::UploadFailed => r.0.phase() == Phase::Failed(AgentError::UploadFailed),
                _ => true,
            },
            self.phase() is Submitting ==> match event {
                Event::Submitted(more) => if more {
                    r.1 is GetTask && r.0.phase() is Polling
                } else {
                    r.1 is Stop && r.0.phase() is Finished
                },
                Event::SubmitFailed => r.0.phase() == Phase::Failed(AgentError::SubmitFailed),
                _ => true,
            },
    {
        let Agent { workspace, phase } = self;
        match phase {
            Phase::Finished => (Agent { workspace, phase: Phase::Finished }, Action::Stop),
            Phase::Failed(e) => (Agent { workspace, phase: Phase::Failed(e) }, Action::Stop),
            Phase::Polling => match event {
                Event::TaskOffered(task) => {
                    if task.files.len() == 0 {
                        (Agent { workspace, phase: Phase::Executing }, Action::Execute(task))
                    } else {
                        let dests = task.get_task_files_path(workspace.as_str());
                        let action = Action::FetchFile {
                            task_id: task.id.clone(),
                            name: dests[0].0.clone(),
                            dest: dests[0].1.clone(),
                        };
                        let staged: Vec<String> = Vec::new();
                        (Agent { workspace, phase: Phase::Staging { task, dests, staged } }, action)
                    }
                },
                Event::NoTask => (
                    Agent { workspace, phase: Phase::Sleeping },
                    Action::Sleep(IDLE_SLEEP_MS),
                ),
                Event::TaskRefused(c) => Agent::fail(workspace, AgentError::TaskRefused(c)),
                _ => Agent::fail(workspace, AgentError::UnexpectedEvent),
            },
            Phase::Sleeping => match event {
                Event::Slept => (Agent { workspace, phase: Phase::Polling }, Action::GetTask),
                _ => Agent::fail(workspace, AgentError::UnexpectedEvent),
            },
            Phase::Staging { mut task, dests, mut staged } => match event {
                Event::FileStaged => {
                    let k = staged.len();
                    staged.push(dests[k].1.clone());
                    let n = task.files.len();
                    if k + 1 == n {
                        task.files = staged;
                        (Agent { workspace, phase: Phase::Executing }, Action::Execute(task))
                    } else {
                        let action = Action::FetchFile {
                            task_id: task.id.clone(),
                            name: dests[k + 1].0.clone(),
                            dest: dests[k + 1].1.clone(),
                        };
                        (Agent { workspace, phase: Phase::Staging { task, dests, staged } }, action)
                    }
                },
                Event::StagingFailed => Agent::fail(workspace, AgentError::StagingFailed),
                _ => Agent::fail(workspace, AgentError::UnexpectedEvent),
            },
            Phase::Executing => match event {
                Event::Executed(result) => {
                    if result.files().len() == 0 {
                        let action = Action::SubmitResult {
                            task_id: result.id().clone(),
                            data: copy_bytes(result.data()),
                            manifest: Vec::new(),
                        };
                        (Agent { workspace, phase: Phase::Submitting }, action)
                    } else {
                        let action = Action::UploadFile {
                            task_id: result.id().clone(),
                            path: result.files()[0].clone(),
                        };
                        let manifest: Vec<ManifestEntry> = Vec::new();
                        (Agent { workspace, phase: Phase::Uploading { result, manifest } }, action)
                    }
                },
                Event::ExecutionFailed => Agent::fail(workspace, AgentError::ExecutionFailed),
                _ => Agent::fail(workspace, AgentError::UnexpectedEvent),
            },
            Phase::Uploading { result, mut manifest } => match event {
                Event::FileUploaded(checksum) => {
                    let k = manifest.len();
                    let ghost before = manifest@;
                    manifest.push(ManifestEntry { path: result.files()[k].clone(), checksum });
                    proof {
                        assert(manifest@.drop_last() =~= before);
                    }
                    let n = result.files().len();
                    if k + 1 == n {
                        let action = Action::SubmitResult {
                            task_id: result.id().clone(),
                            data: copy_bytes(result.data()),
                            manifest,
                        };
                        (Agent { workspace, phase: Phase::Submitting }, action)
                    } else {
                        let action = Action::UploadFile {
                            task_id: result.id().clone(),
                            path: result.files()[k + 1].clone(),
                        };
                        (Agent { workspace, phase: Phase::Uploading { result, manifest } }, action)
                    }
                },
                Event::UploadFailed => Agent::fail(workspace, AgentError::UploadFailed),
                _ => Agent::fail(workspace, AgentError::UnexpectedEvent),
            },
            Phase::Submitting => match event {
                Event::Submitted(more) => {
                    if more {
                        (Agent { workspace, phase: Phase::Polling }, Action::GetTask)
                    } else {
                        (Agent { workspace, phase: Phase::Finished }, Action::Stop)
                    }
                },
                Event::SubmitFailed => Agent::fail(workspace, AgentError::SubmitFailed),
                _ => Agent::fail(workspace, AgentError::UnexpectedEvent),
            },
        }
    }
}

/// A copy of a byte vector.
fn copy_bytes(v: &Vec<u8>) -> (r: Vec<u8>)
    ensures
        r@ == v@,
{
    let mut r: Vec<u8> = Vec::new();
    r.extend_from_slice(v.as_slice());
    r
}

} // verus!
