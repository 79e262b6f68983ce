//! Units of work and their results.

use vstd::prelude::*;

verus! {

/// Why the agent stopped with a failure.
#[derive(PartialEq, Eq, Structural, Clone, Copy, Debug)]
pub enum AgentError {
    /// The host answered a task request with this error code.
    TaskRefused(i32),
    /// An input file of the task could not be fetched or stored.
    StagingFailed,
    /// The execution logic failed on the task.
    ExecutionFailed,
    /// An output file could not be uploaded.
    UploadFailed,
    /// The host did not accept the result.
    SubmitFailed,
    /// A reply came that does not answer the request in flight.
    UnexpectedEvent,
}

/// One unit of work, as the host hands it out. Before staging `files` holds
/// the names the host knows the input files by; after staging, the local
/// paths they were stored at.
#[derive(Debug)]
pub struct Task {
    pub id: String,
    pub args: Vec<String>,
    pub files: Vec<String>,
}

/// What the execution logic produced for a task: the task's id, an opaque
/// payload, and the local paths of the output files to upload.
#[derive(Debug)]
pub struct TaskResult {
    id: String,
    data: Vec<u8>,
    files: Vec<String>,
}

/// `name` resolved against the directory `base`, as a filesystem path join
/// does it: an absolute name stands alone; otherwise it is appended, with a
/// separator unless `base` is empty or already ends in one.
pub open spec fn join_path(base: Seq<char>, name: Seq<char>) -> Seq<char> {
    if name.len() > 0 && name[0] == '/' {
        name
    } else if base.len() == 0 || base.last() == '/' {
        base + name
    } else {
        base + seq!['/'] + name
    }
}

/// The local path that the input file `name` of task `task_id` is staged at,
/// under the directory `workspace`.
pub open spec fn staged_path(workspace: Seq<char>, task_id: Seq<char>, name: Seq<char>) -> Seq<
    char,
> {
    join_path(join_path(workspace, task_id), name)
}

/// Joins `name` onto the directory `base`.
pub fn join(base: &str, name: &str) -> (r: String)
    ensures
        r@ == join_path(base@, name@),
{
    let name_len = name.unicode_len();
    if name_len > 0 && name.get_char(0) == '/' {
        return name.to_owned();
    }
    let base_len = base.unicode_len();
    let mut r = base.to_owned();
    if base_len > 0 && base.get_char(base_len - 1) != '/' {
        r.append("/");
        proof {
            reveal_strlit("/");
            assert("/"@ =~= seq!['/']);
        }
    }
    r.append(name);
    r
}

impl Task {
    /// A result for the task, carrying its id, the payload `data` and the
    /// output files `files`. Building it cannot fail.
    pub fn result(&self, data: Vec<u8>, files: Vec<String>) -> (r: Result<TaskResult, AgentError>)
        ensures
            r matches Ok(t) && t.task_id() == self.id@ && t.payload() == data@ && t.outputs()
                == files@,
    {
        Ok(TaskResult { id: self.id.clone(), data, files })
    }

    /// Each input file's name paired with the path it is staged at:
    /// `workspace`, then the task's id, then the name, in the task's order.
    pub fn get_task_files_path(&self, workspace: &str) -> (r: Vec<(String, String)>)
        ensures
            r@.len() == self.files@.len(),
            forall|i: int|
                0 <= i < r@.len() ==> (#[trigger] r@[i]).0@ == self.files@[i]@ && r@[i].1@
                    == staged_path(workspace@, self.id@, self.files@[i]@),
    {
        let dir = join(workspace, self.id.as_str());
        let mut r: Vec<(String, String)> = Vec::new();
        let mut i: usize = 0;
        while i < self.files.len()
            invariant
                i <= self.files@.len(),
                dir@ == join_path(workspace@, self.id@),
                r@.len() == i,
                forall|k: int|
                    0 <= k < i ==> (#[trigger] r@[k]).0@ == self.files@[k]@ && r@[k].1@
                        == staged_path(workspace@, self.id@, self.files@[k]@),
            decreases self.files@.len() - i,
        {
            let name = &self.files[i];
            let path = join(dir.as_str(), name.as_str());
            r.push((name.clone(), path));
            i = i + 1;
        }
        r
    }
}

impl TaskResult {
    /// The id of the task this result belongs to.
    pub closed spec fn task_id(&self) -> Seq<char> {
        self.id@
    }

    /// The opaque result payload.
    pub closed spec fn payload(&self) -> Seq<u8> {
        self.data@
    }

    /// The local paths of the output files.
    pub closed spec fn outputs(&self) -> Seq<String> {
        self.files@
    }

    pub fn id(&self) -> (r: &String)
        ensures
            r@ == self.task_id(),
    {
        &self.id
    }

    pub fn data(&self) -> (r: &Vec<u8>)
        ensures
            r@ == self.payload(),
    {
        &self.data
    }

    pub fn files(&self) -> (r: &Vec<String>)
        ensures
            r@ == self.outputs(),
    {
        &self.files
    }
}

} // verus!
