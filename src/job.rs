use vstd::prelude::*;

verus! {

/// Where a job stands in its lifecycle.
#[derive(PartialEq, Eq, Structural, Clone, Copy, Debug)]
pub enum Status {
    New,
    Running,
    Succeeded,
    Failed,
}

/// How far along the lifecycle a status is: `Succeeded` and `Failed` are both final.
pub open spec fn stage(s: Status) -> nat {
    match s {
        Status::New => 0,
        Status::Running => 1,
        Status::Succeeded => 2,
        Status::Failed => 2,
    }
}

/// `b` may be observed after `a`: the same status, or a later stage.
pub open spec fn may_follow(a: Status, b: Status) -> bool {
    a == b || stage(a) < stage(b)
}

pub open spec fn is_terminal(s: Status) -> bool {
    s == Status::Succeeded || s == Status::Failed
}

impl Status {
    pub fn is_finished(&self) -> (r: bool)
        ensures
            r == is_terminal(*self),
    {
        match self {
            Status::Succeeded | Status::Failed => true,
            _ => false,
        }
    }
}

/// What the process launcher reported for one job.
pub enum LaunchOutcome {
    /// The launched process ran and exited, with this captured output.
    Exited { stdout: String, stderr: String },
    /// The launcher could not be started at all.
    NotStarted,
}

/// One requested unit of work.
pub struct Transaction {
    pub id: u64,
    pub argv: Vec<String>,
    pub status: Status,
    pub stdout: String,
    pub stderr: String,
}

impl Transaction {
    /// A fresh job: status `New`, the given arguments, no output yet.
    pub fn new(id: u64, argv: Vec<String>) -> (r: Transaction)
        ensures
            r.id == id,
            r.argv == argv,
            r.status == Status::New,
            r.stdout@ == Seq::<char>::empty(),
            r.stderr@ == Seq::<char>::empty(),
    {
        Transaction { id, argv, status: Status::New, stdout: String::new(), stderr: String::new() }
    }
}

} // verus!
