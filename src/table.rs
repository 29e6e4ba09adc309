use std::collections::HashMap;
use vstd::prelude::*;
use crate::job::{LaunchOutcome, Status, Transaction, may_follow, is_terminal};

verus! {

broadcast use vstd::std_specs::hash::group_hash_axioms;

/// The store of all jobs of this process, keyed by identifier, with the
/// allocator of the next identifier.
pub struct JobTable {
    transactions: HashMap<u64, Transaction>,
    next_transaction_id: u64,
}

/// A job that `later` may show for a job that `earlier` showed: the same
/// identity and arguments, a status no earlier in the lifecycle, and, once
/// finished, nothing changed at all.
pub open spec fn job_evolves(earlier: Transaction, later: Transaction) -> bool {
    &&& later.id == earlier.id
    &&& later.argv == earlier.argv
    &&& may_follow(earlier.status, later.status)
    &&& is_terminal(earlier.status) ==> later == earlier
}

/// Every job of `a` is still in `b`, changed only as the lifecycle allows, and
/// identifiers have not gone backwards.
pub open spec fn table_evolves(a: JobTable, b: JobTable) -> bool {
    &&& a.next_id() <= b.next_id()
    &&& forall|k: u64| #[trigger]
        a.jobs().contains_key(k) ==> b.jobs().contains_key(k) && job_evolves(
            a.jobs()[k],
            b.jobs()[k],
        )
}

/// `a` and `b` hold the same jobs and would issue the same next identifier.
pub open spec fn same_contents(a: JobTable, b: JobTable) -> bool {
    a.jobs() == b.jobs() && a.next_id() == b.next_id()
}

/// `post` is `pre` after `argv` was accepted as job `id` in status `New`.
pub open spec fn allocated(pre: JobTable, argv: Vec<String>, post: JobTable, id: u64) -> bool {
    &&& id == pre.next_id()
    &&& !pre.jobs().contains_key(id)
    &&& post.next_id() == id + 1
    &&& post.jobs().contains_key(id)
    &&& post.jobs() == pre.jobs().insert(id, post.jobs()[id])
    &&& fresh_job(post.jobs()[id], id, argv)
}

/// `t` is job `id` just accepted for `argv`: status `New`, no output.
pub open spec fn fresh_job(t: Transaction, id: u64, argv: Vec<String>) -> bool {
    &&& t.id == id
    &&& t.argv == argv
    &&& t.status == Status::New
    &&& t.stdout@ == Seq::<char>::empty()
    &&& t.stderr@ == Seq::<char>::empty()
}

/// `post` is `pre` with job `id` moved from `New` to `Running`.
pub open spec fn started(pre: JobTable, id: u64, post: JobTable) -> bool {
    &&& pre.jobs().contains_key(id)
    &&& pre.jobs()[id].status == Status::New
    &&& post.next_id() == pre.next_id()
    &&& post.jobs().contains_key(id)
    &&& post.jobs() == pre.jobs().insert(id, post.jobs()[id])
    &&& post.jobs()[id].id == id
    &&& post.jobs()[id].argv == pre.jobs()[id].argv
    &&& post.jobs()[id].status == Status::Running
    &&& post.jobs()[id].stdout == pre.jobs()[id].stdout
    &&& post.jobs()[id].stderr == pre.jobs()[id].stderr
}

/// The status that a launch outcome gives a job.
pub open spec fn outcome_status(o: LaunchOutcome) -> Status {
    match o {
        LaunchOutcome::Exited { .. } => Status::Succeeded,
        LaunchOutcome::NotStarted => Status::Failed,
    }
}

/// `t` is `before` with `o` recorded: the outcome's status, and the captured
/// output where the process ran.
pub open spec fn records_outcome(before: Transaction, o: LaunchOutcome, t: Transaction) -> bool {
    &&& t.id == before.id
    &&& t.argv == before.argv
    &&& t.status == outcome_status(o)
    &&& match o {
        LaunchOutcome::Exited { stdout, stderr } => t.stdout == stdout && t.stderr == stderr,
        LaunchOutcome::NotStarted => t.stdout == before.stdout && t.stderr == before.stderr,
    }
}

/// `post` is `pre` with the outcome `o` recorded on the running job `id`.
pub open spec fn finished(pre: JobTable, id: u64, o: LaunchOutcome, post: JobTable) -> bool {
    &&& pre.jobs().contains_key(id)
    &&& pre.jobs()[id].status == Status::Running
    &&& post.next_id() == pre.next_id()
    &&& post.jobs().contains_key(id)
    &&& post.jobs() == pre.jobs().insert(id, post.jobs()[id])
    &&& records_outcome(pre.jobs()[id], o, post.jobs()[id])
}

impl JobTable {
    /// The jobs, by identifier.
    pub closed spec fn jobs(self) -> Map<u64, Transaction> {
        self.transactions@
    }

    /// The identifier that the next accepted job receives.
    pub closed spec fn next_id(self) -> u64 {
        self.next_transaction_id
    }

    /// Exactly the identifiers below the next one have been issued, each to
    /// the job that carries it.
    pub open spec fn wf(self) -> bool {
        forall|k: u64|
            #![trigger self.jobs().contains_key(k)]
            #![trigger self.jobs()[k]]
            (self.jobs().contains_key(k) <==> k < self.next_id()) && (self.jobs().contains_key(k)
                ==> self.jobs()[k].id == k)
    }

    pub fn new() -> (r: JobTable)
        ensures
            r.wf(),
            r.next_id() == 0,
            r.jobs() == Map::<u64, Transaction>::empty(),
    {
        JobTable { transactions: HashMap::new(), next_transaction_id: 0 }
    }

    pub fn next_transaction_id(&self) -> (r: u64)
        ensures
            r == self.next_id(),
    {
        self.next_transaction_id
    }

    /// Records `argv` as a new job with the next identifier and returns that
    /// identifier; `None`, with nothing changed, once every `u64` has been issued.
    pub fn allocate(&mut self, argv: Vec<String>) -> (r: Option<u64>)
        requires
            old(self).wf(),
        ensures
            final(self).wf(),
            table_evolves(*old(self), *final(self)),
            old(self).next_id() < u64::MAX ==> r == Some(old(self).next_id()),
            old(self).next_id() == u64::MAX ==> r.is_none() && same_contents(*old(self), *final(self)),
            r matches Some(id) ==> allocated(*old(self), argv, *final(self), id),
    {
        if self.next_transaction_id == u64::MAX {
            return None;
        }
        let id = self.next_transaction_id;
        let transaction = Transaction::new(id, argv);
        self.transactions.insert(id, transaction);
        self.next_transaction_id = id + 1;
        Some(id)
    }

    /// Moves job `id` from `New` to `Running` and returns `true`; where there
    /// is no such job, or it is not `New`, changes nothing and returns `false`.
    pub fn mark_running(&mut self, id: u64) -> (r: bool)
        requires
            old(self).wf(),
        ensures
            final(self).wf(),
            table_evolves(*old(self), *final(self)),
            r == (old(self).jobs().contains_key(id) && old(self).jobs()[id].status == Status::New),
            r ==> started(*old(self), id, *final(self)),
            !r ==> same_contents(*old(self), *final(self)),
    {
        match self.transactions.remove(&id) {
            None => {
                assert(self.jobs() =~= old(self).jobs());
                false
            },
            Some(t) => {
                let is_new = t.status == Status::New;
                let status = if is_new { Status::Running } else { t.status };
                let updated = Transaction {
                    id: t.id,
                    argv: t.argv,
                    status,
                    stdout: t.stdout,
                    stderr: t.stderr,
                };
                self.transactions.insert(id, updated);
                proof {
                    assert(self.jobs() =~= old(self).jobs().insert(id, self.jobs()[id]));
                    if !is_new {
                        assert(self.jobs() =~= old(self).jobs());
                    }
                }
                is_new
            },
        }
    }

    /// Records `outcome` on job `id` if it is `Running` and returns `true`;
    /// otherwise changes nothing and returns `false`.
    pub fn record_outcome(&mut self, id: u64, outcome: LaunchOutcome) -> (r: bool)
        requires
            old(self).wf(),
        ensures
            final(self).wf(),
            table_evolves(*old(self), *final(self)),
            r == (old(self).jobs().contains_key(id) && old(self).jobs()[id].status
                == Status::Running),
            r ==> finished(*old(self), id, outcome, *final(self)),
            !r ==> same_contents(*old(self), *final(self)),
    {
        match self.transactions.remove(&id) {
            None => {
                assert(self.jobs() =~= old(self).jobs());
                false
            },
            Some(t) => {
                if t.status != Status::Running {
                    self.transactions.insert(id, t);
                    proof {
                        assert(self.jobs() =~= old(self).jobs());
                    }
                    return false;
                }
                let updated = match outcome {
                    LaunchOutcome::Exited { stdout, stderr } => Transaction {
                        id: t.id,
                        argv: t.argv,
                        status: Status::Succeeded,
                        stdout,
                        stderr,
                    },
                    LaunchOutcome::NotStarted => Transaction {
                        id: t.id,
                        argv: t.argv,
                        status: Status::Failed,
                        stdout: t.stdout,
                        stderr: t.stderr,
                    },
                };
                self.transactions.insert(id, updated);
                proof {
                    assert(self.jobs() =~= old(self).jobs().insert(id, self.jobs()[id]));
                }
                true
            },
        }
    }

    /// The live record of job `id`, or `None` where no such job was ever accepted.
    pub fn get(&self, id: u64) -> (r: Option<&Transaction>)
        ensures
            match r {
                Some(t) => self.jobs().contains_key(id) && *t == self.jobs()[id],
                None => !self.jobs().contains_key(id),
            },
    {
        self.transactions.get(&id)
    }
}

} // verus!
