use vstd::prelude::*;
use vstd::string::StringExecFns;
use crate::job::{LaunchOutcome, Status, Transaction};
use crate::table::{JobTable, finished, same_contents, table_evolves};
use crate::text::{decimal, json_escape, push_decimal, push_json_escaped};

verus! {

/// The name under which a status is reported.
pub open spec fn status_name(s: Status) -> Seq<char> {
    match s {
        Status::New => "New"@,
        Status::Running => "Running"@,
        Status::Succeeded => "Succeeded"@,
        Status::Failed => "Failed"@,
    }
}

/// The reply to `Run` that hands back identifier `id`.
pub open spec fn run_reply_text(id: u64) -> Seq<char> {
    "{ \"id\": \""@ + decimal(id as nat) + "\" }"@
}

/// The reply to `Get` for an identifier that no job carries.
pub open spec fn not_found_text(id: u64) -> Seq<char> {
    "No transaction found for: "@ + decimal(id as nat)
}

/// The reply to `Get` that reports job `t`.
pub open spec fn job_text(t: Transaction) -> Seq<char> {
    "{ \"id\": \""@ + decimal(t.id as nat) + "\", \"status\": \""@ + status_name(t.status)
        + "\", \"stdout\": \""@ + json_escape(t.stdout@) + "\", \"stderr\": \""@ + json_escape(
        t.stderr@,
    ) + "\" }"@
}

/// `post` is `pre` after `argv` was accepted as job `id` and handed to the
/// launcher: the job is `Running`, with no output yet.
pub open spec fn dispatched(pre: JobTable, argv: Vec<String>, post: JobTable, id: u64) -> bool {
    &&& id == pre.next_id()
    &&& !pre.jobs().contains_key(id)
    &&& post.next_id() == id + 1
    &&& post.jobs().contains_key(id)
    &&& post.jobs() == pre.jobs().insert(id, post.jobs()[id])
    &&& post.jobs()[id].id == id
    &&& post.jobs()[id].argv == argv
    &&& post.jobs()[id].status == Status::Running
    &&& post.jobs()[id].stdout@ == Seq::<char>::empty()
    &&& post.jobs()[id].stderr@ == Seq::<char>::empty()
}

/// The invocation service: accepts argument vectors as jobs and reports them.
pub struct BetterKit {
    table: JobTable,
}

impl BetterKit {
    /// The job table that the service owns.
    pub closed spec fn table(self) -> JobTable {
        self.table
    }

    pub open spec fn wf(self) -> bool {
        self.table().wf()
    }

    /// A service over the given table.
    pub fn new(table: JobTable) -> (r: BetterKit)
        requires
            table.wf(),
        ensures
            r.wf(),
            r.table() == table,
    {
        BetterKit { table }
    }

    /// First half of `Run`: records `argv` as a new job, moves it to
    /// `Running`, and returns its identifier, which the caller hands with
    /// `argv` to the process launcher. `None`, with nothing changed, once every
    /// `u64` has been issued.
    pub fn begin_run(&mut self, argv: Vec<String>) -> (r: Option<u64>)
        requires
            old(self).wf(),
        ensures
            final(self).wf(),
            table_evolves(old(self).table(), final(self).table()),
            old(self).table().next_id() < u64::MAX ==> r == Some(old(self).table().next_id()),
            old(self).table().next_id() == u64::MAX ==> r.is_none() && same_contents(
                old(self).table(),
                final(self).table(),
            ),
            r matches Some(id) ==> dispatched(old(self).table(), argv, final(self).table(), id),
    {
        let r = self.table.allocate(argv);
        match r {
            None => None,
            Some(id) => {
                let started = self.table.mark_running(id);
                assert(started);
                assert(self.table.jobs() =~= old(self).table().jobs().insert(
                    id,
                    self.table.jobs()[id],
                ));
                Some(id)
            },
        }
    }

    /// Second half of `Run`: records what the launcher reported for the
    /// running job `id` (`Succeeded` with its output where the process ran,
    /// `Failed` where it could not be started) and returns `true`; where `id`
    /// is no running job, changes nothing and returns `false`.
    pub fn finish_run(&mut self, id: u64, outcome: LaunchOutcome) -> (r: bool)
        requires
            old(self).wf(),
        ensures
            final(self).wf(),
            table_evolves(old(self).table(), final(self).table()),
            r == (old(self).table().jobs().contains_key(id) && old(self).table().jobs()[id].status
                == Status::Running),
            r ==> finished(old(self).table(), id, outcome, final(self).table()),
            !r ==> same_contents(old(self).table(), final(self).table()),
    {
        self.table.record_outcome(id, outcome)
    }

    /// `Get`: the live record of job `id`, or `None` where no job carries it.
    pub fn get(&self, id: u64) -> (r: Option<&Transaction>)
        ensures
            match r {
                Some(t) => self.table().jobs().contains_key(id) && *t == self.table().jobs()[id],
                None => !self.table().jobs().contains_key(id),
            },
    {
        self.table.get(id)
    }

    /// The reply to `Run` for the job with identifier `id`.
    pub fn run_reply(id: u64) -> (r: String)
        ensures
            r@ == run_reply_text(id),
    {
        let mut out = String::from_str("{ \"id\": \"");
        push_decimal(&mut out, id);
        out.append("\" }");
        out
    }

    /// The reply to `Get(id)`: the job's state, or a not-found message.
    pub fn get_reply(&self, id: u64) -> (r: String)
        ensures
            self.table().jobs().contains_key(id) ==> r@ == job_text(self.table().jobs()[id]),
            !self.table().jobs().contains_key(id) ==> r@ == not_found_text(id),
    {
        match self.table.get(id) {
            None => {
                let mut out = String::from_str("No transaction found for: ");
                push_decimal(&mut out, id);
                out
            },
            Some(t) => {
                let mut out = String::from_str("{ \"id\": \"");
                push_decimal(&mut out, t.id);
                out.append("\", \"status\": \"");
                match t.status {
                    Status::New => out.append("New"),
                    Status::Running => out.append("Running"),
                    Status::Succeeded => out.append("Succeeded"),
                    Status::Failed => out.append("Failed"),
                }
                out.append("\", \"stdout\": \"");
                push_json_escaped(&mut out, t.stdout.as_str());
                out.append("\", \"stderr\": \"");
                push_json_escaped(&mut out, t.stderr.as_str());
                out.append("\" }");
                out
            },
        }
    }
}

} // verus!
