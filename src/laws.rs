use vstd::prelude::*;
use crate::job::{is_terminal, may_follow};
use crate::service::{dispatched, job_text};
use crate::table::{JobTable, finished, outcome_status, table_evolves};
use crate::job::LaunchOutcome;

verus! {

/// Identifiers that `Run` hands out are strictly increasing: a job accepted
/// later, whatever happened to the table in between, carries a larger
/// identifier, and no identifier is issued twice.
pub proof fn lemma_run_ids_increase(
    a: JobTable,
    argv1: Vec<String>,
    b: JobTable,
    i: u64,
    c: JobTable,
    argv2: Vec<String>,
    d: JobTable,
    j: u64,
)
    requires
        dispatched(a, argv1, b, i),
        table_evolves(b, c),
        dispatched(c, argv2, d, j),
    ensures
        i < j,
        !a.jobs().contains_key(i),
        !c.jobs().contains_key(j),
        d.jobs().contains_key(i),
{
    assert(b.jobs().contains_key(i));
}

/// An identifier that has not been issued names no job, so `Get` on it
/// reports "not found".
pub proof fn lemma_unissued_not_found(t: JobTable, k: u64)
    requires
        t.wf(),
        t.next_id() <= k,
    ensures
        !t.jobs().contains_key(k),
{
}

/// Once `Run` has accepted `argv` as job `k` and its outcome has been
/// recorded, `Get(k)` shows exactly that argument vector and a final status.
pub proof fn lemma_run_then_get(
    a: JobTable,
    argv: Vec<String>,
    b: JobTable,
    k: u64,
    c: JobTable,
    o: LaunchOutcome,
    d: JobTable,
)
    requires
        dispatched(a, argv, b, k),
        table_evolves(b, c),
        finished(c, k, o, d),
    ensures
        d.jobs().contains_key(k),
        d.jobs()[k].id == k,
        d.jobs()[k].argv == argv,
        is_terminal(d.jobs()[k].status),
        d.jobs()[k].status == outcome_status(o),
{
    assert(b.jobs().contains_key(k));
}

/// Across any sequence of operations a job's status only moves forward
/// through New, Running and then Succeeded or Failed: a status once left is
/// never seen again.
pub proof fn lemma_status_moves_forward(a: JobTable, b: JobTable, c: JobTable, k: u64)
    requires
        table_evolves(a, b),
        table_evolves(b, c),
        a.jobs().contains_key(k),
    ensures
        table_evolves(a, c),
        may_follow(a.jobs()[k].status, c.jobs()[k].status),
        c.jobs()[k].status != a.jobs()[k].status ==> !may_follow(
            c.jobs()[k].status,
            a.jobs()[k].status,
        ),
{
    assert forall|m: u64| #[trigger] a.jobs().contains_key(m) implies c.jobs().contains_key(m)
        && crate::table::job_evolves(a.jobs()[m], c.jobs()[m]) by {
        assert(b.jobs().contains_key(m));
    }
    assert(b.jobs().contains_key(k));
}

/// A finished job never changes again, so repeated `Get` calls on it report
/// the same status and output every time.
pub proof fn lemma_finished_job_is_stable(a: JobTable, b: JobTable, k: u64)
    requires
        table_evolves(a, b),
        a.jobs().contains_key(k),
        is_terminal(a.jobs()[k].status),
    ensures
        b.jobs().contains_key(k),
        b.jobs()[k] == a.jobs()[k],
        job_text(b.jobs()[k]) == job_text(a.jobs()[k]),
{
    assert(a.jobs().contains_key(k));
}

} // verus!
