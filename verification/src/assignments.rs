//! Which assignments of jobs to workers a user sees.
use vstd::prelude::*;

use crate::models::{Job, JobAssignment};

verus! {

/// Whether an assignment is listed: its job is one of the user's, and it
/// matches the job and worker filters that are given.
pub open spec fn assignment_listed(a: JobAssignment, job_ids: Seq<i32>, job_id: Option<i32>, worker_id: Option<i32>) -> bool {
    &&& job_ids.contains(a.job_id)
    &&& match job_id {
        Some(j) => a.job_id == j,
        None => true,
    }
    &&& match worker_id {
        Some(w) => a.worker_id == w,
        None => true,
    }
}

/// The listed assignments among the first `n`, in order.
pub open spec fn listed_assignments(all: Seq<JobAssignment>, job_ids: Seq<i32>, job_id: Option<i32>, worker_id: Option<i32>, n: int) -> Seq<JobAssignment>
    decreases n,
{
    if n <= 0 {
        Seq::empty()
    } else {
        let prev = listed_assignments(all, job_ids, job_id, worker_id, n - 1);
        if assignment_listed(all[n - 1], job_ids, job_id, worker_id) {
            prev.push(all[n - 1])
        } else {
            prev
        }
    }
}

/// The ids of the jobs, in order.
pub fn job_ids(jobs: &[Job]) -> (r: Vec<i32>)
    ensures
        r@.len() == jobs@.len(),
        forall|i: int| 0 <= i < jobs@.len() ==> r@[i] == #[trigger] jobs@[i].id,
{
    let mut r: Vec<i32> = Vec::new();
    let mut i: usize = 0;
    while i < jobs.len()
        invariant
            i <= jobs.len(),
            r@.len() == i,
            forall|k: int| 0 <= k < i ==> r@[k] == #[trigger] jobs@[k].id,
        decreases jobs.len() - i,
    {
        r.push(jobs[i].id);
        i = i + 1;
    }
    r
}

fn contains_i32(ids: &[i32], x: i32) -> (r: bool)
    ensures
        r == ids@.contains(x),
{
    let mut i: usize = 0;
    while i < ids.len()
        invariant
            i <= ids.len(),
            forall|k: int| 0 <= k < i ==> ids@[k] != x,
        decreases ids.len() - i,
    {
        if ids[i] == x {
            return true;
        }
        i = i + 1;
    }
    false
}

/// The assignments of the user's jobs (those with ids in `job_ids`),
/// narrowed to one job and one worker where those are given, in order.
pub fn filter_assignments(all: &[JobAssignment], job_ids: &[i32], job_id: Option<i32>, worker_id: Option<i32>) -> (r: Vec<JobAssignment>)
    ensures
        r@ == listed_assignments(all@, job_ids@, job_id, worker_id, all@.len() as int),
{
    let mut r: Vec<JobAssignment> = Vec::new();
    let mut i: usize = 0;
    while i < all.len()
        invariant
            i <= all.len(),
            r@ == listed_assignments(all@, job_ids@, job_id, worker_id, i as int),
        decreases all.len() - i,
    {
        let a = all[i];
        let keep = contains_i32(job_ids, a.job_id) && match job_id {
            Some(j) => a.job_id == j,
            None => true,
        } && match worker_id {
            Some(w) => a.worker_id == w,
            None => true,
        };
        if keep {
            r.push(a);
        }
        i = i + 1;
    }
    r
}

/// The id of the first assignment, if there is one.
pub fn first_assignment_id(assignments: &[JobAssignment]) -> (r: Option<i32>)
    ensures
        r == (if assignments@.len() > 0 {
            Some(assignments@[0].id)
        } else {
            None
        }),
{
    if assignments.len() > 0 {
        Some(assignments[0].id)
    } else {
        None
    }
}

/// Every listed assignment belongs to one of the user's jobs and matches
/// the given filters.
pub proof fn listed_assignments_match(all: Seq<JobAssignment>, job_ids: Seq<i32>, job_id: Option<i32>, worker_id: Option<i32>, n: int, i: int)
    requires
        0 <= n <= all.len(),
        0 <= i < listed_assignments(all, job_ids, job_id, worker_id, n).len(),
    ensures
        assignment_listed(listed_assignments(all, job_ids, job_id, worker_id, n)[i], job_ids, job_id, worker_id),
    decreases n,
{
    if n > 0 {
        let prev = listed_assignments(all, job_ids, job_id, worker_id, n - 1);
        if i < prev.len() {
            listed_assignments_match(all, job_ids, job_id, worker_id, n - 1, i);
        }
    }
}

/// The listed assignments among the first `n` are exactly those whose job is
/// one of the user's, whose job is the requested one where a job is given,
/// and whose worker is the requested one where a worker is given, whatever
/// the other filter: nothing else is listed and none of them is left out.
pub proof fn listed_assignments_exactly(all: Seq<JobAssignment>, job_ids: Seq<i32>, job_id: Option<i32>, worker_id: Option<i32>, n: int)
    requires
        0 <= n <= all.len(),
    ensures
        forall|a: JobAssignment| #[trigger] listed_assignments(all, job_ids, job_id, worker_id, n).contains(a) ==> {
            &&& job_ids.contains(a.job_id)
            &&& (job_id matches Some(j) ==> a.job_id == j)
            &&& (worker_id matches Some(w) ==> a.worker_id == w)
            &&& exists|k: int| 0 <= k < n && all[k] == a
        },
        forall|k: int|
            0 <= k < n && job_ids.contains(#[trigger] all[k].job_id) && (job_id matches Some(j) ==> all[k].job_id == j)
                && (worker_id matches Some(w) ==> all[k].worker_id == w) ==> listed_assignments(
                all,
                job_ids,
                job_id,
                worker_id,
                n,
            ).contains(all[k]),
    decreases n,
{
    if n > 0 {
        listed_assignments_exactly(all, job_ids, job_id, worker_id, n - 1);
        let prev = listed_assignments(all, job_ids, job_id, worker_id, n - 1);
        let cur = listed_assignments(all, job_ids, job_id, worker_id, n);
        assert forall|a: JobAssignment| #[trigger] cur.contains(a) implies {
            &&& job_ids.contains(a.job_id)
            &&& (job_id matches Some(j) ==> a.job_id == j)
            &&& (worker_id matches Some(w) ==> a.worker_id == w)
            &&& exists|k: int| 0 <= k < n && all[k] == a
        } by {
            let i = choose|i: int| 0 <= i < cur.len() && cur[i] == a;
            if i < prev.len() {
                assert(prev[i] == a);
                assert(prev.contains(a));
            } else {
                assert(a == all[n - 1]);
            }
        }
        assert forall|k: int|
            0 <= k < n && job_ids.contains(#[trigger] all[k].job_id) && (job_id matches Some(j) ==> all[k].job_id == j)
                && (worker_id matches Some(w) ==> all[k].worker_id == w) implies cur.contains(all[k]) by {
            if k < n - 1 {
                assert(prev.contains(all[k]));
                let i = choose|i: int| 0 <= i < prev.len() && prev[i] == all[k];
                assert(cur[i] == all[k]);
            } else {
                assert(cur[cur.len() - 1] == all[k]);
            }
        }
    }
}

} // verus!
