//! Decisions of the core's HTTP routes that do not touch the database.
use vstd::prelude::*;

verus! {

/// How many workers a page lists when the request names no limit.
pub const DEFAULT_PAGE_LIMIT: u32 = 50;

/// The body of a request that sets the job a worker runs.
pub struct UpdateActiveJobId {
    pub active_job_id: Option<i32>,
}

/// The limit and offset of a page of workers: the limit defaults to 50,
/// the page to 0, and the offset is page times limit.
pub fn page_window(page: Option<u32>, limit: Option<u32>) -> (r: (i64, i64))
    requires
        (match page {
            Some(x) => x as int,
            None => 0,
        }) * (match limit {
            Some(x) => x as int,
            None => DEFAULT_PAGE_LIMIT as int,
        }) <= i64::MAX,
    ensures
        ({
            let l: int = match limit {
                Some(x) => x as int,
                None => DEFAULT_PAGE_LIMIT as int,
            };
            let p: int = match page {
                Some(x) => x as int,
                None => 0,
            };
            r.0 == l && r.1 == p * l
        }),
{
    let l: u32 = match limit {
        Some(x) => x,
        None => DEFAULT_PAGE_LIMIT,
    };
    let p: u32 = match page {
        Some(x) => x,
        None => 0,
    };
    proof {
        assert(0 <= (p as int) * (l as int)) by (nonlinear_arith)
            requires
                0 <= p,
                0 <= l,
        ;
    }
    ((l as i64), (p as i64) * (l as i64))
}

/// The uptime that a request's `uptime` number sets: the number cast to
/// `i32`, keeping its low 32 bits.
pub fn uptime_from_number(v: Option<i64>) -> (r: Option<i32>)
    ensures
        r == match v {
            Some(x) => Some(x as i32),
            None => None,
        },
{
    match v {
        Some(x) => Some(x as i32),
        None => None,
    }
}

} // verus!
