//! The worker's saved configuration, and the decisions of the worker's
//! terminal interface that rest on it.
use vstd::prelude::*;

use crate::enums::job::JobStateEnum;
use crate::enums::workers::WorkerStatusEnum;
use crate::numeric::parse_i32;
use crate::numeric::parse_i32_range;
use crate::text::{chars_of, str_eq, string_from_chars, trim, trim_range};

verus! {

/// The socket through which the terminal interface asks a running worker to stop.
pub const SHUTDOWN_SOCKET: &'static str = "/tmp/swarm_worker_shutdown.sock";

/// The file the worker's output is written to.
pub const WORKER_LOG: &'static str = "/tmp/swarm_worker.log";

/// The UDP port the core's dispatcher receives heartbeats on.
pub const UDP_HEARTBEAT_PORT: u32 = 5001;

/// The persistent configuration of a worker.
pub struct CoreConfig {
    /// Where the core runs.
    pub base_url: String,
    pub last_username: Option<String>,
    pub worker_status_enum: Option<WorkerStatusEnum>,
    /// The id under which the core knows this worker.
    pub worker_id: Option<i32>,
}

impl CoreConfig {
    /// The configuration saved after choosing a reachable core: only its location.
    pub fn for_core(base_url: String) -> (c: CoreConfig)
        ensures
            c.base_url == base_url,
            c.last_username is None,
            c.worker_status_enum is None,
            c.worker_id is None,
    {
        CoreConfig { base_url, last_username: None, worker_status_enum: None, worker_id: None }
    }
}

/// Whether the worker is configured: a configuration could be loaded and
/// holds a worker id.
pub fn worker_id_set(loaded: &Option<CoreConfig>) -> (r: bool)
    ensures
        r == (loaded matches Some(c) && c.worker_id is Some),
{
    match loaded {
        Some(c) => c.worker_id.is_some(),
        None => false,
    }
}

/// What the answer to "Enter new worker ID" asks for.
#[derive(Debug, Clone, Copy, PartialEq, Eq, Structural)]
pub enum WorkerIdAnswer {
    /// A blank answer: leave the id as it is.
    Cancelled,
    /// Not an integer.
    Invalid,
    /// The new worker id.
    Id(i32),
}

/// Reads the answer to "Enter new worker ID": trimmed, blank cancels,
/// anything but an `i32` is invalid.
pub fn read_worker_id_answer(input: &str) -> (r: WorkerIdAnswer)
    ensures
        r == if trim(input@).len() == 0 {
            WorkerIdAnswer::Cancelled
        } else {
            match parse_i32(trim(input@)) {
                Some(id) => WorkerIdAnswer::Id(id),
                None => WorkerIdAnswer::Invalid,
            }
        },
{
    let v = chars_of(input);
    let (a, b) = trim_range(&v, 0, v.len());
    proof {
        assert(v@.subrange(0, v.len() as int) =~= input@);
    }
    if a == b {
        return WorkerIdAnswer::Cancelled;
    }
    match parse_i32_range(&v, a, b) {
        Some(id) => WorkerIdAnswer::Id(id),
        None => WorkerIdAnswer::Invalid,
    }
}

/// What the connect dialog learns, step by step.
#[derive(Debug, Clone, Copy, PartialEq, Eq, Structural)]
pub enum CoreLocationEvent {
    /// The answer to "Previous configuration found": whether the saved core
    /// was chosen, and, where it was, whether it answered.
    SavedChoice { reuse: bool, reachable: bool },
    /// Whether the newly chosen core answered.
    NewChecked { reachable: bool },
}

/// What the connect dialog does next.
#[derive(Debug, Clone, Copy, PartialEq, Eq, Structural)]
pub enum CoreLocationStep {
    /// Use the saved core.
    UseSaved,
    /// Ask where the core runs (local or remote).
    AskLocation,
    /// Save the new core's address and use it.
    Save,
    /// Give up: the new core does not answer.
    Abort,
}

/// The connect dialog's decisions: the saved core is reused only where it
/// was chosen and answers, else the user is asked for a location; a new
/// location is saved only where its core answers, else the dialog gives up.
pub fn core_location_step(ev: CoreLocationEvent) -> (r: CoreLocationStep)
    ensures
        r == match ev {
            CoreLocationEvent::SavedChoice { reuse, reachable } => if reuse && reachable {
                CoreLocationStep::UseSaved
            } else {
                CoreLocationStep::AskLocation
            },
            CoreLocationEvent::NewChecked { reachable } => if reachable {
                CoreLocationStep::Save
            } else {
                CoreLocationStep::Abort
            },
        },
{
    match ev {
        CoreLocationEvent::SavedChoice { reuse, reachable } => if reuse && reachable {
            CoreLocationStep::UseSaved
        } else {
            CoreLocationStep::AskLocation
        },
        CoreLocationEvent::NewChecked { reachable } => if reachable {
            CoreLocationStep::Save
        } else {
            CoreLocationStep::Abort
        },
    }
}

/// The address of a core typed in by IP: `http://<ip>:8000`, the IP trimmed.
pub fn remote_core_url(ip: &str) -> (r: String)
    ensures
        r@ == "http://"@ + trim(ip@) + ":8000"@,
{
    let v = chars_of(ip);
    let (a, b) = trim_range(&v, 0, v.len());
    proof {
        assert(v@.subrange(0, v.len() as int) =~= ip@);
    }
    let mut t: Vec<char> = Vec::new();
    let mut i: usize = a;
    while i < b
        invariant
            a <= i <= b <= v.len(),
            t@ == v@.subrange(a as int, i as int),
        decreases b - i,
    {
        t.push(v[i]);
        proof {
            assert(v@.subrange(a as int, i + 1) =~= v@.subrange(a as int, i as int).push(v@[i as int]));
        }
        i = i + 1;
    }
    let mut r = "http://".to_owned();
    r.append(string_from_chars(&t).as_str());
    r.append(":8000");
    r
}

/// The address of a local core: the configured one where the environment
/// gives one, else `http://127.0.0.1:8000`.
pub fn local_core_url(configured: Option<String>) -> (r: String)
    ensures
        match configured {
            Some(u) => r == u,
            None => r@ == "http://127.0.0.1:8000"@,
        },
{
    match configured {
        Some(u) => u,
        None => "http://127.0.0.1:8000".to_owned(),
    }
}

/// The state a submitted job starts in: cron jobs are submitted, other jobs
/// go straight to the queue.
pub fn initial_job_state(schedule_type: &str) -> (r: JobStateEnum)
    ensures
        r == if schedule_type@ == "Cron"@ {
            JobStateEnum::Submitted
        } else {
            JobStateEnum::Queued
        },
{
    if str_eq(schedule_type, "Cron") {
        JobStateEnum::Submitted
    } else {
        JobStateEnum::Queued
    }
}

/// Whether a job in this state has finished: it is neither submitted,
/// queued nor running.
pub fn is_finished_state(state: &str) -> (r: bool)
    ensures
        r == !(state@ == "Submitted"@ || state@ == "Queued"@ || state@ == "Running"@),
{
    !(str_eq(state, "Submitted") || str_eq(state, "Queued") || str_eq(state, "Running"))
}

/// Whether a state text is that of a finished job.
pub open spec fn finished_text(state: Seq<char>) -> bool {
    !(state == "Submitted"@ || state == "Queued"@ || state == "Running"@)
}

/// The positions, in order, of the finished jobs among the first `n`.
pub open spec fn finished_positions(states: Seq<String>, n: int) -> Seq<usize>
    decreases n,
{
    if n <= 0 {
        Seq::empty()
    } else {
        let prev = finished_positions(states, n - 1);
        if finished_text(states[n - 1]@) {
            prev.push((n - 1) as usize)
        } else {
            prev
        }
    }
}

/// The positions of the finished jobs, given the jobs' state texts in list
/// order: those neither submitted, queued nor running, in order.
pub fn finished_jobs(states: &[String]) -> (r: Vec<usize>)
    ensures
        r@ == finished_positions(states@, states@.len() as int),
{
    let mut r: Vec<usize> = Vec::new();
    let mut i: usize = 0;
    while i < states.len()
        invariant
            i <= states@.len(),
            r@ == finished_positions(states@, i as int),
        decreases states.len() - i,
    {
        if is_finished_state(states[i].as_str()) {
            r.push(i);
        }
        i = i + 1;
    }
    r
}

/// The line that shows a worker's status.
pub fn worker_status_line(status: WorkerStatusEnum) -> (r: String)
    ensures
        r@ == "Worker status: ["@ + status.text() + "]"@,
{
    let mut r = "Worker status: [".to_owned();
    r.append(status.label());
    r.append("]");
    r
}

/// The status shown in the main menu's prompt: the worker's status line, or
/// why there is none.
pub fn status_banner(id_set: bool, status: Option<WorkerStatusEnum>) -> (r: String)
    ensures
        !id_set ==> r@ == "Worker ID not set"@,
        id_set ==> match status {
            Some(s) => r@ == "Worker status: ["@ + s.text() + "]"@,
            None => r@ == "Status unknown"@,
        },
{
    if !id_set {
        "Worker ID not set".to_owned()
    } else {
        match status {
            Some(s) => worker_status_line(s),
            None => "Status unknown".to_owned(),
        }
    }
}

/// The profile sent by "Update Profile": an empty name or email keeps the
/// current one, an empty password sends none.
pub fn profile_update(
    current_username: String,
    current_email: String,
    new_username: String,
    new_email: String,
    new_password: String,
) -> (r: (String, String, Option<String>))
    ensures
        r.0 == if new_username@.len() == 0 {
            current_username
        } else {
            new_username
        },
        r.1 == if new_email@.len() == 0 {
            current_email
        } else {
            new_email
        },
        r.2 == if new_password@.len() == 0 {
            None
        } else {
            Some(new_password)
        },
{
    let name = if new_username.as_str().is_empty() {
        current_username
    } else {
        new_username
    };
    let email = if new_email.as_str().is_empty() {
        current_email
    } else {
        new_email
    };
    let password = if new_password.as_str().is_empty() {
        None
    } else {
        Some(new_password)
    };
    (name, email, password)
}

/// How many lines of the worker's log are shown at most.
pub const MAX_LOG_LINES: usize = 200;

/// The first line shown of a log of `n` lines: only the last 200 are shown.
pub fn log_tail_start(n: usize) -> (r: usize)
    ensures
        r == if n > MAX_LOG_LINES {
            n - MAX_LOG_LINES
        } else {
            0
        },
{
    if n > MAX_LOG_LINES {
        n - MAX_LOG_LINES
    } else {
        0
    }
}

/// The value of the `Authorization` header for a session token.
pub fn bearer_authorization(token: &str) -> (r: String)
    ensures
        r@ == "Bearer "@ + token@,
{
    let mut r = "Bearer ".to_owned();
    r.append(token);
    r
}

} // verus!
