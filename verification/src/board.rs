//! The job inspector's board: jobs, the workers running them and idle
//! workers, laid out in three columns (user, core, workers), and how the
//! arrow keys move the selection over it.
use vstd::prelude::*;

use crate::enums::job::JobStateEnum;
use crate::models::{Job, JobAssignment, Worker};
use crate::numeric::{i32_text, i32_to_text};
use crate::text::append_chars;

verus! {

/// One line of the board; `job` and `worker` are positions in the lists
/// the board was laid out from.
#[derive(Debug, Clone, Copy, PartialEq, Eq, Structural)]
pub enum BoardItem {
    /// A submitted job, waiting at the user.
    Submitted { job: usize },
    /// A queued job, held by the core.
    Queued { job: usize },
    /// A finished job, held by the core; `success` for a completed one.
    Done { job: usize, success: bool },
    /// A running job, shown with the worker it is assigned to.
    RunningOn { job: usize, worker: usize },
    /// A running job whose worker is not among the listed workers.
    Running { job: usize },
    /// A worker that runs none of the listed jobs.
    IdleWorker { worker: usize },
}

/// The three columns of the board.
pub struct JobBoard {
    /// Submitted jobs.
    pub user: Vec<BoardItem>,
    /// Queued and finished jobs.
    pub core: Vec<BoardItem>,
    /// Running jobs, then idle workers.
    pub workers: Vec<BoardItem>,
}

/// The first assignment of the job with id `job_id`, if any.
pub open spec fn first_assignment(a: Seq<JobAssignment>, job_id: i32) -> Option<int>
    decreases a.len(),
{
    if a.len() == 0 {
        None
    } else {
        match first_assignment(a.drop_last(), job_id) {
            Some(k) => Some(k),
            None => if a.last().job_id == job_id {
                Some(a.len() - 1)
            } else {
                None
            },
        }
    }
}

/// The first worker with id `id`, if any.
pub open spec fn first_worker(w: Seq<Worker>, id: i32) -> Option<int>
    decreases w.len(),
{
    if w.len() == 0 {
        None
    } else {
        match first_worker(w.drop_last(), id) {
            Some(k) => Some(k),
            None => if w.last().id == id {
                Some(w.len() - 1)
            } else {
                None
            },
        }
    }
}

/// The worker shown with job `j`: the worker of the job's first
/// assignment, where that worker is listed.
pub open spec fn shown_worker(jobs: Seq<Job>, workers: Seq<Worker>, a: Seq<JobAssignment>, j: int) -> Option<int> {
    match first_assignment(a, jobs[j].id) {
        Some(k) => first_worker(workers, a[k].worker_id),
        None => None,
    }
}

/// The column (0 user, 1 core, 2 workers) and line of job `j`.
pub open spec fn job_line(jobs: Seq<Job>, workers: Seq<Worker>, a: Seq<JobAssignment>, j: int) -> (int, BoardItem) {
    match jobs[j].state {
        JobStateEnum::Submitted => (0, BoardItem::Submitted { job: j as usize }),
        JobStateEnum::Queued => (1, BoardItem::Queued { job: j as usize }),
        JobStateEnum::Running => match shown_worker(jobs, workers, a, j) {
            Some(k) => (2, BoardItem::RunningOn { job: j as usize, worker: k as usize }),
            None => (2, BoardItem::Running { job: j as usize }),
        },
        JobStateEnum::Completed => (1, BoardItem::Done { job: j as usize, success: true }),
        JobStateEnum::Failed => (1, BoardItem::Done { job: j as usize, success: false }),
    }
}

/// The lines that the first `n` jobs put in column `col`, in job order.
pub open spec fn job_lines(jobs: Seq<Job>, workers: Seq<Worker>, a: Seq<JobAssignment>, n: int, col: int) -> Seq<BoardItem>
    decreases n,
{
    if n <= 0 {
        Seq::empty()
    } else {
        let prev = job_lines(jobs, workers, a, n - 1, col);
        let (c, item) = job_line(jobs, workers, a, n - 1);
        if c == col {
            prev.push(item)
        } else {
            prev
        }
    }
}

/// Job `j` is running and shown with a worker with this id.
pub open spec fn runs_on(jobs: Seq<Job>, workers: Seq<Worker>, a: Seq<JobAssignment>, j: int, id: i32) -> bool {
    &&& jobs[j].state == JobStateEnum::Running
    &&& match shown_worker(jobs, workers, a, j) {
        Some(k) => workers[k].id == id,
        None => false,
    }
}

/// Some listed job runs on a worker with this id.
pub open spec fn is_busy_worker(jobs: Seq<Job>, workers: Seq<Worker>, a: Seq<JobAssignment>, id: i32) -> bool {
    exists|j: int| 0 <= j < jobs.len() && #[trigger] runs_on(jobs, workers, a, j, id)
}

/// The idle-worker lines for the first `n` workers, in worker order.
pub open spec fn idle_lines(jobs: Seq<Job>, workers: Seq<Worker>, a: Seq<JobAssignment>, n: int) -> Seq<BoardItem>
    decreases n,
{
    if n <= 0 {
        Seq::empty()
    } else {
        let prev = idle_lines(jobs, workers, a, n - 1);
        if is_busy_worker(jobs, workers, a, workers[n - 1].id) {
            prev
        } else {
            prev.push(BoardItem::IdleWorker { worker: (n - 1) as usize })
        }
    }
}

fn find_assignment(a: &[JobAssignment], job_id: i32) -> (r: Option<usize>)
    ensures
        match (r, first_assignment(a@, job_id)) {
            (Some(x), Some(y)) => x == y,
            (None, None) => true,
            _ => false,
        },
{
    let mut i: usize = 0;
    while i < a.len()
        invariant
            i <= a.len(),
            first_assignment(a@.subrange(0, i as int), job_id) is None,
        decreases a.len() - i,
    {
        proof {
            assert(a@.subrange(0, i + 1).drop_last() =~= a@.subrange(0, i as int));
        }
        if a[i].job_id == job_id {
            proof {
                lemma_first_assignment_prefix(a@, i + 1, job_id);
            }
            return Some(i);
        }
        i = i + 1;
    }
    proof {
        assert(a@.subrange(0, a.len() as int) =~= a@);
    }
    None
}

proof fn lemma_first_assignment_prefix(a: Seq<JobAssignment>, n: int, job_id: i32)
    requires
        0 <= n <= a.len(),
        first_assignment(a.subrange(0, n), job_id) is Some,
    ensures
        first_assignment(a, job_id) == first_assignment(a.subrange(0, n), job_id),
    decreases a.len() - n,
{
    if n < a.len() {
        assert(a.subrange(0, n + 1).drop_last() =~= a.subrange(0, n));
        lemma_first_assignment_prefix(a, n + 1, job_id);
    } else {
        assert(a.subrange(0, n) =~= a);
    }
}

proof fn lemma_first_worker_prefix(w: Seq<Worker>, n: int, id: i32)
    requires
        0 <= n <= w.len(),
        first_worker(w.subrange(0, n), id) is Some,
    ensures
        first_worker(w, id) == first_worker(w.subrange(0, n), id),
    decreases w.len() - n,
{
    if n < w.len() {
        assert(w.subrange(0, n + 1).drop_last() =~= w.subrange(0, n));
        lemma_first_worker_prefix(w, n + 1, id);
    } else {
        assert(w.subrange(0, n) =~= w);
    }
}

proof fn lemma_first_worker_in_range(w: Seq<Worker>, id: i32)
    ensures
        first_worker(w, id) matches Some(k) ==> 0 <= k < w.len() && w[k].id == id,
    decreases w.len(),
{
    if w.len() > 0 {
        lemma_first_worker_in_range(w.drop_last(), id);
    }
}

proof fn lemma_first_assignment_in_range(a: Seq<JobAssignment>, id: i32)
    ensures
        first_assignment(a, id) matches Some(k) ==> 0 <= k < a.len() && a[k].job_id == id,
    decreases a.len(),
{
    if a.len() > 0 {
        lemma_first_assignment_in_range(a.drop_last(), id);
    }
}

fn find_worker(w: &[Worker], id: i32) -> (r: Option<usize>)
    ensures
        match (r, first_worker(w@, id)) {
            (Some(x), Some(y)) => x == y,
            (None, None) => true,
            _ => false,
        },
{
    let mut i: usize = 0;
    while i < w.len()
        invariant
            i <= w.len(),
            first_worker(w@.subrange(0, i as int), id) is None,
        decreases w.len() - i,
    {
        proof {
            assert(w@.subrange(0, i + 1).drop_last() =~= w@.subrange(0, i as int));
        }
        if w[i].id == id {
            proof {
                lemma_first_worker_prefix(w@, i + 1, id);
            }
            return Some(i);
        }
        i = i + 1;
    }
    proof {
        assert(w@.subrange(0, w.len() as int) =~= w@);
    }
    None
}

fn contains_id(ids: &Vec<i32>, id: i32) -> (r: bool)
    ensures
        r == ids@.contains(id),
{
    let mut i: usize = 0;
    while i < ids.len()
        invariant
            i <= ids.len(),
            forall|j: int| 0 <= j < i ==> ids@[j] != id,
        decreases ids.len() - i,
    {
        if ids[i] == id {
            return true;
        }
        i = i + 1;
    }
    false
}

/// Lays the jobs, workers and assignments out on the board.
pub fn lay_out_board(jobs: &[Job], workers: &[Worker], assignments: &[JobAssignment]) -> (b: JobBoard)
    ensures
        b.user@ == job_lines(jobs@, workers@, assignments@, jobs@.len() as int, 0),
        b.core@ == job_lines(jobs@, workers@, assignments@, jobs@.len() as int, 1),
        b.workers@ == job_lines(jobs@, workers@, assignments@, jobs@.len() as int, 2) + idle_lines(
            jobs@,
            workers@,
            assignments@,
            workers@.len() as int,
        ),
{
    let ghost js = jobs@;
    let ghost ws = workers@;
    let ghost asg = assignments@;
    let mut user: Vec<BoardItem> = Vec::new();
    let mut core: Vec<BoardItem> = Vec::new();
    let mut running: Vec<BoardItem> = Vec::new();
    let mut busy: Vec<i32> = Vec::new();
    let mut j: usize = 0;
    while j < jobs.len()
        invariant
            j <= jobs.len(),
            js == jobs@,
            ws == workers@,
            asg == assignments@,
            user@ == job_lines(js, ws, asg, j as int, 0),
            core@ == job_lines(js, ws, asg, j as int, 1),
            running@ == job_lines(js, ws, asg, j as int, 2),
            forall|id: i32|
                #[trigger] busy@.contains(id) <==> exists|jj: int| 0 <= jj < j && #[trigger] runs_on(js, ws, asg, jj, id),
        decreases jobs.len() - j,
    {
        let job = &jobs[j];
        let ghost prev_busy = busy@;
        match job.state {
            JobStateEnum::Submitted => {
                user.push(BoardItem::Submitted { job: j });
            },
            JobStateEnum::Queued => {
                core.push(BoardItem::Queued { job: j });
            },
            JobStateEnum::Running => {
                let shown = match find_assignment(assignments, job.id) {
                    Some(k) => {
                        proof {
                            lemma_first_assignment_in_range(asg, job.id);
                        }
                        find_worker(workers, assignments[k].worker_id)
                    },
                    None => None,
                };
                proof {
                    lemma_first_assignment_in_range(asg, job.id);
                    if first_assignment(asg, job.id) is Some {
                        lemma_first_worker_in_range(ws, asg[first_assignment(asg, job.id)->0].worker_id);
                    }
                }
                match shown {
                    Some(k) => {
                        busy.push(workers[k].id);
                        running.push(BoardItem::RunningOn { job: j, worker: k });
                    },
                    None => {
                        running.push(BoardItem::Running { job: j });
                    },
                }
            },
            JobStateEnum::Completed => {
                core.push(BoardItem::Done { job: j, success: true });
            },
            JobStateEnum::Failed => {
                core.push(BoardItem::Done { job: j, success: false });
            },
        }
        proof {
            let pushed: Option<i32> = if busy@.len() > prev_busy.len() {
                Some(busy@.last())
            } else {
                None
            };
            assert(busy@ == match pushed {
                Some(x) => prev_busy.push(x),
                None => prev_busy,
            });
            assert forall|id: i32| #[trigger] runs_on(js, ws, asg, j as int, id) <==> pushed == Some(id) by {
            }
            assert forall|id: i32|
                #[trigger] busy@.contains(id) <==> exists|jj: int| 0 <= jj < j + 1 && #[trigger] runs_on(js, ws, asg, jj, id) by {
                if busy@.contains(id) {
                    let x = choose|x: int| 0 <= x < busy@.len() && busy@[x] == id;
                    if x < prev_busy.len() {
                        assert(prev_busy[x] == id);
                        assert(prev_busy.contains(id));
                    } else {
                        assert(runs_on(js, ws, asg, j as int, id));
                    }
                }
                if exists|jj: int| 0 <= jj < j + 1 && #[trigger] runs_on(js, ws, asg, jj, id) {
                    let jj = choose|jj: int| 0 <= jj < j + 1 && #[trigger] runs_on(js, ws, asg, jj, id);
                    if jj == j {
                        assert(busy@[busy@.len() - 1] == id);
                    } else {
                        assert(prev_busy.contains(id));
                        let x = choose|x: int| 0 <= x < prev_busy.len() && prev_busy[x] == id;
                        assert(busy@[x] == id);
                    }
                }
            }
        }
        j = j + 1;
    }
    let mut w: usize = 0;
    while w < workers.len()
        invariant
            w <= workers.len(),
            js == jobs@,
            ws == workers@,
            asg == assignments@,
            running@ == job_lines(js, ws, asg, js.len() as int, 2) + idle_lines(js, ws, asg, w as int),
            forall|id: i32| #[trigger] busy@.contains(id) <==> is_busy_worker(js, ws, asg, id),
        decreases workers.len() - w,
    {
        if !contains_id(&busy, workers[w].id) {
            running.push(BoardItem::IdleWorker { worker: w });
        }
        w = w + 1;
    }
    JobBoard { user, core, workers: running }
}

/// A key the inspector reacts to.
#[derive(Debug, Clone, Copy, PartialEq, Eq, Structural)]
pub enum NavKey {
    Left,
    Right,
    Up,
    Down,
    /// Any other key; it moves nothing.
    Other,
}

/// The selected column (0 to 2) and line of the board.
#[derive(Debug, Clone, Copy, PartialEq, Eq, Structural)]
pub struct BoardCursor {
    pub column: usize,
    pub row: usize,
}

impl JobBoard {
    /// The number of lines in a column; columns past the third are empty.
    pub open spec fn column_len(&self, col: int) -> int {
        if col == 0 {
            self.user@.len() as int
        } else if col == 1 {
            self.core@.len() as int
        } else if col == 2 {
            self.workers@.len() as int
        } else {
            0
        }
    }

    /// The number of lines in a column.
    pub fn column_length(&self, col: usize) -> (n: usize)
        ensures
            n == self.column_len(col as int),
    {
        if col == 0 {
            self.user.len()
        } else if col == 1 {
            self.core.len()
        } else if col == 2 {
            self.workers.len()
        } else {
            0
        }
    }
}

/// Where a key moves the selection: left and right change column and go
/// back to the first line, up and down move within the column.
pub open spec fn board_move(board: &JobBoard, c: BoardCursor, key: NavKey) -> BoardCursor {
    match key {
        NavKey::Left => if c.column > 0 {
            BoardCursor { column: (c.column - 1) as usize, row: 0 }
        } else {
            c
        },
        NavKey::Right => if c.column < 2 {
            BoardCursor { column: (c.column + 1) as usize, row: 0 }
        } else {
            c
        },
        NavKey::Down => if c.row + 1 < board.column_len(c.column as int) {
            BoardCursor { column: c.column, row: (c.row + 1) as usize }
        } else {
            c
        },
        NavKey::Up => BoardCursor { column: c.column, row: if c.row > 0 { (c.row - 1) as usize } else { 0 } },
        NavKey::Other => c,
    }
}

/// Moves the selection of the board by one key.
pub fn board_step(board: &JobBoard, c: BoardCursor, key: NavKey) -> (r: BoardCursor)
    requires
        c.column <= 2,
    ensures
        r == board_move(board, c, key),
{
    match key {
        NavKey::Left => if c.column > 0 {
            BoardCursor { column: c.column - 1, row: 0 }
        } else {
            c
        },
        NavKey::Right => if c.column < 2 {
            BoardCursor { column: c.column + 1, row: 0 }
        } else {
            c
        },
        NavKey::Down => if board.column_length(c.column) > 0 && c.row < board.column_length(c.column) - 1 {
            BoardCursor { column: c.column, row: c.row + 1 }
        } else {
            c
        },
        NavKey::Up => BoardCursor { column: c.column, row: c.row.saturating_sub(1) },
        NavKey::Other => c,
    }
}

/// The selection stays on the board: the column is one of the three, and
/// the line is one of the column's or the first.
pub proof fn board_move_stays_on_board(board: &JobBoard, c: BoardCursor, key: NavKey)
    requires
        c.column <= 2,
        c.row == 0 || c.row < board.column_len(c.column as int),
    ensures
        board_move(board, c, key).column <= 2,
        board_move(board, c, key).row == 0 || board_move(board, c, key).row < board.column_len(
            board_move(board, c, key).column as int,
        ),
{
}

/// The item names listed jobs and workers only.
pub open spec fn item_in_range(jobs_len: int, workers_len: int, item: BoardItem) -> bool {
    match item {
        BoardItem::Submitted { job } => job < jobs_len,
        BoardItem::Queued { job } => job < jobs_len,
        BoardItem::Done { job, .. } => job < jobs_len,
        BoardItem::RunningOn { job, worker } => job < jobs_len && worker < workers_len,
        BoardItem::Running { job } => job < jobs_len,
        BoardItem::IdleWorker { worker } => worker < workers_len,
    }
}

/// The line a board item is drawn as: a job's name and id with a mark for
/// its place on the board, or an idle worker's label and id.
pub open spec fn item_label(jobs: Seq<Job>, workers: Seq<Worker>, item: BoardItem) -> Seq<char> {
    match item {
        BoardItem::Submitted { job } =>
            "\u{1f4e6} "@ + jobs[job as int].job_name@ + " [J"@ + i32_text(jobs[job as int].id) + "]"@,
        BoardItem::Queued { job } =>
            "\u{1f4e6} "@ + jobs[job as int].job_name@ + " (queued) [J"@ + i32_text(jobs[job as int].id) + "]"@,
        BoardItem::RunningOn { job, worker } =>
            "\u{1f4e6} "@ + jobs[job as int].job_name@ + " \u{2192} \u{1f6e0}\u{fe0f} "@
                + workers[worker as int].label@ + " [J"@ + i32_text(jobs[job as int].id) + "]"@,
        BoardItem::Running { job } =>
            "\u{1f4e6} "@ + jobs[job as int].job_name@ + " (running) [J"@ + i32_text(jobs[job as int].id) + "]"@,
        BoardItem::Done { job, success } =>
            (if success { "\u{2705}"@ } else { "\u{274c}"@ }) + " "@ + jobs[job as int].job_name@
                + " (done) [J"@ + i32_text(jobs[job as int].id) + "]"@,
        BoardItem::IdleWorker { worker } =>
            "\u{1f6e0}\u{fe0f} "@ + workers[worker as int].label@ + " (idle) [W"@
                + i32_text(workers[worker as int].id) + "]"@,
    }
}

/// Appends the decimal text of an id.
fn append_id(s: &mut String, id: i32)
    ensures
        final(s)@ == old(s)@ + i32_text(id),
{
    let digits = i32_to_text(id);
    append_chars(s, &digits);
}

/// The line a board item is drawn as.
pub fn board_item_label(jobs: &[Job], workers: &[Worker], item: BoardItem) -> (r: String)
    requires
        item_in_range(jobs@.len() as int, workers@.len() as int, item),
    ensures
        r@ == item_label(jobs@, workers@, item),
{
    let mut r = String::new();
    match item {
        BoardItem::Submitted { job } => {
            r.append("\u{1f4e6} ");
            r.append(jobs[job].job_name.as_str());
            r.append(" [J");
            append_id(&mut r, jobs[job].id);
            r.append("]");
        },
        BoardItem::Queued { job } => {
            r.append("\u{1f4e6} ");
            r.append(jobs[job].job_name.as_str());
            r.append(" (queued) [J");
            append_id(&mut r, jobs[job].id);
            r.append("]");
        },
        BoardItem::RunningOn { job, worker } => {
            r.append("\u{1f4e6} ");
            r.append(jobs[job].job_name.as_str());
            r.append(" \u{2192} \u{1f6e0}\u{fe0f} ");
            r.append(workers[worker].label.as_str());
            r.append(" [J");
            append_id(&mut r, jobs[job].id);
            r.append("]");
        },
        BoardItem::Running { job } => {
            r.append("\u{1f4e6} ");
            r.append(jobs[job].job_name.as_str());
            r.append(" (running) [J");
            append_id(&mut r, jobs[job].id);
            r.append("]");
        },
        BoardItem::Done { job, success } => {
            if success {
                r.append("\u{2705}");
            } else {
                r.append("\u{274c}");
            }
            r.append(" ");
            r.append(jobs[job].job_name.as_str());
            r.append(" (done) [J");
            append_id(&mut r, jobs[job].id);
            r.append("]");
        },
        BoardItem::IdleWorker { worker } => {
            r.append("\u{1f6e0}\u{fe0f} ");
            r.append(workers[worker].label.as_str());
            r.append(" (idle) [W");
            append_id(&mut r, workers[worker].id);
            r.append("]");
        },
    }
    r
}

/// A line as the board draws it: with an arrow before it where it is selected.
pub fn marked_label(label: String, selected: bool) -> (r: String)
    ensures
        r@ == if selected {
            "\u{2192} "@ + label@
        } else {
            label@
        },
{
    if selected {
        let mut r = "\u{2192} ".to_owned();
        r.append(label.as_str());
        r
    } else {
        label
    }
}

/// The title of a column: its name and its position.
pub fn column_title(col: usize) -> (r: &'static str)
    requires
        col < 3,
    ensures
        r@ == if col == 0 {
            "\u{1f464} USER [0]"@
        } else if col == 1 {
            "\u{2699}\u{fe0f} CORE [1]"@
        } else {
            "\u{1f6e0}\u{fe0f} WORKERS [2]"@
        },
{
    if col == 0 {
        "\u{1f464} USER [0]"
    } else if col == 1 {
        "\u{2699}\u{fe0f} CORE [1]"
    } else {
        "\u{1f6e0}\u{fe0f} WORKERS [2]"
    }
}

/// Every line of a column names a listed job, and a listed worker where it
/// names one, so each can be drawn with `board_item_label`.
pub proof fn job_lines_in_range(jobs: Seq<Job>, workers: Seq<Worker>, a: Seq<JobAssignment>, n: int, col: int)
    requires
        0 <= n <= jobs.len(),
        jobs.len() <= usize::MAX,
        workers.len() <= usize::MAX,
    ensures
        forall|k: int|
            0 <= k < job_lines(jobs, workers, a, n, col).len() ==> item_in_range(
                jobs.len() as int,
                workers.len() as int,
                #[trigger] job_lines(jobs, workers, a, n, col)[k],
            ),
    decreases n,
{
    if n > 0 {
        job_lines_in_range(jobs, workers, a, n - 1, col);
        match first_assignment(a, jobs[n - 1].id) {
            Some(k) => {
                lemma_first_assignment_in_range(a, jobs[n - 1].id);
                lemma_first_worker_in_range(workers, a[k].worker_id);
            },
            None => {},
        }
        let prev = job_lines(jobs, workers, a, n - 1, col);
        let lines = job_lines(jobs, workers, a, n, col);
        assert forall|k: int| 0 <= k < lines.len() implies item_in_range(
            jobs.len() as int,
            workers.len() as int,
            #[trigger] lines[k],
        ) by {
            if k < prev.len() {
                assert(lines[k] == prev[k]);
            }
        }
    }
}

/// Every idle-worker line names a listed worker.
pub proof fn idle_lines_in_range(jobs: Seq<Job>, workers: Seq<Worker>, a: Seq<JobAssignment>, n: int)
    requires
        0 <= n <= workers.len(),
        workers.len() <= usize::MAX,
    ensures
        forall|k: int|
            0 <= k < idle_lines(jobs, workers, a, n).len() ==> item_in_range(
                jobs.len() as int,
                workers.len() as int,
                #[trigger] idle_lines(jobs, workers, a, n)[k],
            ),
    decreases n,
{
    if n > 0 {
        idle_lines_in_range(jobs, workers, a, n - 1);
        let prev = idle_lines(jobs, workers, a, n - 1);
        let lines = idle_lines(jobs, workers, a, n);
        assert forall|k: int| 0 <= k < lines.len() implies item_in_range(
            jobs.len() as int,
            workers.len() as int,
            #[trigger] lines[k],
        ) by {
            if k < prev.len() {
                assert(lines[k] == prev[k]);
            }
        }
    }
}

/// Up selects the line above and down the line below, staying put at the
/// top and at the bottom of the column; left and right select the first
/// line of the neighbouring column, staying put at the outer columns; any
/// other key moves nothing.
pub proof fn board_keys(board: &JobBoard, c: BoardCursor)
    ensures
        c.row > 0 ==> board_move(board, c, NavKey::Up) == (BoardCursor { column: c.column, row: (c.row - 1) as usize }),
        c.row == 0 ==> board_move(board, c, NavKey::Up) == c,
        c.row + 1 < board.column_len(c.column as int) ==> board_move(board, c, NavKey::Down) == (BoardCursor {
            column: c.column,
            row: (c.row + 1) as usize,
        }),
        c.row + 1 >= board.column_len(c.column as int) ==> board_move(board, c, NavKey::Down) == c,
        c.column > 0 ==> board_move(board, c, NavKey::Left) == (BoardCursor { column: (c.column - 1) as usize, row: 0 }),
        c.column == 0 ==> board_move(board, c, NavKey::Left) == c,
        c.column < 2 ==> board_move(board, c, NavKey::Right) == (BoardCursor { column: (c.column + 1) as usize, row: 0 }),
        c.column >= 2 ==> board_move(board, c, NavKey::Right) == c,
        board_move(board, c, NavKey::Other) == c,
{
}

/// Which column each job goes to: a submitted job to the user's column, a
/// queued or finished one (marked by whether it completed) to the core's,
/// a running one to the workers', shown with a worker only where one of the
/// job's assignments names that listed worker. Every job of the first `n`
/// is on the board, and nothing else is.
pub proof fn board_columns_by_state(jobs: Seq<Job>, workers: Seq<Worker>, a: Seq<JobAssignment>, n: int)
    requires
        0 <= n <= jobs.len(),
        jobs.len() <= usize::MAX,
        workers.len() <= usize::MAX,
    ensures
        forall|j: int|
            0 <= j < n && (#[trigger] jobs[j]).state == JobStateEnum::Submitted ==> job_lines(jobs, workers, a, n, 0).contains(
                BoardItem::Submitted { job: j as usize },
            ),
        forall|j: int|
            0 <= j < n && (#[trigger] jobs[j]).state == JobStateEnum::Queued ==> job_lines(jobs, workers, a, n, 1).contains(
                BoardItem::Queued { job: j as usize },
            ),
        forall|j: int|
            0 <= j < n && (#[trigger] jobs[j]).state == JobStateEnum::Completed ==> job_lines(jobs, workers, a, n, 1).contains(
                BoardItem::Done { job: j as usize, success: true },
            ),
        forall|j: int|
            0 <= j < n && (#[trigger] jobs[j]).state == JobStateEnum::Failed ==> job_lines(jobs, workers, a, n, 1).contains(
                BoardItem::Done { job: j as usize, success: false },
            ),
        forall|j: int|
            0 <= j < n && (#[trigger] jobs[j]).state == JobStateEnum::Running ==> (job_lines(jobs, workers, a, n, 2).contains(
                BoardItem::Running { job: j as usize },
            ) || exists|w: usize| w < workers.len() && #[trigger] job_lines(jobs, workers, a, n, 2).contains(
                BoardItem::RunningOn { job: j as usize, worker: w },
            )),
        forall|i: int|
            0 <= i < job_lines(jobs, workers, a, n, 0).len() ==> match #[trigger] job_lines(jobs, workers, a, n, 0)[i] {
                BoardItem::Submitted { job } => job < n && jobs[job as int].state == JobStateEnum::Submitted,
                _ => false,
            },
        forall|i: int|
            0 <= i < job_lines(jobs, workers, a, n, 1).len() ==> match #[trigger] job_lines(jobs, workers, a, n, 1)[i] {
                BoardItem::Queued { job } => job < n && jobs[job as int].state == JobStateEnum::Queued,
                BoardItem::Done { job, success } => job < n && jobs[job as int].state == (if success {
                    JobStateEnum::Completed
                } else {
                    JobStateEnum::Failed
                }),
                _ => false,
            },
        forall|i: int|
            0 <= i < job_lines(jobs, workers, a, n, 2).len() ==> match #[trigger] job_lines(jobs, workers, a, n, 2)[i] {
                BoardItem::Running { job } => job < n && jobs[job as int].state == JobStateEnum::Running,
                BoardItem::RunningOn { job, worker } => {
                    &&& job < n
                    &&& jobs[job as int].state == JobStateEnum::Running
                    &&& worker < workers.len()
                    &&& exists|x: int| 0 <= x < a.len() && a[x].job_id == jobs[job as int].id
                        && a[x].worker_id == workers[worker as int].id
                },
                _ => false,
            },
    decreases n,
{
    if n > 0 {
        board_columns_by_state(jobs, workers, a, n - 1);
        let m = n - 1;
        match first_assignment(a, jobs[m].id) {
            Some(x) => {
                lemma_first_assignment_in_range(a, jobs[m].id);
                lemma_first_worker_in_range(workers, a[x].worker_id);
            },
            None => {},
        }
        assert forall|col: int| 0 <= col < 3 implies {
            let prev = #[trigger] job_lines(jobs, workers, a, m, col);
            let cur = job_lines(jobs, workers, a, n, col);
            &&& forall|i: int| 0 <= i < prev.len() ==> cur[i] == prev[i]
            &&& prev.len() <= cur.len()
            &&& forall|it: BoardItem| prev.contains(it) ==> cur.contains(it)
        } by {
            let prev = job_lines(jobs, workers, a, m, col);
            let cur = job_lines(jobs, workers, a, n, col);
            assert forall|it: BoardItem| prev.contains(it) implies cur.contains(it) by {
                let i = choose|i: int| 0 <= i < prev.len() && prev[i] == it;
                assert(cur[i] == it);
            }
        }
        let (c, item) = job_line(jobs, workers, a, m);
        let cur = job_lines(jobs, workers, a, n, c);
        if 0 <= c < 3 {
            assert(cur[cur.len() - 1] == item);
            assert(cur.contains(item));
        }
        if let BoardItem::RunningOn { job, worker } = item {
            let x = first_assignment(a, jobs[m].id)->0;
            assert(a[x].job_id == jobs[m].id && a[x].worker_id == workers[worker as int].id);
        }
    }
}

/// A listed worker is shown idle exactly where no running job is shown on a
/// worker with its id, and each such worker once, in list order.
pub proof fn idle_workers_exactly(jobs: Seq<Job>, workers: Seq<Worker>, a: Seq<JobAssignment>, n: int)
    requires
        0 <= n <= workers.len(),
        workers.len() <= usize::MAX,
    ensures
        forall|w: usize|
            #[trigger] idle_lines(jobs, workers, a, n).contains(BoardItem::IdleWorker { worker: w }) <==> (w < n
                && forall|j: int| 0 <= j < jobs.len() ==> !runs_on(jobs, workers, a, j, workers[w as int].id)),
        forall|i: int|
            0 <= i < idle_lines(jobs, workers, a, n).len() ==> (#[trigger] idle_lines(jobs, workers, a, n)[i]) is IdleWorker,
    decreases n,
{
    if n > 0 {
        idle_workers_exactly(jobs, workers, a, n - 1);
        let prev = idle_lines(jobs, workers, a, n - 1);
        let cur = idle_lines(jobs, workers, a, n);
        assert forall|w: usize|
            #[trigger] cur.contains(BoardItem::IdleWorker { worker: w }) <==> (w < n
                && forall|j: int| 0 <= j < jobs.len() ==> !runs_on(jobs, workers, a, j, workers[w as int].id)) by {
            let it = BoardItem::IdleWorker { worker: w };
            if prev.contains(it) {
                let i = choose|i: int| 0 <= i < prev.len() && prev[i] == it;
                assert(cur[i] == it);
            }
            if cur.contains(it) && !prev.contains(it) {
                let i = choose|i: int| 0 <= i < cur.len() && cur[i] == it;
                if i < prev.len() {
                    assert(prev[i] == it);
                }
            }
            if w == n - 1 && forall|j: int| 0 <= j < jobs.len() ==> !runs_on(jobs, workers, a, j, workers[w as int].id) {
                assert(!is_busy_worker(jobs, workers, a, workers[n - 1].id));
                assert(cur[cur.len() - 1] == it);
            }
            if w == n - 1 && cur.contains(it) {
                assert(!prev.contains(it));
                assert(!is_busy_worker(jobs, workers, a, workers[n - 1].id));
            }
        }
        assert forall|i: int| 0 <= i < cur.len() implies (#[trigger] cur[i]) is IdleWorker by {
            if i < prev.len() {
                assert(cur[i] == prev[i]);
            }
        }
    }
}

} // verus!
