use swarm_sync::assignments::{filter_assignments, first_assignment_id, job_ids};
use swarm_sync::board::{
    board_item_label, board_step, column_title, lay_out_board, marked_label, BoardCursor, BoardItem,
    NavKey,
};
use swarm_sync::enums::image_format::ImageFormatEnum;
use swarm_sync::enums::job::JobStateEnum;
use swarm_sync::enums::output::OutputTypeEnum;
use swarm_sync::enums::schedule::ScheduleTypeEnum;
use swarm_sync::enums::workers::OSEnum;
use swarm_sync::models::{Job, JobAssignment, Worker};

fn job(id: i32, state: JobStateEnum) -> Job {
    Job {
        id,
        user_id: 1,
        job_name: format!("job{id}"),
        image_url: "docker.io/library/alpine:latest".to_string(),
        image_format: ImageFormatEnum::DockerRegistry,
        docker_flags: None,
        output_type: OutputTypeEnum::Stdout,
        output_paths: None,
        schedule_type: ScheduleTypeEnum::Once,
        cron_expression: None,
        notes: None,
        state,
        error_message: None,
        created_at: 1_662_921_288_000_000,
        updated_at: 1_662_921_288_000_000,
    }
}

fn worker(id: i32) -> Worker {
    Worker {
        id,
        user_id: 1,
        label: format!("w{id}"),
        ip_address: "127.0.0.1".to_string(),
        hostname: "test-host".to_string(),
        ssh_user: "root".to_string(),
        ssh_key: "k".to_string(),
        docker_version: "24.0.2".to_string(),
        arch: "x86_64".to_string(),
        os: OSEnum::Linux,
        tags: None,
        created_at: 0,
        last_seen_at: None,
    }
}

fn assignment(id: i32, job_id: i32, worker_id: i32) -> JobAssignment {
    JobAssignment { id, job_id, worker_id, assigned_at: 0, started_at: None, finished_at: None }
}

#[test]
fn board_columns() {
    let jobs = vec![
        job(1, JobStateEnum::Submitted),
        job(2, JobStateEnum::Queued),
        job(3, JobStateEnum::Running),
        job(4, JobStateEnum::Completed),
        job(5, JobStateEnum::Failed),
        job(6, JobStateEnum::Running),
        job(7, JobStateEnum::Running),
    ];
    let workers = vec![worker(10), worker(11), worker(12)];
    // job 3 on worker 11; job 6's first assignment names an unknown worker;
    // job 7 has no assignment
    let assignments = vec![assignment(100, 3, 11), assignment(101, 6, 99), assignment(102, 6, 10)];
    let b = lay_out_board(&jobs, &workers, &assignments);
    assert_eq!(b.user, vec![BoardItem::Submitted { job: 0 }]);
    assert_eq!(
        b.core,
        vec![
            BoardItem::Queued { job: 1 },
            BoardItem::Done { job: 3, success: true },
            BoardItem::Done { job: 4, success: false },
        ]
    );
    assert_eq!(
        b.workers,
        vec![
            BoardItem::RunningOn { job: 2, worker: 1 },
            BoardItem::Running { job: 5 },
            BoardItem::Running { job: 6 },
            BoardItem::IdleWorker { worker: 0 },
            BoardItem::IdleWorker { worker: 2 },
        ]
    );
}

#[test]
fn board_navigation() {
    let jobs = vec![job(1, JobStateEnum::Submitted), job(2, JobStateEnum::Queued), job(3, JobStateEnum::Completed)];
    let b = lay_out_board(&jobs, &[], &[]);
    let c = BoardCursor { column: 0, row: 0 };
    assert_eq!(board_step(&b, c, NavKey::Left), c);
    assert_eq!(board_step(&b, c, NavKey::Down), c);
    let c = board_step(&b, c, NavKey::Right);
    assert_eq!(c, BoardCursor { column: 1, row: 0 });
    let c = board_step(&b, c, NavKey::Down);
    assert_eq!(c, BoardCursor { column: 1, row: 1 });
    assert_eq!(board_step(&b, c, NavKey::Down), c);
    assert_eq!(board_step(&b, c, NavKey::Up), BoardCursor { column: 1, row: 0 });
    assert_eq!(board_step(&b, c, NavKey::Right), BoardCursor { column: 2, row: 0 });
    let end = BoardCursor { column: 2, row: 0 };
    assert_eq!(board_step(&b, end, NavKey::Right), end);
    assert_eq!(board_step(&b, end, NavKey::Up), end);
    assert_eq!(board_step(&b, c, NavKey::Other), c);
}

#[test]
fn assignments_of_a_users_jobs() {
    let jobs = vec![job(1, JobStateEnum::Queued), job(2, JobStateEnum::Running)];
    let ids = job_ids(&jobs);
    assert_eq!(ids, vec![1, 2]);
    let all = vec![assignment(1, 1, 10), assignment(2, 3, 10), assignment(3, 2, 11), assignment(4, 2, 10)];
    let mine: Vec<i32> = filter_assignments(&all, &ids, None, None).iter().map(|a| a.id).collect();
    assert_eq!(mine, vec![1, 3, 4]);
    let by_job: Vec<i32> = filter_assignments(&all, &ids, Some(2), None).iter().map(|a| a.id).collect();
    assert_eq!(by_job, vec![3, 4]);
    let by_both: Vec<i32> = filter_assignments(&all, &ids, Some(2), Some(10)).iter().map(|a| a.id).collect();
    assert_eq!(by_both, vec![4]);
    let foreign: Vec<i32> = filter_assignments(&all, &ids, Some(3), None).iter().map(|a| a.id).collect();
    assert!(foreign.is_empty());
    assert_eq!(first_assignment_id(&all), Some(1));
    assert_eq!(first_assignment_id(&[]), None);
}

#[test]
fn job_and_worker_descriptions() {
    let mut j = job(3, JobStateEnum::Running);
    j.schedule_type = ScheduleTypeEnum::Cron;
    j.cron_expression = Some("* * * * *".to_string());
    assert_eq!(
        j.describe().unwrap(),
        "[3] job3\nImage: docker.io/library/alpine:latest (DockerRegistry)\nSchedule: Cron (* * * * *)\nState: Running | Created: 2022-09-11 18:34"
    );
    let mut w = worker(10);
    w.os = OSEnum::MacOSEnum;
    assert_eq!(
        w.describe().unwrap(),
        "[10] w10\nOS: MacOSEnum | Arch: x86_64\nIP: 127.0.0.1 | SSH: root@test-host\nDocker: 24.0.2\nLast seen: Never"
    );
    w.last_seen_at = Some(1_704_164_645_000_000);
    assert!(w.describe().unwrap().ends_with("Last seen: 2024-01-02 03:04"));
    w.last_seen_at = Some(i64::MAX);
    assert!(w.describe().is_none());
}

#[test]
fn board_labels() {
    let jobs = vec![job(7, JobStateEnum::Running), job(-3, JobStateEnum::Failed)];
    let workers = vec![worker(2)];
    assert_eq!(board_item_label(&jobs, &workers, BoardItem::Submitted { job: 0 }), "📦 job7 [J7]");
    assert_eq!(board_item_label(&jobs, &workers, BoardItem::Queued { job: 0 }), "📦 job7 (queued) [J7]");
    assert_eq!(
        board_item_label(&jobs, &workers, BoardItem::RunningOn { job: 0, worker: 0 }),
        "📦 job7 → 🛠️ w2 [J7]"
    );
    assert_eq!(board_item_label(&jobs, &workers, BoardItem::Running { job: 0 }), "📦 job7 (running) [J7]");
    assert_eq!(
        board_item_label(&jobs, &workers, BoardItem::Done { job: 0, success: true }),
        "✅ job7 (done) [J7]"
    );
    assert_eq!(
        board_item_label(&jobs, &workers, BoardItem::Done { job: 1, success: false }),
        "❌ job-3 (done) [J-3]"
    );
    assert_eq!(board_item_label(&jobs, &workers, BoardItem::IdleWorker { worker: 0 }), "🛠️ w2 (idle) [W2]");
    assert_eq!(marked_label("x".to_string(), true), "→ x");
    assert_eq!(marked_label("x".to_string(), false), "x");
    assert_eq!(column_title(0), "👤 USER [0]");
    assert_eq!(column_title(1), "⚙️ CORE [1]");
    assert_eq!(column_title(2), "🛠️ WORKERS [2]");
}
