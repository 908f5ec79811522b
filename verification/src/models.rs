//! Jobs, their assignments to workers and their results, and workers, as
//! the core stores them. Times are microseconds since the Unix epoch, UTC.
use vstd::prelude::*;

use crate::enums::image_format::ImageFormatEnum;
use crate::enums::job::JobStateEnum;
use crate::enums::output::OutputTypeEnum;
use crate::enums::schedule::ScheduleTypeEnum;
use crate::enums::workers::OSEnum;
use crate::numeric::{i32_text, i32_to_text};
use crate::text::append_chars;
use crate::time::{format_timestamp, timestamp_text};

verus! {

/// A job bound to a user.
pub struct Job {
    pub id: i32,
    pub user_id: i32,
    pub job_name: String,
    /// Where the Docker image is found.
    pub image_url: String,
    pub image_format: ImageFormatEnum,
    /// How the image is run.
    pub docker_flags: Option<Vec<Option<String>>>,
    pub output_type: OutputTypeEnum,
    /// Where output files are collected from, for file output.
    pub output_paths: Option<Vec<Option<String>>>,
    pub schedule_type: ScheduleTypeEnum,
    /// The cron expression of a cron job, such as `* * * * *`.
    pub cron_expression: Option<String>,
    pub notes: Option<String>,
    pub state: JobStateEnum,
    /// Why the job failed, if it did.
    pub error_message: Option<String>,
    pub created_at: i64,
    pub updated_at: i64,
}

/// A job to insert; the database assigns the id, error message and times.
pub struct NewJob {
    pub user_id: i32,
    pub job_name: String,
    pub image_url: String,
    pub image_format: ImageFormatEnum,
    pub docker_flags: Option<Vec<Option<String>>>,
    pub output_type: OutputTypeEnum,
    pub output_paths: Option<Vec<Option<String>>>,
    pub schedule_type: ScheduleTypeEnum,
    pub cron_expression: Option<String>,
    pub notes: Option<String>,
    pub state: JobStateEnum,
}

/// The assignment of a job to a worker.
#[derive(Debug, Clone, Copy)]
pub struct JobAssignment {
    pub id: i32,
    pub job_id: i32,
    pub worker_id: i32,
    pub assigned_at: i64,
    pub started_at: Option<i64>,
    pub finished_at: Option<i64>,
}

/// An assignment to insert.
pub struct NewJobAssignment {
    pub job_id: i32,
    pub worker_id: i32,
}

/// The result a job produced.
pub struct JobResult {
    pub id: i32,
    pub job_id: i32,
    pub stdout: Option<String>,
    pub files: Option<Vec<Option<String>>>,
    pub saved_at: i64,
}

/// A result to insert.
pub struct NewJobResult {
    pub job_id: i32,
    pub stdout: Option<String>,
    pub files: Option<Vec<Option<String>>>,
}

/// A worker registered with the core.
pub struct Worker {
    pub id: i32,
    /// The owning user account.
    pub user_id: i32,
    /// The name the worker is shown by.
    pub label: String,
    pub ip_address: String,
    pub hostname: String,
    pub ssh_user: String,
    pub ssh_key: String,
    pub docker_version: String,
    pub arch: String,
    pub os: OSEnum,
    pub tags: Option<Vec<Option<String>>>,
    pub created_at: i64,
    pub last_seen_at: Option<i64>,
}

/// A worker to insert.
pub struct NewWorker {
    pub user_id: i32,
    pub label: String,
    pub ip_address: String,
    pub hostname: String,
    pub ssh_user: String,
    pub ssh_key: String,
    pub docker_version: String,
    pub arch: String,
    pub os: OSEnum,
    pub tags: Option<Vec<Option<String>>>,
}

/// The format of the times in a job's or worker's description.
pub open spec fn minute_format() -> Seq<char> {
    "%Y-%m-%d %H:%M"@
}

/// The description of a job, given the text of its creation time.
pub open spec fn job_description(job: Job, created: Seq<char>) -> Seq<char> {
    "["@ + i32_text(job.id) + "] "@ + job.job_name@ + "\nImage: "@ + job.image_url@ + " ("@
        + job.image_format.text() + ")\nSchedule: "@ + job.schedule_type.text() + match job.cron_expression {
        Some(expr) => " ("@ + expr@ + ")"@,
        None => Seq::<char>::empty(),
    } + "\nState: "@ + job.state.text() + " | Created: "@ + created
}

/// The description of a worker, given the text of when it was last seen.
pub open spec fn worker_description(w: Worker, last_seen: Seq<char>) -> Seq<char> {
    "["@ + i32_text(w.id) + "] "@ + w.label@ + "\nOS: "@ + w.os.stored_text() + " | Arch: "@
        + w.arch@ + "\nIP: "@ + w.ip_address@ + " | SSH: "@ + w.ssh_user@ + "@"@ + w.hostname@
        + "\nDocker: "@ + w.docker_version@ + "\nLast seen: "@ + last_seen
}

impl Job {
    /// The job as the inspector shows it: id, name, image, schedule, state
    /// and creation minute. `None` where chrono has no date-time for the
    /// creation time.
    pub fn describe(&self) -> (r: Option<String>)
        ensures
            match timestamp_text(self.created_at, minute_format()) {
                Some(t) => r matches Some(s) && s@ == job_description(*self, t),
                None => r is None,
            },
    {
        let created = match format_timestamp(self.created_at, "%Y-%m-%d %H:%M") {
            Some(t) => t,
            None => {
                return None;
            },
        };
        let mut s = "[".to_owned();
        append_chars(&mut s, &i32_to_text(self.id));
        s.append("] ");
        s.append(self.job_name.as_str());
        s.append("\nImage: ");
        s.append(self.image_url.as_str());
        s.append(" (");
        s.append(self.image_format.label());
        s.append(")\nSchedule: ");
        s.append(self.schedule_type.label());
        match &self.cron_expression {
            Some(expr) => {
                s.append(" (");
                s.append(expr.as_str());
                s.append(")");
            },
            None => {},
        }
        s.append("\nState: ");
        s.append(self.state.label());
        s.append(" | Created: ");
        s.append(created.as_str());
        proof {
            assert(s@ =~= job_description(*self, created@));
        }
        Some(s)
    }
}

impl Worker {
    /// The worker as the inspector shows it: id, label, OS, architecture,
    /// address, SSH login, Docker version and the minute it was last seen
    /// (`Never` if never). `None` where chrono has no date-time for the
    /// last-seen time.
    pub fn describe(&self) -> (r: Option<String>)
        ensures
            match self.last_seen_at {
                None => r matches Some(s) && s@ == worker_description(*self, "Never"@),
                Some(t) => match timestamp_text(t, minute_format()) {
                    Some(x) => r matches Some(s) && s@ == worker_description(*self, x),
                    None => r is None,
                },
            },
    {
        let last = match self.last_seen_at {
            Some(t) => match format_timestamp(t, "%Y-%m-%d %H:%M") {
                Some(x) => x,
                None => {
                    return None;
                },
            },
            None => "Never".to_owned(),
        };
        let mut s = "[".to_owned();
        append_chars(&mut s, &i32_to_text(self.id));
        s.append("] ");
        s.append(self.label.as_str());
        s.append("\nOS: ");
        s.append(self.os.db_text());
        s.append(" | Arch: ");
        s.append(self.arch.as_str());
        s.append("\nIP: ");
        s.append(self.ip_address.as_str());
        s.append(" | SSH: ");
        s.append(self.ssh_user.as_str());
        s.append("@");
        s.append(self.hostname.as_str());
        s.append("\nDocker: ");
        s.append(self.docker_version.as_str());
        s.append("\nLast seen: ");
        s.append(last.as_str());
        proof {
            assert(s@ =~= worker_description(*self, last@));
        }
        Some(s)
    }
}

impl NewWorker {
    /// The worker that the command deck registers for a user: a local Linux
    /// host with placeholder connection details.
    pub fn with_defaults(user_id: i32, label: String) -> (w: NewWorker)
        ensures
            w.user_id == user_id,
            w.label == label,
            w.ip_address@ == "127.0.0.1"@,
            w.hostname@ == "localhost"@,
            w.ssh_user@ == "root"@,
            w.ssh_key@ == "~/.ssh/id_rsa"@,
            w.docker_version@ == "20.10.7"@,
            w.arch@ == "x86_64"@,
            w.os == OSEnum::Linux,
            w.tags is None,
    {
        NewWorker {
            user_id,
            label,
            ip_address: "127.0.0.1".to_owned(),
            hostname: "localhost".to_owned(),
            ssh_user: "root".to_owned(),
            ssh_key: "~/.ssh/id_rsa".to_owned(),
            docker_version: "20.10.7".to_owned(),
            arch: "x86_64".to_owned(),
            os: OSEnum::Linux,
            tags: None,
        }
    }
}

impl NewJob {
    /// The job that the command deck submits: no Docker flags, no notes,
    /// state `Submitted`.
    pub fn for_submission(
        user_id: i32,
        job_name: String,
        image_url: String,
        image_format: ImageFormatEnum,
        output_type: OutputTypeEnum,
        output_paths: Option<Vec<Option<String>>>,
        schedule_type: ScheduleTypeEnum,
        cron_expression: Option<String>,
    ) -> (j: NewJob)
        ensures
            j == (NewJob {
                user_id,
                job_name,
                image_url,
                image_format,
                docker_flags: None,
                output_type,
                output_paths,
                schedule_type,
                cron_expression,
                notes: None,
                state: JobStateEnum::Submitted,
            }),
    {
        NewJob {
            user_id,
            job_name,
            image_url,
            image_format,
            docker_flags: None,
            output_type,
            output_paths,
            schedule_type,
            cron_expression,
            notes: None,
            state: JobStateEnum::Submitted,
        }
    }
}

} // verus!
