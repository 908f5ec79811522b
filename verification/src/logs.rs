//! Log entries: the in-memory form with embedded payloads, the flat form
//! stored in the database, the conversions between them, how long each
//! level is kept, and the buffer that collects entries between flushes.
//!
//! Times are microseconds since the Unix epoch, UTC.
use vstd::prelude::*;

use crate::enums::log::{LogActionEnum, LogLevelEnum};
use crate::enums::system::SystemModuleEnum;
use crate::time::{utc_now_micros, LATEST_CLOCK_MICROS};

verus! {

/// Payload of an entry about a client connecting.
pub struct ClientConnectedPayload {
    pub ip: String,
    /// Username of the client connecting.
    pub username: String,
}

/// Payload of an entry about a job handed from one module to another.
pub struct JobSubmittedPayload {
    pub job_id: i32,
    pub from_module: SystemModuleEnum,
    pub to_module: SystemModuleEnum,
}

/// Payload of an entry about a finished job.
pub struct JobCompletedPayload {
    pub job_id: i32,
    /// Whether the job completed successfully.
    pub success: bool,
}

/// The in-memory log entry, with its payloads embedded.
pub struct LogEntry {
    pub id: i32,
    pub created_at: i64,
    pub level: LogLevelEnum,
    pub module: SystemModuleEnum,
    pub action: LogActionEnum,
    pub expires_at: i64,
    pub client_connected_payload: Option<ClientConnectedPayload>,
    pub job_submitted_payload: Option<JobSubmittedPayload>,
    pub job_completed_payload: Option<JobCompletedPayload>,
    pub custom_msg: Option<String>,
}

/// A log entry as the database stores it: every payload field is a nullable column.
pub struct DBLogEntry {
    pub id: i32,
    pub created_at: i64,
    pub level: LogLevelEnum,
    pub module: SystemModuleEnum,
    pub action: LogActionEnum,
    pub expires_at: i64,
    pub client_connected_ip: Option<String>,
    pub client_connected_username: Option<String>,
    pub job_submitted_job_id: Option<i32>,
    pub job_submitted_from_module: Option<SystemModuleEnum>,
    pub job_submitted_to_module: Option<SystemModuleEnum>,
    pub job_completed_job_id: Option<i32>,
    pub job_completed_success: Option<bool>,
    pub custom_msg: Option<String>,
}

/// A row to insert; the database assigns its id and creation time.
pub struct NewDBLogEntry {
    pub level: LogLevelEnum,
    pub module: SystemModuleEnum,
    pub action: LogActionEnum,
    pub expires_at: i64,
    pub client_connected_ip: Option<String>,
    pub client_connected_username: Option<String>,
    pub job_submitted_job_id: Option<i32>,
    pub job_submitted_from_module: Option<SystemModuleEnum>,
    pub job_submitted_to_module: Option<SystemModuleEnum>,
    pub job_completed_job_id: Option<i32>,
    pub job_completed_success: Option<bool>,
    pub custom_msg: Option<String>,
}

/// The row that stores an entry: each payload spread over its columns.
pub open spec fn entry_row(log: LogEntry) -> NewDBLogEntry {
    NewDBLogEntry {
        level: log.level,
        module: log.module,
        action: log.action,
        expires_at: log.expires_at,
        client_connected_ip: match log.client_connected_payload {
            Some(p) => Some(p.ip),
            None => None,
        },
        client_connected_username: match log.client_connected_payload {
            Some(p) => Some(p.username),
            None => None,
        },
        job_submitted_job_id: match log.job_submitted_payload {
            Some(p) => Some(p.job_id),
            None => None,
        },
        job_submitted_from_module: match log.job_submitted_payload {
            Some(p) => Some(p.from_module),
            None => None,
        },
        job_submitted_to_module: match log.job_submitted_payload {
            Some(p) => Some(p.to_module),
            None => None,
        },
        job_completed_job_id: match log.job_completed_payload {
            Some(p) => Some(p.job_id),
            None => None,
        },
        job_completed_success: match log.job_completed_payload {
            Some(p) => Some(p.success),
            None => None,
        },
        custom_msg: log.custom_msg,
    }
}

/// The entry that a stored row reads back as: a payload is present only
/// where all of its columns are.
pub open spec fn row_entry(db: DBLogEntry) -> LogEntry {
    LogEntry {
        id: db.id,
        created_at: db.created_at,
        level: db.level,
        module: db.module,
        action: db.action,
        expires_at: db.expires_at,
        client_connected_payload: match (db.client_connected_ip, db.client_connected_username) {
            (Some(ip), Some(username)) => Some(ClientConnectedPayload { ip, username }),
            _ => None,
        },
        job_submitted_payload: match (
            db.job_submitted_job_id,
            db.job_submitted_from_module,
            db.job_submitted_to_module,
        ) {
            (Some(job_id), Some(from_module), Some(to_module)) => Some(
                JobSubmittedPayload { job_id, from_module, to_module },
            ),
            _ => None,
        },
        job_completed_payload: match (db.job_completed_job_id, db.job_completed_success) {
            (Some(job_id), Some(success)) => Some(JobCompletedPayload { job_id, success }),
            _ => None,
        },
        custom_msg: db.custom_msg,
    }
}

/// The row the database holds after inserting `row`, with the id and
/// creation time it assigned.
pub open spec fn stored_row(row: NewDBLogEntry, id: i32, created_at: i64) -> DBLogEntry {
    DBLogEntry {
        id,
        created_at,
        level: row.level,
        module: row.module,
        action: row.action,
        expires_at: row.expires_at,
        client_connected_ip: row.client_connected_ip,
        client_connected_username: row.client_connected_username,
        job_submitted_job_id: row.job_submitted_job_id,
        job_submitted_from_module: row.job_submitted_from_module,
        job_submitted_to_module: row.job_submitted_to_module,
        job_completed_job_id: row.job_completed_job_id,
        job_completed_success: row.job_completed_success,
        custom_msg: row.custom_msg,
    }
}

fn clone_opt_string(s: &Option<String>) -> (r: Option<String>)
    ensures
        r == *s,
{
    match s {
        Some(x) => Some(x.clone()),
        None => None,
    }
}

impl NewDBLogEntry {
    /// The row that stores an entry, taking the entry.
    pub fn from_entry(log: LogEntry) -> (r: NewDBLogEntry)
        ensures
            r == entry_row(log),
    {
        let (client_connected_ip, client_connected_username) = match log.client_connected_payload {
            Some(p) => (Some(p.ip), Some(p.username)),
            None => (None, None),
        };
        let (job_submitted_job_id, job_submitted_from_module, job_submitted_to_module) =
            match log.job_submitted_payload {
            Some(p) => (Some(p.job_id), Some(p.from_module), Some(p.to_module)),
            None => (None, None, None),
        };
        let (job_completed_job_id, job_completed_success) = match log.job_completed_payload {
            Some(p) => (Some(p.job_id), Some(p.success)),
            None => (None, None),
        };
        NewDBLogEntry {
            level: log.level,
            module: log.module,
            action: log.action,
            expires_at: log.expires_at,
            client_connected_ip,
            client_connected_username,
            job_submitted_job_id,
            job_submitted_from_module,
            job_submitted_to_module,
            job_completed_job_id,
            job_completed_success,
            custom_msg: log.custom_msg,
        }
    }

    /// The row that stores an entry, copying from a borrowed entry.
    pub fn from_entry_ref(log: &LogEntry) -> (r: NewDBLogEntry)
        ensures
            r == entry_row(*log),
    {
        let (client_connected_ip, client_connected_username) = match &log.client_connected_payload {
            Some(p) => (Some(p.ip.clone()), Some(p.username.clone())),
            None => (None, None),
        };
        let (job_submitted_job_id, job_submitted_from_module, job_submitted_to_module) =
            match &log.job_submitted_payload {
            Some(p) => (Some(p.job_id), Some(p.from_module), Some(p.to_module)),
            None => (None, None, None),
        };
        let (job_completed_job_id, job_completed_success) = match &log.job_completed_payload {
            Some(p) => (Some(p.job_id), Some(p.success)),
            None => (None, None),
        };
        NewDBLogEntry {
            level: log.level,
            module: log.module,
            action: log.action,
            expires_at: log.expires_at,
            client_connected_ip,
            client_connected_username,
            job_submitted_job_id,
            job_submitted_from_module,
            job_submitted_to_module,
            job_completed_job_id,
            job_completed_success,
            custom_msg: clone_opt_string(&log.custom_msg),
        }
    }
}

impl NewDBLogEntry {
    /// The row that the command deck's log dialog creates: a client payload
    /// and a custom message at most, no job payloads.
    pub fn typed_in(
        level: LogLevelEnum,
        module: SystemModuleEnum,
        action: LogActionEnum,
        expires_at: i64,
        client_ip: Option<String>,
        client_username: Option<String>,
        custom_msg: Option<String>,
    ) -> (r: NewDBLogEntry)
        ensures
            r == (NewDBLogEntry {
                level,
                module,
                action,
                expires_at,
                client_connected_ip: client_ip,
                client_connected_username: client_username,
                job_submitted_job_id: None,
                job_submitted_from_module: None,
                job_submitted_to_module: None,
                job_completed_job_id: None,
                job_completed_success: None,
                custom_msg,
            }),
    {
        NewDBLogEntry {
            level,
            module,
            action,
            expires_at,
            client_connected_ip: client_ip,
            client_connected_username: client_username,
            job_submitted_job_id: None,
            job_submitted_from_module: None,
            job_submitted_to_module: None,
            job_completed_job_id: None,
            job_completed_success: None,
            custom_msg,
        }
    }
}

impl LogEntry {
    /// The entry that a stored row reads back as.
    pub fn from_db(db: DBLogEntry) -> (r: LogEntry)
        ensures
            r == row_entry(db),
    {
        let client_connected_payload = match (db.client_connected_ip, db.client_connected_username) {
            (Some(ip), Some(username)) => Some(ClientConnectedPayload { ip, username }),
            _ => None,
        };
        let job_submitted_payload = match (
            db.job_submitted_job_id,
            db.job_submitted_from_module,
            db.job_submitted_to_module,
        ) {
            (Some(job_id), Some(from_module), Some(to_module)) => Some(
                JobSubmittedPayload { job_id, from_module, to_module },
            ),
            _ => None,
        };
        let job_completed_payload = match (db.job_completed_job_id, db.job_completed_success) {
            (Some(job_id), Some(success)) => Some(JobCompletedPayload { job_id, success }),
            _ => None,
        };
        LogEntry {
            id: db.id,
            created_at: db.created_at,
            level: db.level,
            module: db.module,
            action: db.action,
            expires_at: db.expires_at,
            client_connected_payload,
            job_submitted_payload,
            job_completed_payload,
            custom_msg: db.custom_msg,
        }
    }
}

impl From<LogEntry> for NewDBLogEntry {
    fn from(log: LogEntry) -> (r: NewDBLogEntry) {
        NewDBLogEntry::from_entry(log)
    }
}

impl vstd::std_specs::convert::FromSpecImpl<LogEntry> for NewDBLogEntry {
    open spec fn obeys_from_spec() -> bool {
        true
    }

    open spec fn from_spec(log: LogEntry) -> NewDBLogEntry {
        entry_row(log)
    }
}

impl<'a> From<&'a LogEntry> for NewDBLogEntry {
    fn from(log: &'a LogEntry) -> (r: NewDBLogEntry) {
        NewDBLogEntry::from_entry_ref(log)
    }
}

impl<'a> vstd::std_specs::convert::FromSpecImpl<&'a LogEntry> for NewDBLogEntry {
    open spec fn obeys_from_spec() -> bool {
        true
    }

    open spec fn from_spec(log: &'a LogEntry) -> NewDBLogEntry {
        entry_row(*log)
    }
}

impl From<DBLogEntry> for LogEntry {
    fn from(db: DBLogEntry) -> (r: LogEntry) {
        LogEntry::from_db(db)
    }
}

impl vstd::std_specs::convert::FromSpecImpl<DBLogEntry> for LogEntry {
    open spec fn obeys_from_spec() -> bool {
        true
    }

    open spec fn from_spec(db: DBLogEntry) -> LogEntry {
        row_entry(db)
    }
}

/// How long an entry of each level is kept, in microseconds: info five
/// minutes, success a day, warning three days, error and fatal a week.
pub open spec fn retention(level: LogLevelEnum) -> int {
    match level {
        LogLevelEnum::Info => 300_000_000,
        LogLevelEnum::Success => 86_400_000_000,
        LogLevelEnum::Warning => 259_200_000_000,
        LogLevelEnum::Error => 604_800_000_000,
        LogLevelEnum::Fatal => 604_800_000_000,
    }
}

/// The latest time at which an entry of any level can be made without its
/// expiry overflowing.
pub const LATEST_LOG_TIME: i64 = 9_223_371_432_054_775_807;

/// The entry that `Logger::log` buffers at time `now`: not yet stored (id
/// 0), created now, and expiring after its level's retention.
pub open spec fn new_entry(
    level: LogLevelEnum,
    module: SystemModuleEnum,
    action: LogActionEnum,
    client: Option<ClientConnectedPayload>,
    submitted: Option<JobSubmittedPayload>,
    completed: Option<JobCompletedPayload>,
    custom: Option<String>,
    now: i64,
) -> LogEntry {
    LogEntry {
        id: 0,
        created_at: now,
        level,
        module,
        action,
        expires_at: (now + retention(level)) as i64,
        client_connected_payload: client,
        job_submitted_payload: submitted,
        job_completed_payload: completed,
        custom_msg: custom,
    }
}

/// How long an entry of a level is kept, in microseconds.
pub fn retention_micros(level: LogLevelEnum) -> (r: i64)
    ensures
        r == retention(level),
{
    match level {
        LogLevelEnum::Info => 300_000_000,
        LogLevelEnum::Success => 86_400_000_000,
        LogLevelEnum::Warning => 259_200_000_000,
        LogLevelEnum::Error => 604_800_000_000,
        LogLevelEnum::Fatal => 604_800_000_000,
    }
}

/// Entries collected in memory until the next flush to the database.
pub struct LogBuffer {
    entries: Vec<LogEntry>,
}

impl View for LogBuffer {
    type V = Seq<LogEntry>;

    closed spec fn view(&self) -> Seq<LogEntry> {
        self.entries@
    }
}

impl LogBuffer {
    /// An empty buffer.
    pub fn new() -> (b: LogBuffer)
        ensures
            b@ == Seq::<LogEntry>::empty(),
    {
        LogBuffer { entries: Vec::new() }
    }

    /// The number of buffered entries.
    pub fn len(&self) -> (n: usize)
        ensures
            n == self@.len(),
    {
        self.entries.len()
    }

    /// Buffers the entry that a log call makes at time `now`.
    pub fn log_at(
        &mut self,
        level: LogLevelEnum,
        module: SystemModuleEnum,
        action: LogActionEnum,
        client: Option<ClientConnectedPayload>,
        submitted: Option<JobSubmittedPayload>,
        completed: Option<JobCompletedPayload>,
        custom: Option<String>,
        now: i64,
    )
        requires
            now <= LATEST_LOG_TIME,
        ensures
            final(self)@ == old(self)@.push(
                new_entry(level, module, action, client, submitted, completed, custom, now),
            ),
    {
        let expires_at = now + retention_micros(level);
        self.entries.push(
            LogEntry {
                id: 0,
                created_at: now,
                level,
                module,
                action,
                expires_at,
                client_connected_payload: client,
                job_submitted_payload: submitted,
                job_completed_payload: completed,
                custom_msg: custom,
            },
        );
    }

    /// Buffers an entry made now, by the clock, and returns `true`. Where
    /// the clock gives no reading (it reads before the epoch, or past what
    /// chrono holds) nothing is buffered and `false` comes back. The time is
    /// whatever the clock reads; every reading lies before `LATEST_LOG_TIME`,
    /// so the entry's expiry never overflows.
    pub fn log(
        &mut self,
        level: LogLevelEnum,
        module: SystemModuleEnum,
        action: LogActionEnum,
        client: Option<ClientConnectedPayload>,
        submitted: Option<JobSubmittedPayload>,
        completed: Option<JobCompletedPayload>,
        custom: Option<String>,
    ) -> (logged: bool)
        ensures
            logged ==> exists|now: i64|
                0 <= now <= LATEST_CLOCK_MICROS && final(self)@ == old(self)@.push(
                    new_entry(level, module, action, client, submitted, completed, custom, now),
                ),
            !logged ==> final(self)@ == old(self)@,
    {
        match utc_now_micros() {
            Some(now) => {
                self.log_at(level, module, action, client, submitted, completed, custom, now);
                true
            },
            None => false,
        }
    }

    /// Takes every buffered entry out, in order, leaving the buffer empty.
    pub fn take_all(&mut self) -> (taken: Vec<LogEntry>)
        ensures
            taken@ == old(self)@,
            final(self)@ == Seq::<LogEntry>::empty(),
    {
        let mut taken: Vec<LogEntry> = Vec::new();
        std::mem::swap(&mut taken, &mut self.entries);
        taken
    }

    /// Puts entries whose flush failed back, after those buffered meanwhile.
    pub fn restore(&mut self, pending: Vec<LogEntry>)
        ensures
            final(self)@ == old(self)@ + pending@,
    {
        let mut pending = pending;
        self.entries.append(&mut pending);
    }
}

/// A flush that fails loses nothing: the entries taken out come back after
/// those logged while the flush ran, each exactly once.
pub proof fn failed_flush_keeps_every_entry(before: Seq<LogEntry>, logged_meanwhile: Seq<LogEntry>)
    ensures
        (Seq::<LogEntry>::empty() + logged_meanwhile + before).to_multiset()
            == before.to_multiset().add(logged_meanwhile.to_multiset()),
{
    let s = Seq::<LogEntry>::empty() + logged_meanwhile + before;
    assert(s =~= logged_meanwhile + before);
    vstd::seq_lib::lemma_multiset_commutative(logged_meanwhile, before);
}

/// Storing an entry and reading its row back gives the same entry, but
/// for the id and creation time that the database assigned.
pub proof fn log_entry_store_round_trip(log: LogEntry, id: i32, created_at: i64)
    ensures
        row_entry(stored_row(entry_row(log), id, created_at)) == (LogEntry {
            id,
            created_at,
            ..log
        }),
{
}

/// A row in which a payload's columns are only partly filled reads back
/// without that payload.
pub proof fn partial_client_columns_read_as_none(db: DBLogEntry)
    requires
        db.client_connected_ip is None || db.client_connected_username is None,
    ensures
        row_entry(db).client_connected_payload is None,
{
}

/// Storing an entry keeps its own fields and spreads each payload over its
/// columns field by field; an absent payload leaves its columns empty.
pub proof fn row_holds_entry_fields(log: LogEntry)
    ensures
        entry_row(log).level == log.level,
        entry_row(log).module == log.module,
        entry_row(log).action == log.action,
        entry_row(log).expires_at == log.expires_at,
        entry_row(log).custom_msg == log.custom_msg,
        log.client_connected_payload matches Some(p) ==> entry_row(log).client_connected_ip == Some(p.ip)
            && entry_row(log).client_connected_username == Some(p.username),
        log.client_connected_payload is None ==> entry_row(log).client_connected_ip is None
            && entry_row(log).client_connected_username is None,
        log.job_submitted_payload matches Some(p) ==> entry_row(log).job_submitted_job_id == Some(p.job_id)
            && entry_row(log).job_submitted_from_module == Some(p.from_module)
            && entry_row(log).job_submitted_to_module == Some(p.to_module),
        log.job_submitted_payload is None ==> entry_row(log).job_submitted_job_id is None
            && entry_row(log).job_submitted_from_module is None
            && entry_row(log).job_submitted_to_module is None,
        log.job_completed_payload matches Some(p) ==> entry_row(log).job_completed_job_id == Some(p.job_id)
            && entry_row(log).job_completed_success == Some(p.success),
        log.job_completed_payload is None ==> entry_row(log).job_completed_job_id is None
            && entry_row(log).job_completed_success is None,
{
}

/// Reading a row back keeps its own fields, and builds a payload from its
/// columns, field by field, exactly where all of them are filled.
pub proof fn entry_holds_row_columns(db: DBLogEntry)
    ensures
        row_entry(db).id == db.id,
        row_entry(db).created_at == db.created_at,
        row_entry(db).level == db.level,
        row_entry(db).module == db.module,
        row_entry(db).action == db.action,
        row_entry(db).expires_at == db.expires_at,
        row_entry(db).custom_msg == db.custom_msg,
        (row_entry(db).client_connected_payload is Some) == (db.client_connected_ip is Some
            && db.client_connected_username is Some),
        row_entry(db).client_connected_payload matches Some(p) ==> db.client_connected_ip == Some(p.ip)
            && db.client_connected_username == Some(p.username),
        (row_entry(db).job_submitted_payload is Some) == (db.job_submitted_job_id is Some
            && db.job_submitted_from_module is Some && db.job_submitted_to_module is Some),
        row_entry(db).job_submitted_payload matches Some(p) ==> db.job_submitted_job_id == Some(p.job_id)
            && db.job_submitted_from_module == Some(p.from_module)
            && db.job_submitted_to_module == Some(p.to_module),
        (row_entry(db).job_completed_payload is Some) == (db.job_completed_job_id is Some
            && db.job_completed_success is Some),
        row_entry(db).job_completed_payload matches Some(p) ==> db.job_completed_job_id == Some(p.job_id)
            && db.job_completed_success == Some(p.success),
{
}

/// A logged entry is new (id 0), made at the time of the call, with the
/// level, module, action, payloads and message it was logged with, and it
/// expires five minutes later for information, a day for success, three
/// days for a warning and a week for an error or a fatal error.
pub proof fn logged_entry_fields(
    level: LogLevelEnum,
    module: SystemModuleEnum,
    action: LogActionEnum,
    client: Option<ClientConnectedPayload>,
    submitted: Option<JobSubmittedPayload>,
    completed: Option<JobCompletedPayload>,
    custom: Option<String>,
    now: i64,
)
    requires
        now <= LATEST_LOG_TIME,
    ensures
        new_entry(level, module, action, client, submitted, completed, custom, now).id == 0,
        new_entry(level, module, action, client, submitted, completed, custom, now).created_at == now,
        new_entry(level, module, action, client, submitted, completed, custom, now).level == level,
        new_entry(level, module, action, client, submitted, completed, custom, now).module == module,
        new_entry(level, module, action, client, submitted, completed, custom, now).action == action,
        new_entry(level, module, action, client, submitted, completed, custom, now).client_connected_payload == client,
        new_entry(level, module, action, client, submitted, completed, custom, now).job_submitted_payload == submitted,
        new_entry(level, module, action, client, submitted, completed, custom, now).job_completed_payload == completed,
        new_entry(level, module, action, client, submitted, completed, custom, now).custom_msg == custom,
        level == LogLevelEnum::Info ==> new_entry(level, module, action, client, submitted, completed, custom, now).expires_at
            == now + 5 * 60 * 1_000_000,
        level == LogLevelEnum::Success ==> new_entry(level, module, action, client, submitted, completed, custom, now).expires_at
            == now + 24 * 60 * 60 * 1_000_000,
        level == LogLevelEnum::Warning ==> new_entry(level, module, action, client, submitted, completed, custom, now).expires_at
            == now + 3 * 24 * 60 * 60 * 1_000_000,
        (level == LogLevelEnum::Error || level == LogLevelEnum::Fatal) ==> new_entry(
            level,
            module,
            action,
            client,
            submitted,
            completed,
            custom,
            now,
        ).expires_at == now + 7 * 24 * 60 * 60 * 1_000_000,
{
}

} // verus!
