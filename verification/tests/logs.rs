use swarm_sync::enums::log::{LogActionEnum, LogLevelEnum};
use swarm_sync::enums::system::SystemModuleEnum;
use swarm_sync::logs::{
    retention_micros, ClientConnectedPayload, DBLogEntry, JobCompletedPayload,
    JobSubmittedPayload, LogBuffer, LogEntry, NewDBLogEntry, LATEST_LOG_TIME,
};

fn sample_entry() -> LogEntry {
    LogEntry {
        id: 0,
        created_at: 1_000,
        level: LogLevelEnum::Warning,
        module: SystemModuleEnum::Dispatcher,
        action: LogActionEnum::ClientConnected,
        expires_at: 2_000,
        client_connected_payload: Some(ClientConnectedPayload {
            ip: "10.0.0.1".to_string(),
            username: "alice".to_string(),
        }),
        job_submitted_payload: Some(JobSubmittedPayload {
            job_id: 4,
            from_module: SystemModuleEnum::Receiver,
            to_module: SystemModuleEnum::Scheduler,
        }),
        job_completed_payload: None,
        custom_msg: Some("hello".to_string()),
    }
}

fn stored(row: NewDBLogEntry, id: i32, created_at: i64) -> DBLogEntry {
    DBLogEntry {
        id,
        created_at,
        level: row.level,
        module: row.module,
        action: row.action,
        expires_at: row.expires_at,
        client_connected_ip: row.client_connected_ip,
        client_connected_username: row.client_connected_username,
        job_submitted_job_id: row.job_submitted_job_id,
        job_submitted_from_module: row.job_submitted_from_module,
        job_submitted_to_module: row.job_submitted_to_module,
        job_completed_job_id: row.job_completed_job_id,
        job_completed_success: row.job_completed_success,
        custom_msg: row.custom_msg,
    }
}

#[test]
fn entry_spreads_payloads_over_columns() {
    let e = sample_entry();
    let row = NewDBLogEntry::from_entry_ref(&e);
    assert_eq!(row.client_connected_ip.as_deref(), Some("10.0.0.1"));
    assert_eq!(row.client_connected_username.as_deref(), Some("alice"));
    assert_eq!(row.job_submitted_job_id, Some(4));
    assert_eq!(row.job_submitted_from_module, Some(SystemModuleEnum::Receiver));
    assert_eq!(row.job_submitted_to_module, Some(SystemModuleEnum::Scheduler));
    assert_eq!(row.job_completed_job_id, None);
    assert_eq!(row.job_completed_success, None);
    assert_eq!(row.expires_at, 2_000);
    let moved: NewDBLogEntry = e.into();
    assert_eq!(moved.custom_msg.as_deref(), Some("hello"));
}

#[test]
fn stored_entry_reads_back() {
    let row = NewDBLogEntry::from_entry(sample_entry());
    let back: LogEntry = stored(row, 17, 999).into();
    assert_eq!(back.id, 17);
    assert_eq!(back.created_at, 999);
    assert_eq!(back.level, LogLevelEnum::Warning);
    let c = back.client_connected_payload.expect("client payload");
    assert_eq!((c.ip.as_str(), c.username.as_str()), ("10.0.0.1", "alice"));
    let s = back.job_submitted_payload.expect("submitted payload");
    assert_eq!((s.job_id, s.from_module, s.to_module), (4, SystemModuleEnum::Receiver, SystemModuleEnum::Scheduler));
    assert!(back.job_completed_payload.is_none());
    assert_eq!(back.custom_msg.as_deref(), Some("hello"));
}

#[test]
fn partly_filled_payload_columns_read_as_none() {
    let mut row = NewDBLogEntry::from_entry(sample_entry());
    row.client_connected_username = None;
    row.job_completed_job_id = Some(8);
    let back = LogEntry::from_db(stored(row, 1, 2));
    assert!(back.client_connected_payload.is_none());
    assert!(back.job_completed_payload.is_none());
    assert!(back.job_submitted_payload.is_some());
}

#[test]
fn completed_payload_round_trips() {
    let mut e = sample_entry();
    e.job_completed_payload = Some(JobCompletedPayload { job_id: 5, success: false });
    let back = LogEntry::from_db(stored(NewDBLogEntry::from_entry(e), 3, 4));
    let p = back.job_completed_payload.expect("completed payload");
    assert_eq!((p.job_id, p.success), (5, false));
}

#[test]
fn retention_by_level() {
    assert_eq!(retention_micros(LogLevelEnum::Info), 5 * 60 * 1_000_000);
    assert_eq!(retention_micros(LogLevelEnum::Success), 24 * 3600 * 1_000_000);
    assert_eq!(retention_micros(LogLevelEnum::Warning), 3 * 24 * 3600 * 1_000_000);
    assert_eq!(retention_micros(LogLevelEnum::Error), 7 * 24 * 3600 * 1_000_000);
    assert_eq!(retention_micros(LogLevelEnum::Fatal), 7 * 24 * 3600 * 1_000_000);
    assert_eq!(LATEST_LOG_TIME, i64::MAX - 7 * 24 * 3600 * 1_000_000);
}

#[test]
fn buffer_logs_take_and_restore() {
    let mut b = LogBuffer::new();
    b.log_at(LogLevelEnum::Info, SystemModuleEnum::Harvester, LogActionEnum::Custom, None, None, None, Some("a".to_string()), 100);
    let taken = b.take_all();
    assert_eq!(taken.len(), 1);
    assert_eq!(taken[0].id, 0);
    assert_eq!(taken[0].created_at, 100);
    assert_eq!(taken[0].expires_at, 100 + 300_000_000);
    assert_eq!(b.len(), 0);
    b.log_at(LogLevelEnum::Fatal, SystemModuleEnum::Dispatcher, LogActionEnum::Custom, None, None, None, Some("b".to_string()), 200);
    b.restore(taken);
    let all = b.take_all();
    assert_eq!(all.len(), 2);
    assert_eq!(all[0].custom_msg.as_deref(), Some("b"));
    assert_eq!(all[0].expires_at, 200 + 604_800_000_000);
    assert_eq!(all[1].custom_msg.as_deref(), Some("a"));
}

#[test]
fn buffer_logs_with_the_clock() {
    let mut b = LogBuffer::new();
    assert!(b.log(LogLevelEnum::Success, SystemModuleEnum::Scheduler, LogActionEnum::JobCompleted, None, None, None, None));
    let e = b.take_all();
    assert_eq!(e.len(), 1);
    assert_eq!(e[0].expires_at - e[0].created_at, 86_400_000_000);
    assert!(e[0].created_at > 1_600_000_000_000_000);
}

#[test]
fn typed_in_row_has_no_job_payloads() {
    let r = NewDBLogEntry::typed_in(
        LogLevelEnum::Error,
        SystemModuleEnum::TaskArchive,
        LogActionEnum::Custom,
        5,
        Some("1.2.3.4".to_string()),
        None,
        Some("m".to_string()),
    );
    assert_eq!(r.client_connected_ip.as_deref(), Some("1.2.3.4"));
    assert!(r.client_connected_username.is_none());
    assert!(r.job_submitted_job_id.is_none() && r.job_completed_job_id.is_none());
    assert_eq!(r.expires_at, 5);
}
