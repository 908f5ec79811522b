use swarm_sync::config::{
    core_location_step, finished_jobs, CoreLocationEvent, CoreLocationStep, initial_job_state, is_finished_state, local_core_url, log_tail_start, profile_update,
    read_worker_id_answer, remote_core_url, status_banner, worker_id_set, worker_status_line,
    CoreConfig, WorkerIdAnswer,
};
use swarm_sync::enums::job::JobStateEnum;
use swarm_sync::enums::workers::WorkerStatusEnum;
use swarm_sync::lifecycle::{
    dispatcher_step, logger_step, module_step, DispatcherStep, LoggerSignal, LoggerStep,
    ModuleSignal, ModuleStep,
};
use swarm_sync::enums::system::{CoreEvent, Pulse};
use swarm_sync::routes::{page_window, uptime_from_number, UpdateActiveJobId};

#[test]
fn worker_id_configured() {
    assert!(!worker_id_set(&None));
    let mut c = CoreConfig::for_core("http://core:8000".to_string());
    assert_eq!(c.base_url, "http://core:8000");
    assert!(c.last_username.is_none() && c.worker_status_enum.is_none());
    assert!(!worker_id_set(&Some(CoreConfig::for_core("x".to_string()))));
    c.worker_id = Some(3);
    assert!(worker_id_set(&Some(c)));
}

#[test]
fn worker_id_answers() {
    assert_eq!(read_worker_id_answer("   "), WorkerIdAnswer::Cancelled);
    assert_eq!(read_worker_id_answer(" 12 "), WorkerIdAnswer::Id(12));
    assert_eq!(read_worker_id_answer("twelve"), WorkerIdAnswer::Invalid);
}

#[test]
fn core_locations() {
    assert_eq!(remote_core_url(" 10.0.0.5 "), "http://10.0.0.5:8000");
    assert_eq!(local_core_url(None), "http://127.0.0.1:8000");
    assert_eq!(local_core_url(Some("http://core:8000".to_string())), "http://core:8000");
}

#[test]
fn job_states_seen_by_the_worker() {
    assert_eq!(initial_job_state("Cron"), JobStateEnum::Submitted);
    assert_eq!(initial_job_state("Once"), JobStateEnum::Queued);
    assert!(is_finished_state("Completed"));
    assert!(is_finished_state("Failed"));
    assert!(!is_finished_state("Running"));
    assert!(!is_finished_state("Queued"));
    assert!(!is_finished_state("Submitted"));
}

#[test]
fn status_texts() {
    assert_eq!(worker_status_line(WorkerStatusEnum::Busy), "Worker status: [Busy]");
    assert_eq!(status_banner(false, Some(WorkerStatusEnum::Idle)), "Worker ID not set");
    assert_eq!(status_banner(true, None), "Status unknown");
    assert_eq!(status_banner(true, Some(WorkerStatusEnum::Idle)), "Worker status: [Idle]");
    assert_eq!(log_tail_start(50), 0);
    assert_eq!(log_tail_start(200), 0);
    assert_eq!(log_tail_start(250), 50);
}

#[test]
fn profile_changes() {
    let (n, e, p) = profile_update("a".into(), "a@x".into(), "".into(), "b@x".into(), "".into());
    assert_eq!((n.as_str(), e.as_str(), p), ("a", "b@x", None));
    let (n, _, p) = profile_update("a".into(), "a@x".into(), "z".into(), "".into(), "pw".into());
    assert_eq!((n.as_str(), p.as_deref()), ("z", Some("pw")));
}

#[test]
fn module_reactions() {
    assert_eq!(module_step(ModuleSignal::Event(CoreEvent::Startup)), ModuleStep::Continue);
    assert_eq!(module_step(ModuleSignal::Event(CoreEvent::Restart)), ModuleStep::Continue);
    assert_eq!(module_step(ModuleSignal::Event(CoreEvent::Shutdown)), ModuleStep::Stop);
    assert_eq!(module_step(ModuleSignal::Closed), ModuleStep::Stop);
    assert_eq!(dispatcher_step(ModuleSignal::Event(CoreEvent::Startup)), DispatcherStep::Start);
    assert_eq!(dispatcher_step(ModuleSignal::Event(CoreEvent::Restart)), DispatcherStep::Ignore);
    assert_eq!(dispatcher_step(ModuleSignal::Closed), DispatcherStep::Stop);
    assert_eq!(logger_step(LoggerSignal::Pulse(Pulse::Slow)), LoggerStep { clean: true, flush: true, stop: false });
    assert_eq!(logger_step(LoggerSignal::Pulse(Pulse::Fast)), LoggerStep { clean: false, flush: false, stop: false });
    assert_eq!(logger_step(LoggerSignal::Event(CoreEvent::Shutdown)), LoggerStep { clean: false, flush: true, stop: true });
    assert_eq!(logger_step(LoggerSignal::Event(CoreEvent::Restart)), LoggerStep { clean: false, flush: true, stop: false });
    assert_eq!(logger_step(LoggerSignal::Event(CoreEvent::Startup)), LoggerStep { clean: false, flush: false, stop: false });
}

#[test]
fn route_helpers() {
    assert_eq!(page_window(None, None), (50, 0));
    assert_eq!(page_window(Some(1), Some(2)), (2, 2));
    assert_eq!(page_window(Some(3), None), (50, 150));
    assert_eq!(uptime_from_number(Some(7200)), Some(7200));
    assert_eq!(uptime_from_number(Some(4_294_967_297)), Some(1));
    assert_eq!(uptime_from_number(None), None);
    let body = UpdateActiveJobId { active_job_id: Some(4) };
    assert_eq!(body.active_job_id, Some(4));
}

#[test]
fn finished_jobs_in_order() {
    let states: Vec<String> = ["Submitted", "Completed", "Queued", "Failed", "Running", "Weird"]
        .iter()
        .map(|s| s.to_string())
        .collect();
    assert_eq!(finished_jobs(&states), vec![1, 3, 5]);
    assert_eq!(finished_jobs(&[]), Vec::<usize>::new());
}

#[test]
fn core_location_dialog() {
    let saved = |reuse, reachable| core_location_step(CoreLocationEvent::SavedChoice { reuse, reachable });
    assert_eq!(saved(true, true), CoreLocationStep::UseSaved);
    assert_eq!(saved(true, false), CoreLocationStep::AskLocation);
    assert_eq!(saved(false, false), CoreLocationStep::AskLocation);
    assert_eq!(core_location_step(CoreLocationEvent::NewChecked { reachable: true }), CoreLocationStep::Save);
    assert_eq!(core_location_step(CoreLocationEvent::NewChecked { reachable: false }), CoreLocationStep::Abort);
}
