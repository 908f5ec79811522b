use swarm_sync::dispatcher::{DispatcherState, UNREACHABLE_AFTER_NANOS};
use swarm_sync::enums::workers::WorkerStatusEnum;

#[test]
fn startup_registers_workers_offline() {
    let mut st = DispatcherState::new();
    st.register_workers(&vec![1, 2], 100);
    assert_eq!(st.status_of(1), Some(WorkerStatusEnum::Offline));
    assert_eq!(st.status_of(2), Some(WorkerStatusEnum::Offline));
    assert_eq!(st.last_seen_of(2), Some(100));
    assert_eq!(st.status_of(3), None);
}

#[test]
fn sweep_marks_only_silent_live_workers() {
    let mut st = DispatcherState::new();
    st.register_workers(&vec![1, 2, 3, 4], 0);
    st.record_status(1, WorkerStatusEnum::Idle, 0);
    st.record_status(2, WorkerStatusEnum::Busy, 5_000_000_000);
    st.record_status(3, WorkerStatusEnum::Busy, 0);
    let now = UNREACHABLE_AFTER_NANOS + 1;
    let mut marked = st.sweep_unreachable(now);
    marked.sort();
    assert_eq!(marked, vec![1, 3]);
    assert_eq!(st.status_of(1), Some(WorkerStatusEnum::Unreachable));
    assert_eq!(st.status_of(2), Some(WorkerStatusEnum::Busy));
    assert_eq!(st.status_of(3), Some(WorkerStatusEnum::Unreachable));
    assert_eq!(st.status_of(4), Some(WorkerStatusEnum::Offline));
}

#[test]
fn sweep_boundary_is_strict() {
    let mut st = DispatcherState::new();
    st.record_status(1, WorkerStatusEnum::Idle, 0);
    assert!(st.sweep_unreachable(UNREACHABLE_AFTER_NANOS).is_empty());
    assert_eq!(st.status_of(1), Some(WorkerStatusEnum::Idle));
}

#[test]
fn sweep_twice_keeps_state_and_re_marks() {
    let mut st = DispatcherState::new();
    st.record_status(9, WorkerStatusEnum::Idle, 0);
    let now = 3 * UNREACHABLE_AFTER_NANOS;
    assert_eq!(st.sweep_unreachable(now), vec![9]);
    assert_eq!(st.sweep_unreachable(now), vec![9]);
    assert_eq!(st.status_of(9), Some(WorkerStatusEnum::Unreachable));
}

#[test]
fn fresh_report_is_not_swept() {
    let mut st = DispatcherState::new();
    st.record_status(1, WorkerStatusEnum::Idle, 0);
    st.record_status(1, WorkerStatusEnum::Busy, 10_000_000_000);
    assert!(st.sweep_unreachable(10_000_000_000).is_empty());
    // a clock reading before the last report counts as no silence at all
    assert!(st.sweep_unreachable(0).is_empty());
}
