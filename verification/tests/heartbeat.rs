use swarm_sync::dispatcher::DispatcherState;
use swarm_sync::enums::workers::WorkerStatusEnum;
use swarm_sync::heartbeat::{heartbeat_message, parse_heartbeat, HeartbeatCommand};
use swarm_sync::numeric::i32_to_text;

#[test]
fn heartbeat_messages_have_the_wire_form() {
    assert_eq!(heartbeat_message(7, HeartbeatCommand::Connect), "7,CONNECT");
    assert_eq!(heartbeat_message(12, HeartbeatCommand::Idle), "12,IDLE");
    assert_eq!(heartbeat_message(-3, HeartbeatCommand::Busy), "-3,BUSY");
    assert_eq!(heartbeat_message(0, HeartbeatCommand::Disconnect), "0,DISCONNECT");
}

#[test]
fn heartbeat_round_trip_on_values() {
    for id in [0, 1, 42, -1, i32::MAX, i32::MIN] {
        for (cmd, st) in [
            (HeartbeatCommand::Connect, WorkerStatusEnum::Idle),
            (HeartbeatCommand::Idle, WorkerStatusEnum::Idle),
            (HeartbeatCommand::Busy, WorkerStatusEnum::Busy),
            (HeartbeatCommand::Disconnect, WorkerStatusEnum::Offline),
        ] {
            let msg = heartbeat_message(id, cmd);
            assert_eq!(parse_heartbeat(&msg), Some((id, st)));
        }
    }
}

#[test]
fn parse_heartbeat_trims_parts() {
    assert_eq!(parse_heartbeat("  5 , BUSY \n"), Some((5, WorkerStatusEnum::Busy)));
    assert_eq!(parse_heartbeat("+9,IDLE"), Some((9, WorkerStatusEnum::Idle)));
    assert_eq!(parse_heartbeat("007,DISCONNECT"), Some((7, WorkerStatusEnum::Offline)));
}

#[test]
fn parse_heartbeat_refuses_malformed() {
    assert_eq!(parse_heartbeat(""), None);
    assert_eq!(parse_heartbeat("5"), None);
    assert_eq!(parse_heartbeat("5,IDLE,x"), None);
    assert_eq!(parse_heartbeat("x,IDLE"), None);
    assert_eq!(parse_heartbeat("5,idle"), None);
    assert_eq!(parse_heartbeat("5,SLEEP"), None);
    assert_eq!(parse_heartbeat("-,IDLE"), None);
    assert_eq!(parse_heartbeat("2147483648,IDLE"), None);
    assert_eq!(parse_heartbeat("-2147483648,IDLE"), Some((i32::MIN, WorkerStatusEnum::Idle)));
    assert_eq!(parse_heartbeat(",IDLE"), None);
}

#[test]
fn i32_text_matches_display() {
    for x in [0, 5, 10, 99, -100, 123456, i32::MAX, i32::MIN] {
        let s: String = i32_to_text(x).into_iter().collect();
        assert_eq!(s, x.to_string());
    }
}

#[test]
fn dispatcher_records_datagrams() {
    let mut st = DispatcherState::new();
    assert_eq!(st.handle_datagram("3,CONNECT", 10), Some((3, WorkerStatusEnum::Idle)));
    assert_eq!(st.status_of(3), Some(WorkerStatusEnum::Idle));
    assert_eq!(st.last_seen_of(3), Some(10));
    assert_eq!(st.handle_datagram("garbage", 20), None);
    assert_eq!(st.last_seen_of(3), Some(10));
    assert_eq!(st.status_of(4), None);
}
