use iot_sdk::communication::message::{DecodeError, WebSocketMessage, WebSocketMessageType};
use iot_sdk::communication::util::RetryStep;
use iot_sdk::communication::websocket::{
    ConnectionError, ConnectionState, FrameOutcome, WebSocketConnection,
};

const COMMAND: &str =
    "{\"type\":\"command\",\"device_id\":\"d1\",\"payload\":{},\"id\":\"abc123\",\"timestamp\":1000}";

fn connected(device_id: &str) -> (WebSocketConnection, u64) {
    let mut conn = WebSocketConnection::new();
    conn.connect("wss://example.com/ws", "token", device_id);
    let instance = conn.connection_established().unwrap();
    (conn, instance)
}

#[test]
fn a_new_connection_is_disconnected() {
    let conn = WebSocketConnection::new();
    assert!(!conn.is_connected());
    assert_eq!(conn.state(), ConnectionState::Disconnected);
    assert_eq!(conn.current_instance(), None);
    assert_eq!(conn.pending_frames(), 0);
}

#[test]
fn connect_builds_the_target_address() {
    let mut conn = WebSocketConnection::new();
    let url = conn.connect("wss://example.com/ws", "dG9rZW4=", "d1");
    assert_eq!(url, "wss://example.com/ws?token=dG9rZW4=&device_id=d1");
    assert_eq!(conn.state(), ConnectionState::Connecting);
    assert!(!conn.is_connected());
}

#[test]
fn an_established_connection_is_connected() {
    let mut conn = WebSocketConnection::new();
    conn.connect("wss://example.com/ws", "t", "d1");
    assert_eq!(conn.connection_established(), Some(1));
    assert!(conn.is_connected());
    assert_eq!(conn.state(), ConnectionState::Connected);
    assert_eq!(conn.current_instance(), Some(1));
    assert_eq!(conn.pending_frames(), 0);
}

#[test]
fn nothing_is_established_without_a_connect() {
    let mut conn = WebSocketConnection::new();
    assert_eq!(conn.connection_established(), None);
    assert!(!conn.is_connected());
    let (mut conn, instance) = connected("d1");
    assert_eq!(conn.connection_established(), None);
    assert_eq!(conn.current_instance(), Some(instance));
}

#[test]
fn a_failed_connect_is_a_transport_error() {
    let mut conn = WebSocketConnection::new();
    conn.connect("wss://example.com/ws", "t", "d1");
    assert_eq!(conn.connection_failed(), ConnectionError::Transport);
    assert_eq!(conn.state(), ConnectionState::Disconnected);
    assert!(!conn.is_connected());
}

#[test]
fn a_failed_connect_leaves_a_live_connection_alone() {
    let (mut conn, instance) = connected("d1");
    conn.connect("wss://example.com/ws", "t", "d1");
    assert_eq!(conn.state(), ConnectionState::Connecting);
    conn.connection_failed();
    assert_eq!(conn.state(), ConnectionState::Connected);
    assert_eq!(conn.current_instance(), Some(instance));
}

#[test]
fn sending_before_any_connect_fails() {
    let mut conn = WebSocketConnection::new();
    assert_eq!(conn.send_data("d1", "{\"t\":1}"), Err(ConnectionError::NotConnected));
    assert_eq!(conn.send_status("d1", "\"ok\""), Err(ConnectionError::NotConnected));
    assert_eq!(conn.pending_frames(), 0);
}

#[test]
fn send_data_enqueues_a_data_frame() {
    let (mut conn, instance) = connected("d1");
    assert_eq!(conn.send_data("d1", " { \"temp\" : 21.5 } "), Ok(()));
    assert_eq!(conn.pending_frames(), 1);
    let frame = conn.next_outbound(instance).unwrap();
    let m = WebSocketMessage::decode(&frame).unwrap();
    assert_eq!(m.message_type, WebSocketMessageType::Data);
    assert_eq!(m.device_id, "d1");
    assert_eq!(m.payload, "{\"temp\":21.5}");
    let id = m.id.unwrap();
    assert_eq!(id.len(), 12);
    assert!(id.ends_with('='));
    assert!(m.timestamp > 1_577_836_800);
    assert_eq!(conn.pending_frames(), 0);
}

#[test]
fn send_status_enqueues_a_status_frame() {
    let (mut conn, instance) = connected("d1");
    assert_eq!(conn.send_status("d2", "\"online\""), Ok(()));
    let frame = conn.next_outbound(instance).unwrap();
    let m = WebSocketMessage::decode(&frame).unwrap();
    assert_eq!(m.message_type, WebSocketMessageType::Status);
    assert_eq!(m.device_id, "d2");
    assert_eq!(m.payload, "\"online\"");
    assert!(m.id.is_some());
}

#[test]
fn fresh_ids_differ() {
    let (mut conn, instance) = connected("d1");
    conn.send_data("d1", "1").unwrap();
    conn.send_data("d1", "1").unwrap();
    let a = WebSocketMessage::decode(&conn.next_outbound(instance).unwrap()).unwrap();
    let b = WebSocketMessage::decode(&conn.next_outbound(instance).unwrap()).unwrap();
    assert_ne!(a.id, b.id);
}

#[test]
fn a_payload_that_is_not_json_is_refused() {
    let (mut conn, _) = connected("d1");
    assert_eq!(conn.send_data("d1", "{oops"), Err(ConnectionError::Payload));
    assert_eq!(conn.send_status("d1", ""), Err(ConnectionError::Payload));
    assert_eq!(conn.pending_frames(), 0);
    let mut fresh = WebSocketConnection::new();
    assert_eq!(fresh.send_data("d1", "{oops"), Err(ConnectionError::Payload));
}

#[test]
fn frames_leave_in_the_order_they_came() {
    let (mut conn, instance) = connected("d1");
    let first = WebSocketMessage::data("d1", "1".to_string(), "a".to_string(), 1);
    let second = WebSocketMessage::status("d1", "2".to_string(), "b".to_string(), 2);
    let third = WebSocketMessage::data("d1", "3".to_string(), "c".to_string(), 3);
    conn.send_message(&first).unwrap();
    conn.send_message(&second).unwrap();
    conn.send_message(&third).unwrap();
    assert_eq!(conn.pending_frames(), 3);
    assert_eq!(conn.next_outbound(instance), Some(first.encode()));
    assert_eq!(conn.next_outbound(instance), Some(second.encode()));
    assert_eq!(conn.next_outbound(instance), Some(third.encode()));
    assert_eq!(conn.next_outbound(instance), None);
}

#[test]
fn the_sender_of_another_connection_gets_nothing() {
    let (mut conn, instance) = connected("d1");
    conn.send_data("d1", "1").unwrap();
    assert_eq!(conn.next_outbound(instance + 1), None);
    assert_eq!(conn.pending_frames(), 1);
}

#[test]
fn a_command_is_acknowledged_with_exactly_one_frame() {
    let (mut conn, instance) = connected("d1");
    let outcome = conn.handle_frame_at(instance, COMMAND, 1234);
    let expected =
        "{\"type\":\"ack\",\"device_id\":\"d1\",\"payload\":{\"status\":\"received\"},\"id\":\"abc123\",\"timestamp\":1234}";
    assert_eq!(outcome, Some(FrameOutcome::Acknowledged(expected.to_string())));
    assert_eq!(conn.pending_frames(), 1);
    assert_eq!(conn.next_outbound(instance), Some(expected.to_string()));
    assert_eq!(conn.next_outbound(instance), None);
}

#[test]
fn a_command_is_acknowledged_at_the_current_time() {
    let (mut conn, instance) = connected("d1");
    let outcome = conn.handle_frame(instance, COMMAND);
    assert!(matches!(outcome, Some(FrameOutcome::Acknowledged(_))));
    let frame = conn.next_outbound(instance).unwrap();
    let ack = WebSocketMessage::decode(&frame).unwrap();
    assert_eq!(ack.message_type, WebSocketMessageType::Acknowledgement);
    assert_eq!(ack.device_id, "d1");
    assert_eq!(ack.payload, "{\"status\":\"received\"}");
    assert_eq!(ack.id.as_deref(), Some("abc123"));
    assert!(ack.timestamp > 1_577_836_800);
    assert_eq!(conn.next_outbound(instance), None);
}

#[test]
fn the_acknowledgement_names_the_connected_device() {
    let (mut conn, instance) = connected("this-device");
    conn.handle_frame_at(instance, COMMAND, 5);
    let ack = WebSocketMessage::decode(&conn.next_outbound(instance).unwrap()).unwrap();
    assert_eq!(ack.device_id, "this-device");
}

#[test]
fn a_command_without_an_id_is_only_observed() {
    let (mut conn, instance) = connected("d1");
    let frame = "{\"type\":\"command\",\"device_id\":\"d1\",\"payload\":{},\"timestamp\":1000}";
    assert_eq!(
        conn.handle_frame_at(instance, frame, 1),
        Some(FrameOutcome::Observed(WebSocketMessageType::Command))
    );
    assert_eq!(conn.pending_frames(), 0);
}

#[test]
fn other_messages_are_only_observed() {
    let (mut conn, instance) = connected("d1");
    for (tag, kind) in [
        ("data", WebSocketMessageType::Data),
        ("status", WebSocketMessageType::Status),
        ("ack", WebSocketMessageType::Acknowledgement),
    ] {
        let frame = format!(
            "{{\"type\":\"{}\",\"device_id\":\"d1\",\"payload\":{{}},\"id\":\"x\",\"timestamp\":1}}",
            tag
        );
        assert_eq!(conn.handle_frame_at(instance, &frame, 1), Some(FrameOutcome::Observed(kind)));
    }
    assert_eq!(conn.pending_frames(), 0);
}

#[test]
fn a_malformed_frame_is_dropped_and_the_receiver_goes_on() {
    let (mut conn, instance) = connected("d1");
    assert_eq!(
        conn.handle_frame_at(instance, "this is not json", 1),
        Some(FrameOutcome::Dropped(DecodeError::NotAnObject))
    );
    assert_eq!(
        conn.handle_frame_at(instance, "{\"type\":\"nonsense\"}", 1),
        Some(FrameOutcome::Dropped(DecodeError::MessageType))
    );
    assert!(conn.is_connected());
    assert_eq!(conn.pending_frames(), 0);
    let outcome = conn.handle_frame_at(instance, COMMAND, 2);
    assert!(matches!(outcome, Some(FrameOutcome::Acknowledged(_))));
    assert_eq!(conn.pending_frames(), 1);
    assert!(conn.is_connected());
}

#[test]
fn sending_after_a_read_failure_is_not_connected() {
    let (mut conn, instance) = connected("d1");
    conn.receive_ended(instance);
    assert!(!conn.is_connected());
    assert_eq!(conn.state(), ConnectionState::Disconnected);
    assert_eq!(conn.send_data("d1", "{\"t\":1}"), Err(ConnectionError::NotConnected));
    assert_eq!(conn.send_status("d1", "\"ok\""), Err(ConnectionError::NotConnected));
}

#[test]
fn sending_after_a_write_failure_is_not_connected() {
    let (mut conn, instance) = connected("d1");
    conn.send_data("d1", "1").unwrap();
    let _ = conn.next_outbound(instance);
    conn.send_failed(instance);
    assert!(!conn.is_connected());
    assert_eq!(conn.send_data("d1", "2"), Err(ConnectionError::NotConnected));
    assert_eq!(conn.next_outbound(instance), None);
}

#[test]
fn a_flag_that_went_down_stays_down() {
    let (mut conn, instance) = connected("d1");
    conn.receive_ended(instance);
    assert!(!conn.is_connected());
    let _ = conn.send_data("d1", "1");
    assert!(!conn.is_connected());
    assert_eq!(conn.handle_frame_at(instance, COMMAND, 1), None);
    assert!(!conn.is_connected());
    assert_eq!(conn.next_outbound(instance), None);
    assert!(!conn.is_connected());
    conn.send_failed(instance);
    conn.receive_ended(instance);
    assert!(!conn.is_connected());
    assert_eq!(conn.connection_established(), None);
    assert!(!conn.is_connected());
    conn.connect("wss://example.com/ws", "t", "d1");
    assert!(!conn.is_connected());
    conn.connection_failed();
    assert!(!conn.is_connected());
    assert_eq!(conn.current_instance(), Some(instance));
}

#[test]
fn only_a_new_connection_is_live_again() {
    let (mut conn, first) = connected("d1");
    conn.send_failed(first);
    conn.connect("wss://example.com/ws", "t", "d1");
    let second = conn.connection_established().unwrap();
    assert!(second > first);
    assert!(conn.is_connected());
    assert_eq!(conn.pending_frames(), 0);
}

#[test]
fn a_worker_of_an_earlier_connection_changes_nothing() {
    let (mut conn, first) = connected("d1");
    conn.connect("wss://example.com/ws", "t", "d1");
    let second = conn.connection_established().unwrap();
    conn.send_failed(first);
    conn.receive_ended(first);
    assert!(conn.is_connected());
    assert_eq!(conn.handle_frame_at(first, COMMAND, 1), None);
    assert_eq!(conn.pending_frames(), 0);
    conn.send_data("d1", "1").unwrap();
    assert_eq!(conn.next_outbound(first), None);
    assert!(conn.next_outbound(second).is_some());
}

#[test]
fn frames_of_a_dead_connection_are_not_replayed() {
    let (mut conn, first) = connected("d1");
    conn.send_data("d1", "1").unwrap();
    conn.send_failed(first);
    conn.connect("wss://example.com/ws", "t", "d1");
    let second = conn.connection_established().unwrap();
    assert_eq!(conn.pending_frames(), 0);
    assert_eq!(conn.next_outbound(second), None);
}

#[test]
fn close_takes_the_flag_down() {
    let (mut conn, instance) = connected("d1");
    conn.close();
    assert!(!conn.is_connected());
    assert_eq!(conn.state(), ConnectionState::Disconnected);
    assert_eq!(conn.send_data("d1", "1"), Err(ConnectionError::NotConnected));
    assert_eq!(conn.current_instance(), Some(instance));
    let mut pending = WebSocketConnection::new();
    pending.connect("wss://example.com/ws", "t", "d1");
    pending.close();
    assert_eq!(pending.state(), ConnectionState::Disconnected);
    assert_eq!(pending.connection_established(), None);
}

#[test]
fn reconnecting_makes_exactly_three_attempts() {
    let mut conn = WebSocketConnection::new();
    let mut schedule = conn.reconnect_with_backoff(3).unwrap();
    let mut attempts = 0;
    let mut waits = Vec::new();
    let result = loop {
        assert!(schedule.may_attempt());
        conn.connect("wss://refused.example.com/ws", "t", "d1");
        attempts += 1;
        conn.connection_failed();
        match WebSocketConnection::reconnect_failed(&mut schedule) {
            Ok(wait) => waits.push(wait),
            Err(e) => break Err::<(), ConnectionError>(e),
        }
    };
    assert_eq!(result, Err(ConnectionError::ReconnectExhausted));
    assert_eq!(attempts, 3);
    assert_eq!(waits, vec![1000, 2000]);
    assert!(!schedule.may_attempt());
    assert!(!conn.is_connected());
}

#[test]
fn reconnecting_stops_at_the_first_success() {
    let mut conn = WebSocketConnection::new();
    let mut schedule = conn.reconnect_with_backoff(5).unwrap();
    conn.connect("wss://example.com/ws", "t", "d1");
    conn.connection_failed();
    assert_eq!(WebSocketConnection::reconnect_failed(&mut schedule), Ok(1000));
    conn.connect("wss://example.com/ws", "t", "d1");
    assert!(conn.connection_established().is_some());
    assert!(conn.is_connected());
    assert!(schedule.may_attempt());
}

#[test]
fn reconnecting_without_attempts_fails_at_once() {
    let conn = WebSocketConnection::new();
    assert_eq!(conn.reconnect_with_backoff(0), Err(ConnectionError::ReconnectExhausted));
}

#[test]
fn one_attempt_means_no_wait() {
    let conn = WebSocketConnection::new();
    let mut schedule = conn.reconnect_with_backoff(1).unwrap();
    assert_eq!(
        WebSocketConnection::reconnect_failed(&mut schedule),
        Err(ConnectionError::ReconnectExhausted)
    );
    let mut plain = conn.reconnect_with_backoff(1).unwrap();
    assert_eq!(plain.failed(), RetryStep::GiveUp);
}
