use device_hub::publisher::{ConnectError, Sender};
use device_hub::websocket::{CloseCode, Event, Frame, Heartbeat, Reaction, SessionState, WebSocket};

fn t(text: &str) -> String {
    text.to_string()
}

fn session(rate_limit: u64) -> WebSocket {
    let mut session = WebSocket::new_at(t("acct_A"), t("d1"), t("devt_1"), rate_limit, 1_000, 120);
    let command = session.started(7u32);
    assert_eq!(command.account_id, "acct_A");
    assert_eq!(command.device_id, "d1");
    assert_eq!(command.device_type_id, "devt_1");
    assert_eq!(command.addr, 7);
    session
}

fn message_frame(topic: &str) -> Frame {
    Frame::Text(Ok(Event::Message {
        seconds_since_unix: 10,
        nano_seconds: 20,
        topics: vec![t(topic)],
        data: serde_json::Value::from(3),
    }))
}

#[test]
fn session_starts_active() {
    let mut session = WebSocket::new_at(t("acct_A"), t("d1"), t("devt_1"), 3, 1_000, 120);
    assert_eq!(session.state(), SessionState::Starting);
    let _ = session.started(());
    assert_eq!(session.state(), SessionState::Active);
    assert_eq!(session.requests(), 0);
}

#[test]
fn refused_connect_closes_the_session() {
    let mut session = session(3);
    assert!(session.connect_answered(&Ok(())));
    assert_eq!(session.state(), SessionState::Active);
    assert!(!session.connect_answered(&Err(ConnectError::Admission)));
    assert_eq!(session.state(), SessionState::Closing);
    let farewell = session.stopped().unwrap();
    assert_eq!(farewell.device_id, "d1");
    assert_eq!(session.state(), SessionState::Closed);
}

#[test]
fn scenario_rate_limit_of_three() {
    let mut session = session(3);
    let mut forwarded = 0;
    for _ in 0..4 {
        match session.handle_at(message_frame("t1"), 1_000, 120) {
            Reaction::Publish(_) => forwarded += 1,
            Reaction::Ignore => {}
            _ => panic!("a text frame is forwarded or dropped"),
        }
    }
    assert_eq!(forwarded, 3);
    assert_eq!(session.requests(), 4);
    assert_eq!(session.state(), SessionState::Active);
}

#[test]
fn rate_limit_resets_at_the_minute() {
    let mut session = session(2);
    for _ in 0..5 {
        let _ = session.handle_at(message_frame("t1"), 1_000, 120);
    }
    assert!(matches!(session.handle_at(message_frame("t1"), 1_000, 120), Reaction::Ignore));
    assert!(matches!(session.handle_at(message_frame("t1"), 61_000, 180), Reaction::Publish(_)));
    assert_eq!(session.requests(), 1);
    assert!(matches!(session.handle_at(message_frame("t1"), 61_000, 180), Reaction::Publish(_)));
    assert!(matches!(session.handle_at(message_frame("t1"), 61_000, 180), Reaction::Ignore));
}

#[test]
fn message_frame_becomes_a_publish() {
    let mut session = session(10);
    match session.handle_at(message_frame("t1"), 1_000, 120) {
        Reaction::Publish(command) => {
            assert_eq!(command.account_id, "acct_A");
            match command.sender {
                Sender::Device { device_id, device_type_id } => {
                    assert_eq!(device_id, "d1");
                    assert_eq!(device_type_id, "devt_1");
                }
                Sender::Address(_) => panic!("a device published"),
            }
            assert_eq!(command.message.seconds_since_unix, 10);
            assert_eq!(command.message.nano_seconds, 20);
            assert_eq!(command.message.topics, vec![t("t1")]);
            assert_eq!(command.message.data, serde_json::Value::from(3));
        }
        _ => panic!("expected a publish"),
    }
}

#[test]
fn register_frame_becomes_a_registration() {
    let mut session = session(10);
    let frame = Frame::Text(Ok(Event::Register { topics: vec![t("t1"), t("t2")] }));
    match session.handle_at(frame, 1_000, 120) {
        Reaction::Register(command) => {
            assert_eq!(command.account_id, "acct_A");
            assert_eq!(command.device_id, "d1");
            assert_eq!(command.topics, vec![t("t1"), t("t2")]);
        }
        _ => panic!("expected a registration"),
    }
}

#[test]
fn unreadable_frame_is_logged_and_counted() {
    let mut session = session(1);
    match session.handle_at(Frame::Text(Err(t("expected value"))), 1_000, 120) {
        Reaction::LogError { device_id, device_type_id, error } => {
            assert_eq!(device_id, "d1");
            assert_eq!(device_type_id, "devt_1");
            assert_eq!(error, "expected value");
        }
        _ => panic!("expected a log entry"),
    }
    // over the limit even an unreadable frame is dropped without a word
    assert!(matches!(session.handle_at(Frame::Text(Err(t("again"))), 1_000, 120), Reaction::Ignore));
    assert_eq!(session.state(), SessionState::Active);
}

#[test]
fn binary_and_other_frames_are_dropped() {
    let mut session = session(1);
    assert!(matches!(session.handle_at(Frame::Binary, 1_000, 120), Reaction::Ignore));
    assert!(matches!(session.handle_at(Frame::Other, 1_000, 120), Reaction::Ignore));
    assert_eq!(session.requests(), 0);
}

#[test]
fn ping_is_answered_and_counts_as_heard() {
    let mut session = session(1);
    match session.handle_at(Frame::Ping(vec![1, 2, 3]), 9_000, 120) {
        Reaction::Pong(payload) => assert_eq!(payload, vec![1, 2, 3]),
        _ => panic!("expected a pong"),
    }
    assert_eq!(session.hb(19_000), Heartbeat::Ping);
    assert_eq!(session.hb(19_001), Heartbeat::Timeout);
}

#[test]
fn scenario_heartbeat_timeout() {
    let mut session = session(1);
    // last heard at 1_000 ms
    assert_eq!(session.hb(6_000), Heartbeat::Ping);
    assert_eq!(session.hb(11_000), Heartbeat::Ping);
    assert_eq!(session.state(), SessionState::Active);
    assert_eq!(session.hb(12_000), Heartbeat::Timeout);
    assert_eq!(session.state(), SessionState::Closing);
    let farewell = session.stopped().unwrap();
    assert_eq!(farewell.account_id, "acct_A");
    assert_eq!(farewell.device_id, "d1");
    assert_eq!(farewell.device_type_id, "devt_1");
    assert_eq!(session.state(), SessionState::Closed);
    assert!(session.stopped().is_none());
}

#[test]
fn pong_keeps_the_session_alive() {
    let mut session = session(1);
    assert!(matches!(session.handle_at(Frame::Pong, 10_500, 120), Reaction::Ignore));
    assert_eq!(session.hb(15_000), Heartbeat::Ping);
    assert_eq!(session.hb(20_500), Heartbeat::Ping);
    assert_eq!(session.hb(20_501), Heartbeat::Timeout);
}

#[test]
fn clock_that_runs_backwards_is_no_silence() {
    let mut session = session(1);
    assert_eq!(session.hb(0), Heartbeat::Ping);
}

#[test]
fn close_frame_stops_the_session() {
    let mut session = session(1);
    assert!(matches!(session.handle_at(Frame::Close, 1_000, 120), Reaction::Stop));
    assert_eq!(session.state(), SessionState::Closing);
    // a closing session reads no more frames
    assert!(matches!(session.handle_at(message_frame("t1"), 1_000, 120), Reaction::Ignore));
    assert_eq!(session.requests(), 0);
    assert!(session.stopped().is_some());
}

#[test]
fn shutdown_sends_restart() {
    let mut session = session(1);
    let reason = session.shutdown();
    assert_eq!(reason.code, CloseCode::Restart);
    assert_eq!(reason.description, Some(t("new server being deployed")));
    assert_eq!(session.state(), SessionState::Closing);
}

#[test]
fn session_on_the_wall_clock() {
    let mut session = WebSocket::new(t("acct_A"), t("d1"), t("devt_1"), 2, 0);
    let _ = session.started(());
    assert!(matches!(session.handle(message_frame("t1"), 0), Reaction::Publish(_)));
    assert!(session.requests() >= 1);
}
