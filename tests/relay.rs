use ros2_ws_bridge::auth::{check_auth, AuthDecision};
use ros2_ws_bridge::clock::{millis_or_zero, now_ms};
use ros2_ws_bridge::frame::{qos_frame, render_frame, status_frame, Frame};
use ros2_ws_bridge::ingest::{decode_pose, ingest, robot_frame, Message};
use ros2_ws_bridge::metrics::{metrics, render_metrics};
use ros2_ws_bridge::session::{Action, AuthError, Recv, Session, SessionState};
use ros2_ws_bridge::stats::{Stats, StatsSnapshot};

fn s(t: &str) -> String {
    t.to_string()
}

#[test]
fn totals_follow_recorded_messages() {
    let mut st = Stats::new();
    for size in [5u64, 0, 17, 3] {
        st.record_message(size);
    }
    assert_eq!(st.msgs_total, 4);
    assert_eq!(st.bytes_total, 25);
    assert_eq!(st.sec_acc, 4);
}

#[test]
fn window_keeps_newest_thirty() {
    let mut st = Stats::new();
    for sec in 0u64..35 {
        st.record_message(1);
        if sec % 2 == 0 {
            st.record_message(1);
        }
        st.rotate_window(1000 + sec);
        assert!(st.window.len() <= 30);
    }
    assert_eq!(st.window.len(), 30);
    assert_eq!(st.window[0], (1005, 1));
    assert_eq!(st.window[29], (1034, 2));
    for i in 1..30 {
        assert!(st.window[i - 1].0 < st.window[i].0);
    }
    assert_eq!(st.sec_acc, 0);
}

#[test]
fn average_is_zero_without_rotations() {
    let st = Stats::new();
    assert_eq!(st.average_throughput_milli(), 0);
    assert_eq!(st.snapshot().throughput_milli, 0);
}

#[test]
fn average_over_window() {
    let mut st = Stats::new();
    st.record_message(1);
    st.rotate_window(1);
    st.rotate_window(2);
    st.record_message(1);
    st.rotate_window(3);
    // two messages over three buckets: 0.6666... rounds to 0.667
    assert_eq!(st.average_throughput_milli(), 667);
    st.rotate_window(4);
    st.rotate_window(5);
    st.rotate_window(6);
    st.rotate_window(7);
    st.rotate_window(8);
    // 2 / 8 = 0.25 exactly
    assert_eq!(st.average_throughput_milli(), 250);
}

#[test]
fn gauge_counts_open_sessions() {
    let mut st = Stats::new();
    st.client_connected();
    st.client_connected();
    st.client_disconnected();
    assert_eq!(st.ws_clients, 1);
}

#[test]
fn auth_disabled_allows_everyone() {
    assert_eq!(check_auth(&None, &None, &None), AuthDecision::Allow);
    assert_eq!(check_auth(&None, &Some(s("x")), &None), AuthDecision::Allow);
}

#[test]
fn auth_by_query_or_header() {
    let tok = Some(s("sekrit"));
    assert_eq!(check_auth(&tok, &Some(s("sekrit")), &None), AuthDecision::Allow);
    assert_eq!(check_auth(&tok, &None, &Some(s("Bearer sekrit"))), AuthDecision::Allow);
    assert_eq!(check_auth(&tok, &Some(s("wrong")), &Some(s("Bearer sekrit"))), AuthDecision::Allow);
    assert_eq!(check_auth(&tok, &Some(s("wrong")), &None), AuthDecision::Deny);
    assert_eq!(check_auth(&tok, &None, &Some(s("sekrit"))), AuthDecision::Deny);
    assert_eq!(check_auth(&tok, &None, &Some(s("Bearer  sekrit"))), AuthDecision::Deny);
    assert_eq!(check_auth(&tok, &None, &None), AuthDecision::Deny);
}

#[test]
fn denied_client_gets_no_session() {
    let mut st = Stats::new();
    let r = Session::open(&mut st, AuthDecision::Deny);
    assert!(matches!(r, Err(AuthError)));
    assert_eq!(st.ws_clients, 0);
}

#[test]
fn session_with_correct_token_streams() {
    let mut st = Stats::new();
    let tok = Some(s("abc"));
    let decision = check_auth(&tok, &Some(s("abc")), &None);
    let (mut sess, status) = match Session::open(&mut st, decision) {
        Ok(v) => v,
        Err(_) => panic!("allowed client refused"),
    };
    assert_eq!(status, "{\"type\":\"status\",\"connected\":true}");
    assert_eq!(st.ws_clients, 1);
    sess.start_streaming();
    assert_eq!(sess.current_state(), SessionState::Streaming);
    assert_eq!(sess.on_recv(Recv::Frame(s("one"))), Action::Send(s("one")));
    sess.close(&mut st);
    sess.close(&mut st);
    assert_eq!(sess.current_state(), SessionState::Closed);
    assert_eq!(st.ws_clients, 0);

    let bad = check_auth(&tok, &Some(s("abd")), &None);
    assert_eq!(bad, AuthDecision::Deny);
    assert!(Session::open(&mut st, bad).is_err());
    assert_eq!(st.ws_clients, 0);
}

#[test]
fn session_forwards_frames_in_order_and_skips_lag() {
    let mut st = Stats::new();
    let (mut sess, _) = Session::open(&mut st, AuthDecision::Allow).ok().unwrap();
    sess.start_streaming();
    let reads = vec![
        Recv::Frame(s("1")),
        Recv::Lagged(3),
        Recv::Frame(s("5")),
        Recv::Frame(s("6")),
        Recv::Closed,
    ];
    let mut sent = Vec::new();
    let mut closed = false;
    for r in reads {
        match sess.on_recv(r) {
            Action::Send(f) => sent.push(f),
            Action::Skip(n) => assert_eq!(n, 3),
            Action::Close => closed = true,
        }
    }
    assert_eq!(sent, vec![s("1"), s("5"), s("6")]);
    assert!(closed);
    sess.close(&mut st);
    assert_eq!(st.ws_clients, 0);
}

#[test]
fn chatter_event_is_counted_and_relayed() {
    let mut st = Stats::new();
    let ev = Message { topic: s("chatter"), payload: s("hello") };
    let f = ingest(&mut st, &ev, 1_700_000_000_123).unwrap();
    match &f {
        Frame::Msg { size_bytes, data, seq, .. } => {
            assert_eq!(*size_bytes, 5);
            assert_eq!(data, "hello");
            assert_eq!(*seq, 0);
        }
        _ => panic!("expected a text frame"),
    }
    assert_eq!(st.msgs_total, 1);
    assert_eq!(st.bytes_total, 5);
    let text = "{\"type\":\"msg\",\"topic\":\"chatter\",\"seq\":0,\"ts\":1700000000.123,\"recv_ts\":1700000000.123,\"size_bytes\":5,\"data\":\"hello\"}";
    assert_eq!(render_frame(&f), text);
}

#[test]
fn multibyte_payload_counts_bytes() {
    let mut st = Stats::new();
    let ev = Message { topic: s("chatter"), payload: s("h\u{e9}\"") };
    let f = ingest(&mut st, &ev, 5).unwrap();
    assert_eq!(st.bytes_total, 4);
    assert_eq!(
        render_frame(&f),
        "{\"type\":\"msg\",\"topic\":\"chatter\",\"seq\":0,\"ts\":0.005,\"recv_ts\":0.005,\"size_bytes\":4,\"data\":\"h\u{e9}\\\"\"}"
    );
}

#[test]
fn malformed_pose_field_defaults_to_zero() {
    let mut st = Stats::new();
    let ev = Message { topic: s("robot_pose"), payload: s("{\"seq\":\"bad\"}") };
    let f = ingest(&mut st, &ev, 2000).unwrap();
    assert_eq!(
        f,
        Frame::Robot { seq: 0, x: s("0.0"), y: s("0.0"), theta: s("0.0"), ts_ms: 2000, recv_ts_ms: 2000 }
    );
    assert_eq!(st.msgs_total, 0);
    assert_eq!(st.sec_acc, 0);
}

#[test]
fn unparseable_pose_is_dropped() {
    let mut st = Stats::new();
    let ev = Message { topic: s("robot_pose"), payload: s("not json at all") };
    assert!(ingest(&mut st, &ev, 1).is_none());
    assert_eq!(st.msgs_total, 0);
}

#[test]
fn pose_fields_are_read() {
    let f = decode_pose(&s("{\"seq\":7,\"x\":1.5,\"y\":-2,\"theta\":0.25,\"t_ms\":9}"), 3000).unwrap();
    assert_eq!(
        f,
        Frame::Robot { seq: 7, x: s("1.5"), y: s("-2.0"), theta: s("0.25"), ts_ms: 3000, recv_ts_ms: 3000 }
    );
    assert_eq!(
        render_frame(&f),
        "{\"type\":\"robot\",\"seq\":7,\"x\":1.5,\"y\":-2.0,\"theta\":0.25,\"ts\":3.000,\"recv_ts\":3.000}"
    );
}

#[test]
fn robot_frame_defaults() {
    let f = robot_frame(Some(3), None, Some(s("4.0")), None, 10);
    assert_eq!(
        f,
        Frame::Robot { seq: 3, x: s("0.0"), y: s("4.0"), theta: s("0.0"), ts_ms: 10, recv_ts_ms: 10 }
    );
}

#[test]
fn other_topics_are_ignored() {
    let mut st = Stats::new();
    let ev = Message { topic: s("imu"), payload: s("{}") };
    assert!(ingest(&mut st, &ev, 1).is_none());
    assert_eq!(st.msgs_total, 0);
}

#[test]
fn status_and_qos_documents() {
    assert_eq!(render_frame(&status_frame()), "{\"type\":\"status\",\"connected\":true}");
    assert_eq!(render_frame(&Frame::Status { connected: false }), "{\"type\":\"status\",\"connected\":false}");
    assert_eq!(
        render_frame(&qos_frame()),
        "{\"reliability\":\"Reliable\",\"durability\":\"Volatile\",\"history\":\"KeepLast\",\"depth\":10}"
    );
}

#[test]
fn metrics_document() {
    let snap = StatsSnapshot { msgs_total: 12, bytes_total: 3456, ws_clients: 2, throughput_milli: 1500 };
    let expected = [
        "# HELP msgs_total Total messages received.\n",
        "# TYPE msgs_total counter\n",
        "msgs_total 12\n",
        "# HELP bytes_total Total bytes received.\n",
        "# TYPE bytes_total counter\n",
        "bytes_total 3456\n",
        "# HELP ws_clients Number of connected WS clients.\n",
        "# TYPE ws_clients gauge\n",
        "ws_clients 2\n",
        "# HELP throughput_msgs_per_sec Average messages per second (last 30s).\n",
        "# TYPE throughput_msgs_per_sec gauge\n",
        "throughput_msgs_per_sec 1.500\n",
    ]
    .join("");
    assert_eq!(render_metrics(&snap), expected);
}

#[test]
fn metrics_of_fresh_registry() {
    let st = Stats::new();
    let m = metrics(&st);
    assert!(m.contains("msgs_total 0\n"));
    assert!(m.contains("throughput_msgs_per_sec 0.000\n"));
}

#[test]
fn clock_is_after_epoch() {
    assert!(now_ms() > 1_500_000_000_000);
}

#[test]
fn clock_reading_maps_to_millis() {
    assert_eq!(millis_or_zero(Some(1_234)), 1_234);
    assert_eq!(millis_or_zero(None), 0);
}

#[test]
fn control_characters_are_escaped() {
    let ev = Message { topic: s("chatter"), payload: s("a\\b\n\u{1}\t") };
    let mut st = Stats::new();
    let f = ingest(&mut st, &ev, 0).unwrap();
    assert_eq!(
        render_frame(&f),
        "{\"type\":\"msg\",\"topic\":\"chatter\",\"seq\":0,\"ts\":0.000,\"recv_ts\":0.000,\"size_bytes\":6,\"data\":\"a\\\\b\\n\\u0001\\t\"}"
    );
}

#[test]
fn pose_with_missing_members() {
    let f = decode_pose(&s("{\"x\":3}"), 1).unwrap();
    assert_eq!(
        f,
        Frame::Robot { seq: 0, x: s("3.0"), y: s("0.0"), theta: s("0.0"), ts_ms: 1, recv_ts_ms: 1 }
    );
}
