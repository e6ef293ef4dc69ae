use tactilis::session::{SENSOR_HISTORY_SIZE, STATUS_CAPACITY, TAP_LOG_CAPACITY};
use tactilis::text::ArduinoMessage;
use tactilis::{
    BoundedLog, ClientMessage, Finger, SensorReading, Session, SessionReply, SessionStats,
    WallClock,
};

fn clock() -> WallClock {
    WallClock { time_of_day: "12:34:56".to_string(), session_name: "20240102_123456".to_string() }
}

fn status(session: &Session<u32>) -> Vec<String> {
    (0..session.status.len()).map(|i| session.status.get(i).unwrap().clone()).collect()
}

fn reading(finger: Finger) -> ArduinoMessage {
    ArduinoMessage::Sensor(SensorReading { finger, raw: 0, timestamp_ms: 0 })
}

#[test]
fn new_session_is_idle_and_empty() {
    let session: Session<u32> = Session::new();
    assert!(!session.active);
    assert_eq!(session.stats, SessionStats::default());
    assert_eq!(session.stats, SessionStats { total_taps: 0, successful_taps: 0, session_duration_secs: 0 });
    assert!(session.taps.is_empty());
    assert!(session.status.is_empty());
    assert_eq!(session.taps.capacity(), 100);
    assert_eq!(session.status.capacity(), 50);
    assert_eq!((STATUS_CAPACITY, TAP_LOG_CAPACITY, SENSOR_HISTORY_SIZE), (50, 100, 200));
}

#[test]
fn status_lines_carry_the_time_of_day() {
    let mut session: Session<u32> = Session::new();
    session.log_status(&clock(), "Tactilis Dashboard initialized");
    assert_eq!(status(&session), vec!["[12:34:56] Tactilis Dashboard initialized"]);
}

#[test]
fn status_log_keeps_the_newest_fifty() {
    let mut session: Session<u32> = Session::new();
    for i in 0..75 {
        session.log_status(&clock(), &format!("line {}", i));
    }
    assert_eq!(session.status.len(), 50);
    assert_eq!(session.status.get(0).unwrap(), "[12:34:56] line 25");
    assert_eq!(session.status.newest().unwrap(), "[12:34:56] line 74");
}

#[test]
fn tap_log_keeps_the_newest_hundred() {
    let mut session: Session<u32> = Session::new();
    for i in 0..130u32 {
        session.on_tap_detected(i);
    }
    assert_eq!(session.taps.len(), 100);
    assert_eq!(session.taps.get(0), Some(&30));
    assert_eq!(session.taps.newest(), Some(&129));
}

#[test]
fn session_start_resets_and_names_the_session() {
    let mut session: Session<u32> = Session::new();
    session.on_tap_detected(1);
    session.stats = SessionStats { total_taps: 4, successful_taps: 3, session_duration_secs: 9 };
    let reply = session.on_client_message::<f32>(ClientMessage::RequestSessionStart, &clock());
    assert_eq!(reply, SessionReply::Started { session_id: "20240102_123456".to_string() });
    assert!(session.active);
    assert_eq!(session.stats, SessionStats::default());
    assert!(session.taps.is_empty());
    assert_eq!(status(&session), vec!["[12:34:56] Session started: 20240102_123456"]);
}

#[test]
fn target_hits_count_only_while_a_session_runs() {
    let mut session: Session<u32> = Session::new();
    let hit = || ClientMessage::<f32>::TargetHit { target_id: 12 };
    assert_eq!(session.on_client_message(hit(), &clock()), SessionReply::Nothing);
    assert_eq!(session.stats.total_taps, 0);
    assert_eq!(session.start_session(&clock()), "20240102_123456");
    session.on_client_message(hit(), &clock());
    session.on_client_message(hit(), &clock());
    assert_eq!(session.stats.total_taps, 2);
    assert_eq!(session.stats.successful_taps, 2);
    let reply = session.on_client_message::<f32>(ClientMessage::RequestSessionEnd, &clock());
    assert_eq!(
        reply,
        SessionReply::Ended {
            stats: SessionStats { total_taps: 2, successful_taps: 2, session_duration_secs: 0 }
        }
    );
    assert!(!session.active);
    session.on_client_message(hit(), &clock());
    assert_eq!(session.stats.total_taps, 2);
    assert_eq!(
        status(&session),
        vec![
            "[12:34:56] Target 12 hit",
            "[12:34:56] Session started: 20240102_123456",
            "[12:34:56] Target 12 hit",
            "[12:34:56] Target 12 hit",
            "[12:34:56] Session ended",
            "[12:34:56] Target 12 hit",
        ]
    );
}

#[test]
fn hit_counts_stop_at_the_largest_value() {
    let mut session: Session<u32> = Session::new();
    session.active = true;
    session.stats.total_taps = u32::MAX;
    session.stats.successful_taps = u32::MAX - 1;
    session.on_client_message(ClientMessage::<f32>::TargetHit { target_id: 4294967295 }, &clock());
    assert_eq!(session.stats.total_taps, u32::MAX);
    assert_eq!(session.stats.successful_taps, u32::MAX);
    assert_eq!(session.status.newest().unwrap(), "[12:34:56] Target 4294967295 hit");
}

#[test]
fn ready_and_disconnect_are_logged() {
    let mut session: Session<u32> = Session::new();
    let ready = ClientMessage::<f32>::Ready { client_version: "1.4".to_string() };
    assert_eq!(session.on_client_message(ready, &clock()), SessionReply::Nothing);
    assert_eq!(session.on_client_message(ClientMessage::<f32>::Disconnect, &clock()), SessionReply::Nothing);
    let accuracy = ClientMessage::Accuracy { distance: 0.5f32, timestamp_ms: 3 };
    assert_eq!(session.on_client_message(accuracy, &clock()), SessionReply::Nothing);
    assert_eq!(
        status(&session),
        vec!["[12:34:56] Unity client connected (v1.4)", "[12:34:56] Unity client disconnected"]
    );
}

#[test]
fn taps_are_rising_edges_of_the_pressed_level() {
    let mut session: Session<u32> = Session::new();
    let threshold = 0.3f32;
    let levels = [0.1f32, 0.4, 0.8, 0.2, 0.31];
    let mut taps = Vec::new();
    for (i, level) in levels.iter().enumerate() {
        if session.on_arduino_message(reading(Finger::Index), *level > threshold, &clock()) {
            taps.push(i);
        }
    }
    assert_eq!(taps, vec![1, 4]);
    assert!(session.index_was_pressed);
    assert!(!session.middle_was_pressed);
    assert!(session.on_arduino_message(reading(Finger::Middle), true, &clock()));
    assert!(!session.on_arduino_message(reading(Finger::Middle), true, &clock()));
    assert!(!session.on_arduino_message(reading(Finger::StartMessage), true, &clock()));
    assert!(session.status.is_empty());
}

#[test]
fn device_ready_and_error_are_logged() {
    let mut session: Session<u32> = Session::new();
    let ready = ArduinoMessage::Ready { firmware_version: "v1.0.0".to_string() };
    let error = ArduinoMessage::Error { message: "sensor saturated".to_string() };
    assert!(!session.on_arduino_message(ready, true, &clock()));
    assert!(!session.on_arduino_message(error, true, &clock()));
    assert_eq!(
        status(&session),
        vec![
            "[12:34:56] Arduino ready (firmware: v1.0.0)",
            "[12:34:56] Arduino error: sensor saturated"
        ]
    );
    assert!(!session.index_was_pressed);
}

#[test]
fn connecting_needs_a_port_name() {
    let mut session: Session<u32> = Session::new();
    assert!(!session.on_connect_request("", &clock()));
    assert_eq!(status(&session), vec!["[12:34:56] Please select a serial port"]);
    assert!(session.on_connect_request("/dev/ttyACM0", &clock()));
    assert_eq!(session.status.len(), 1);
}

#[test]
fn pressure_plot_keeps_two_hundred_readings() {
    let mut plot: BoundedLog<f32> = BoundedLog::new(SENSOR_HISTORY_SIZE);
    for i in 0..260 {
        plot.push(i as f32 / 1023.0);
    }
    assert_eq!(plot.len(), 200);
    assert_eq!(*plot.get(0).unwrap(), 60.0 / 1023.0);
}
