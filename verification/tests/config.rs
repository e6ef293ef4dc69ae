use tactilis::digits::{decimal_text, parse_number};
use tactilis::{ArduinoConfig, UnityServerConfig, UnityServerState};

#[test]
fn default_configurations() {
    let arduino = ArduinoConfig::default();
    assert_eq!(arduino.port_name, "");
    assert_eq!(arduino.baud_rate, 115200);
    let server = UnityServerConfig::default();
    assert_eq!(server.host, "127.0.0.1");
    assert_eq!(server.port, 8765);
    assert_eq!(server.address(), "127.0.0.1:8765");
    let other = UnityServerConfig { host: "0.0.0.0".to_string(), port: 9000 };
    assert_eq!(other.address(), "0.0.0.0:9000");
    assert_eq!(UnityServerConfig { host: "h".to_string(), port: 0 }.address(), "h:0");
}

#[test]
fn server_state_follows_its_client() {
    let mut state = UnityServerState::default();
    assert!(!state.connected);
    assert_eq!(state.client_version, None);
    state.on_connected();
    assert!(state.connected);
    state.on_ready("2.0".to_string());
    assert_eq!(state.client_version, Some("2.0".to_string()));
    assert!(state.connected);
    state.on_disconnected();
    assert_eq!(state, UnityServerState { connected: false, client_version: None });
}

#[test]
fn numbers_are_written_in_decimal() {
    assert_eq!(decimal_text(0), "0");
    assert_eq!(decimal_text(9), "9");
    assert_eq!(decimal_text(10), "10");
    assert_eq!(decimal_text(1234567890), "1234567890");
    assert_eq!(decimal_text(u64::MAX), "18446744073709551615");
    for n in [7u64, 42, 100, 65535, 4294967295] {
        assert_eq!(decimal_text(n), n.to_string());
    }
}

#[test]
fn numbers_are_read_from_a_stretch_of_characters() {
    let text: Vec<char> = "ab+0123,99999".chars().collect();
    assert_eq!(parse_number(&text, 2, 7, 1000), Some(123));
    assert_eq!(parse_number(&text, 3, 7, 1000), Some(123));
    assert_eq!(parse_number(&text, 3, 7, 122), None);
    assert_eq!(parse_number(&text, 3, 7, 123), Some(123));
    assert_eq!(parse_number(&text, 2, 3, 1000), None);
    assert_eq!(parse_number(&text, 4, 4, 1000), None);
    assert_eq!(parse_number(&text, 0, 7, 1000), None);
    assert_eq!(parse_number(&text, 3, 8, 1000), None);
    assert_eq!(parse_number(&text, 8, 13, u64::MAX), Some(99999));
    assert_eq!(parse_number(&text, 8, 13, 99998), None);
    let plus: Vec<char> = "++1".chars().collect();
    assert_eq!(parse_number(&plus, 0, 3, 10), None);
}
