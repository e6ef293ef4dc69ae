use tactilis::link::{BACKOFF_MS, START_HANDSHAKE, STOP_HANDSHAKE};
use tactilis::{Finger, LinkAction, LinkEvent, LinkManager, LinkState, Pressure};

fn awaiting_sync() -> LinkManager {
    let mut link = LinkManager::new();
    assert_eq!(link.step(LinkEvent::Opened), LinkAction::SendStart);
    assert_eq!(link.state(), LinkState::Connecting);
    assert_eq!(link.step(LinkEvent::HandshakeSent), LinkAction::Read);
    assert_eq!(link.state(), LinkState::AwaitingSync);
    link
}

#[test]
fn handshake_bytes_and_backoff() {
    assert_eq!(START_HANDSHAKE, 83);
    assert_eq!(STOP_HANDSHAKE, 115);
    assert_eq!(START_HANDSHAKE, b'S');
    assert_eq!(STOP_HANDSHAKE, b's');
    assert_eq!(BACKOFF_MS, 2000);
}

#[test]
fn link_syncs_on_start_marker_then_emits() {
    let mut link = awaiting_sync();
    assert_eq!(link.step(LinkEvent::Frame([0x01, 0, 0, 0])), LinkAction::Read);
    assert_eq!(link.state(), LinkState::AwaitingSync);
    assert_eq!(link.step(LinkEvent::Frame([0xFF, 0, 0, 0xFF])), LinkAction::Read);
    assert_eq!(link.state(), LinkState::Streaming);
    assert_eq!(
        link.step(LinkEvent::Frame([0xFF, 0, 50, 0])),
        LinkAction::Deliver(Pressure { pressure: 50, finger: Finger::Index })
    );
    assert_eq!(link.state(), LinkState::Streaming);
}

#[test]
fn readings_before_sync_are_discarded() {
    let mut link = awaiting_sync();
    assert_eq!(link.step(LinkEvent::Frame([0xFF, 0, 200, 0])), LinkAction::Read);
    assert_eq!(link.step(LinkEvent::Frame([0xFF, 3, 0, 1])), LinkAction::Read);
    assert_eq!(link.state(), LinkState::AwaitingSync);
}

#[test]
fn decode_failure_keeps_awaiting_sync() {
    let mut link = awaiting_sync();
    assert_eq!(
        link.step(LinkEvent::Frame([0x00, 1, 2, 3])),
        LinkAction::Drop([0x00, 1, 2, 3])
    );
    assert_eq!(link.state(), LinkState::AwaitingSync);
    assert_eq!(
        link.step(LinkEvent::Frame([0xFF, 0, 50, 7])),
        LinkAction::Drop([0xFF, 0, 50, 7])
    );
    assert_eq!(link.state(), LinkState::AwaitingSync);
}

#[test]
fn decode_failure_while_streaming_drops_one_frame() {
    let mut link = awaiting_sync();
    link.step(LinkEvent::Frame([0xFF, 0, 0, 0xFF]));
    assert_eq!(
        link.step(LinkEvent::Frame([0x10, 0, 50, 0])),
        LinkAction::Drop([0x10, 0, 50, 0])
    );
    assert_eq!(link.state(), LinkState::Streaming);
    assert_eq!(
        link.step(LinkEvent::Frame([0xFF, 1, 0, 1])),
        LinkAction::Deliver(Pressure { pressure: 256, finger: Finger::Middle })
    );
}

#[test]
fn markers_are_never_delivered_while_streaming() {
    let mut link = awaiting_sync();
    link.step(LinkEvent::Frame([0xFF, 0, 0, 0xFF]));
    assert_eq!(link.step(LinkEvent::Frame([0x01, 0, 0, 0])), LinkAction::Read);
    assert_eq!(link.step(LinkEvent::Frame([0xFF, 0, 0, 0xFF])), LinkAction::Read);
    assert_eq!(link.state(), LinkState::Streaming);
}

#[test]
fn io_error_faults_and_retries_after_backoff() {
    let mut link = awaiting_sync();
    link.step(LinkEvent::Frame([0xFF, 0, 0, 0xFF]));
    assert_eq!(link.step(LinkEvent::IoError), LinkAction::Backoff);
    assert_eq!(link.state(), LinkState::Faulted);
    assert_eq!(link.step(LinkEvent::Frame([0xFF, 0, 50, 0])), LinkAction::Backoff);
    assert_eq!(link.state(), LinkState::Faulted);
    assert_eq!(link.step(LinkEvent::BackoffElapsed), LinkAction::Open);
    assert_eq!(link.state(), LinkState::Disconnected);
    assert_eq!(link.step(LinkEvent::Opened), LinkAction::SendStart);
    assert_eq!(link.state(), LinkState::Connecting);
}

#[test]
fn failed_open_and_failed_handshake_fault() {
    let mut link = LinkManager::new();
    assert_eq!(link.step(LinkEvent::OpenFailed), LinkAction::Backoff);
    assert_eq!(link.state(), LinkState::Faulted);
    link.step(LinkEvent::BackoffElapsed);
    link.step(LinkEvent::Opened);
    assert_eq!(link.step(LinkEvent::IoError), LinkAction::Backoff);
    assert_eq!(link.state(), LinkState::Faulted);
}

#[test]
fn unexpected_event_repeats_the_awaited_action() {
    let mut link = LinkManager::new();
    assert_eq!(link.step(LinkEvent::Frame([0xFF, 0, 50, 0])), LinkAction::Open);
    assert_eq!(link.step(LinkEvent::BackoffElapsed), LinkAction::Open);
    assert_eq!(link.state(), LinkState::Disconnected);
    link.step(LinkEvent::Opened);
    assert_eq!(link.step(LinkEvent::Opened), LinkAction::SendStart);
    assert_eq!(link.state(), LinkState::Connecting);
}

#[test]
fn shutdown_sends_stop_on_an_open_port_and_never_retries() {
    let mut link = awaiting_sync();
    assert_eq!(link.step(LinkEvent::Shutdown), LinkAction::Stop { send_stop: true });
    assert_eq!(link.state(), LinkState::Disconnected);
    assert_eq!(link.step(LinkEvent::Opened), LinkAction::Stop { send_stop: false });
    assert_eq!(link.step(LinkEvent::BackoffElapsed), LinkAction::Stop { send_stop: false });
    assert_eq!(link.state(), LinkState::Disconnected);
}

#[test]
fn shutdown_without_a_port_sends_nothing() {
    let mut link = LinkManager::new();
    assert_eq!(link.step(LinkEvent::Shutdown), LinkAction::Stop { send_stop: false });
    let mut faulted = LinkManager::new();
    faulted.step(LinkEvent::OpenFailed);
    assert_eq!(faulted.step(LinkEvent::Shutdown), LinkAction::Stop { send_stop: false });
}
