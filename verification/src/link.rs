//! The serial link's state machine.
//!
//! The driver owns the port. It performs the action it is given, reports
//! what happened as an event, and is given the next action. All decisions
//! are made here.

use vstd::prelude::*;
use crate::frame::{decode_frame, Pressure};

verus! {

/// The byte that asks the device to start streaming (ASCII 'S').
pub const START_HANDSHAKE: u8 = 83;

/// The byte that tells the device to stop (ASCII 's').
pub const STOP_HANDSHAKE: u8 = 115;

/// The wait after a fault before the port is opened again.
pub const BACKOFF_MS: u64 = 2000;

/// Where the link stands.
#[derive(Debug, Clone, Copy, PartialEq, Eq, Structural)]
pub enum LinkState {
    Disconnected,
    Connecting,
    AwaitingSync,
    Streaming,
    Faulted,
}

/// What the driver reports.
#[derive(Debug, Clone, Copy, PartialEq, Eq)]
pub enum LinkEvent {
    /// The port was opened.
    Opened,
    /// The port could not be opened.
    OpenFailed,
    /// The start byte was written and flushed.
    HandshakeSent,
    /// Four bytes were read.
    Frame([u8; 4]),
    /// A read or a write failed, a timeout included.
    IoError,
    /// The wait after a fault is over.
    BackoffElapsed,
    /// The process is shutting down.
    Shutdown,
}

/// What the driver is to do next.
#[derive(Debug, Clone, Copy, PartialEq, Eq)]
pub enum LinkAction {
    /// Try to open the port.
    Open,
    /// Write `START_HANDSHAKE` and flush.
    SendStart,
    /// Read the next frame.
    Read,
    /// Hand this reading to the press detector, then read the next frame.
    Deliver(Pressure),
    /// Report these bytes as undecodable, then read the next frame.
    Drop([u8; 4]),
    /// Give up the connection and wait `BACKOFF_MS`.
    Backoff,
    /// Write `STOP_HANDSHAKE` and flush if asked to, then return for good.
    Stop { send_stop: bool },
}

/// The link: its state, and whether it was shut down.
#[derive(Debug, Clone, Copy, PartialEq, Eq, Structural)]
pub struct LinkManager {
    pub state: LinkState,
    pub stopped: bool,
}

/// Whether the port is open in a state.
pub open spec fn port_is_open(state: LinkState) -> bool {
    state == LinkState::Connecting || state == LinkState::AwaitingSync || state
        == LinkState::Streaming
}

/// The action that a state waits on: what the driver is told again when it
/// reports something that cannot happen in that state.
pub open spec fn awaited_action(state: LinkState) -> LinkAction {
    match state {
        LinkState::Disconnected => LinkAction::Open,
        LinkState::Connecting => LinkAction::SendStart,
        LinkState::AwaitingSync => LinkAction::Read,
        LinkState::Streaming => LinkAction::Read,
        LinkState::Faulted => LinkAction::Backoff,
    }
}

/// What a frame does before the stream is synchronised: the start marker
/// opens the stream, everything else is passed over.
pub open spec fn sync_step(frame: [u8; 4]) -> (LinkState, LinkAction) {
    match decode_frame(frame) {
        Ok(p) => if p.is_start_marker() {
            (LinkState::Streaming, LinkAction::Read)
        } else {
            (LinkState::AwaitingSync, LinkAction::Read)
        },
        Err(bytes) => (LinkState::AwaitingSync, LinkAction::Drop(bytes)),
    }
}

/// What a frame does while streaming: readings are delivered, markers are
/// passed over, and what does not decode is dropped.
pub open spec fn stream_step(frame: [u8; 4]) -> (LinkState, LinkAction) {
    match decode_frame(frame) {
        Ok(p) => if p.is_sample() {
            (LinkState::Streaming, LinkAction::Deliver(p))
        } else {
            (LinkState::Streaming, LinkAction::Read)
        },
        Err(bytes) => (LinkState::Streaming, LinkAction::Drop(bytes)),
    }
}

/// The transition of a running link.
pub open spec fn transition(state: LinkState, event: LinkEvent) -> (LinkState, LinkAction) {
    match (state, event) {
        (LinkState::Disconnected, LinkEvent::Opened) => (LinkState::Connecting, LinkAction::SendStart),
        (LinkState::Disconnected, LinkEvent::OpenFailed) => (LinkState::Faulted, LinkAction::Backoff),
        (LinkState::Connecting, LinkEvent::HandshakeSent) => (
            LinkState::AwaitingSync,
            LinkAction::Read,
        ),
        (LinkState::Connecting, LinkEvent::IoError) => (LinkState::Faulted, LinkAction::Backoff),
        (LinkState::AwaitingSync, LinkEvent::Frame(frame)) => sync_step(frame),
        (LinkState::AwaitingSync, LinkEvent::IoError) => (LinkState::Faulted, LinkAction::Backoff),
        (LinkState::Streaming, LinkEvent::Frame(frame)) => stream_step(frame),
        (LinkState::Streaming, LinkEvent::IoError) => (LinkState::Faulted, LinkAction::Backoff),
        (LinkState::Faulted, LinkEvent::BackoffElapsed) => (LinkState::Disconnected, LinkAction::Open),
        _ => (state, awaited_action(state)),
    }
}

impl LinkManager {
    /// A link that has not opened its port yet.
    pub open spec fn initial() -> Self {
        LinkManager { state: LinkState::Disconnected, stopped: false }
    }

    /// The link and the action after an event. A shutdown ends the link: it
    /// says whether a stop byte is owed, and from then on every event is
    /// answered with a plain stop.
    pub open spec fn next(self, event: LinkEvent) -> (LinkManager, LinkAction) {
        if self.stopped {
            (self, LinkAction::Stop { send_stop: false })
        } else if event == LinkEvent::Shutdown {
            (
                LinkManager { state: LinkState::Disconnected, stopped: true },
                LinkAction::Stop { send_stop: port_is_open(self.state) },
            )
        } else {
            let (state, action) = transition(self.state, event);
            (LinkManager { state, stopped: false }, action)
        }
    }

    /// The link after a run of events.
    pub open spec fn after(self, events: Seq<LinkEvent>) -> LinkManager
        decreases events.len(),
    {
        if events.len() == 0 {
            self
        } else {
            self.after(events.drop_last()).next(events.last()).0
        }
    }

    /// The action that answers the last of a run of events.
    pub open spec fn answer(self, events: Seq<LinkEvent>) -> LinkAction
        recommends
            events.len() > 0,
    {
        self.after(events.drop_last()).next(events.last()).1
    }

    /// A link in `Disconnected`, to be started with `LinkAction::Open`.
    pub fn new() -> (r: Self)
        ensures
            r == Self::initial(),
    {
        LinkManager { state: LinkState::Disconnected, stopped: false }
    }

    /// The state of the link.
    pub fn state(&self) -> (r: LinkState)
        ensures
            r == self.state,
    {
        self.state
    }

    /// Takes an event and says what to do next.
    pub fn step(&mut self, event: LinkEvent) -> (action: LinkAction)
        ensures
            (*final(self), action) == old(self).next(event),
    {
        if self.stopped {
            return LinkAction::Stop { send_stop: false };
        }
        if let LinkEvent::Shutdown = event {
            let send_stop = match self.state {
                LinkState::Connecting | LinkState::AwaitingSync | LinkState::Streaming => true,
                _ => false,
            };
            self.state = LinkState::Disconnected;
            self.stopped = true;
            return LinkAction::Stop { send_stop };
        }
        let (state, action) = match (self.state, event) {
            (LinkState::Disconnected, LinkEvent::Opened) => (
                LinkState::Connecting,
                LinkAction::SendStart,
            ),
            (LinkState::Disconnected, LinkEvent::OpenFailed) => (
                LinkState::Faulted,
                LinkAction::Backoff,
            ),
            (LinkState::Connecting, LinkEvent::HandshakeSent) => (
                LinkState::AwaitingSync,
                LinkAction::Read,
            ),
            (LinkState::Connecting, LinkEvent::IoError) => (LinkState::Faulted, LinkAction::Backoff),
            (LinkState::AwaitingSync, LinkEvent::Frame(frame)) => match Pressure::from_serial(frame) {
                Ok(p) => if p.is_start() {
                    (LinkState::Streaming, LinkAction::Read)
                } else {
                    (LinkState::AwaitingSync, LinkAction::Read)
                },
                Err(bytes) => (LinkState::AwaitingSync, LinkAction::Drop(bytes)),
            },
            (LinkState::AwaitingSync, LinkEvent::IoError) => (
                LinkState::Faulted,
                LinkAction::Backoff,
            ),
            (LinkState::Streaming, LinkEvent::Frame(frame)) => match Pressure::from_serial(frame) {
                Ok(p) => if p.finger.is_sensor() {
                    (LinkState::Streaming, LinkAction::Deliver(p))
                } else {
                    (LinkState::Streaming, LinkAction::Read)
                },
                Err(bytes) => (LinkState::Streaming, LinkAction::Drop(bytes)),
            },
            (LinkState::Streaming, LinkEvent::IoError) => (LinkState::Faulted, LinkAction::Backoff),
            (LinkState::Faulted, LinkEvent::BackoffElapsed) => (
                LinkState::Disconnected,
                LinkAction::Open,
            ),
            (state, _) => {
                let again = match state {
                    LinkState::Disconnected => LinkAction::Open,
                    LinkState::Connecting => LinkAction::SendStart,
                    LinkState::AwaitingSync => LinkAction::Read,
                    LinkState::Streaming => LinkAction::Read,
                    LinkState::Faulted => LinkAction::Backoff,
                };
                (state, again)
            },
        };
        self.state = state;
        action
    }
}

/// A frame that does not decode leaves the link where it is, in every
/// state, and delivers nothing. In particular it does not take the link
/// out of `AwaitingSync`.
pub proof fn lemma_decode_failure_changes_nothing(link: LinkManager, frame: [u8; 4])
    requires
        decode_frame(frame) is Err,
    ensures
        link.next(LinkEvent::Frame(frame)).0 == link,
        !(link.next(LinkEvent::Frame(frame)).1 is Deliver),
        !link.stopped && link.state == LinkState::AwaitingSync ==> link.next(
            LinkEvent::Frame(frame),
        ) == (link, LinkAction::Drop(frame)),
{
}

/// The two control frames are read as markers in every state: neither is
/// ever delivered as a reading, the alignment frame never moves the link,
/// and the start frame moves it only from `AwaitingSync` to `Streaming`.
pub proof fn lemma_markers_in_every_state(link: LinkManager)
    ensures
        !(link.next(LinkEvent::Frame([1u8, 0u8, 0u8, 0u8])).1 is Deliver),
        !(link.next(LinkEvent::Frame([0xFFu8, 0u8, 0u8, 0xFFu8])).1 is Deliver),
        link.next(LinkEvent::Frame([1u8, 0u8, 0u8, 0u8])).0 == link,
        !link.stopped && link.state == LinkState::AwaitingSync ==> link.next(
            LinkEvent::Frame([0xFFu8, 0u8, 0u8, 0xFFu8]),
        ) == (LinkManager { state: LinkState::Streaming, stopped: false }, LinkAction::Read),
        link.stopped || link.state != LinkState::AwaitingSync ==> link.next(
            LinkEvent::Frame([0xFFu8, 0u8, 0u8, 0xFFu8]),
        ).0 == link,
{
    crate::frame::lemma_control_frames_decode();
}

/// A reading is delivered only by a streaming link, and it is the reading
/// that the frame decodes to.
pub proof fn lemma_only_streaming_delivers(link: LinkManager, event: LinkEvent)
    requires
        link.next(event).1 is Deliver,
    ensures
        !link.stopped,
        link.state == LinkState::Streaming,
        link.next(event).0 == link,
        event is Frame,
        decode_frame(event->Frame_0) == Ok::<Pressure, [u8; 4]>(link.next(event).1->Deliver_0),
        link.next(event).1->Deliver_0.is_sample(),
{
}

/// `Streaming` is entered only from `AwaitingSync`, and only by the start
/// frame.
pub proof fn lemma_streaming_needs_the_start_frame(link: LinkManager, event: LinkEvent)
    requires
        link.state != LinkState::Streaming,
        link.next(event).0.state == LinkState::Streaming,
    ensures
        link.state == LinkState::AwaitingSync,
        event is Frame,
        crate::frame::is_start_frame(event->Frame_0),
{
}

/// No reading is delivered before the device has sent its start frame: if
/// a link that was not streaming answers a run of events by delivering a
/// reading, the start frame is among the events before the last.
pub proof fn lemma_no_reading_before_sync(link: LinkManager, events: Seq<LinkEvent>)
    requires
        link.state != LinkState::Streaming,
        events.len() > 0,
        link.answer(events) is Deliver,
    ensures
        exists|k: int|
            0 <= k < events.len() - 1 && (#[trigger] events[k]) is Frame
                && crate::frame::is_start_frame(events[k]->Frame_0),
{
    let before = events.drop_last();
    lemma_only_streaming_delivers(link.after(before), events.last());
    lemma_streaming_has_a_cause(link, before);
    let k = choose|k: int|
        0 <= k < before.len() && (#[trigger] before[k]) is Frame && crate::frame::is_start_frame(
            before[k]->Frame_0,
        );
    assert(events[k] == before[k]);
}

/// If a run of events takes a link that was not streaming into
/// `Streaming`, the start frame is among them.
pub proof fn lemma_streaming_has_a_cause(link: LinkManager, events: Seq<LinkEvent>)
    requires
        link.state != LinkState::Streaming,
        link.after(events).state == LinkState::Streaming,
    ensures
        exists|k: int|
            0 <= k < events.len() && (#[trigger] events[k]) is Frame && crate::frame::is_start_frame(
                events[k]->Frame_0,
            ),
    decreases events.len(),
{
    let before = events.drop_last();
    let last = events.len() - 1;
    if link.after(before).state == LinkState::Streaming {
        lemma_streaming_has_a_cause(link, before);
        let k = choose|k: int|
            0 <= k < before.len() && (#[trigger] before[k]) is Frame
                && crate::frame::is_start_frame(before[k]->Frame_0);
        assert(events[k] == before[k]);
    } else {
        lemma_streaming_needs_the_start_frame(link.after(before), events.last());
        assert(events[last] is Frame);
    }
}

/// After a shutdown the link stays down: every later event is answered
/// with a stop that sends nothing, and the port is not opened again.
pub proof fn lemma_shutdown_is_final(link: LinkManager, event: LinkEvent)
    ensures
        link.next(LinkEvent::Shutdown).0.stopped,
        link.next(LinkEvent::Shutdown).1 is Stop,
        link.next(LinkEvent::Shutdown).0.next(event) == (
            link.next(LinkEvent::Shutdown).0,
            LinkAction::Stop { send_stop: false },
        ),
{
}

/// Every failure of the port leads to `Faulted` and a wait, and the wait
/// leads back to a new attempt to open the port.
pub proof fn lemma_faults_are_retried(state: LinkState)
    ensures
        port_is_open(state) ==> transition(state, LinkEvent::IoError) == (
            LinkState::Faulted,
            LinkAction::Backoff,
        ),
        transition(LinkState::Disconnected, LinkEvent::OpenFailed) == (
            LinkState::Faulted,
            LinkAction::Backoff,
        ),
        transition(LinkState::Faulted, LinkEvent::BackoffElapsed) == (
            LinkState::Disconnected,
            LinkAction::Open,
        ),
{
}

} // verus!
