//! The serial side as one step: link, press detector and shared state.
//!
//! The driver reports what the port did; this step moves the link, stores
//! the reading, feeds the detector, parks the press for correlation and
//! says what to do next and what to publish.

use vstd::prelude::*;
use crate::detector::{is_above, PressDetector, PressEvent};
use crate::link::{LinkAction, LinkEvent, LinkManager, LinkState};
use crate::shared::SharedState;

verus! {

/// The threshold for the 16-bit readings of the binary wire form.
pub const PRESSURE_THRESHOLD: u16 = 100;

/// The link and the detector of one serial device.
#[derive(Debug, Clone, Copy, PartialEq, Eq, Structural)]
pub struct SerialBridge {
    pub link: LinkManager,
    pub detector: PressDetector,
}

/// What the driver is to do next, and the press to publish, if any.
#[derive(Debug, Clone, Copy, PartialEq, Eq)]
pub struct BridgeOutput {
    pub action: LinkAction,
    pub press: Option<PressEvent>,
}

impl SerialBridge {
    /// Whether an event opens a new stream: the handshake went out on a
    /// port that was just opened.
    pub open spec fn opens_stream(self, event: LinkEvent) -> bool {
        !self.link.stopped && self.link.state == LinkState::Connecting && event
            == LinkEvent::HandshakeSent
    }

    /// The detector that meets the event: a new stream starts with both
    /// latches low.
    pub open spec fn detector_before(self, event: LinkEvent) -> PressDetector {
        if self.opens_stream(event) {
            PressDetector { threshold: self.detector.threshold, index_above: false, middle_above: false }
        } else {
            self.detector
        }
    }

    /// The press that an event yields, if it yields one: the link delivers
    /// a reading, and the reading is a rising edge on its channel.
    pub open spec fn press_of(self, event: LinkEvent, elapsed_ms: u64) -> Option<PressEvent> {
        match self.link.next(event).1 {
            LinkAction::Deliver(p) => if self.detector.fires_on_level(
                p.finger,
                is_above(p.pressure, self.detector.threshold),
            ) {
                Some(PressEvent { finger: p.finger, pressure: p.pressure, timestamp_ms: elapsed_ms })
            } else {
                None
            },
            _ => None,
        }
    }

    /// The bridge after an event.
    pub open spec fn next(self, event: LinkEvent) -> SerialBridge {
        SerialBridge {
            link: self.link.next(event).0,
            detector: match self.link.next(event).1 {
                LinkAction::Deliver(p) => self.detector.after_level(
                    p.finger,
                    is_above(p.pressure, self.detector.threshold),
                ),
                _ => self.detector_before(event),
            },
        }
    }

    /// A bridge with the link down and both latches low.
    pub fn new(threshold: u16) -> (r: Self)
        ensures
            r.link == LinkManager::initial(),
            r.detector == (PressDetector { threshold, index_above: false, middle_above: false }),
    {
        SerialBridge { link: LinkManager::new(), detector: PressDetector::new(threshold) }
    }

    /// Takes one event from the driver. `elapsed_ms` is the time since the
    /// stream was opened; it stamps the press.
    pub fn handle<D>(&mut self, shared: &mut SharedState<D>, event: LinkEvent, elapsed_ms: u64) -> (out:
        BridgeOutput)
        requires
            old(shared).wf(),
        ensures
            final(shared).wf(),
            *final(self) == old(self).next(event),
            out.action == old(self).link.next(event).1,
            out.press == old(self).press_of(event, elapsed_ms),
            final(shared).link_state == old(self).link.next(event).0.state,
            final(shared).connected_clients == old(shared).connected_clients,
            final(shared).client_version == old(shared).client_version,
            final(shared).records() == old(shared).records(),
            final(shared).pending() == match out.press {
                Some(e) => old(shared).pending().with_press(e),
                None => old(shared).pending(),
            },
            match out.action {
                LinkAction::Deliver(p) => {
                    &&& final(shared).pressure_of(p.finger) == p.pressure
                    &&& final(shared).index_pressure == if p.finger == crate::finger::Finger::Index {
                        p.pressure
                    } else {
                        old(shared).index_pressure
                    }
                    &&& final(shared).middle_pressure == if p.finger
                        == crate::finger::Finger::Middle {
                        p.pressure
                    } else {
                        old(shared).middle_pressure
                    }
                },
                _ => {
                    &&& final(shared).index_pressure == old(shared).index_pressure
                    &&& final(shared).middle_pressure == old(shared).middle_pressure
                },
            },
    {
        let opens = !self.link.stopped && match (self.link.state, event) {
            (LinkState::Connecting, LinkEvent::HandshakeSent) => true,
            _ => false,
        };
        let action = self.link.step(event);
        shared.set_link_state(self.link.state());
        if opens {
            self.detector = PressDetector::new(self.detector.threshold);
        }
        let press = match action {
            LinkAction::Deliver(p) => {
                shared.record_reading(p.finger, p.pressure);
                let press = self.detector.on_sample(p.finger, p.pressure, elapsed_ms);
                match press {
                    Some(e) => {
                        shared.record_press(e);
                    },
                    None => {},
                }
                press
            },
            _ => None,
        };
        BridgeOutput { action, press }
    }
}

/// Nothing is published, stored or parked unless the link is streaming
/// and the frame decodes to a reading above the threshold whose channel
/// was at or below it.
pub proof fn lemma_press_needs_streaming(bridge: SerialBridge, event: LinkEvent, elapsed_ms: u64)
    requires
        bridge.press_of(event, elapsed_ms) is Some,
    ensures
        bridge.link.state == LinkState::Streaming,
        !bridge.link.stopped,
        event is Frame,
        crate::frame::decode_frame(event->Frame_0) is Ok,
        ({
            let p = crate::frame::decode_frame(event->Frame_0)->Ok_0;
            &&& p.is_sample()
            &&& p.pressure > bridge.detector.threshold
            &&& !bridge.detector.latch(p.finger)
            &&& bridge.press_of(event, elapsed_ms) == Some(
                PressEvent { finger: p.finger, pressure: p.pressure, timestamp_ms: elapsed_ms },
            )
        }),
{
    crate::link::lemma_only_streaming_delivers(bridge.link, event);
}

} // verus!
