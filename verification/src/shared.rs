//! The state that the link, the relay and the correlation engine share.
//!
//! One aggregate, changed one call at a time. The program keeps it behind
//! a lock; each method here is one exclusive access.

use vstd::prelude::*;
use crate::correlation::{record_of, AccuracyRecord, CorrelationEngine, PendingPresses};
use crate::detector::PressEvent;
use crate::finger::Finger;
use crate::history::{appended, BoundedLog};
use crate::link::LinkState;

verus! {

/// The live pressures, the link's state, the relay's client count and
/// what the last client said of its version, and the correlation engine.
pub struct SharedState<D> {
    pub index_pressure: u16,
    pub middle_pressure: u16,
    pub link_state: LinkState,
    pub connected_clients: usize,
    pub client_version: Option<String>,
    pub engine: CorrelationEngine<D>,
}

/// The client count after one client has left: one less, and never below
/// none.
pub open spec fn one_less(count: usize) -> usize {
    if count > 0 {
        (count - 1) as usize
    } else {
        0
    }
}

impl<D> SharedState<D> {
    /// The aggregate's invariant: that of the engine inside it.
    pub open spec fn wf(self) -> bool {
        self.engine.wf()
    }

    /// The presses that wait for a response.
    pub open spec fn pending(self) -> PendingPresses {
        self.engine.pending()
    }

    /// The accuracy records, oldest first.
    pub open spec fn records(self) -> Seq<AccuracyRecord<D>> {
        self.engine.records()
    }

    /// Whether two states differ at most in what the engine holds.
    pub open spec fn same_readings(self, other: Self) -> bool {
        &&& self.index_pressure == other.index_pressure
        &&& self.middle_pressure == other.middle_pressure
        &&& self.link_state == other.link_state
        &&& self.connected_clients == other.connected_clients
        &&& self.client_version == other.client_version
    }

    /// Whether two states hold the same presses and records.
    pub open spec fn same_engine(self, other: Self) -> bool {
        self.pending() == other.pending() && self.records() == other.records()
    }

    /// The pressure last read on a channel; markers read as 0.
    pub open spec fn pressure_of(self, finger: Finger) -> u16 {
        match finger {
            Finger::Index => self.index_pressure,
            Finger::Middle => self.middle_pressure,
            _ => 0,
        }
    }

    /// The state at start-up: no pressure, no link, no client, no record.
    pub fn new() -> (r: Self)
        ensures
            r.wf(),
            r.index_pressure == 0,
            r.middle_pressure == 0,
            r.link_state == LinkState::Disconnected,
            r.connected_clients == 0,
            r.client_version is None,
            r.pending() == PendingPresses::none(),
            r.records() == Seq::<AccuracyRecord<D>>::empty(),
    {
        SharedState {
            index_pressure: 0,
            middle_pressure: 0,
            link_state: LinkState::Disconnected,
            connected_clients: 0,
            client_version: None,
            engine: CorrelationEngine::new(),
        }
    }

    /// Stores the reading of a channel. A marker stores nothing.
    pub fn record_reading(&mut self, finger: Finger, pressure: u16)
        ensures
            final(self).wf() == old(self).wf(),
            final(self).same_engine(*old(self)),
            finger.is_channel() ==> final(self).pressure_of(finger) == pressure,
            final(self).index_pressure == if finger == Finger::Index {
                pressure
            } else {
                old(self).index_pressure
            },
            final(self).middle_pressure == if finger == Finger::Middle {
                pressure
            } else {
                old(self).middle_pressure
            },
            final(self).link_state == old(self).link_state,
            final(self).connected_clients == old(self).connected_clients,
            final(self).client_version == old(self).client_version,
    {
        match finger {
            Finger::Index => {
                self.index_pressure = pressure;
            },
            Finger::Middle => {
                self.middle_pressure = pressure;
            },
            _ => {},
        }
    }

    /// Mirrors the link's state.
    pub fn set_link_state(&mut self, state: LinkState)
        ensures
            final(self).wf() == old(self).wf(),
            final(self).same_engine(*old(self)),
            final(self).link_state == state,
            final(self).index_pressure == old(self).index_pressure,
            final(self).middle_pressure == old(self).middle_pressure,
            final(self).connected_clients == old(self).connected_clients,
            final(self).client_version == old(self).client_version,
    {
        self.link_state = state;
    }

    /// Puts a press into the slot of its channel.
    pub fn record_press(&mut self, event: PressEvent)
        requires
            old(self).wf(),
        ensures
            final(self).wf(),
            final(self).same_readings(*old(self)),
            final(self).pending() == old(self).pending().with_press(event),
            final(self).records() == old(self).records(),
    {
        self.engine.note_press(event);
    }

    /// Correlates a response with the press that waits for it.
    pub fn record_response(&mut self, distance: D, response_ms: u64, recorded_ms: u64)
        requires
            old(self).wf(),
        ensures
            final(self).wf(),
            final(self).same_readings(*old(self)),
            final(self).records() == appended(
                old(self).records(),
                1000,
                record_of(old(self).pending(), distance, response_ms, recorded_ms),
            ),
            final(self).pending() == old(self).pending().cleared(old(self).pending().attributed()),
            final(self).records().len() <= 1000,
    {
        self.engine.correlate(distance, response_ms, recorded_ms);
    }

    /// Counts a client in. Returns false, and counts nothing, only where
    /// the count cannot grow.
    pub fn client_connected(&mut self) -> (counted: bool)
        ensures
            final(self).wf() == old(self).wf(),
            final(self).same_engine(*old(self)),
            counted == (old(self).connected_clients < usize::MAX),
            final(self).connected_clients == if counted {
                (old(self).connected_clients + 1) as usize
            } else {
                old(self).connected_clients
            },
            final(self).index_pressure == old(self).index_pressure,
            final(self).middle_pressure == old(self).middle_pressure,
            final(self).link_state == old(self).link_state,
            final(self).client_version == old(self).client_version,
    {
        if self.connected_clients < usize::MAX {
            self.connected_clients = self.connected_clients + 1;
            true
        } else {
            false
        }
    }

    /// Counts a client out and forgets what it said of its version.
    pub fn client_disconnected(&mut self)
        ensures
            final(self).wf() == old(self).wf(),
            final(self).same_engine(*old(self)),
            final(self).connected_clients == one_less(old(self).connected_clients),
            final(self).client_version is None,
            final(self).index_pressure == old(self).index_pressure,
            final(self).middle_pressure == old(self).middle_pressure,
            final(self).link_state == old(self).link_state,
    {
        if self.connected_clients > 0 {
            self.connected_clients = self.connected_clients - 1;
        }
        self.client_version = None;
    }

    /// Keeps the version that a client announced.
    pub fn client_ready(&mut self, version: String)
        ensures
            final(self).wf() == old(self).wf(),
            final(self).same_engine(*old(self)),
            final(self).client_version == Some(version),
            final(self).index_pressure == old(self).index_pressure,
            final(self).middle_pressure == old(self).middle_pressure,
            final(self).link_state == old(self).link_state,
            final(self).connected_clients == old(self).connected_clients,
    {
        self.client_version = Some(version);
    }

    /// The press that waits on a channel.
    pub fn pending_press(&self, finger: Finger) -> (r: Option<PressEvent>)
        ensures
            r == self.pending().slot(finger),
    {
        self.engine.pending_press(finger)
    }

    /// The accuracy records, oldest first.
    pub fn history(&self) -> (r: &BoundedLog<AccuracyRecord<D>>)
        requires
            self.wf(),
        ensures
            r.wf(),
            r@ == self.records(),
            r.limit() == 1000,
    {
        self.engine.history()
    }
}

/// The accuracy history of a well-formed state never holds more than 1000
/// records.
pub proof fn lemma_shared_history_is_bounded<D>(state: SharedState<D>)
    requires
        state.wf(),
    ensures
        state.records().len() <= 1000,
{
    crate::correlation::lemma_history_is_bounded(state.engine);
}

} // verus!
