//! Pairs each press with the accuracy response that follows it.
//!
//! Every channel has one slot for a press that still waits for its
//! response. A new press on a channel takes the slot, whatever was in it.
//! A response carries no channel: it is attributed to the channel that was
//! pressed last.

use vstd::prelude::*;
use crate::detector::PressEvent;
use crate::finger::Finger;
use crate::history::{appended, BoundedLog};

verus! {

/// The number of records the history keeps.
pub const HISTORY_CAPACITY: usize = 1000;

/// The result of one correlation. The distance is measured by the caller
/// and carried as it is.
#[derive(Debug, Clone, Copy)]
pub struct AccuracyRecord<D> {
    pub finger: Finger,
    pub distance: D,
    pub reaction_time_ms: u64,
    pub timestamp_ms: u64,
}

/// The presses that wait for a response, and the channel pressed last.
#[derive(Debug, Clone, Copy, PartialEq, Eq, Structural)]
pub struct PendingPresses {
    pub index: Option<PressEvent>,
    pub middle: Option<PressEvent>,
    pub latest: Option<Finger>,
}

/// The time from a press to its response, and 0 where the response is
/// stamped earlier than the press or no press waits.
pub open spec fn reaction_time(press: Option<PressEvent>, response_ms: u64) -> u64 {
    match press {
        Some(p) => if response_ms >= p.timestamp_ms {
            (response_ms - p.timestamp_ms) as u64
        } else {
            0
        },
        None => 0,
    }
}

impl PendingPresses {
    /// No press waits and none was seen.
    pub open spec fn none() -> Self {
        PendingPresses { index: None, middle: None, latest: None }
    }

    /// The slot of a channel; markers have none.
    pub open spec fn slot(self, finger: Finger) -> Option<PressEvent> {
        match finger {
            Finger::Index => self.index,
            Finger::Middle => self.middle,
            _ => None,
        }
    }

    /// The slots after a press: the slot of its channel holds it, and its
    /// channel is the one pressed last. A press on a marker is no press.
    pub open spec fn with_press(self, event: PressEvent) -> Self {
        match event.finger {
            Finger::Index => PendingPresses { index: Some(event), latest: Some(Finger::Index), ..self },
            Finger::Middle => PendingPresses {
                middle: Some(event),
                latest: Some(Finger::Middle),
                ..self
            },
            _ => self,
        }
    }

    /// The channel a response is attributed to: the one pressed last, and
    /// the index finger before any press.
    pub open spec fn attributed(self) -> Finger {
        match self.latest {
            Some(f) => f,
            None => Finger::Index,
        }
    }

    /// The slots with the slot of one channel emptied.
    pub open spec fn cleared(self, finger: Finger) -> Self {
        match finger {
            Finger::Index => PendingPresses { index: None, ..self },
            Finger::Middle => PendingPresses { middle: None, ..self },
            _ => self,
        }
    }

    /// What `with_press` and `none` can reach: the channel pressed last is
    /// a sensing point.
    pub open spec fn wf(self) -> bool {
        match self.latest {
            Some(f) => f.is_channel(),
            None => true,
        }
    }
}

/// The record that a response yields against the waiting presses.
pub open spec fn record_of<D>(
    pending: PendingPresses,
    distance: D,
    response_ms: u64,
    recorded_ms: u64,
) -> AccuracyRecord<D> {
    AccuracyRecord {
        finger: pending.attributed(),
        distance,
        reaction_time_ms: reaction_time(pending.slot(pending.attributed()), response_ms),
        timestamp_ms: recorded_ms,
    }
}

/// The waiting presses and the history of records.
pub struct CorrelationEngine<D> {
    pending: PendingPresses,
    history: BoundedLog<AccuracyRecord<D>>,
}

impl<D> CorrelationEngine<D> {
    /// The engine's invariant.
    pub closed spec fn wf(self) -> bool {
        &&& self.history.wf()
        &&& self.history.limit() == HISTORY_CAPACITY
        &&& self.pending.wf()
    }

    /// The presses that wait for a response.
    pub closed spec fn pending(self) -> PendingPresses {
        self.pending
    }

    /// The records made so far, oldest first.
    pub closed spec fn records(self) -> Seq<AccuracyRecord<D>> {
        self.history@
    }

    /// An engine with empty slots and an empty history.
    pub fn new() -> (r: Self)
        ensures
            r.wf(),
            r.pending() == PendingPresses::none(),
            r.records() == Seq::<AccuracyRecord<D>>::empty(),
    {
        CorrelationEngine {
            pending: PendingPresses { index: None, middle: None, latest: None },
            history: BoundedLog::new(HISTORY_CAPACITY),
        }
    }

    /// Takes note of a press: it replaces whatever waited on its channel.
    pub fn note_press(&mut self, event: PressEvent)
        requires
            old(self).wf(),
        ensures
            final(self).wf(),
            final(self).pending() == old(self).pending().with_press(event),
            final(self).records() == old(self).records(),
    {
        match event.finger {
            Finger::Index => {
                self.pending.index = Some(event);
                self.pending.latest = Some(Finger::Index);
            },
            Finger::Middle => {
                self.pending.middle = Some(event);
                self.pending.latest = Some(Finger::Middle);
            },
            _ => {},
        }
    }

    /// Correlates a response: appends its record to the history and empties
    /// the slot of the channel it was attributed to.
    pub fn correlate(&mut self, distance: D, response_ms: u64, recorded_ms: u64)
        requires
            old(self).wf(),
        ensures
            final(self).wf(),
            final(self).records() == appended(
                old(self).records(),
                HISTORY_CAPACITY as nat,
                record_of(old(self).pending(), distance, response_ms, recorded_ms),
            ),
            final(self).pending() == old(self).pending().cleared(old(self).pending().attributed()),
            final(self).records().len() <= HISTORY_CAPACITY,
    {
        let finger = match self.pending.latest {
            Some(f) => f,
            None => Finger::Index,
        };
        let waiting = match finger {
            Finger::Index => self.pending.index,
            Finger::Middle => self.pending.middle,
            _ => None,
        };
        let reaction_time_ms = match waiting {
            Some(p) => response_ms.saturating_sub(p.timestamp_ms),
            None => 0,
        };
        self.history.push(
            AccuracyRecord { finger, distance, reaction_time_ms, timestamp_ms: recorded_ms },
        );
        match finger {
            Finger::Index => {
                self.pending.index = None;
            },
            Finger::Middle => {
                self.pending.middle = None;
            },
            _ => {},
        }
    }

    /// The press that waits on a channel.
    pub fn pending_press(&self, finger: Finger) -> (r: Option<PressEvent>)
        ensures
            r == self.pending().slot(finger),
    {
        match finger {
            Finger::Index => self.pending.index,
            Finger::Middle => self.pending.middle,
            _ => None,
        }
    }

    /// The channel pressed last.
    pub fn latest_pressed(&self) -> (r: Option<Finger>)
        ensures
            r == self.pending().latest,
    {
        self.pending.latest
    }

    /// The history of records, oldest first.
    pub fn history(&self) -> (r: &BoundedLog<AccuracyRecord<D>>)
        requires
            self.wf(),
        ensures
            r.wf(),
            r@ == self.records(),
            r.limit() == HISTORY_CAPACITY,
    {
        &self.history
    }
}

/// The history of a well-formed engine never holds more than 1000
/// records.
pub proof fn lemma_history_is_bounded<D>(engine: CorrelationEngine<D>)
    requires
        engine.wf(),
    ensures
        engine.records().len() <= 1000,
{
    crate::history::lemma_log_within_capacity(engine.history);
}

/// A second press on a channel before any response takes the place of the
/// first: the first is gone from the slot.
pub proof fn lemma_press_overwrites(pending: PendingPresses, first: PressEvent, second: PressEvent)
    requires
        first.finger == second.finger,
        second.finger.is_channel(),
    ensures
        pending.with_press(first).with_press(second) == pending.with_press(second),
        pending.with_press(first).with_press(second).slot(second.finger) == Some(second),
{
}

/// A response right after a press is attributed to the channel of that
/// press, measures the time from it, and leaves that channel's slot empty
/// and the other channel's slot as it was.
pub proof fn lemma_response_follows_press<D>(
    pending: PendingPresses,
    press: PressEvent,
    distance: D,
    response_ms: u64,
    recorded_ms: u64,
)
    requires
        press.finger.is_channel(),
    ensures
        ({
            let waiting = pending.with_press(press);
            let record = record_of(waiting, distance, response_ms, recorded_ms);
            let other = if press.finger == Finger::Index {
                Finger::Middle
            } else {
                Finger::Index
            };
            &&& record.finger == press.finger
            &&& record.distance == distance
            &&& response_ms >= press.timestamp_ms ==> record.reaction_time_ms == response_ms
                - press.timestamp_ms
            &&& response_ms < press.timestamp_ms ==> record.reaction_time_ms == 0
            &&& waiting.cleared(waiting.attributed()).slot(press.finger) is None
            &&& waiting.cleared(waiting.attributed()).slot(other) == pending.slot(other)
        }),
{
}

} // verus!
