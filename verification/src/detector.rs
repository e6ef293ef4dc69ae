//! The press detector: one latch per channel, one event per rising edge.

use vstd::prelude::*;
use crate::finger::Finger;

verus! {

/// A press: the channel, the pressure that crossed the threshold, and the
/// time of the reading.
#[derive(Debug, Clone, Copy, PartialEq, Eq, Structural)]
pub struct PressEvent {
    pub finger: Finger,
    pub pressure: u16,
    pub timestamp_ms: u64,
}

/// Whether a reading counts as pressed.
pub open spec fn is_above(pressure: u16, threshold: u16) -> bool {
    pressure > threshold
}

/// A press begins where the level is high and was low just before.
pub open spec fn rising(was_above: bool, above: bool) -> bool {
    above && !was_above
}

/// The latch after a run of readings: the level of the last one, and low
/// before the first.
pub open spec fn latch_after(readings: Seq<u16>, threshold: u16) -> bool {
    readings.len() > 0 && is_above(readings.last(), threshold)
}

/// Whether the reading at `at` begins a press: it lies above the
/// threshold, and it is the first reading or follows one that does not.
pub open spec fn press_begins_at(readings: Seq<u16>, threshold: u16, at: int) -> bool {
    &&& 0 <= at < readings.len()
    &&& is_above(readings[at], threshold)
    &&& (at == 0 || !is_above(readings[at - 1], threshold))
}

/// The places at which a latch that starts low reports a press when it is
/// fed the readings in order.
pub open spec fn presses_in(readings: Seq<u16>, threshold: u16) -> Seq<int>
    decreases readings.len(),
{
    if readings.len() == 0 {
        Seq::empty()
    } else {
        let earlier = presses_in(readings.drop_last(), threshold);
        if rising(latch_after(readings.drop_last(), threshold), is_above(readings.last(), threshold)) {
            earlier.push(readings.len() - 1)
        } else {
            earlier
        }
    }
}

/// The number of runs of consecutive readings above the threshold.
pub open spec fn runs_above(readings: Seq<u16>, threshold: u16) -> nat
    decreases readings.len(),
{
    if readings.len() == 0 {
        0
    } else {
        let earlier = runs_above(readings.drop_last(), threshold);
        if press_begins_at(readings, threshold, readings.len() - 1) {
            earlier + 1
        } else {
            earlier
        }
    }
}

/// The state of the detector: the threshold and the two latches.
#[derive(Debug, Clone, Copy, PartialEq, Eq, Structural)]
pub struct PressDetector {
    pub threshold: u16,
    pub index_above: bool,
    pub middle_above: bool,
}

impl PressDetector {
    /// The latch of a channel; markers have none and read as low.
    pub open spec fn latch(self, finger: Finger) -> bool {
        match finger {
            Finger::Index => self.index_above,
            Finger::Middle => self.middle_above,
            _ => false,
        }
    }

    /// This detector with the latch of a channel set; a marker changes
    /// nothing.
    pub open spec fn with_latch(self, finger: Finger, above: bool) -> Self {
        match finger {
            Finger::Index => PressDetector { index_above: above, ..self },
            Finger::Middle => PressDetector { middle_above: above, ..self },
            _ => self,
        }
    }

    /// The detector after a channel was seen at a level.
    pub open spec fn after_level(self, finger: Finger, above: bool) -> Self {
        self.with_latch(finger, above)
    }

    /// Whether seeing a channel at a level is a press.
    pub open spec fn fires_on_level(self, finger: Finger, above: bool) -> bool {
        finger.is_channel() && rising(self.latch(finger), above)
    }

    /// The detector after the readings of one channel, in order.
    pub open spec fn after_readings(self, finger: Finger, readings: Seq<u16>) -> Self
        decreases readings.len(),
    {
        if readings.len() == 0 {
            self
        } else {
            self.after_readings(finger, readings.drop_last()).after_level(
                finger,
                is_above(readings.last(), self.threshold),
            )
        }
    }

    /// A detector with both latches low.
    pub fn new(threshold: u16) -> (r: Self)
        ensures
            r == (PressDetector { threshold, index_above: false, middle_above: false }),
    {
        PressDetector { threshold, index_above: false, middle_above: false }
    }

    /// Feeds the level of a channel to its latch and says whether a press
    /// began. For callers that compare the reading themselves.
    pub fn on_level(&mut self, finger: Finger, above: bool) -> (fired: bool)
        ensures
            fired == old(self).fires_on_level(finger, above),
            *final(self) == old(self).after_level(finger, above),
    {
        match finger {
            Finger::Index => {
                let fired = above && !self.index_above;
                self.index_above = above;
                fired
            },
            Finger::Middle => {
                let fired = above && !self.middle_above;
                self.middle_above = above;
                fired
            },
            _ => false,
        }
    }

    /// Feeds one reading. A press is reported exactly when the reading lies
    /// above the threshold and the channel's latch was low; the latch then
    /// takes the level of the reading. Markers are passed over.
    pub fn on_sample(&mut self, finger: Finger, pressure: u16, timestamp_ms: u64) -> (r: Option<
        PressEvent,
    >)
        ensures
            *final(self) == old(self).after_level(finger, is_above(pressure, old(self).threshold)),
            r is Some <==> old(self).fires_on_level(finger, is_above(pressure, old(self).threshold)),
            r is Some ==> r == Some(PressEvent { finger, pressure, timestamp_ms }),
    {
        let above = pressure > self.threshold;
        if self.on_level(finger, above) {
            Some(PressEvent { finger, pressure, timestamp_ms })
        } else {
            None
        }
    }
}

/// After any run of readings of a channel, a detector that started with
/// that latch low holds the level of the last reading, and nothing else of
/// it has changed.
pub proof fn lemma_latch_follows_readings(d: PressDetector, finger: Finger, readings: Seq<u16>)
    requires
        finger.is_channel(),
        !d.latch(finger),
    ensures
        d.after_readings(finger, readings) == d.with_latch(
            finger,
            latch_after(readings, d.threshold),
        ),
    decreases readings.len(),
{
    if readings.len() > 0 {
        lemma_latch_follows_readings(d, finger, readings.drop_last());
    }
}

/// The reading at `at` makes the detector report a press if and only if
/// the readings cross from at most the threshold to above it there (the
/// time before the first reading counting as low).
pub proof fn lemma_press_iff_rising_edge(
    d: PressDetector,
    finger: Finger,
    readings: Seq<u16>,
    at: int,
)
    requires
        finger.is_channel(),
        !d.latch(finger),
        0 <= at < readings.len(),
    ensures
        d.after_readings(finger, readings.take(at)).fires_on_level(
            finger,
            is_above(readings[at], d.threshold),
        ) <==> press_begins_at(readings, d.threshold, at),
{
    let before = readings.take(at);
    lemma_latch_follows_readings(d, finger, before);
    if at > 0 {
        assert(before.last() == readings[at - 1]);
    }
}

/// The places where presses are reported are exactly the places where a
/// run above the threshold begins, in order.
pub proof fn lemma_presses_are_rising_edges(readings: Seq<u16>, threshold: u16)
    ensures
        forall|k: int|
            0 <= k < presses_in(readings, threshold).len() ==> press_begins_at(
                readings,
                threshold,
                #[trigger] presses_in(readings, threshold)[k],
            ),
        forall|at: int|
            #[trigger] press_begins_at(readings, threshold, at) ==> presses_in(
                readings,
                threshold,
            ).contains(at),
        forall|j: int, k: int|
            0 <= j < k < presses_in(readings, threshold).len() ==> presses_in(readings, threshold)[j]
                < presses_in(readings, threshold)[k],
    decreases readings.len(),
{
    if readings.len() > 0 {
        let shorter = readings.drop_last();
        let last = readings.len() - 1;
        lemma_presses_are_rising_edges(shorter, threshold);
        let earlier = presses_in(shorter, threshold);
        let all = presses_in(readings, threshold);
        assert forall|at: int| press_begins_at(shorter, threshold, at) implies press_begins_at(
            readings,
            threshold,
            at,
        ) by {}
        assert forall|k: int| 0 <= k < all.len() implies press_begins_at(
            readings,
            threshold,
            #[trigger] all[k],
        ) by {
            if k < earlier.len() {
                assert(press_begins_at(shorter, threshold, earlier[k]));
            } else {
                if last > 0 {
                    assert(shorter.last() == readings[last - 1]);
                }
            }
        }
        assert forall|at: int| #[trigger]
            press_begins_at(readings, threshold, at) implies all.contains(at) by {
            if at < last {
                assert(press_begins_at(shorter, threshold, at));
                let k = choose|k: int| 0 <= k < earlier.len() && earlier[k] == at;
                assert(all[k] == at);
            } else {
                if last > 0 {
                    assert(shorter.last() == readings[last - 1]);
                }
                assert(all[all.len() - 1] == at);
            }
        }
        assert forall|j: int, k: int| 0 <= j < k < all.len() implies all[j] < all[k] by {
            assert(press_begins_at(shorter, threshold, earlier[j]));
            if k < earlier.len() {
            }
        }
    }
}

/// A stretch of readings that all lie above the threshold holds at most
/// one reported press: the one at its first reading, if the stretch begins
/// a run.
pub proof fn lemma_plateau_fires_once(readings: Seq<u16>, threshold: u16, from: int, to: int)
    requires
        0 <= from <= to < readings.len(),
        forall|i: int| from <= i <= to ==> is_above(#[trigger] readings[i], threshold),
    ensures
        forall|at: int| from < at <= to ==> !#[trigger] press_begins_at(readings, threshold, at),
        press_begins_at(readings, threshold, from) <==> (from == 0 || !is_above(
            readings[from - 1],
            threshold,
        )),
{
    assert forall|at: int| from < at <= to implies !#[trigger] press_begins_at(
        readings,
        threshold,
        at,
    ) by {
        assert(is_above(readings[at - 1], threshold));
    }
}

/// As many presses are reported as there are runs above the threshold.
pub proof fn lemma_one_press_per_run(readings: Seq<u16>, threshold: u16)
    ensures
        presses_in(readings, threshold).len() == runs_above(readings, threshold),
    decreases readings.len(),
{
    if readings.len() > 0 {
        let shorter = readings.drop_last();
        lemma_one_press_per_run(shorter, threshold);
        let last = readings.len() - 1;
        if last > 0 {
            assert(shorter.last() == readings[last - 1]);
        }
    }
}

} // verus!
