//! The dashboard's session: whether one is running, its counts, the taps
//! it saw and the status lines it wrote.
//!
//! The logs are kept oldest first; a display that wants the newest on top
//! reads them from the back.

use vstd::prelude::*;
use crate::clock::WallClock;
use crate::detector::rising;
use crate::digits::{decimal, decimal_text};
use crate::finger::Finger;
use crate::history::{appended, BoundedLog};
use crate::relay::ClientMessage;
use crate::text::ArduinoMessage;

verus! {

/// The number of status lines that are kept.
pub const STATUS_CAPACITY: usize = 50;

/// The number of taps that are kept.
pub const TAP_LOG_CAPACITY: usize = 100;

/// The number of readings that a pressure plot keeps for each channel.
pub const SENSOR_HISTORY_SIZE: usize = 200;

/// The counts of a session.
#[derive(Debug, Clone, Copy, PartialEq, Eq, Structural)]
pub struct SessionStats {
    pub total_taps: u32,
    pub successful_taps: u32,
    pub session_duration_secs: u32,
}

/// What the relay is to tell the client after a message was handled.
#[derive(Debug, Clone, PartialEq, Eq)]
pub enum SessionReply {
    /// Nothing.
    Nothing,
    /// A session started under this name.
    Started { session_id: String },
    /// The session ended with these counts.
    Ended { stats: SessionStats },
}

/// The session of the dashboard. `T` is the record of a tap, which the
/// program builds.
pub struct Session<T> {
    pub active: bool,
    pub stats: SessionStats,
    pub index_was_pressed: bool,
    pub middle_was_pressed: bool,
    pub taps: BoundedLog<T>,
    pub status: BoundedLog<String>,
}

/// A session as plain values.
pub struct SessionView<T> {
    pub active: bool,
    pub stats: SessionStats,
    pub index_was_pressed: bool,
    pub middle_was_pressed: bool,
    pub taps: Seq<T>,
    pub status: Seq<Seq<char>>,
}

/// The texts of a log of status lines.
pub open spec fn lines(log: Seq<String>) -> Seq<Seq<char>> {
    log.map_values(|s: String| s@)
}

/// A status line: the time of day in brackets, then the message.
pub open spec fn status_text(time_of_day: Seq<char>, message: Seq<char>) -> Seq<char> {
    "["@ + time_of_day + "] "@ + message
}

/// A count after one more, stopping at the largest value it can hold.
pub open spec fn counted_up(count: u32) -> u32 {
    if count < u32::MAX {
        (count + 1) as u32
    } else {
        count
    }
}

impl SessionStats {
    /// All counts at zero.
    pub open spec fn zero() -> Self {
        SessionStats { total_taps: 0, successful_taps: 0, session_duration_secs: 0 }
    }

    /// The counts after a target was hit: one more tap, and one more that
    /// succeeded.
    pub open spec fn with_hit(self) -> Self {
        SessionStats {
            total_taps: counted_up(self.total_taps),
            successful_taps: counted_up(self.successful_taps),
            ..self
        }
    }
}

impl Default for SessionStats {
    fn default() -> (r: Self)
        ensures
            r == SessionStats::zero(),
    {
        SessionStats { total_taps: 0, successful_taps: 0, session_duration_secs: 0 }
    }
}

impl<T> SessionView<T> {
    /// The session with one more status line.
    pub open spec fn logged(self, time_of_day: Seq<char>, message: Seq<char>) -> Self {
        SessionView {
            status: appended(self.status, STATUS_CAPACITY as nat, status_text(time_of_day, message)),
            ..self
        }
    }

    /// The session after it was started under a name: running, with its
    /// counts at zero and no taps.
    pub open spec fn started(self, time_of_day: Seq<char>, name: Seq<char>) -> Self {
        SessionView { active: true, stats: SessionStats::zero(), taps: Seq::empty(), ..self }.logged(
            time_of_day,
            "Session started: "@ + name,
        )
    }

    /// The session after it was ended. The counts stay.
    pub open spec fn ended(self, time_of_day: Seq<char>) -> Self {
        SessionView { active: false, ..self }.logged(time_of_day, "Session ended"@)
    }

    /// The session after a target was hit: the hit counts only while a
    /// session runs.
    pub open spec fn target_hit(self, time_of_day: Seq<char>, target_id: u32) -> Self {
        SessionView {
            stats: if self.active {
                self.stats.with_hit()
            } else {
                self.stats
            },
            ..self
        }.logged(time_of_day, "Target "@ + decimal(target_id as nat) + " hit"@)
    }

    /// The session after a channel was seen pressed or released.
    pub open spec fn with_level(self, finger: Finger, pressed: bool) -> Self {
        match finger {
            Finger::Index => SessionView { index_was_pressed: pressed, ..self },
            Finger::Middle => SessionView { middle_was_pressed: pressed, ..self },
            _ => self,
        }
    }

    /// Whether a channel was pressed when it was last seen.
    pub open spec fn was_pressed(self, finger: Finger) -> bool {
        match finger {
            Finger::Index => self.index_was_pressed,
            Finger::Middle => self.middle_was_pressed,
            _ => false,
        }
    }

    /// The session after a message from a client.
    pub open spec fn after_client_message<D>(
        self,
        message: ClientMessage<D>,
        time_of_day: Seq<char>,
        name: Seq<char>,
    ) -> Self {
        match message {
            ClientMessage::Ready { client_version } => self.logged(
                time_of_day,
                "Unity client connected (v"@ + client_version@ + ")"@,
            ),
            ClientMessage::TargetHit { target_id } => self.target_hit(time_of_day, target_id),
            ClientMessage::RequestSessionStart => self.started(time_of_day, name),
            ClientMessage::RequestSessionEnd => self.ended(time_of_day),
            ClientMessage::Disconnect => self.logged(time_of_day, "Unity client disconnected"@),
            ClientMessage::Accuracy { .. } => self,
        }
    }

    /// The session after a message from the device. `pressed` says
    /// whether the reading of a sensor message lies above the tap
    /// threshold.
    pub open spec fn after_device_message(
        self,
        message: ArduinoMessage,
        pressed: bool,
        time_of_day: Seq<char>,
    ) -> Self {
        match message {
            ArduinoMessage::Sensor(reading) => self.with_level(reading.finger, pressed),
            ArduinoMessage::Ready { firmware_version } => self.logged(
                time_of_day,
                "Arduino ready (firmware: "@ + firmware_version@ + ")"@,
            ),
            ArduinoMessage::Error { message } => self.logged(
                time_of_day,
                "Arduino error: "@ + message@,
            ),
        }
    }

    /// Whether a message from the device is a tap: a sensor reading that
    /// is pressed on a channel that was not.
    pub open spec fn is_tap(self, message: ArduinoMessage, pressed: bool) -> bool {
        match message {
            ArduinoMessage::Sensor(reading) => reading.finger.is_channel() && rising(
                self.was_pressed(reading.finger),
                pressed,
            ),
            _ => false,
        }
    }
}

/// The texts of a log after one more line are the texts before with the
/// text of that line appended.
pub proof fn lemma_lines_of_appended(log: Seq<String>, capacity: nat, line: String)
    ensures
        lines(appended(log, capacity, line)) == appended(lines(log), capacity, line@),
{
    assert(lines(appended(log, capacity, line)) =~= appended(lines(log), capacity, line@));
}

impl<T> View for Session<T> {
    type V = SessionView<T>;

    open spec fn view(&self) -> SessionView<T> {
        SessionView {
            active: self.active,
            stats: self.stats,
            index_was_pressed: self.index_was_pressed,
            middle_was_pressed: self.middle_was_pressed,
            taps: self.taps@,
            status: lines(self.status@),
        }
    }
}

impl<T> Session<T> {
    /// The session's invariant: both logs are within their capacities.
    pub open spec fn wf(self) -> bool {
        &&& self.taps.wf()
        &&& self.taps.limit() == TAP_LOG_CAPACITY
        &&& self.status.wf()
        &&& self.status.limit() == STATUS_CAPACITY
    }

    /// A session that is not running, with empty logs.
    pub fn new() -> (r: Self)
        ensures
            r.wf(),
            r@ == (SessionView::<T> {
                active: false,
                stats: SessionStats::zero(),
                index_was_pressed: false,
                middle_was_pressed: false,
                taps: Seq::empty(),
                status: Seq::empty(),
            }),
    {
        let r = Session {
            active: false,
            stats: SessionStats { total_taps: 0, successful_taps: 0, session_duration_secs: 0 },
            index_was_pressed: false,
            middle_was_pressed: false,
            taps: BoundedLog::new(TAP_LOG_CAPACITY),
            status: BoundedLog::new(STATUS_CAPACITY),
        };
        assert(lines(r.status@) =~= Seq::<Seq<char>>::empty());
        r
    }

    /// Writes a status line. The oldest line leaves when there are 50.
    pub fn log_status(&mut self, clock: &WallClock, message: &str)
        requires
            old(self).wf(),
        ensures
            final(self).wf(),
            final(self)@ == old(self)@.logged(clock.time_of_day@, message@),
    {
        let line = String::from_str("[").concat(clock.time_of_day.as_str()).concat("] ").concat(
            message,
        );
        proof {
            lemma_lines_of_appended(self.status@, STATUS_CAPACITY as nat, line);
        }
        self.status.push(line);
    }

    /// Keeps the record of a tap. The oldest record leaves when there are
    /// 100.
    pub fn on_tap_detected(&mut self, tap: T)
        requires
            old(self).wf(),
        ensures
            final(self).wf(),
            final(self)@ == (SessionView {
                taps: appended(old(self)@.taps, TAP_LOG_CAPACITY as nat, tap),
                ..old(self)@
            }),
    {
        self.taps.push(tap);
    }

    /// Starts a session and returns its name.
    pub fn start_session(&mut self, clock: &WallClock) -> (session_id: String)
        requires
            old(self).wf(),
        ensures
            final(self).wf(),
            session_id@ == clock.session_name@,
            final(self)@ == old(self)@.started(clock.time_of_day@, clock.session_name@),
    {
        self.active = true;
        self.stats = SessionStats { total_taps: 0, successful_taps: 0, session_duration_secs: 0 };
        self.taps.clear();
        let session_id = clock.session_name.clone();
        let message = String::from_str("Session started: ").concat(session_id.as_str());
        self.log_status(clock, message.as_str());
        session_id
    }

    /// Ends the session and returns its counts.
    pub fn end_session(&mut self, clock: &WallClock) -> (stats: SessionStats)
        requires
            old(self).wf(),
        ensures
            final(self).wf(),
            stats == old(self).stats,
            final(self)@ == old(self)@.ended(clock.time_of_day@),
    {
        self.active = false;
        self.log_status(clock, "Session ended");
        self.stats
    }

    /// Takes a message that a client sent and the relay handed on.
    pub fn on_client_message<D>(&mut self, message: ClientMessage<D>, clock: &WallClock) -> (reply:
        SessionReply)
        requires
            old(self).wf(),
        ensures
            final(self).wf(),
            final(self)@ == old(self)@.after_client_message(
                message,
                clock.time_of_day@,
                clock.session_name@,
            ),
            match message {
                ClientMessage::RequestSessionStart => reply matches SessionReply::Started {
                    session_id,
                } && session_id@ == clock.session_name@,
                ClientMessage::RequestSessionEnd => reply == (SessionReply::Ended {
                    stats: old(self).stats,
                }),
                _ => reply == SessionReply::Nothing,
            },
    {
        match message {
            ClientMessage::Ready { client_version } => {
                let text = String::from_str("Unity client connected (v").concat(
                    client_version.as_str(),
                ).concat(")");
                self.log_status(clock, text.as_str());
                SessionReply::Nothing
            },
            ClientMessage::TargetHit { target_id } => {
                let text = String::from_str("Target ").concat(
                    decimal_text(target_id as u64).as_str(),
                ).concat(" hit");
                if self.active {
                    if self.stats.total_taps < u32::MAX {
                        self.stats.total_taps = self.stats.total_taps + 1;
                    }
                    if self.stats.successful_taps < u32::MAX {
                        self.stats.successful_taps = self.stats.successful_taps + 1;
                    }
                }
                self.log_status(clock, text.as_str());
                SessionReply::Nothing
            },
            ClientMessage::RequestSessionStart => {
                let session_id = self.start_session(clock);
                SessionReply::Started { session_id }
            },
            ClientMessage::RequestSessionEnd => {
                let stats = self.end_session(clock);
                SessionReply::Ended { stats }
            },
            ClientMessage::Disconnect => {
                self.log_status(clock, "Unity client disconnected");
                SessionReply::Nothing
            },
            ClientMessage::Accuracy { .. } => SessionReply::Nothing,
        }
    }

    /// Takes a message from the device and says whether it is a tap.
    /// `pressed` is the caller's comparison of a sensor reading with the
    /// tap threshold; it is not looked at for other messages.
    pub fn on_arduino_message(&mut self, message: ArduinoMessage, pressed: bool, clock: &WallClock) -> (tap:
        bool)
        requires
            old(self).wf(),
        ensures
            final(self).wf(),
            final(self)@ == old(self)@.after_device_message(message, pressed, clock.time_of_day@),
            tap == old(self)@.is_tap(message, pressed),
    {
        match message {
            ArduinoMessage::Sensor(reading) => match reading.finger {
                Finger::Index => {
                    let tap = pressed && !self.index_was_pressed;
                    self.index_was_pressed = pressed;
                    tap
                },
                Finger::Middle => {
                    let tap = pressed && !self.middle_was_pressed;
                    self.middle_was_pressed = pressed;
                    tap
                },
                _ => false,
            },
            ArduinoMessage::Ready { firmware_version } => {
                let text = String::from_str("Arduino ready (firmware: ").concat(
                    firmware_version.as_str(),
                ).concat(")");
                self.log_status(clock, text.as_str());
                false
            },
            ArduinoMessage::Error { message } => {
                let text = String::from_str("Arduino error: ").concat(message.as_str());
                self.log_status(clock, text.as_str());
                false
            },
        }
    }

    /// Takes a request to connect to the device. Without a port name
    /// nothing is attempted and the user is told to pick one.
    pub fn on_connect_request(&mut self, port_name: &str, clock: &WallClock) -> (attempt: bool)
        requires
            old(self).wf(),
        ensures
            final(self).wf(),
            attempt == (port_name@.len() > 0),
            final(self)@ == if attempt {
                old(self)@
            } else {
                old(self)@.logged(clock.time_of_day@, "Please select a serial port"@)
            },
    {
        if port_name.unicode_len() == 0 {
            self.log_status(clock, "Please select a serial port");
            false
        } else {
            true
        }
    }
}

} // verus!
