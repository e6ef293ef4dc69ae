//! The binary wire form: four bytes to a frame.
//!
//! A data frame is the sentinel `0xFF`, the pressure as two bytes with the
//! high byte first, and a channel code. Two fixed frames are control
//! markers and carry no reading.

use vstd::prelude::*;
use crate::digits::{decimal, decimal_text};
use crate::finger::{channel_of_code, Finger};

verus! {

/// First byte of every data frame.
pub const SENTINEL: u8 = 0xFF;

/// The frame that pads the stream while the device aligns its buffer.
pub open spec fn is_alignment_frame(frame: [u8; 4]) -> bool {
    frame[0] == 1 && frame[1] == 0 && frame[2] == 0 && frame[3] == 0
}

/// The frame by which the device announces that readings follow.
pub open spec fn is_start_frame(frame: [u8; 4]) -> bool {
    frame[0] == 0xFF && frame[1] == 0 && frame[2] == 0 && frame[3] == 0xFF
}

/// The 16-bit magnitude that two bytes spell, high byte first.
pub open spec fn magnitude(high: u8, low: u8) -> u16 {
    (high as int * 256 + low as int) as u16
}

/// One decoded frame: a reading of a channel, or a control marker with
/// pressure 0.
#[derive(Debug, Clone, Copy, PartialEq, Eq, Structural)]
pub struct Pressure {
    pub pressure: u16,
    pub finger: Finger,
}

/// What a frame decodes to. The two control frames come first; any other
/// frame must open with the sentinel and close with a known channel code,
/// or it is handed back as it came.
pub open spec fn decode_frame(frame: [u8; 4]) -> Result<Pressure, [u8; 4]> {
    if is_alignment_frame(frame) {
        Ok(Pressure { pressure: 0, finger: Finger::BufferAlignment })
    } else if is_start_frame(frame) {
        Ok(Pressure { pressure: 0, finger: Finger::StartMessage })
    } else if frame[0] != SENTINEL {
        Err(frame)
    } else {
        match channel_of_code(frame[3]) {
            Ok(finger) => Ok(Pressure { pressure: magnitude(frame[1], frame[2]), finger }),
            Err(_) => Err(frame),
        }
    }
}

/// The data frame that carries a reading: the inverse of `decode_frame` on
/// readings of a channel.
pub open spec fn data_frame(pressure: u16, code: u8) -> [u8; 4] {
    [SENTINEL, (pressure / 256) as u8, (pressure % 256) as u8, code]
}

impl Pressure {
    /// True if this is a reading of a channel, false if it is a marker.
    pub open spec fn is_sample(self) -> bool {
        self.finger.is_channel()
    }

    /// True if this is the marker that opens the stream.
    pub open spec fn is_start_marker(self) -> bool {
        self.pressure == 0 && self.finger == Finger::StartMessage
    }

    /// Decodes one frame.
    pub fn from_serial(input: [u8; 4]) -> (r: Result<Self, [u8; 4]>)
        ensures
            r == decode_frame(input),
    {
        if input[0] == 1 && input[1] == 0 && input[2] == 0 && input[3] == 0 {
            return Ok(Self { pressure: 0, finger: Finger::BufferAlignment });
        } else if input[0] == 255 && input[1] == 0 && input[2] == 0 && input[3] == 255 {
            return Ok(Self { pressure: 0, finger: Finger::StartMessage });
        }
        if input[0] != SENTINEL {
            return Err(input);
        }
        let high: u8 = input[1];
        let low: u8 = input[2];
        let pressure: u16 = ((high as u16) << 8) | (low as u16);
        assert(pressure == magnitude(high, low)) by {
            assert((((high as u16) << 8) | (low as u16)) == (high as u16) * 256 + (low as u16))
                by (bit_vector);
        }
        match Finger::from_u8(input[3]) {
            Ok(finger) => Ok(Self { pressure, finger }),
            Err(_) => Err(input),
        }
    }

    /// The text shown for a decoded frame: the pressure in decimal, then
    /// `pressure on`, then the text of the finger.
    pub fn describe(&self) -> (r: String)
        ensures
            r@ == decimal(self.pressure as nat) + " pressure on "@ + self.finger.label_text()
                + " finger"@,
    {
        let finger = self.finger.describe();
        let r = decimal_text(self.pressure as u64).concat(" pressure on ").concat(finger.as_str());
        assert(r@ =~= decimal(self.pressure as nat) + " pressure on "@ + self.finger.label_text()
            + " finger"@);
        r
    }

    /// Tells the stream-opening marker from everything else.
    pub fn is_start(&self) -> (r: bool)
        ensures
            r == self.is_start_marker(),
    {
        match self.finger {
            Finger::StartMessage => self.pressure == 0,
            _ => false,
        }
    }
}

/// A data frame with the sentinel and a channel code of 0 or 1 decodes to
/// that channel and to exactly the magnitude its two middle bytes spell;
/// the magnitude gives the two bytes back.
pub proof fn lemma_data_frame_round_trips(high: u8, low: u8, code: u8)
    requires
        code == 0 || code == 1,
    ensures
        decode_frame([SENTINEL, high, low, code]) is Ok,
        channel_of_code(code) == Ok::<Finger, u8>(decode_frame([SENTINEL, high, low, code])->Ok_0.finger),
        decode_frame([SENTINEL, high, low, code])->Ok_0.pressure == high as int * 256 + low as int,
        decode_frame([SENTINEL, high, low, code])->Ok_0.pressure / 256 == high,
        decode_frame([SENTINEL, high, low, code])->Ok_0.pressure % 256 == low,
        data_frame(decode_frame([SENTINEL, high, low, code])->Ok_0.pressure, code)@
            == seq![SENTINEL, high, low, code],
{
    let frame: [u8; 4] = [SENTINEL, high, low, code];
    assert(frame[0] == SENTINEL && frame[1] == high && frame[2] == low && frame[3] == code);
    let p = magnitude(high, low);
    assert(p == high as int * 256 + low as int);
    assert(data_frame(p, code)@ =~= seq![SENTINEL, high, low, code]);
}

/// Every reading of a channel has a data frame that decodes to it.
pub proof fn lemma_reading_has_a_frame(pressure: u16, code: u8)
    requires
        code == 0 || code == 1,
    ensures
        decode_frame(data_frame(pressure, code)) is Ok,
        decode_frame(data_frame(pressure, code))->Ok_0.pressure == pressure,
        channel_of_code(code) == Ok::<Finger, u8>(decode_frame(data_frame(pressure, code))->Ok_0.finger),
{
    let frame = data_frame(pressure, code);
    assert(frame[0] == SENTINEL && frame[1] == (pressure / 256) as u8 && frame[2] == (pressure % 256) as u8
        && frame[3] == code);
}

/// The two control frames decode to their markers, with pressure 0.
pub proof fn lemma_control_frames_decode()
    ensures
        decode_frame([1u8, 0u8, 0u8, 0u8]) == Ok::<Pressure, [u8; 4]>(
            Pressure { pressure: 0, finger: Finger::BufferAlignment },
        ),
        decode_frame([0xFFu8, 0u8, 0u8, 0xFFu8]) == Ok::<Pressure, [u8; 4]>(
            Pressure { pressure: 0, finger: Finger::StartMessage },
        ),
{
    let a: [u8; 4] = [1u8, 0u8, 0u8, 0u8];
    assert(a[0] == 1 && a[1] == 0 && a[2] == 0 && a[3] == 0);
    let s: [u8; 4] = [0xFFu8, 0u8, 0u8, 0xFFu8];
    assert(s[0] == 0xFF && s[1] == 0 && s[2] == 0 && s[3] == 0xFF);
}

} // verus!
