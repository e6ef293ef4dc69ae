//! The three wire forms behind one decoder contract.
//!
//! Whatever the form, what comes out is a reading of a channel, a control
//! marker or an error. The form is told by the first byte.

use vstd::prelude::*;
use crate::frame::Pressure;
use crate::text::SensorReading;

verus! {

/// How the device talks.
#[derive(Debug, Clone, Copy, PartialEq, Eq, Structural)]
pub enum WireForm {
    /// Frames of four bytes.
    Binary,
    /// One JSON object to a line.
    Json,
    /// One line of comma-separated fields, or a `READY` line.
    Text,
}

/// The form that a first byte announces: `{` opens a JSON object, the
/// sentinel and the first byte of the alignment frame open a binary frame,
/// and anything else opens a line of text.
pub open spec fn form_of(first: u8) -> WireForm {
    if first == 0x7B {
        WireForm::Json
    } else if first == 0xFF || first == 0x01 {
        WireForm::Binary
    } else {
        WireForm::Text
    }
}

/// Tells the wire form from the first byte.
pub fn sniff(first: u8) -> (r: WireForm)
    ensures
        r == form_of(first),
{
    if first == 0x7B {
        WireForm::Json
    } else if first == 0xFF || first == 0x01 {
        WireForm::Binary
    } else {
        WireForm::Text
    }
}

impl SensorReading {
    /// The reading as the decoder's sample: the channel and the raw value
    /// as the pressure.
    pub fn to_sample(&self) -> (r: Pressure)
        ensures
            r == (Pressure { pressure: self.raw, finger: self.finger }),
    {
        Pressure { pressure: self.raw, finger: self.finger }
    }
}

/// The first byte of every frame that decodes announces the binary form.
pub proof fn lemma_frames_sniff_as_binary(frame: [u8; 4])
    requires
        crate::frame::decode_frame(frame) is Ok,
    ensures
        form_of(frame[0]) == WireForm::Binary,
{
}

} // verus!
