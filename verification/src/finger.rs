//! The sensing points of the device and the two markers that share their
//! place in a decoded frame.

use vstd::prelude::*;

verus! {

/// What a decoded frame is about: one of the two sensing points, or one of
/// the two control markers of the wire protocol.
#[derive(Debug, Clone, Copy, PartialEq, Eq, Structural)]
pub enum Finger {
    Index,
    Middle,
    StartMessage,
    BufferAlignment,
}

/// The channel that a channel code on the wire stands for: 0 is the index
/// finger, 1 the middle finger, and every other code is handed back.
pub open spec fn channel_of_code(code: u8) -> Result<Finger, u8> {
    if code == 0 {
        Ok(Finger::Index)
    } else if code == 1 {
        Ok(Finger::Middle)
    } else {
        Err(code)
    }
}

impl Finger {
    /// True for the two sensing points, false for the control markers.
    pub open spec fn is_channel(self) -> bool {
        self == Finger::Index || self == Finger::Middle
    }

    /// The name of this value as it is shown to a reader.
    pub open spec fn label_text(self) -> Seq<char> {
        match self {
            Finger::Index => "Index"@,
            Finger::Middle => "Middle"@,
            Finger::StartMessage => "Start message, not a"@,
            Finger::BufferAlignment => "Buffer alignment, not a"@,
        }
    }

    /// Reads a channel code.
    pub fn from_u8(input: u8) -> (r: Result<Self, u8>)
        ensures
            r == channel_of_code(input),
    {
        match input {
            0 => Ok(Self::Index),
            1 => Ok(Self::Middle),
            _ => Err(input),
        }
    }

    /// Tells a sensing point from a control marker.
    pub fn is_sensor(&self) -> (r: bool)
        ensures
            r == self.is_channel(),
    {
        match self {
            Finger::Index => true,
            Finger::Middle => true,
            _ => false,
        }
    }

    /// The text shown for this value: its name followed by " finger".
    pub fn describe(&self) -> (r: String)
        ensures
            r@ == self.label_text() + " finger"@,
    {
        let name = match self {
            Finger::Index => "Index",
            Finger::Middle => "Middle",
            Finger::StartMessage => "Start message, not a",
            Finger::BufferAlignment => "Buffer alignment, not a",
        };
        String::from_str(name).concat(" finger")
    }
}

} // verus!
