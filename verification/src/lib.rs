//! Bridge between a two-channel pressure sensor on a serial link and an AR
//! client on a network relay: frame decoding, link supervision, press
//! detection, press/accuracy correlation and the relay's bookkeeping.
//!
//! Every function here is a pure step over plain values. Reading ports,
//! sockets and clocks is left to the program that drives these steps.

pub mod bridge;
pub mod clock;
pub mod config;
pub mod correlation;
pub mod detector;
pub mod digits;
pub mod finger;
pub mod frame;
pub mod history;
pub mod link;
pub mod relay;
pub mod session;
pub mod shared;
pub mod text;
pub mod wire;

pub use bridge::{BridgeOutput, SerialBridge};
pub use clock::WallClock;
pub use config::{ArduinoConfig, UnityServerConfig, UnityServerState};
pub use correlation::{AccuracyRecord, CorrelationEngine, PendingPresses};
pub use detector::{PressDetector, PressEvent};
pub use finger::Finger;
pub use frame::Pressure;
pub use history::BoundedLog;
pub use link::{LinkAction, LinkEvent, LinkManager, LinkState};
pub use relay::{
    on_client_event, AcceptAction, AcceptEvent, ClientAction, ClientEvent, ClientId, ClientMessage,
    Delivery, Relay,
};
pub use session::{Session, SessionReply, SessionStats};
pub use shared::SharedState;
pub use text::{
    on_line_read, parse_arduino_message, trim_line, ArduinoMessage, LineRead, ParseError,
    ReaderAction, SensorReading, TextLine,
};
pub use wire::{sniff, WireForm};
