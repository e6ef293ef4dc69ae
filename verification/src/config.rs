//! What the program is configured with, and the relay's view of its one
//! client in the single-client deployment.

use vstd::prelude::*;
use crate::digits::{decimal, decimal_text};

verus! {

/// The serial port of the device.
#[derive(Debug, Clone, PartialEq, Eq)]
pub struct ArduinoConfig {
    pub port_name: String,
    pub baud_rate: u32,
}

impl Default for ArduinoConfig {
    /// No port chosen yet, at 115200 baud.
    fn default() -> (r: Self)
        ensures
            r.port_name@ == Seq::<char>::empty(),
            r.baud_rate == 115200,
    {
        ArduinoConfig { port_name: String::new(), baud_rate: 115200 }
    }
}

/// Where the relay listens.
#[derive(Debug, Clone, PartialEq, Eq)]
pub struct UnityServerConfig {
    pub host: String,
    pub port: u16,
}

impl Default for UnityServerConfig {
    /// The local host, port 8765.
    fn default() -> (r: Self)
        ensures
            r.host@ == "127.0.0.1"@,
            r.port == 8765,
    {
        UnityServerConfig { host: String::from_str("127.0.0.1"), port: 8765 }
    }
}

impl UnityServerConfig {
    /// The address to bind: the host, a colon and the port in decimal.
    pub fn address(&self) -> (r: String)
        ensures
            r@ == self.host@ + ":"@ + decimal(self.port as nat),
    {
        self.host.clone().concat(":").concat(decimal_text(self.port as u64).as_str())
    }
}

/// Whether a client is connected, and the version it announced.
#[derive(Debug, Clone, PartialEq, Eq)]
pub struct UnityServerState {
    pub connected: bool,
    pub client_version: Option<String>,
}

impl Default for UnityServerState {
    /// No client.
    fn default() -> (r: Self)
        ensures
            !r.connected,
            r.client_version is None,
    {
        UnityServerState { connected: false, client_version: None }
    }
}

impl UnityServerState {
    /// A client completed its handshake.
    pub fn on_connected(&mut self)
        ensures
            final(self).connected,
            final(self).client_version == old(self).client_version,
    {
        self.connected = true;
    }

    /// The client announced its version.
    pub fn on_ready(&mut self, client_version: String)
        ensures
            final(self).connected == old(self).connected,
            final(self).client_version == Some(client_version),
    {
        self.client_version = Some(client_version);
    }

    /// The client left: nothing of it is kept.
    pub fn on_disconnected(&mut self)
        ensures
            !final(self).connected,
            final(self).client_version is None,
    {
        self.connected = false;
        self.client_version = None;
    }
}

} // verus!
