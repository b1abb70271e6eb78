//! Messages exchanged between the agent and the relay.
//!
//! On the wire each message is a JSON object whose `"type"` field names the
//! variant in snake case, for example
//! `{"type":"register","device_id":"pi-001","hostname":"raspberrypi","platform":"linux"}`
//! or `{"type":"ack","device_id":"pi-001"}`. The JSON text itself is written
//! and read by the program around this library.

use vstd::prelude::*;

verus! {

/// All messages exchanged between the agent and the relay.
#[derive(Clone, Debug, PartialEq, Eq)]
pub enum AgentMessage {
    /// Sent by the agent right after connecting.
    Register { device_id: String, hostname: String, platform: String, token: Option<String> },
    /// The relay confirms a registration.
    Ack { device_id: String },
    /// The relay asks the agent to open a TCP tunnel to `host:port`.
    TunnelOpen { host: String, port: u16 },
    /// Either side closes the tunnel.
    TunnelClose,
}

} // verus!
