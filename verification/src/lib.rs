//! Verified core of a device agent that connects to a relay over WebSocket,
//! registers the device, keeps the connection alive and forwards tunnel
//! traffic. The I/O itself is done by the caller; this crate decides what to
//! do with every value that comes back.

pub mod cli;
pub mod transport;
pub mod message;
pub mod config;
pub mod heartbeat;
pub mod tunnel;
pub mod cmd;
