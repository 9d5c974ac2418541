//! Ports and timings shared by the listeners.

use vstd::prelude::*;

verus! {

/// Port of the redirector (legacy TLS over TCP).
pub const REDIRECTOR_PORT: u16 = 42127;

/// Port of the main tunnel (TCP).
pub const MAIN_PORT: u16 = 42128;

/// Port of the telemetry listener (TCP).
pub const TELEMETRY_PORT: u16 = 42129;

/// Port of the QoS echo (UDP).
pub const QOS_PORT: u16 = 42130;

/// Port of the HTTP proxy (TCP).
pub const HTTP_PORT: u16 = 42131;

/// Seconds a redirector connection may stay idle before it is closed.
pub const REDIRECTOR_IDLE_SECS: u64 = 60;

} // verus!
