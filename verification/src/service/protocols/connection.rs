//! Connecting, disconnecting, capability negotiation and heartbeats.

use vstd::prelude::*;
use super::base::DeviceInfo;
use super::base::Entry;
use super::base::ResponseStatus;

verus! {

/// A capability of a device.
#[derive(Debug, Clone, PartialEq)]
pub struct Capability {
    pub name: String,
    pub version: String,
    pub parameters: Vec<Entry>,
}

/// A connection request.
#[derive(Debug, Clone, PartialEq)]
pub enum ConnectionRequest {
    /// Ask for a session.
    Connect {
        device_info: DeviceInfo,
        connection_key: Option<String>,
        requested_capabilities: Vec<String>,
    },
    /// End the session.
    Disconnect { device_id: String },
    /// Offer the capabilities this device supports.
    NegotiateCapabilities { device_id: String, supported_capabilities: Vec<Capability> },
    /// Show that this device is alive.
    Heartbeat { device_id: String, timestamp: u64 },
}

/// A connection response.
#[derive(Debug, Clone, PartialEq)]
pub enum ConnectionResponse {
    Connect {
        status: ResponseStatus,
        device_info: Option<DeviceInfo>,
        supported_capabilities: Vec<Capability>,
    },
    Disconnect { status: ResponseStatus },
    NegotiateCapabilities { status: ResponseStatus, negotiated_capabilities: Vec<Capability> },
    Heartbeat { status: ResponseStatus, request_timestamp: u64, response_timestamp: u64 },
}

impl ConnectionRequest {
    /// The heartbeat of the device `device_id` at `timestamp`.
    pub fn heartbeat(device_id: String, timestamp: u64) -> (r: Self)
        ensures
            r == (ConnectionRequest::Heartbeat { device_id, timestamp }),
    {
        ConnectionRequest::Heartbeat { device_id, timestamp }
    }
}

} // verus!
