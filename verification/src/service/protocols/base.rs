//! The packet and what every message shares.

use vstd::prelude::*;
use super::clipboard::Clipboard;
use super::clipboard::ClipboardResponse;
use super::connection::ConnectionRequest;
use super::connection::ConnectionResponse;
use super::device::DeviceRequest;
use super::device::DeviceResponse;
use super::input::Keyboard;
use super::input::MouseRequest;
use super::system::SystemRequest;
use super::system::SystemResponse;

verus! {

/// Operating system of a device.
#[derive(Debug, Clone, Copy, PartialEq, Eq, Structural)]
pub enum OsType {
    Win,
    Mac,
    Nix,
    Unknown,
}

/// What a device says of itself when it connects.
#[derive(Debug, Clone, PartialEq)]
pub struct DeviceInfo {
    /// Stable unique identifier of the device.
    pub device_id: String,
    /// Its host name.
    pub hostname: String,
    /// Its operating system.
    pub os_type: OsType,
    /// Version of the application it runs.
    pub app_version: String,
    /// Names of the capabilities it offers.
    pub capabilities: Vec<String>,
}

/// One key and value of a string-to-string table.
#[derive(Debug, Clone, PartialEq)]
pub struct Entry {
    pub key: String,
    pub value: String,
}

/// Status of a device at a point in time.
#[derive(Debug, Clone, PartialEq)]
pub struct StatusInfo {
    pub device_id: String,
    pub timestamp: u64,
    pub data: Vec<Entry>,
}

/// Whether a request succeeded, and why not.
#[derive(Debug, Clone, PartialEq)]
pub struct ResponseStatus {
    pub success: bool,
    pub error: Option<String>,
}

impl ResponseStatus {
    /// Success.
    pub fn ok() -> (r: Self)
        ensures
            r.success,
            r.error.is_none(),
    {
        ResponseStatus { success: true, error: None }
    }

    /// Failure with the given reason.
    pub fn fail(message: String) -> (r: Self)
        ensures
            !r.success,
            r.error == Some(message),
    {
        ResponseStatus { success: false, error: Some(message) }
    }
}

/// Whether a reply is expected.
#[derive(Debug, Clone, Copy, PartialEq, Eq, Structural)]
pub enum TransportMode {
    /// One way; no reply.
    Broadcast,
    /// A request that expects a response, or that response.
    RequestResponse,
}

/// A request.
#[derive(Debug, Clone, PartialEq)]
pub enum Request {
    Connection(ConnectionRequest),
    System(SystemRequest),
    Device(DeviceRequest),
    Mouse(MouseRequest),
    Keyboard(Keyboard),
    Clipboard(Clipboard),
}

/// A response.
#[derive(Debug, Clone, PartialEq)]
pub enum Response {
    Connection(ConnectionResponse),
    System(SystemResponse),
    Device(DeviceResponse),
    Clipboard(ClipboardResponse),
}

/// What a packet carries.
#[derive(Debug, Clone, PartialEq)]
pub enum PacketData {
    Request(Request),
    Response(Response),
}

/// The unit exchanged over a session.
#[derive(Debug, Clone, PartialEq)]
pub struct DataPacket {
    /// Correlates a response with its request; absent on broadcasts.
    pub message_id: Option<u32>,
    /// Whether a reply is expected.
    pub transport_mode: TransportMode,
    /// Milliseconds since the epoch at which the packet was made.
    pub timestamp: u64,
    /// The message itself.
    pub data: PacketData,
}

/// Whether `data` is an input event: a mouse or keyboard request.
pub open spec fn spec_is_input_event(data: PacketData) -> bool {
    data matches PacketData::Request(request) && (request is Mouse || request is Keyboard)
}

impl PacketData {
    /// Whether this is a mouse or keyboard request. Such events are
    /// broadcast only.
    pub fn is_input_event(&self) -> (r: bool)
        ensures
            r == spec_is_input_event(*self),
    {
        match self {
            PacketData::Request(Request::Mouse(_)) => true,
            PacketData::Request(Request::Keyboard(_)) => true,
            _ => false,
        }
    }
}

impl DataPacket {
    /// A packet carries a `message_id` exactly when it is part of a
    /// request/response exchange, and input events are never part of one.
    pub open spec fn well_formed(&self) -> bool {
        &&& self.message_id.is_some() <==> self.transport_mode == TransportMode::RequestResponse
        &&& spec_is_input_event(self.data) ==> self.transport_mode == TransportMode::Broadcast
    }

    /// Whether the packet is well formed.
    pub fn is_valid(&self) -> (r: bool)
        ensures
            r == self.well_formed(),
    {
        let correlated = self.message_id.is_some();
        let exchange = match self.transport_mode {
            TransportMode::RequestResponse => true,
            TransportMode::Broadcast => false,
        };
        correlated == exchange && !(self.data.is_input_event() && exchange)
    }

    /// A packet of the given parts, or `None` where they do not make a well
    /// formed packet.
    pub fn new(
        message_id: Option<u32>,
        transport_mode: TransportMode,
        timestamp: u64,
        data: PacketData,
    ) -> (r: Option<Self>)
        ensures
            r.is_some() <==> (DataPacket { message_id, transport_mode, timestamp, data }).well_formed(),
            r.is_some() ==> r.unwrap() == (DataPacket {
                message_id,
                transport_mode,
                timestamp,
                data,
            }),
    {
        let packet = DataPacket { message_id, transport_mode, timestamp, data };
        if packet.is_valid() {
            Some(packet)
        } else {
            None
        }
    }

    /// A one-way packet.
    pub fn broadcast(timestamp: u64, data: PacketData) -> (r: Self)
        ensures
            r.well_formed(),
            r == (DataPacket {
                message_id: None,
                transport_mode: TransportMode::Broadcast,
                timestamp,
                data,
            }),
    {
        DataPacket { message_id: None, transport_mode: TransportMode::Broadcast, timestamp, data }
    }

    /// A packet of a request/response exchange, or `None` for an input
    /// event, which may only be broadcast.
    pub fn request_response(message_id: u32, timestamp: u64, data: PacketData) -> (r: Option<Self>)
        ensures
            r.is_some() <==> !spec_is_input_event(data),
            r.is_some() ==> r.unwrap().well_formed() && r.unwrap() == (DataPacket {
                message_id: Some(message_id),
                transport_mode: TransportMode::RequestResponse,
                timestamp,
                data,
            }),
    {
        if data.is_input_event() {
            None
        } else {
            Some(
                DataPacket {
                    message_id: Some(message_id),
                    transport_mode: TransportMode::RequestResponse,
                    timestamp,
                    data,
                },
            )
        }
    }
}

} // verus!
