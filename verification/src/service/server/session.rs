//! What the registry knows of one session.

use vstd::prelude::*;
use crate::service::protocols::base::DeviceInfo;
use super::listener::ServerListener;

verus! {

/// Server-side state of one accepted connection.
#[derive(Debug, Clone, PartialEq)]
pub struct SessionContext {
    /// What the peer said of itself; unset until the handshake.
    pub device_info: Option<DeviceInfo>,
    /// Activity tracker of the session's reader.
    pub server_listener: ServerListener,
}

impl SessionContext {
    /// A session before its handshake.
    pub open spec fn spec_new(server_listener: ServerListener) -> Self {
        SessionContext { device_info: None, server_listener }
    }

    /// A session before its handshake.
    pub fn new(server_listener: ServerListener) -> (r: Self)
        ensures
            r == Self::spec_new(server_listener),
    {
        SessionContext { device_info: None, server_listener }
    }

    /// What the peer said of itself, once the handshake took place.
    pub fn device_info(&self) -> (r: Option<&DeviceInfo>)
        ensures
            r.is_some() == self.device_info.is_some(),
            r.is_some() ==> *r.unwrap() == self.device_info.unwrap(),
    {
        self.device_info.as_ref()
    }

    /// Attaches the peer's device information.
    pub fn set_device_info(&mut self, device_info: DeviceInfo)
        ensures
            final(self).device_info == Some(device_info),
            final(self).server_listener == old(self).server_listener,
    {
        self.device_info = Some(device_info);
    }
}

} // verus!
