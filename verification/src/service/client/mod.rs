//! The browsing role: discovery of a peer and the connection to it.

use vstd::prelude::*;
use vstd::string::StringExecFns;
use crate::service::txt::decimal_text;
use crate::service::txt::spec_decimal_text;

pub mod mdns;
pub mod tcp;

verus! {

/// What discovery learned of a peer: enough to dial it.
#[derive(Debug, Clone, PartialEq, Eq)]
pub struct ServerInfo {
    /// Stable identifier of the peer's device.
    pub device_id: String,
    /// Host name the peer advertises under.
    pub hostname: String,
    /// Address to dial.
    pub ip: String,
    /// Port of the peer's session listener.
    pub tcp_port: u16,
}

/// Plain model of a [`ServerInfo`].
pub struct ServerInfoView {
    pub device_id: Seq<char>,
    pub hostname: Seq<char>,
    pub ip: Seq<char>,
    pub tcp_port: u16,
}

impl View for ServerInfo {
    type V = ServerInfoView;

    open spec fn view(&self) -> ServerInfoView {
        ServerInfoView {
            device_id: self.device_id@,
            hostname: self.hostname@,
            ip: self.ip@,
            tcp_port: self.tcp_port,
        }
    }
}

impl ServerInfo {
    /// The socket address to dial: the address, a colon, and the port in
    /// decimal.
    pub fn socket_address(&self) -> (r: String)
        ensures
            r@ == self.ip@ + ":"@ + spec_decimal_text(self.tcp_port as nat),
    {
        let mut address = self.ip.clone();
        address.append(":");
        let port = decimal_text(self.tcp_port);
        address.append(port.as_str());
        address
    }
}

} // verus!
