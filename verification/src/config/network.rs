//! Network settings: role, host name, address and ports.

use vstd::prelude::*;
use vstd::string::StringExecFns;
use crate::constant::DEFAULT_MDNS_PORT;
use crate::constant::DEFAULT_TCP_PORT;

verus! {

/// The role a device plays.
#[derive(Debug, Clone, Copy, PartialEq, Eq, Structural)]
pub enum ServiceType {
    /// It advertises and accepts connections.
    Server,
    /// It browses and dials.
    Client,
}

/// Network settings of a device.
#[derive(Debug, Clone, PartialEq, Eq)]
pub struct NetworkSettings {
    service_type: ServiceType,
    hostname: String,
    ip: String,
    mdns_port: u16,
    tcp_port: u16,
}

/// Plain model of [`NetworkSettings`].
pub struct NetworkSettingsView {
    pub service_type: ServiceType,
    pub hostname: Seq<char>,
    pub ip: Seq<char>,
    pub mdns_port: u16,
    pub tcp_port: u16,
}

impl View for NetworkSettings {
    type V = NetworkSettingsView;

    closed spec fn view(&self) -> NetworkSettingsView {
        NetworkSettingsView {
            service_type: self.service_type,
            hostname: self.hostname@,
            ip: self.ip@,
            mdns_port: self.mdns_port,
            tcp_port: self.tcp_port,
        }
    }
}

/// The settings after an update: each value given replaces the one held.
pub open spec fn spec_update_server_info(
    before: NetworkSettingsView,
    host: Option<Seq<char>>,
    mdns_port: Option<u16>,
    tcp_port: Option<u16>,
) -> NetworkSettingsView {
    NetworkSettingsView {
        service_type: before.service_type,
        hostname: match host {
            Some(h) => h,
            None => before.hostname,
        },
        ip: before.ip,
        mdns_port: match mdns_port {
            Some(p) => p,
            None => before.mdns_port,
        },
        tcp_port: match tcp_port {
            Some(p) => p,
            None => before.tcp_port,
        },
    }
}

impl NetworkSettings {
    /// Settings of the given parts.
    pub fn new(
        service_type: ServiceType,
        hostname: String,
        ip: String,
        mdns_port: u16,
        tcp_port: u16,
    ) -> (r: Self)
        ensures
            r@ == (NetworkSettingsView {
                service_type,
                hostname: hostname@,
                ip: ip@,
                mdns_port,
                tcp_port,
            }),
    {
        NetworkSettings { service_type, hostname, ip, mdns_port, tcp_port }
    }

    /// The settings a device starts with when its local address is `ip`: a
    /// client named `sync-pointer` on the default ports.
    pub fn with_ip(ip: String) -> (r: Self)
        ensures
            r@ == (NetworkSettingsView {
                service_type: ServiceType::Client,
                hostname: "sync-pointer"@,
                ip: ip@,
                mdns_port: DEFAULT_MDNS_PORT,
                tcp_port: DEFAULT_TCP_PORT,
            }),
    {
        NetworkSettings {
            service_type: ServiceType::Client,
            hostname: String::from_str("sync-pointer"),
            ip,
            mdns_port: DEFAULT_MDNS_PORT,
            tcp_port: DEFAULT_TCP_PORT,
        }
    }

    /// The role.
    pub fn service_type(&self) -> (r: ServiceType)
        ensures
            r == self@.service_type,
    {
        self.service_type
    }

    /// The host name.
    pub fn hostname(&self) -> (r: String)
        ensures
            r@ == self@.hostname,
    {
        self.hostname.clone()
    }

    /// The local address.
    pub fn ip(&self) -> (r: String)
        ensures
            r@ == self@.ip,
    {
        self.ip.clone()
    }

    /// The discovery port.
    pub fn mdns_port(&self) -> (r: u16)
        ensures
            r == self@.mdns_port,
    {
        self.mdns_port
    }

    /// The port of the TCP session listener.
    pub fn tcp_port(&self) -> (r: u16)
        ensures
            r == self@.tcp_port,
    {
        self.tcp_port
    }

    /// Applies the values that are given and says whether the advertiser
    /// has to be restarted to publish them again: it has exactly when it is
    /// running.
    pub fn update_server_info(
        &mut self,
        host: Option<String>,
        mdns_port: Option<u16>,
        tcp_port: Option<u16>,
        running: bool,
    ) -> (restart: bool)
        ensures
            final(self)@ == spec_update_server_info(
                old(self)@,
                match host {
                    Some(h) => Some(h@),
                    None => None,
                },
                mdns_port,
                tcp_port,
            ),
            restart == running,
    {
        if let Some(h) = host {
            self.hostname = h;
        }
        if let Some(p) = mdns_port {
            self.mdns_port = p;
        }
        if let Some(p) = tcp_port {
            self.tcp_port = p;
        }
        running
    }
}

} // verus!
