//! What the advertiser publishes.
//!
//! A server registers one service record: the well-known type and instance
//! name, its host under `.local.`, the discovery port, and TXT properties
//! that tell a browser where the session listener is and whose it is.

use vstd::prelude::*;
use vstd::string::StringExecFns;
use crate::service::txt::decimal_text;
use crate::service::txt::spec_decimal_text;
use crate::service::txt::TxtProperty;

verus! {

/// The service record a server registers, as plain values.
#[derive(Debug, Clone, PartialEq, Eq)]
pub struct Advertisement {
    /// Service type, `_sp._udp.local.`.
    pub service_type: String,
    /// Instance name, `sp`.
    pub instance_name: String,
    /// Host of the service: the host name followed by `.local.`.
    pub host: String,
    /// The discovery port.
    pub port: u16,
    /// TXT properties: `tcp_port`, then `device_id`.
    pub properties: Vec<TxtProperty>,
}

/// Whether `properties` are exactly those that a server with the session
/// port `tcp_port` and the identifier `device_id` publishes.
pub open spec fn spec_advertised_properties(
    properties: Seq<TxtProperty>,
    tcp_port: u16,
    device_id: Seq<char>,
) -> bool {
    &&& properties.len() == 2
    &&& properties[0].key@ == "tcp_port"@
    &&& properties[0].value@ == spec_decimal_text(tcp_port as nat)
    &&& properties[1].key@ == "device_id"@
    &&& properties[1].value@ == device_id
}

/// The record that a server named `hostname` registers on the discovery
/// port `mdns_port`, for its session listener on `tcp_port` and its device
/// `device_id`.
pub fn advertisement(hostname: &str, mdns_port: u16, tcp_port: u16, device_id: &str) -> (r:
    Advertisement)
    ensures
        r.service_type@ == "_sp._udp.local."@,
        r.instance_name@ == "sp"@,
        r.host@ == hostname@ + ".local."@,
        r.port == mdns_port,
        spec_advertised_properties(r.properties@, tcp_port, device_id@),
{
    let mut host = String::from_str(hostname);
    host.append(".local.");
    let mut properties: Vec<TxtProperty> = Vec::new();
    properties.push(
        TxtProperty { key: String::from_str("tcp_port"), value: decimal_text(tcp_port) },
    );
    properties.push(
        TxtProperty { key: String::from_str("device_id"), value: String::from_str(device_id) },
    );
    Advertisement {
        service_type: String::from_str("_sp._udp.local."),
        instance_name: String::from_str("sp"),
        host,
        port: mdns_port,
        properties,
    }
}

} // verus!
