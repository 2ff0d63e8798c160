//! Validation of what the discovery browser resolves.
//!
//! A resolved advertisement becomes a peer to dial only if it carries an
//! address, a valid `tcp_port`, a `device_id`, and is not our own.

use vstd::prelude::*;
use crate::service::server::mdns::spec_advertised_properties;
use crate::service::txt::get_string;
use crate::service::txt::get_u16;
use crate::service::txt::lemma_written_port_parses;
use crate::service::txt::spec_find_property;
use crate::service::txt::spec_get_u16;
use crate::service::txt::str_eq;
use crate::service::txt::TxtProperty;
use super::ServerInfo;
use super::ServerInfoView;

verus! {

/// A resolved service advertisement, as plain values.
#[derive(Debug, Clone, PartialEq, Eq)]
pub struct ResolvedRecord {
    /// Full name of the service instance.
    pub fullname: String,
    /// Host the service runs on.
    pub hostname: String,
    /// Port of the service record itself.
    pub port: u16,
    /// Addresses of the host, in the order the browser reported them.
    pub addresses: Vec<String>,
    /// TXT properties, in record order.
    pub properties: Vec<TxtProperty>,
}

/// An event of the discovery browser.
#[derive(Debug, Clone, PartialEq, Eq)]
pub enum DiscoveryEvent {
    /// A service was resolved.
    ServiceResolved(ResolvedRecord),
    /// Anything else: a search started or stopped, a service was found but
    /// not yet resolved, or removed.
    Other,
}

/// The peer that `record` describes, if it is one to dial: it has an
/// address, a valid `tcp_port` and a `device_id` other than `my_device_id`.
pub open spec fn spec_resolve_device_info(
    record: ResolvedRecord,
    my_device_id: Seq<char>,
) -> Option<ServerInfoView> {
    if record.addresses@.len() == 0 {
        None
    } else {
        match (
            spec_get_u16(record.properties@, "tcp_port"@),
            spec_find_property(record.properties@, "device_id"@),
        ) {
            (Some(tcp_port), Some(device_id)) => if device_id == my_device_id {
                None
            } else {
                Some(
                    ServerInfoView {
                        device_id,
                        hostname: record.hostname@,
                        ip: record.addresses@[0]@,
                        tcp_port,
                    },
                )
            },
            _ => None,
        }
    }
}

/// The peer that `event` asks the connection manager to dial, if any.
pub open spec fn spec_handle_mdns_event(event: DiscoveryEvent, my_device_id: Seq<char>) -> Option<
    ServerInfoView,
> {
    match event {
        DiscoveryEvent::ServiceResolved(record) => spec_resolve_device_info(record, my_device_id),
        DiscoveryEvent::Other => None,
    }
}

/// Turns a resolved record into the peer to dial.
///
/// `None` where the record has no address, no valid `tcp_port`, no
/// `device_id`, or where its `device_id` is `my_device_id`: a device never
/// dials itself. Otherwise the peer carries the record's first address.
pub fn resolve_device_info(record: &ResolvedRecord, my_device_id: &str) -> (r: Option<ServerInfo>)
    ensures
        match r {
            Some(peer) => spec_resolve_device_info(*record, my_device_id@) == Some(peer@),
            None => spec_resolve_device_info(*record, my_device_id@).is_none(),
        },
{
    if record.addresses.len() == 0 {
        return None;
    }
    let ip = record.addresses[0].clone();
    let tcp_port = match get_u16(&record.properties, "tcp_port") {
        Some(port) => port,
        None => {
            return None;
        },
    };
    let device_id = match get_string(&record.properties, "device_id") {
        Some(id) => id,
        None => {
            return None;
        },
    };
    if str_eq(device_id.as_str(), my_device_id) {
        return None;
    }
    Some(ServerInfo { device_id, hostname: record.hostname.clone(), ip, tcp_port })
}

/// Decides what a browser event means for the connection manager: the peer
/// to dial for a resolved record that passes validation, nothing otherwise.
pub fn handle_mdns_event(event: &DiscoveryEvent, my_device_id: &str) -> (r: Option<ServerInfo>)
    ensures
        match r {
            Some(peer) => spec_handle_mdns_event(*event, my_device_id@) == Some(peer@),
            None => spec_handle_mdns_event(*event, my_device_id@).is_none(),
        },
{
    match event {
        DiscoveryEvent::ServiceResolved(record) => resolve_device_info(record, my_device_id),
        DiscoveryEvent::Other => None,
    }
}

/// A record without an address, without a valid `tcp_port`, without a
/// `device_id`, or with our own `device_id`, never yields a peer.
pub proof fn lemma_invalid_record_rejected(record: ResolvedRecord, my_device_id: Seq<char>)
    requires
        record.addresses@.len() == 0 || spec_find_property(record.properties@, "tcp_port"@).is_none()
            || spec_get_u16(record.properties@, "tcp_port"@).is_none() || spec_find_property(
            record.properties@,
            "device_id"@,
        ).is_none() || spec_find_property(record.properties@, "device_id"@) == Some(my_device_id),
    ensures
        spec_resolve_device_info(record, my_device_id).is_none(),
        spec_handle_mdns_event(DiscoveryEvent::ServiceResolved(record), my_device_id).is_none(),
{
}

/// Every peer handed to the connection manager carries the record's
/// `device_id` and `tcp_port`, and its `device_id` is not our own.
pub proof fn lemma_resolved_peer_is_valid(record: ResolvedRecord, my_device_id: Seq<char>)
    requires
        spec_resolve_device_info(record, my_device_id).is_some(),
    ensures
        ({
            let peer = spec_resolve_device_info(record, my_device_id).unwrap();
            &&& peer.device_id != my_device_id
            &&& spec_find_property(record.properties@, "device_id"@) == Some(peer.device_id)
            &&& spec_get_u16(record.properties@, "tcp_port"@) == Some(peer.tcp_port)
            &&& record.addresses@.len() > 0
            &&& peer.ip == record.addresses@[0]@
            &&& peer.hostname == record.hostname@
        }),
{
}

/// What a server publishes, a browser resolves: a record that carries an
/// address and the properties of a server with the session port `tcp_port`
/// and the identifier `device_id` yields the peer with exactly that port and
/// identifier, unless the identifier is our own.
pub proof fn lemma_advertised_peer_resolves(
    record: ResolvedRecord,
    tcp_port: u16,
    device_id: Seq<char>,
    my_device_id: Seq<char>,
)
    requires
        record.addresses@.len() > 0,
        spec_advertised_properties(record.properties@, tcp_port, device_id),
    ensures
        spec_resolve_device_info(record, my_device_id) == if device_id == my_device_id {
            None
        } else {
            Some(
                ServerInfoView {
                    device_id,
                    hostname: record.hostname@,
                    ip: record.addresses@[0]@,
                    tcp_port,
                },
            )
        },
{
    reveal_strlit("tcp_port");
    reveal_strlit("device_id");
    lemma_written_port_parses(tcp_port);
    let properties = record.properties@;
    let tail = properties.subrange(1, properties.len() as int);
    assert(tail[0] == properties[1]);
    assert("tcp_port"@ != "device_id"@) by {
        assert("tcp_port"@.len() == 8);
        assert("device_id"@.len() == 9);
    }
    assert(spec_find_property(properties, "tcp_port"@) == Some(properties[0].value@));
    assert(spec_find_property(tail, "device_id"@) == Some(device_id));
    assert(spec_find_property(properties, "device_id"@) == Some(device_id));
}

} // verus!
