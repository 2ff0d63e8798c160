use sync_pointer::service::client::mdns::handle_mdns_event;
use sync_pointer::service::client::mdns::resolve_device_info;
use sync_pointer::service::client::mdns::DiscoveryEvent;
use sync_pointer::service::client::mdns::ResolvedRecord;
use sync_pointer::service::client::ServerInfo;
use sync_pointer::service::server::mdns::advertisement;
use sync_pointer::service::txt::decimal_text;
use sync_pointer::service::txt::find_property;
use sync_pointer::service::txt::get_string;
use sync_pointer::service::txt::get_u16;
use sync_pointer::service::txt::parse_u16;
use sync_pointer::service::txt::TxtProperty;

fn prop(key: &str, value: &str) -> TxtProperty {
    TxtProperty { key: key.to_string(), value: value.to_string() }
}

fn record(addresses: &[&str], properties: Vec<TxtProperty>) -> ResolvedRecord {
    ResolvedRecord {
        fullname: "sp._sp._udp.local.".to_string(),
        hostname: "desk.local.".to_string(),
        port: 3456,
        addresses: addresses.iter().map(|a| a.to_string()).collect(),
        properties,
    }
}

#[test]
fn parse_u16_reads_decimal_ports() {
    assert_eq!(parse_u16("3457"), Some(3457));
    assert_eq!(parse_u16("0"), Some(0));
    assert_eq!(parse_u16("65535"), Some(65535));
    assert_eq!(parse_u16("0080"), Some(80));
    assert_eq!(parse_u16("+80"), Some(80));
    assert_eq!(parse_u16("000000000000000000000065535"), Some(65535));
}

#[test]
fn parse_u16_rejects_what_is_no_port() {
    assert_eq!(parse_u16(""), None);
    assert_eq!(parse_u16("+"), None);
    assert_eq!(parse_u16("65536"), None);
    assert_eq!(parse_u16("99999999999999999999"), None);
    assert_eq!(parse_u16("-1"), None);
    assert_eq!(parse_u16("++1"), None);
    assert_eq!(parse_u16("12a"), None);
    assert_eq!(parse_u16("a12"), None);
    assert_eq!(parse_u16(" 12"), None);
    assert_eq!(parse_u16("12 "), None);
    assert_eq!(parse_u16("1.5"), None);
    assert_eq!(parse_u16("١٢"), None);
    assert_eq!(parse_u16("70000x"), None);
}

#[test]
fn parse_u16_agrees_with_the_standard_parser() {
    let samples = [
        "", "+", "-", "0", "+0", "-0", "7", "42", "3457", "65535", "65536", "065535", "+65535",
        "+65536", "1e3", "0x10", "12_3", "é", "9é", "４２",
    ];
    for sample in samples {
        assert_eq!(parse_u16(sample), sample.parse::<u16>().ok());
    }
}

#[test]
fn decimal_text_writes_without_leading_zeros() {
    assert_eq!(decimal_text(0), "0");
    assert_eq!(decimal_text(7), "7");
    assert_eq!(decimal_text(10), "10");
    assert_eq!(decimal_text(3457), "3457");
    assert_eq!(decimal_text(65535), "65535");
}

#[test]
fn a_written_port_parses_to_itself() {
    for port in [0u16, 1, 9, 10, 99, 100, 3456, 3457, 9999, 10000, 65534, 65535] {
        assert_eq!(parse_u16(&decimal_text(port)), Some(port));
    }
}

#[test]
fn find_property_takes_the_first_match() {
    let props = vec![prop("a", "1"), prop("b", "2"), prop("a", "3")];
    assert_eq!(find_property(&props, "a"), Some(&"1".to_string()));
    assert_eq!(find_property(&props, "b"), Some(&"2".to_string()));
    assert_eq!(find_property(&props, "c"), None);
    assert_eq!(find_property(&Vec::new(), "a"), None);
}

#[test]
fn get_u16_and_get_string_read_properties() {
    let props = vec![prop("tcp_port", "3457"), prop("device_id", "A"), prop("bad", "x1")];
    assert_eq!(get_u16(&props, "tcp_port"), Some(3457));
    assert_eq!(get_u16(&props, "bad"), None);
    assert_eq!(get_u16(&props, "device_id"), None);
    assert_eq!(get_u16(&props, "missing"), None);
    assert_eq!(get_string(&props, "device_id"), Some("A".to_string()));
    assert_eq!(get_string(&props, "tcp_port"), Some("3457".to_string()));
    assert_eq!(get_string(&props, "missing"), None);
}

#[test]
fn a_valid_record_yields_the_peer() {
    let r = record(
        &["192.168.1.20", "fe80::1"],
        vec![prop("tcp_port", "3457"), prop("device_id", "A")],
    );
    assert_eq!(
        resolve_device_info(&r, "B"),
        Some(ServerInfo {
            device_id: "A".to_string(),
            hostname: "desk.local.".to_string(),
            ip: "192.168.1.20".to_string(),
            tcp_port: 3457,
        })
    );
}

#[test]
fn a_record_without_tcp_port_is_skipped() {
    let r = record(&["192.168.1.20"], vec![prop("device_id", "A")]);
    assert_eq!(resolve_device_info(&r, "B"), None);
}

#[test]
fn a_record_with_a_malformed_tcp_port_is_skipped() {
    for bad in ["", "port", "65536", "-1", "34 57"] {
        let r = record(&["192.168.1.20"], vec![prop("tcp_port", bad), prop("device_id", "A")]);
        assert_eq!(resolve_device_info(&r, "B"), None);
    }
}

#[test]
fn a_record_without_device_id_is_skipped() {
    let r = record(&["192.168.1.20"], vec![prop("tcp_port", "3457")]);
    assert_eq!(resolve_device_info(&r, "B"), None);
}

#[test]
fn a_record_of_our_own_device_is_skipped() {
    let r = record(&["127.0.0.1"], vec![prop("tcp_port", "3457"), prop("device_id", "B")]);
    assert_eq!(resolve_device_info(&r, "B"), None);
    assert!(resolve_device_info(&r, "b").is_some());
}

#[test]
fn a_record_without_address_is_rejected() {
    let r = record(&[], vec![prop("tcp_port", "3457"), prop("device_id", "A")]);
    assert_eq!(resolve_device_info(&r, "B"), None);
}

#[test]
fn only_resolved_services_reach_the_connection_manager() {
    let r = record(&["10.0.0.2"], vec![prop("tcp_port", "4000"), prop("device_id", "A")]);
    let peer = handle_mdns_event(&DiscoveryEvent::ServiceResolved(r.clone()), "B");
    assert_eq!(peer, resolve_device_info(&r, "B"));
    assert_eq!(peer.unwrap().tcp_port, 4000);
    assert_eq!(handle_mdns_event(&DiscoveryEvent::ServiceResolved(r), "A"), None);
    assert_eq!(handle_mdns_event(&DiscoveryEvent::Other, "B"), None);
}

#[test]
fn the_advertisement_carries_the_well_known_names() {
    let ad = advertisement("sync-pointer", 3456, 3457, "A");
    assert_eq!(ad.service_type, "_sp._udp.local.");
    assert_eq!(ad.instance_name, "sp");
    assert_eq!(ad.host, "sync-pointer.local.");
    assert_eq!(ad.port, 3456);
    assert_eq!(ad.properties, vec![prop("tcp_port", "3457"), prop("device_id", "A")]);
}

#[test]
fn a_browser_resolves_what_an_advertiser_publishes() {
    let ad = advertisement("desk", 3456, 3457, "A");
    let r = ResolvedRecord {
        fullname: "sp._sp._udp.local.".to_string(),
        hostname: ad.host.clone(),
        port: ad.port,
        addresses: vec!["192.168.1.20".to_string()],
        properties: ad.properties.clone(),
    };
    let peer = resolve_device_info(&r, "B").unwrap();
    assert_eq!(peer.device_id, "A");
    assert_eq!(peer.tcp_port, 3457);
    assert_eq!(peer.hostname, "desk.local.");
    assert_eq!(peer.ip, "192.168.1.20");
    assert_eq!(resolve_device_info(&r, "A"), None);
}

#[test]
fn the_socket_address_joins_address_and_port() {
    let peer = ServerInfo {
        device_id: "A".to_string(),
        hostname: "desk.local.".to_string(),
        ip: "192.168.1.20".to_string(),
        tcp_port: 3457,
    };
    assert_eq!(peer.socket_address(), "192.168.1.20:3457");
    let peer = ServerInfo { ip: "::1".to_string(), tcp_port: 0, ..peer };
    assert_eq!(peer.socket_address(), "::1:0");
}
