use sync_pointer::api::service::handle_service_type_change;
use sync_pointer::api::service::start_service;
use sync_pointer::api::service::ServiceCommand;
use sync_pointer::config::network::NetworkSettings;
use sync_pointer::config::network::ServiceType;
use sync_pointer::config::system::Locale;
use sync_pointer::config::system::SystemSettings;
use sync_pointer::config::system::Theme;
use sync_pointer::constant::DEFAULT_MDNS_PORT;
use sync_pointer::constant::DEFAULT_TCP_PORT;
use sync_pointer::constant::MDNS_SERVER_NAME;
use sync_pointer::constant::MDNS_SERVICE_TYPE;

#[test]
fn well_known_names_and_ports() {
    assert_eq!(MDNS_SERVICE_TYPE, "_sp._udp.local.");
    assert_eq!(MDNS_SERVER_NAME, "sp");
    assert_eq!(DEFAULT_MDNS_PORT, 3456);
    assert_eq!(DEFAULT_TCP_PORT, 3457);
}

#[test]
fn network_settings_start_as_a_client_on_the_default_ports() {
    let n = NetworkSettings::with_ip("192.168.1.5".to_string());
    assert_eq!(n.service_type(), ServiceType::Client);
    assert_eq!(n.hostname(), "sync-pointer");
    assert_eq!(n.ip(), "192.168.1.5");
    assert_eq!(n.mdns_port(), 3456);
    assert_eq!(n.tcp_port(), 3457);
}

#[test]
fn network_settings_getters_return_what_was_given() {
    let n = NetworkSettings::new(ServiceType::Server, "desk".to_string(), "10.0.0.1".to_string(), 1, 2);
    assert_eq!(n.service_type(), ServiceType::Server);
    assert_eq!(n.hostname(), "desk");
    assert_eq!(n.ip(), "10.0.0.1");
    assert_eq!(n.mdns_port(), 1);
    assert_eq!(n.tcp_port(), 2);
}

#[test]
fn update_server_info_replaces_only_what_is_given() {
    let mut n = NetworkSettings::with_ip("10.0.0.1".to_string());
    assert!(!n.update_server_info(None, None, None, false));
    assert_eq!(n, NetworkSettings::with_ip("10.0.0.1".to_string()));
    assert!(n.update_server_info(Some("desk".to_string()), None, Some(4000), true));
    assert_eq!(
        n,
        NetworkSettings::new(ServiceType::Client, "desk".to_string(), "10.0.0.1".to_string(), 3456, 4000)
    );
    assert!(!n.update_server_info(None, Some(5000), None, false));
    assert_eq!(n.mdns_port(), 5000);
    assert_eq!(n.tcp_port(), 4000);
    assert_eq!(n.hostname(), "desk");
}

#[test]
fn system_settings_getters_return_what_was_given() {
    let s = SystemSettings::new("id-1".to_string(), Theme::Dark, Locale::ZhCN, true);
    assert_eq!(s.id(), "id-1");
    assert_eq!(s.theme(), Theme::Dark);
    assert_eq!(s.locale(), Locale::ZhCN);
    assert!(s.auto_start());
}

#[test]
fn default_system_settings_have_a_fresh_identifier() {
    let a = SystemSettings::default();
    let b = SystemSettings::default();
    assert_eq!(a.id().chars().count(), 36);
    assert_eq!(a.id().matches('-').count(), 4);
    assert_ne!(a.id(), b.id());
    assert_eq!(a.theme(), Theme::Auto);
    assert_eq!(a.locale(), Locale::Auto);
    assert!(!a.auto_start());
}

#[test]
fn starting_as_a_server_starts_advertiser_and_listener() {
    assert_eq!(
        start_service("server"),
        vec![ServiceCommand::StartMdnsServer, ServiceCommand::StartTcpServer]
    );
}

#[test]
fn starting_as_anything_else_starts_the_browser() {
    assert_eq!(start_service("client"), vec![ServiceCommand::StartMdnsClient]);
    assert_eq!(start_service(""), vec![ServiceCommand::StartMdnsClient]);
    assert_eq!(start_service("Server"), vec![ServiceCommand::StartMdnsClient]);
}

#[test]
fn changing_role_stops_the_other_role_first() {
    assert_eq!(
        handle_service_type_change("server"),
        vec![
            ServiceCommand::StopMdnsClient,
            ServiceCommand::StopTcpClient,
            ServiceCommand::StartMdnsServer,
            ServiceCommand::StartTcpServer,
        ]
    );
    assert_eq!(
        handle_service_type_change("client"),
        vec![
            ServiceCommand::StopMdnsServer,
            ServiceCommand::StopTcpServer,
            ServiceCommand::StartMdnsClient,
        ]
    );
}
