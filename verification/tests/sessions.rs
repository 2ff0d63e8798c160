use sync_pointer::constant::DEFAULT_TCP_PORT;
use sync_pointer::constant::SESSION_IDLE_THRESHOLD_SECONDS;
use sync_pointer::service::protocols::base::DeviceInfo;
use sync_pointer::service::protocols::base::OsType;
use sync_pointer::service::server::listener::ServerListener;
use sync_pointer::service::server::listener::SessionEnd;
use sync_pointer::service::server::listener::SessionEvent;
use sync_pointer::service::server::listener::SessionStep;
use sync_pointer::service::server::session::SessionContext;
use sync_pointer::service::server::tcp::AcceptEvent;
use sync_pointer::service::server::tcp::AcceptStep;
use sync_pointer::service::server::tcp::TcpServer;

fn device(id: &str) -> DeviceInfo {
    DeviceInfo {
        device_id: id.to_string(),
        hostname: "laptop".to_string(),
        os_type: OsType::Nix,
        app_version: "0.1.0".to_string(),
        capabilities: vec!["clipboard".to_string()],
    }
}

fn fresh(now: u64) -> SessionContext {
    SessionContext::new(ServerListener::new(now))
}

#[test]
fn a_listener_starts_active_with_the_default_threshold() {
    let l = ServerListener::new(1000);
    assert_eq!(SESSION_IDLE_THRESHOLD_SECONDS, 120);
    assert_eq!(l.last_activity, 1000);
    assert_eq!(l.idle_threshold, 120);
    assert!(!l.is_idle(1000));
}

#[test]
fn a_session_is_idle_only_past_the_threshold() {
    let l = ServerListener::new(1000);
    assert!(!l.is_idle(1119));
    assert!(!l.is_idle(1120));
    assert!(l.is_idle(1121));
    assert!(l.is_idle(u64::MAX));
    assert!(!l.is_idle(999));
    assert!(!l.is_idle(0));
}

#[test]
fn an_idle_check_ends_an_idle_session() {
    let mut l = ServerListener::new(1000);
    assert_eq!(l.handle_event(SessionEvent::IdleCheck, 1120), SessionStep::Continue);
    assert_eq!(
        l.handle_event(SessionEvent::IdleCheck, 1121),
        SessionStep::End(SessionEnd::IdleTimeout)
    );
    assert_eq!(l.last_activity, 1000);
}

#[test]
fn a_frame_just_before_the_threshold_resets_the_timer() {
    let mut l = ServerListener::new(1000);
    assert_eq!(l.handle_event(SessionEvent::FrameReceived, 1119), SessionStep::Continue);
    assert_eq!(l.last_activity, 1119);
    assert_eq!(l.handle_event(SessionEvent::IdleCheck, 1121), SessionStep::Continue);
    assert_eq!(l.handle_event(SessionEvent::IdleCheck, 1239), SessionStep::Continue);
    assert_eq!(
        l.handle_event(SessionEvent::IdleCheck, 1240),
        SessionStep::End(SessionEnd::IdleTimeout)
    );
}

#[test]
fn a_custom_threshold_is_honoured() {
    let mut l = ServerListener::with_idle_threshold(10, 5);
    assert_eq!(l.idle_threshold, 5);
    assert_eq!(l.handle_event(SessionEvent::IdleCheck, 15), SessionStep::Continue);
    assert_eq!(
        l.handle_event(SessionEvent::IdleCheck, 16),
        SessionStep::End(SessionEnd::IdleTimeout)
    );
}

#[test]
fn other_events_end_the_session_with_their_reason() {
    let mut l = ServerListener::new(5);
    assert_eq!(
        l.handle_event(SessionEvent::Shutdown, 6),
        SessionStep::End(SessionEnd::Shutdown)
    );
    assert_eq!(
        l.handle_event(SessionEvent::PeerClosed, 6),
        SessionStep::End(SessionEnd::PeerClosed)
    );
    assert_eq!(
        l.handle_event(SessionEvent::ReadFailed, 6),
        SessionStep::End(SessionEnd::ReadFailed)
    );
    assert_eq!(l, ServerListener::new(5));
}

#[test]
fn a_session_context_starts_without_device_info() {
    let mut s = fresh(3);
    assert_eq!(s.device_info(), None);
    s.set_device_info(device("A"));
    assert_eq!(s.device_info(), Some(&device("A")));
    assert_eq!(s.server_listener, ServerListener::new(3));
}

#[test]
fn a_new_server_has_no_sessions_and_the_default_port() {
    let server = TcpServer::new();
    assert_eq!(DEFAULT_TCP_PORT, 3457);
    assert_eq!(server.port(), 3457);
    assert_eq!(server.session_keys(), Vec::<String>::new());
    assert_eq!(server.session("10.0.0.2:5000"), None);
}

#[test]
fn accept_registers_a_session() {
    let mut server = TcpServer::new();
    assert_eq!(server.accept("10.0.0.2:5000".to_string(), 100), None);
    assert_eq!(server.session("10.0.0.2:5000"), Some(fresh(100)));
    assert_eq!(server.session("10.0.0.3:5000"), None);
    assert_eq!(server.session_keys(), vec!["10.0.0.2:5000".to_string()]);
}

#[test]
fn accept_on_a_known_address_replaces_the_session() {
    let mut server = TcpServer::new();
    server.accept("10.0.0.2:5000".to_string(), 100);
    assert_eq!(server.accept("10.0.0.2:5000".to_string(), 200), Some(fresh(100)));
    assert_eq!(server.session("10.0.0.2:5000"), Some(fresh(200)));
    assert_eq!(server.session_keys().len(), 1);
}

#[test]
fn an_idle_session_is_evicted() {
    let mut server = TcpServer::new();
    server.accept("a:1".to_string(), 1000);
    server.accept("b:2".to_string(), 1000);
    assert_eq!(server.handle_event("b:2", SessionEvent::FrameReceived, 1100), Some(SessionStep::Continue));
    assert_eq!(server.handle_event("a:1", SessionEvent::IdleCheck, 1120), Some(SessionStep::Continue));
    assert_eq!(
        server.handle_event("a:1", SessionEvent::IdleCheck, 1121),
        Some(SessionStep::End(SessionEnd::IdleTimeout))
    );
    assert_eq!(server.session("a:1"), None);
    assert_eq!(server.handle_event("b:2", SessionEvent::IdleCheck, 1121), Some(SessionStep::Continue));
    assert_eq!(server.session_keys(), vec!["b:2".to_string()]);
    assert_eq!(server.handle_event("a:1", SessionEvent::IdleCheck, 1122), None);
}

#[test]
fn a_frame_at_threshold_minus_one_keeps_the_session_past_the_threshold() {
    let mut server = TcpServer::new();
    server.accept("a:1".to_string(), 0);
    assert_eq!(server.handle_event("a:1", SessionEvent::FrameReceived, 119), Some(SessionStep::Continue));
    assert_eq!(server.session("a:1").unwrap().server_listener.last_activity, 119);
    assert_eq!(server.handle_event("a:1", SessionEvent::IdleCheck, 121), Some(SessionStep::Continue));
    assert!(server.session("a:1").is_some());
    assert_eq!(
        server.handle_event("a:1", SessionEvent::IdleCheck, 240),
        Some(SessionStep::End(SessionEnd::IdleTimeout))
    );
    assert!(server.session("a:1").is_none());
}

#[test]
fn a_session_that_ends_leaves_the_registry_whatever_the_reason() {
    for (event, end) in [
        (SessionEvent::Shutdown, SessionEnd::Shutdown),
        (SessionEvent::PeerClosed, SessionEnd::PeerClosed),
        (SessionEvent::ReadFailed, SessionEnd::ReadFailed),
    ] {
        let mut server = TcpServer::new();
        server.accept("a:1".to_string(), 0);
        server.accept("b:2".to_string(), 0);
        assert_eq!(server.handle_event("a:1", event, 1), Some(SessionStep::End(end)));
        assert_eq!(server.session("a:1"), None);
        assert_eq!(server.session("b:2"), Some(fresh(0)));
    }
}

#[test]
fn a_frame_keeps_the_device_info() {
    let mut server = TcpServer::new();
    server.accept("a:1".to_string(), 0);
    assert!(server.set_device_info("a:1", device("A")));
    assert!(!server.set_device_info("zz:9", device("Z")));
    server.handle_event("a:1", SessionEvent::FrameReceived, 50);
    let session = server.session("a:1").unwrap();
    assert_eq!(session.device_info, Some(device("A")));
    assert_eq!(session.server_listener.last_activity, 50);
    assert_eq!(server.session("zz:9"), None);
}

#[test]
fn end_session_removes_and_returns_it() {
    let mut server = TcpServer::new();
    server.accept("a:1".to_string(), 7);
    assert_eq!(server.end_session("a:1"), Some(fresh(7)));
    assert_eq!(server.end_session("a:1"), None);
    assert_eq!(server.session_keys(), Vec::<String>::new());
}

#[test]
fn stop_returns_every_session_once_and_empties_the_registry() {
    let mut server = TcpServer::new();
    server.accept("a:1".to_string(), 0);
    server.accept("b:2".to_string(), 0);
    server.accept("c:3".to_string(), 0);
    server.accept("b:2".to_string(), 5);
    let mut keys = server.stop();
    keys.sort();
    assert_eq!(keys, vec!["a:1".to_string(), "b:2".to_string(), "c:3".to_string()]);
    assert_eq!(server.session_keys(), Vec::<String>::new());
    assert_eq!(server.session("a:1"), None);
    assert_eq!(server.stop(), Vec::<String>::new());
    assert_eq!(server.port(), 3457);
}

#[test]
fn update_server_info_sets_the_port_and_restarts_only_when_running() {
    let mut server = TcpServer::new();
    server.accept("a:1".to_string(), 0);
    assert!(!server.update_server_info(Some(4000), false));
    assert_eq!(server.port(), 4000);
    assert!(server.update_server_info(None, true));
    assert_eq!(server.port(), 4000);
    assert!(server.update_server_info(Some(4001), true));
    assert_eq!(server.port(), 4001);
    assert_eq!(server.session_keys(), vec!["a:1".to_string()]);
}

#[test]
fn the_accept_loop_registers_only_sessions_whose_reader_started() {
    let mut server = TcpServer::new();
    let accepted = |addr: &str, reader_started: bool| AcceptEvent::Accepted {
        addr: addr.to_string(),
        reader_started,
    };
    assert_eq!(server.handle_accept(accepted("a:1", true), 10), AcceptStep::Registered(None));
    assert_eq!(server.handle_accept(accepted("b:2", false), 11), AcceptStep::DropConnection);
    assert_eq!(server.handle_accept(AcceptEvent::AcceptFailed, 12), AcceptStep::Continue);
    assert_eq!(server.session_keys(), vec!["a:1".to_string()]);
    assert_eq!(
        server.handle_accept(accepted("a:1", true), 20),
        AcceptStep::Registered(Some(fresh(10)))
    );
    assert_eq!(server.session("a:1"), Some(fresh(20)));
    assert_eq!(server.handle_accept(AcceptEvent::Shutdown, 30), AcceptStep::Stop);
    assert_eq!(server.session_keys(), vec!["a:1".to_string()]);
}

#[test]
fn the_listener_binds_every_interface_on_the_configured_port() {
    let mut server = TcpServer::new();
    assert_eq!(server.bind_address(), "0.0.0.0:3457");
    server.update_server_info(Some(80), false);
    assert_eq!(server.bind_address(), "0.0.0.0:80");
    server.update_server_info(Some(65535), false);
    assert_eq!(server.bind_address(), "0.0.0.0:65535");
}
