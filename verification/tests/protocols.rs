use sync_pointer::service::protocols::base::DataPacket;
use sync_pointer::service::protocols::base::PacketData;
use sync_pointer::service::protocols::base::Request;
use sync_pointer::service::protocols::base::Response;
use sync_pointer::service::protocols::base::ResponseStatus;
use sync_pointer::service::protocols::base::TransportMode;
use sync_pointer::service::protocols::clipboard::ClipData;
use sync_pointer::service::protocols::clipboard::ClipType;
use sync_pointer::service::protocols::clipboard::Clipboard;
use sync_pointer::service::protocols::clipboard::ClipboardResponse;
use sync_pointer::service::protocols::connection::ConnectionRequest;
use sync_pointer::service::protocols::input::KeyModifiers;
use sync_pointer::service::protocols::input::Keyboard;
use sync_pointer::service::protocols::input::MouseButton;
use sync_pointer::service::protocols::input::MouseRequest;

#[test]
fn test_input_broadcast() {
    let mouse_move = MouseRequest::Move {
        x: 100,
        y: 200,
        modifiers: KeyModifiers { shift: false, ctrl: false, alt: false, logo: false },
    };

    let packet = DataPacket {
        message_id: None,
        transport_mode: TransportMode::Broadcast,
        timestamp: 1234567890,
        data: PacketData::Request(Request::Mouse(mouse_move)),
    };
    assert!(packet.is_valid());
    println!("timestamp: {}", packet.timestamp);

    let rebuilt = DataPacket::new(
        None,
        TransportMode::Broadcast,
        1234567890,
        PacketData::Request(Request::Mouse(MouseRequest::Move {
            x: 100,
            y: 200,
            modifiers: KeyModifiers::none(),
        })),
    )
    .unwrap();
    assert_eq!(rebuilt, packet);

    if let PacketData::Request(Request::Mouse(MouseRequest::Move { x, y, .. })) = rebuilt.data {
        assert_eq!(x, 100);
        assert_eq!(y, 200);
    } else {
        panic!("Wrong packet type");
    }
}

fn heartbeat() -> PacketData {
    PacketData::Request(Request::Connection(ConnectionRequest::heartbeat("A".to_string(), 5)))
}

fn key_press() -> PacketData {
    PacketData::Request(Request::Keyboard(Keyboard::press(30, KeyModifiers::none(), Some('a'))))
}

#[test]
fn a_packet_has_a_message_id_exactly_in_a_request_response_exchange() {
    assert!(DataPacket::new(Some(1), TransportMode::RequestResponse, 0, heartbeat()).is_some());
    assert!(DataPacket::new(None, TransportMode::Broadcast, 0, heartbeat()).is_some());
    assert_eq!(DataPacket::new(None, TransportMode::RequestResponse, 0, heartbeat()), None);
    assert_eq!(DataPacket::new(Some(1), TransportMode::Broadcast, 0, heartbeat()), None);
}

#[test]
fn input_events_are_broadcast_only() {
    assert!(key_press().is_input_event());
    assert!(PacketData::Request(Request::Mouse(MouseRequest::scroll(3))).is_input_event());
    assert!(!heartbeat().is_input_event());
    assert!(!PacketData::Response(Response::Clipboard(ClipboardResponse::Cleared)).is_input_event());
    assert_eq!(DataPacket::new(Some(1), TransportMode::RequestResponse, 0, key_press()), None);
    assert_eq!(DataPacket::request_response(1, 0, key_press()), None);
    assert!(DataPacket::new(None, TransportMode::Broadcast, 0, key_press()).is_some());
}

#[test]
fn broadcast_and_request_response_build_well_formed_packets() {
    let b = DataPacket::broadcast(9, key_press());
    assert_eq!(
        b,
        DataPacket {
            message_id: None,
            transport_mode: TransportMode::Broadcast,
            timestamp: 9,
            data: key_press(),
        }
    );
    assert!(b.is_valid());
    let r = DataPacket::request_response(77, 9, heartbeat()).unwrap();
    assert_eq!(
        r,
        DataPacket {
            message_id: Some(77),
            transport_mode: TransportMode::RequestResponse,
            timestamp: 9,
            data: heartbeat(),
        }
    );
    assert!(r.is_valid());
}

#[test]
fn is_valid_sees_a_malformed_packet() {
    let bad = DataPacket {
        message_id: Some(3),
        transport_mode: TransportMode::Broadcast,
        timestamp: 0,
        data: heartbeat(),
    };
    assert!(!bad.is_valid());
    let bad = DataPacket {
        message_id: Some(3),
        transport_mode: TransportMode::RequestResponse,
        timestamp: 0,
        data: key_press(),
    };
    assert!(!bad.is_valid());
}

#[test]
fn response_status_constructors() {
    assert_eq!(ResponseStatus::ok(), ResponseStatus { success: true, error: None });
    assert_eq!(
        ResponseStatus::fail("denied".to_string()),
        ResponseStatus { success: false, error: Some("denied".to_string()) }
    );
}

#[test]
fn key_modifiers_constructors() {
    assert_eq!(
        KeyModifiers::none(),
        KeyModifiers { shift: false, ctrl: false, alt: false, logo: false }
    );
    assert_eq!(
        KeyModifiers::new(true, false, true, false),
        KeyModifiers { shift: true, ctrl: false, alt: true, logo: false }
    );
    assert_eq!(
        KeyModifiers::new(false, true, false, true),
        KeyModifiers { shift: false, ctrl: true, alt: false, logo: true }
    );
}

#[test]
fn keyboard_constructors() {
    let m = KeyModifiers::new(true, false, false, false);
    assert_eq!(
        Keyboard::press(65, m, Some('A')),
        Keyboard::KeyPress { key_code: 65, modifiers: m, text: Some('A') }
    );
    assert_eq!(Keyboard::release(65, m), Keyboard::KeyRelease { key_code: 65, modifiers: m });
}

#[test]
fn mouse_constructors() {
    let none = KeyModifiers::none();
    assert_eq!(MouseRequest::move_to(-5, 7), MouseRequest::Move { x: -5, y: 7, modifiers: none });
    assert_eq!(
        MouseRequest::button(MouseButton::Other(4), true),
        MouseRequest::Button { button: MouseButton::Other(4), pressed: true, modifiers: none }
    );
    assert_eq!(
        MouseRequest::scroll(-3),
        MouseRequest::Scroll { delta_x: 0, delta_y: -3, modifiers: none }
    );
}

#[test]
fn clip_data_with_timestamp_keeps_its_parts() {
    let c = ClipData::with_timestamp(ClipType::Rich, vec![1, 2], 99, true);
    assert_eq!(c, ClipData { ty: ClipType::Rich, data: vec![1, 2], ts: 99, compress: true });
}

#[test]
fn clip_data_new_is_stamped_by_the_clock() {
    let c = ClipData::new(ClipType::Text, vec![1], false);
    assert_eq!(c.ty, ClipType::Text);
    assert_eq!(c.data, vec![1]);
    assert!(!c.compress);
    assert!(c.ts > 1_600_000_000_000);
}

#[test]
fn clip_data_text_holds_utf8() {
    let c = ClipData::text("héllo");
    assert_eq!(c.ty, ClipType::Text);
    assert_eq!(c.data, "héllo".as_bytes().to_vec());
    assert_eq!(c.data, vec![0x68, 0xC3, 0xA9, 0x6C, 0x6C, 0x6F]);
    assert!(!c.compress);
    assert_eq!(ClipData::text("").data, Vec::<u8>::new());
}

#[test]
fn clip_data_image_is_compressed() {
    let c = ClipData::image(vec![0x89, 0x50]);
    assert_eq!(c.ty, ClipType::Img);
    assert_eq!(c.data, vec![0x89, 0x50]);
    assert!(c.compress);
}

#[test]
fn clip_data_files_joins_paths_by_line_feeds() {
    let c = ClipData::files(vec!["/a/b".to_string(), "/c".to_string(), "d".to_string()]);
    assert_eq!(c.ty, ClipType::Files);
    assert_eq!(c.data, b"/a/b\n/c\nd".to_vec());
    assert!(!c.compress);
    assert_eq!(ClipData::files(vec!["only".to_string()]).data, b"only".to_vec());
    assert_eq!(ClipData::files(Vec::new()).data, Vec::<u8>::new());
    assert_eq!(ClipData::files(vec!["".to_string(), "".to_string()]).data, b"\n".to_vec());
}

#[test]
fn clipboard_requests_compare_by_value() {
    let a = Clipboard::Update { data: ClipData::with_timestamp(ClipType::Text, vec![1], 1, false), force: true };
    let b = Clipboard::Update { data: ClipData::with_timestamp(ClipType::Text, vec![1], 1, false), force: true };
    assert_eq!(a, b);
    assert_ne!(a, Clipboard::Clear);
    assert_ne!(Clipboard::Get { types: None, since: Some(1) }, Clipboard::Get { types: None, since: None });
}
