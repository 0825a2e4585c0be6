use cross_kvm::quartz::{extract_modifiers, modifiers_to_cgflags, quartz_button_event, quartz_event_kind, tap_event_mask, QuartzEventKind};
use cross_kvm::discovery::{DiscoveryBeacon, PeerDiscovery};
use cross_kvm::hotkey::HotkeyAction;
use cross_kvm::platform::{primary_display, primary_index, ClipboardHandler, LinuxClipboard, LinuxScreenManager, PlatformError, ScreenManager};
use cross_kvm::protocol::{ControlMessage, DisplayInfo, InputEvent, KeyModifiers, MouseButton, Packet, ScreenEdge};
use cross_kvm::session::{decide_capture, forward_target, handshake_packet, outgoing_for, pick_forward_peer, react_to_packet, remote_controller_name, CaptureOutcome, Outgoing, PeerReaction};
use cross_kvm::state::{SessionState, StateManager};
use cross_kvm::topology::ScreenTopology;
use cross_kvm::web_ui::{response_head, route_request, EmbeddedWebServer, UiRoute};

#[test]
fn routes() {
    assert_eq!(route_request(b""), None);
    assert_eq!(route_request(b"GET /api/displays HTTP/1.1\r\n"), Some(UiRoute::Displays));
    assert_eq!(route_request(b"GET /api/status HTTP/1.1\r\n"), Some(UiRoute::Status));
    assert_eq!(route_request(b"GET / HTTP/1.1\r\n"), Some(UiRoute::Page));
    assert_eq!(route_request(b"POST /api/status"), Some(UiRoute::Page));
    assert_eq!(route_request(b"GET /api/stat"), Some(UiRoute::Page));
    let server = EmbeddedWebServer::new(24803, Vec::new());
    assert_eq!(server.port(), 24803);
    assert!(server.displays().is_empty());
}

#[test]
fn packet_reactions() {
    let me = "me".to_string();
    let hs = handshake_packet(&me, "linux", 24800);
    match &hs {
        Packet::Control(ControlMessage::Handshake { protocol_version, peer_id, device_name, os, udp_port, displays }) => {
            assert_eq!(*protocol_version, Packet::PROTOCOL_VERSION);
            assert_eq!(peer_id, "me");
            assert_eq!(device_name, "me");
            assert_eq!(os, "linux");
            assert_eq!(*udp_port, 24800);
            assert!(displays.is_empty());
        }
        _ => panic!("not a handshake"),
    }
    let incoming = Packet::Control(ControlMessage::Handshake {
        protocol_version: 1,
        peer_id: "peer".into(),
        device_name: "peer".into(),
        os: "macos".into(),
        udp_port: 24810,
        displays: Vec::new(),
    });
    match react_to_packet(incoming, &None, &me, 24800) {
        PeerReaction::Register { peer_id, udp_port, reply: Some(Packet::Control(ControlMessage::HandshakeAck { accepted, assigned_peer_id, udp_port: u, displays, reason })) } => {
            assert_eq!(peer_id, "peer");
            assert_eq!(udp_port, 24810);
            assert!(accepted);
            assert_eq!(assigned_peer_id, "me");
            assert_eq!(u, 24800);
            assert!(displays.is_empty());
            assert!(reason.is_none());
        }
        other => panic!("unexpected {:?}", other),
    }
    let enter = Packet::Control(ControlMessage::EnterScreen { entering_edge: ScreenEdge::Left, normalized_pos: 0.5f32.to_bits() });
    assert!(matches!(react_to_packet(enter.clone(), &Some("peer".to_string()), &me, 1),
        PeerReaction::Enter { entering_edge: ScreenEdge::Left, normalized_pos, controller_peer_id }
            if normalized_pos == 0.5f32.to_bits() && controller_peer_id == "peer"));
    assert!(matches!(react_to_packet(enter, &None, &me, 1),
        PeerReaction::Enter { controller_peer_id, .. } if controller_peer_id == "remote-peer"));
    assert!(matches!(react_to_packet(Packet::Control(ControlMessage::LeaveScreen), &None, &me, 1), PeerReaction::ReturnToLocal));
    assert!(matches!(react_to_packet(Packet::Control(ControlMessage::PreemptTakeover { peer_id: "x".into() }), &None, &me, 1), PeerReaction::ReturnToLocal));
    assert!(matches!(react_to_packet(Packet::Control(ControlMessage::Ping { seq: 1, timestamp_ms: 2 }), &None, &me, 1), PeerReaction::Ignore));
    assert!(matches!(react_to_packet(Packet::Input(InputEvent::MouseDown(MouseButton::Right)), &None, &me, 1), PeerReaction::Inject(InputEvent::MouseDown(MouseButton::Right))));
    assert_eq!(remote_controller_name(), "remote-peer");
}

#[test]
fn captured_events() {
    let mut topo = ScreenTopology::new("me".to_string());
    topo.add_neighbor("win".to_string(), ScreenEdge::Right);
    let mut state = StateManager::new();
    let ratio = 0.25f32.to_bits();
    // no neighbour on the left: nothing happens
    assert!(matches!(decide_capture(&mut state, HotkeyAction::NoAction, Some((ScreenEdge::Left, ratio)), Some(&topo)), CaptureOutcome::PassThrough));
    // crossing the right edge jumps to "win", entering on its left edge
    let out = decide_capture(&mut state, HotkeyAction::NoAction, Some((ScreenEdge::Right, ratio)), Some(&topo));
    assert!(out.swallows());
    match out {
        CaptureOutcome::Jump { peer_id, entering_edge, normalized_pos } => {
            assert_eq!(peer_id, "win");
            assert_eq!(entering_edge, ScreenEdge::Left);
            assert_eq!(normalized_pos, ratio);
        }
        other => panic!("unexpected {:?}", other),
    }
    assert_eq!(*state.state(), SessionState::ControllingRemote { target_peer_id: "win".into() });
    // while controlling, events are forwarded
    assert!(matches!(decide_capture(&mut state, HotkeyAction::NoAction, None, None), CaptureOutcome::Forward));
    // breakout returns home
    assert!(matches!(decide_capture(&mut state, HotkeyAction::EmergencyBreakout, None, None), CaptureOutcome::Breakout));
    assert!(state.is_local_active());
    // local input while remote-controlled preempts
    state.enter_remote_controlled("remote-peer".into());
    let out = decide_capture(&mut state, HotkeyAction::NoAction, None, Some(&topo));
    assert!(!out.swallows());
    assert!(matches!(out, CaptureOutcome::Preempt { ref peer_id } if peer_id == "remote-peer"));
    assert!(state.is_local_active());
}

#[test]
fn quartz_modifier_flags() {
    let m = KeyModifiers { shift: true, control: false, alt_option: true, meta_command: false, caps_lock: true };
    let flags = modifiers_to_cgflags(&m);
    assert_eq!(flags, 0x0002_0000 | 0x0008_0000 | 0x0001_0000);
    assert_eq!(extract_modifiers(flags), m);
    assert_eq!(extract_modifiers(0x0014_0100), KeyModifiers { control: true, meta_command: true, ..Default::default() });
}

fn display(id: u32, primary: bool) -> DisplayInfo {
    DisplayInfo { id, name: format!("Display {}", id), width: 800, height: 600, scale_factor: 1.0f32.to_bits(), is_primary: primary, x: 0, y: 0 }
}

#[test]
fn platform_defaults_and_primary() {
    let linux = LinuxScreenManager;
    let ds = linux.get_displays().unwrap();
    assert_eq!(ds.len(), 1);
    assert_eq!(ds[0].name, "Default");
    assert_eq!(f32::from_bits(ds[0].scale_factor), 1.0);
    assert_eq!(linux.get_primary_display().unwrap(), ds[0]);
    let list = vec![display(1, false), display(2, true), display(3, true)];
    assert_eq!(primary_index(&list), Some(1));
    assert_eq!(primary_display(list, "none".into()).unwrap().id, 2);
    match primary_display(vec![display(4, false)], "No primary display found".into()) {
        Err(PlatformError::OsError(m)) => assert_eq!(m, "No primary display found"),
        other => panic!("unexpected {:?}", other),
    }
    assert_eq!(PlatformError::PermissionDenied("x".into()).message(), "Permission denied: x");
    assert_eq!(PlatformError::HookFailed("y".into()).message(), "Hook initialization failed: y");
    assert_eq!(PlatformError::InjectionFailed("z".into()).message(), "Injection failed: z");
    let clip = LinuxClipboard;
    assert_eq!(clip.get_change_count(), 0);
    assert!(clip.read_text().unwrap().is_none());
    assert!(clip.read_image().unwrap().is_none());
    assert!(clip.write_text("a").is_ok());
    assert!(clip.write_image(&[1]).is_ok());
}

#[test]
fn discovery_ignores_own_beacon() {
    let beacon = DiscoveryBeacon { peer_id: "me".into(), device_name: "me".into(), os: "linux".into(), tcp_port: 1, udp_port: 2, displays: Vec::new() };
    let d = PeerDiscovery::new(beacon.clone(), 24802);
    assert_eq!(d.discovery_port(), 24802);
    assert_eq!(d.beacon().peer_id, "me");
    assert!(!d.is_foreign(&beacon));
    let other = DiscoveryBeacon { peer_id: "you".into(), ..beacon };
    assert!(d.is_foreign(&other));
}

#[test]
fn quartz_event_classification() {
    assert_eq!(quartz_event_kind(5), Some(QuartzEventKind::Motion));
    assert_eq!(quartz_event_kind(6), Some(QuartzEventKind::Motion));
    assert_eq!(quartz_event_kind(7), Some(QuartzEventKind::Motion));
    assert_eq!(quartz_event_kind(1), Some(QuartzEventKind::ButtonDown(MouseButton::Left)));
    assert_eq!(quartz_event_kind(4), Some(QuartzEventKind::ButtonUp(MouseButton::Right)));
    assert_eq!(quartz_event_kind(25), Some(QuartzEventKind::ButtonDown(MouseButton::Middle)));
    assert_eq!(quartz_event_kind(22), Some(QuartzEventKind::Scroll));
    assert_eq!(quartz_event_kind(10), Some(QuartzEventKind::KeyDown));
    assert_eq!(quartz_event_kind(11), Some(QuartzEventKind::KeyUp));
    assert_eq!(quartz_event_kind(12), None);
    assert_eq!(quartz_button_event(MouseButton::Left, true), (1, 0));
    assert_eq!(quartz_button_event(MouseButton::Right, false), (4, 1));
    assert_eq!(quartz_button_event(MouseButton::Other(7), true), (25, 2));
    for b in [MouseButton::Left, MouseButton::Right, MouseButton::Middle] {
        assert_eq!(quartz_event_kind(quartz_button_event(b, true).0), Some(QuartzEventKind::ButtonDown(b)));
        assert_eq!(quartz_event_kind(quartz_button_event(b, false).0), Some(QuartzEventKind::ButtonUp(b)));
    }
}

#[test]
fn quartz_tap_mask_covers_classified_types() {
    let mask = tap_event_mask();
    let expected: u64 = [5u32, 1, 2, 3, 4, 6, 7, 25, 26, 22, 10, 11, 12]
        .iter()
        .fold(0, |m, t| m | (1u64 << t));
    assert_eq!(mask, expected);
    for t in 0..64u32 {
        if quartz_event_kind(t).is_some() {
            assert_eq!((mask >> t) & 1, 1, "type {t} is classified but not tapped");
        }
    }
    assert_eq!(quartz_event_kind(12), None);
}

#[test]
fn preemption_reaches_the_peer_that_entered() {
    let me = "me".to_string();
    // The peer introduces itself on its connection, then moves its pointer onto this screen.
    let hello = handshake_packet(&"laptop".to_string(), "linux", 24810);
    let registered = match react_to_packet(hello, &None, &me, 24800) {
        PeerReaction::Register { peer_id, .. } => Some(peer_id),
        other => panic!("unexpected {:?}", other),
    };
    let enter = Packet::Control(ControlMessage::EnterScreen { entering_edge: ScreenEdge::Right, normalized_pos: 0.25f32.to_bits() });
    let controller = match react_to_packet(enter, &registered, &me, 24800) {
        PeerReaction::Enter { controller_peer_id, .. } => controller_peer_id,
        other => panic!("unexpected {:?}", other),
    };
    let mut state = StateManager::new();
    state.enter_remote_controlled(controller);
    assert_eq!(*state.state(), SessionState::RemoteControlled { controller_peer_id: "laptop".into() });
    // Local input takes control back and names that peer.
    let outcome = decide_capture(&mut state, HotkeyAction::NoAction, None, None);
    assert!(matches!(outcome, CaptureOutcome::Preempt { ref peer_id } if peer_id == "laptop"));
    assert!(state.is_local_active());
}

#[test]
fn response_heads() {
    assert_eq!(
        response_head(UiRoute::Displays, 123),
        "HTTP/1.1 200 OK\r\nContent-Type: application/json\r\nAccess-Control-Allow-Origin: *\r\nContent-Length: 123\r\nConnection: close\r\n\r\n"
    );
    assert_eq!(
        response_head(UiRoute::Page, 0),
        "HTTP/1.1 200 OK\r\nContent-Type: text/html; charset=utf-8\r\nContent-Length: 0\r\nConnection: close\r\n\r\n"
    );
    let big = response_head(UiRoute::Status, 1_000_000_007);
    assert!(big.contains("\r\nContent-Length: 1000000007\r\n"));
    assert!(big.contains("Access-Control-Allow-Origin: *"));
}

#[test]
fn forwarded_events_travel_by_kind() {
    let delta = cross_kvm::protocol::MouseDeltaPacket { seq: 4, dx: 1.0f32.to_bits(), dy: 0, current_x: 0, current_y: 0 };
    assert!(matches!(outgoing_for(InputEvent::MouseMoveDelta(delta.clone())), Outgoing::Delta(d) if d == delta));
    let click = InputEvent::MouseDown(MouseButton::Left);
    assert!(matches!(outgoing_for(click.clone()), Outgoing::Reliable(Packet::Input(e)) if e == click));

    let mut state = StateManager::new();
    assert_eq!(forward_target(&state), None);
    state.start_controlling_remote("desk".into());
    assert_eq!(forward_target(&state), Some("desk".to_string()));
    state.return_to_local();
    state.enter_remote_controlled("desk".into());
    assert_eq!(forward_target(&state), None);
}

#[test]
fn exit_hotkey_leaves_the_session_state_alone() {
    let mut state = StateManager::new();
    state.start_controlling_remote("desk".into());
    let out = decide_capture(&mut state, HotkeyAction::ExitApplication, None, None);
    assert!(matches!(out, CaptureOutcome::Exit));
    assert!(!out.swallows());
    assert!(state.is_controlling_remote());
}

#[test]
fn forward_peer_choice() {
    let connected = vec!["a".to_string(), "desk".to_string()];
    assert_eq!(pick_forward_peer(&"desk".to_string(), &connected), Some(1));
    assert_eq!(pick_forward_peer(&"gone".to_string(), &connected), Some(0));
    assert_eq!(pick_forward_peer(&"desk".to_string(), &Vec::new()), None);
}
