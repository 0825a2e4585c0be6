use cross_kvm::config::{salt_from_nanos, AppConfig, rand_u32};
use cross_kvm::protocol::ScreenEdge;
use cross_kvm::topology::ScreenTopology;

#[test]
fn opposite_edges() {
    for e in [ScreenEdge::Left, ScreenEdge::Right, ScreenEdge::Top, ScreenEdge::Bottom] {
        assert_ne!(e.opposite(), e);
        assert_eq!(e.opposite().opposite(), e);
    }
    assert_eq!(ScreenEdge::Left.opposite(), ScreenEdge::Right);
    assert_eq!(ScreenEdge::Top.opposite(), ScreenEdge::Bottom);
}

#[test]
fn new_topology_defaults() {
    let t = ScreenTopology::new("host-1".to_string());
    assert_eq!(t.local_peer_id, "host-1");
    assert!(t.neighbors.is_empty());
    assert!(t.local_displays.is_empty());
    assert_eq!(f32::from_bits(t.edge_threshold_px), 2.0);
    assert_eq!(f32::from_bits(t.corner_deadzone_px), 20.0);
}

#[test]
fn add_neighbor_replaces_previous_placement() {
    let mut t = ScreenTopology::new("me".to_string());
    t.add_neighbor("win".to_string(), ScreenEdge::Right);
    t.add_neighbor("mac".to_string(), ScreenEdge::Left);
    t.add_neighbor("win".to_string(), ScreenEdge::Top);
    let ids: Vec<&str> = t.neighbors.iter().map(|n| n.peer_id.as_str()).collect();
    assert_eq!(ids, vec!["mac", "win"]);
    assert_eq!(t.neighbors[1].edge, ScreenEdge::Top);
    assert_eq!(f32::from_bits(t.neighbors[1].offset_ratio), 0.0);
    assert!(t.find_neighbor_at_edge(ScreenEdge::Right).is_none());
    assert_eq!(t.find_neighbor_at_edge(ScreenEdge::Left).unwrap().peer_id, "mac");
    assert_eq!(t.find_neighbor_at_edge(ScreenEdge::Top).unwrap().peer_id, "win");
}

#[test]
fn find_returns_first_at_edge() {
    let mut t = ScreenTopology::new("me".to_string());
    t.add_neighbor("a".to_string(), ScreenEdge::Bottom);
    t.add_neighbor("b".to_string(), ScreenEdge::Bottom);
    assert_eq!(t.find_neighbor_at_edge(ScreenEdge::Bottom).unwrap().peer_id, "a");
}

#[test]
fn config_from_host() {
    let c = AppConfig::from_host("studio".to_string(), 0xdead_beef);
    assert_eq!(c.peer_id, "studio-dead");
    assert_eq!(c.device_name, "studio");
    assert_eq!((c.udp_port, c.tcp_port, c.discovery_port), (24800, 24801, 24802));
    assert_eq!(c.shared_secret, "default-sharemouse-secret");
    assert!(c.auto_discover);
    assert_eq!(c.topology.local_peer_id, "studio-dead");
    // the prefix is taken from the zero-padded rendering
    let d = AppConfig::from_host("h".to_string(), 0x0000_a1ff);
    assert_eq!(d.peer_id, "h-0000");
    assert_eq!(AppConfig::from_host(String::new(), 0x0a0b_0000).peer_id, "-0a0b");
    assert_eq!(format!("{:08x}", 0x0a0b_0000u32)[0..4], *"0a0b");
}

#[test]
fn rand_u32_mixes_nanoseconds() {
    let r = rand_u32();
    let n = r ^ 0x5bd1e995;
    assert!(n < 1_000_000_000 || n == 12345);
}

#[test]
fn salt_from_clock_readings() {
    assert_eq!(salt_from_nanos(Some(0)), 0x5bd1e995);
    assert_eq!(salt_from_nanos(Some(1)), 0x5bd1e994);
    assert_eq!(salt_from_nanos(None), 12345 ^ 0x5bd1e995);
}
