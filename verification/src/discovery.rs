//! LAN peer discovery: the beacon each peer broadcasts, and which beacons to report.
use vstd::prelude::*;
use crate::protocol::DisplayInfo;

verus! {

#[derive(Debug, Clone)]
pub struct DiscoveryBeacon {
    pub peer_id: String,
    pub device_name: String,
    pub os: String,
    pub tcp_port: u16,
    pub udp_port: u16,
    pub displays: Vec<DisplayInfo>,
}

pub struct PeerDiscovery {
    beacon: DiscoveryBeacon,
    discovery_port: u16,
}

impl PeerDiscovery {
    pub closed spec fn spec_beacon(&self) -> DiscoveryBeacon {
        self.beacon
    }

    pub closed spec fn spec_discovery_port(&self) -> u16 {
        self.discovery_port
    }

    pub fn new(beacon: DiscoveryBeacon, discovery_port: u16) -> (r: Self)
        ensures
            r.spec_beacon() == beacon,
            r.spec_discovery_port() == discovery_port,
    {
        PeerDiscovery { beacon, discovery_port }
    }

    /// The beacon this peer broadcasts.
    pub fn beacon(&self) -> (r: &DiscoveryBeacon)
        ensures
            *r == self.spec_beacon(),
    {
        &self.beacon
    }

    /// The UDP port beacons are broadcast and received on.
    pub fn discovery_port(&self) -> (r: u16)
        ensures
            r == self.spec_discovery_port(),
    {
        self.discovery_port
    }

    /// Whether a received beacon announces another peer (a peer's own broadcast
    /// comes back to it and is ignored).
    pub fn is_foreign(&self, incoming: &DiscoveryBeacon) -> (r: bool)
        ensures
            r <==> incoming.peer_id@ != self.spec_beacon().peer_id@,
    {
        !incoming.peer_id.eq(&self.beacon.peer_id)
    }
}

} // verus!
