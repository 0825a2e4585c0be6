//! Decisions of the daemon: what to do with a packet from a peer, and with an
//! input event captured on this machine.
use vstd::prelude::*;
use vstd::string::*;
use crate::hotkey::HotkeyAction;
use crate::protocol::{ControlMessage, InputEvent, MouseDeltaPacket, Packet, ScreenEdge, opposite_edge};
use crate::state::{SessionState, SessionView, StateManager};
use crate::topology::{ScreenTopology, first_neighbor_at};

verus! {

/// The controller name recorded when the pointer of a peer that has not introduced
/// itself on its connection enters this screen.
pub open spec fn remote_controller_label() -> Seq<char> {
    "remote-peer"@
}

/// The controller recorded when a peer's pointer enters this screen over a connection
/// whose registered peer is `registered`: that peer, or the placeholder name when the
/// connection has not registered one.
pub open spec fn entering_controller(registered: Option<String>) -> Seq<char> {
    match registered {
        Some(p) => p@,
        None => remote_controller_label(),
    }
}

/// The controller name recorded when an unregistered peer's pointer enters this screen.
pub fn remote_controller_name() -> (r: String)
    ensures
        r@ == remote_controller_label(),
{
    String::from_str("remote-peer")
}

/// The handshake a peer sends first on every connection.
pub fn handshake_packet(local_peer_id: &String, os: &str, udp_port: u16) -> (r: Packet)
    ensures
        r matches Packet::Control(ControlMessage::Handshake { protocol_version, peer_id, device_name, os: o, udp_port: u, displays })
            && protocol_version == Packet::PROTOCOL_VERSION && peer_id@ == local_peer_id@ && device_name@ == local_peer_id@
            && o@ == os@ && u == udp_port && displays@.len() == 0,
{
    Packet::Control(ControlMessage::Handshake {
        protocol_version: Packet::PROTOCOL_VERSION,
        peer_id: local_peer_id.clone(),
        device_name: local_peer_id.clone(),
        os: String::from_str(os),
        udp_port,
        displays: Vec::new(),
    })
}

/// What a connection task does with a packet received from its peer.
#[derive(Debug)]
pub enum PeerReaction {
    /// Inject the input event into the local system
    Inject(InputEvent),
    /// Register the peer as reachable over UDP on `udp_port` at the connection's address,
    /// then send `reply` back if there is one
    Register { peer_id: String, udp_port: u16, reply: Option<Packet> },
    /// The peer's pointer enters this screen: warp the cursor to the entry point of
    /// `entering_edge` at `normalized_pos`, show it, then become controlled by
    /// `controller_peer_id`, the peer to tell when local input takes control back
    Enter { entering_edge: ScreenEdge, normalized_pos: u32, controller_peer_id: String },
    /// Return to local control and show the cursor
    ReturnToLocal,
    /// Nothing to do
    Ignore,
}

/// Decide how to react to `packet` from a peer on a connection whose registered peer is
/// `registered_peer`; `local_peer_id` and `local_udp_port` describe this machine for the
/// handshake answer.
pub fn react_to_packet(
    packet: Packet,
    registered_peer: &Option<String>,
    local_peer_id: &String,
    local_udp_port: u16,
) -> (r: PeerReaction)
    ensures
        packet matches Packet::Input(ev) ==> r == PeerReaction::Inject(ev),
        packet matches Packet::Control(ControlMessage::Handshake { peer_id, udp_port, .. })
            ==> (r matches PeerReaction::Register { peer_id: p, udp_port: u, reply: Some(Packet::Control(ControlMessage::HandshakeAck { accepted, assigned_peer_id, udp_port: au, displays, reason })) }
                && p@ == peer_id@ && u == udp_port && accepted && assigned_peer_id@ == local_peer_id@
                && au == local_udp_port && displays@.len() == 0 && reason is None),
        packet matches Packet::Control(ControlMessage::HandshakeAck { assigned_peer_id, udp_port, .. })
            ==> (r matches PeerReaction::Register { peer_id: p, udp_port: u, reply: None } && p@ == assigned_peer_id@ && u == udp_port),
        packet matches Packet::Control(ControlMessage::EnterScreen { entering_edge, normalized_pos })
            ==> (r matches PeerReaction::Enter { entering_edge: e, normalized_pos: n, controller_peer_id: c }
                && e == entering_edge && n == normalized_pos && c@ == entering_controller(*registered_peer)),
        packet matches Packet::Control(ControlMessage::LeaveScreen) ==> r is ReturnToLocal,
        packet matches Packet::Control(ControlMessage::PreemptTakeover { .. }) ==> r is ReturnToLocal,
        packet matches Packet::Control(m) && !(m is Handshake || m is HandshakeAck || m is EnterScreen || m is LeaveScreen
            || m is PreemptTakeover) ==> r is Ignore,
{
    match packet {
        Packet::Input(ev) => PeerReaction::Inject(ev),
        Packet::Control(ctrl) => match ctrl {
            ControlMessage::Handshake { peer_id, udp_port, .. } => PeerReaction::Register {
                peer_id,
                udp_port,
                reply: Some(Packet::Control(ControlMessage::HandshakeAck {
                    accepted: true,
                    assigned_peer_id: local_peer_id.clone(),
                    udp_port: local_udp_port,
                    displays: Vec::new(),
                    reason: None,
                })),
            },
            ControlMessage::HandshakeAck { assigned_peer_id, udp_port, .. } => PeerReaction::Register {
                peer_id: assigned_peer_id,
                udp_port,
                reply: None,
            },
            ControlMessage::EnterScreen { entering_edge, normalized_pos } => {
                let controller_peer_id = match registered_peer {
                    Some(p) => p.clone(),
                    None => remote_controller_name(),
                };
                PeerReaction::Enter { entering_edge, normalized_pos, controller_peer_id }
            },
            ControlMessage::LeaveScreen => PeerReaction::ReturnToLocal,
            ControlMessage::PreemptTakeover { .. } => PeerReaction::ReturnToLocal,
            _ => PeerReaction::Ignore,
        },
    }
}

/// What the input hook does with an event captured on this machine.
#[derive(Debug)]
pub enum CaptureOutcome {
    /// Stop the daemon: warp the cursor to the primary screen's centre, show it, tell
    /// every peer the pointer left, and shut down; the event reaches local applications
    Exit,
    /// Cursor returned home: warp it to the primary screen's centre, show it, tell every
    /// peer the pointer left; the event reaches local applications
    Breakout,
    /// Forward the event to the controlled peer and swallow it locally
    Forward,
    /// Local input took control back: show the cursor and tell `peer_id`
    Preempt { peer_id: String },
    /// The pointer crossed to `peer_id`: hide the cursor, tell the peer it enters at
    /// `entering_edge`, `normalized_pos` along it, and swallow the event
    Jump { peer_id: String, entering_edge: ScreenEdge, normalized_pos: u32 },
    /// The event reaches local applications untouched
    PassThrough,
}

/// Abstract outcome: peer ids as character sequences.
pub enum OutcomeView {
    Exit,
    Breakout,
    Forward,
    Preempt(Seq<char>),
    Jump(Seq<char>, ScreenEdge, u32),
    PassThrough,
}

impl View for CaptureOutcome {
    type V = OutcomeView;

    open spec fn view(&self) -> OutcomeView {
        match self {
            CaptureOutcome::Exit => OutcomeView::Exit,
            CaptureOutcome::Breakout => OutcomeView::Breakout,
            CaptureOutcome::Forward => OutcomeView::Forward,
            CaptureOutcome::Preempt { peer_id } => OutcomeView::Preempt(peer_id@),
            CaptureOutcome::Jump { peer_id, entering_edge, normalized_pos } => OutcomeView::Jump(peer_id@, *entering_edge, *normalized_pos),
            CaptureOutcome::PassThrough => OutcomeView::PassThrough,
        }
    }
}

impl CaptureOutcome {
    /// Whether the event is withheld from local applications.
    pub fn swallows(&self) -> (r: bool)
        ensures
            r <==> (self@ is Forward || self@ is Jump),
    {
        match self {
            CaptureOutcome::Forward | CaptureOutcome::Jump { .. } => true,
            _ => false,
        }
    }
}

/// The session state and outcome after a captured event, given the hotkey detector's
/// answer, the screen edge the pointer hit (if it moved onto one) with the position along
/// it, and the neighbour placements (`None` when the topology could not be consulted).
pub open spec fn capture_step(
    s: SessionView,
    hotkey: HotkeyAction,
    edge_hit: Option<(ScreenEdge, u32)>,
    placements: Option<Seq<(Seq<char>, ScreenEdge, u32)>>,
) -> (SessionView, OutcomeView) {
    if hotkey == HotkeyAction::ExitApplication {
        (s, OutcomeView::Exit)
    } else if hotkey == HotkeyAction::EmergencyBreakout {
        (SessionView::LocalActive, OutcomeView::Breakout)
    } else {
        match s {
            SessionView::ControllingRemote(_) => (s, OutcomeView::Forward),
            SessionView::RemoteControlled(peer) => (SessionView::LocalActive, OutcomeView::Preempt(peer)),
            SessionView::LocalActive => match (edge_hit, placements) {
                (Some((edge, ratio)), Some(p)) => match first_neighbor_at(p, edge) {
                    Some(target) => (SessionView::ControllingRemote(target), OutcomeView::Jump(target, opposite_edge(edge), ratio)),
                    None => (s, OutcomeView::PassThrough),
                },
                _ => (s, OutcomeView::PassThrough),
            },
        }
    }
}

/// After the pointer of the peer registered on a connection enters this screen, the first
/// local input that is not an exit or breakout hotkey hands control back and names that very peer to be
/// told.
pub proof fn lemma_preempt_reaches_controller(
    registered: String,
    hotkey: HotkeyAction,
    edge_hit: Option<(ScreenEdge, u32)>,
    placements: Option<Seq<(Seq<char>, ScreenEdge, u32)>>,
)
    requires
        hotkey == HotkeyAction::NoAction,
    ensures
        capture_step(
            SessionView::RemoteControlled(entering_controller(Some(registered))),
            hotkey,
            edge_hit,
            placements,
        ) == (SessionView::LocalActive, OutcomeView::Preempt(registered@)),
{
}

/// An exit hotkey stops the daemon whatever the session is doing: while this machine is
/// local, while it drives a peer, and while a peer drives it. The session state is left
/// as it was, and neither the screen edge nor the neighbours matter.
pub proof fn lemma_exit_hotkey_always_exits(
    s: SessionView,
    edge_hit: Option<(ScreenEdge, u32)>,
    placements: Option<Seq<(Seq<char>, ScreenEdge, u32)>>,
)
    ensures
        capture_step(s, HotkeyAction::ExitApplication, edge_hit, placements) == (s, OutcomeView::Exit),
{
}

/// Decide what the input hook does with a captured event, given the hotkey detector's
/// answer to it, updating the session state.
pub fn decide_capture(
    state: &mut StateManager,
    hotkey: HotkeyAction,
    edge_hit: Option<(ScreenEdge, u32)>,
    topology: Option<&ScreenTopology>,
) -> (r: CaptureOutcome)
    ensures
        hotkey == HotkeyAction::ExitApplication ==> r is Exit && final(state)@ == old(state)@,
        (final(state)@, r@) == capture_step(
            old(state)@,
            hotkey,
            edge_hit,
            match topology { Some(t) => Some(t.placements()), None => None },
        ),
{
    if matches!(hotkey, HotkeyAction::ExitApplication) {
        return CaptureOutcome::Exit;
    }
    if matches!(hotkey, HotkeyAction::EmergencyBreakout) {
        state.return_to_local();
        return CaptureOutcome::Breakout;
    }
    if state.is_controlling_remote() {
        return CaptureOutcome::Forward;
    }
    if state.is_remote_controlled() {
        let action = state.handle_physical_input_detected();
        match action {
            crate::state::StateAction::NotifyPreempt { peer_id } => return CaptureOutcome::Preempt { peer_id },
            _ => {
                assert(false);
                return CaptureOutcome::PassThrough;
            },
        }
    }
    match (edge_hit, topology) {
        (Some((edge, ratio)), Some(topo)) => match topo.find_neighbor_at_edge(edge) {
            Some(neighbor) => {
                let target = neighbor.peer_id.clone();
                state.start_controlling_remote(target.clone());
                CaptureOutcome::Jump { peer_id: target, entering_edge: edge.opposite(), normalized_pos: ratio }
            },
            None => CaptureOutcome::PassThrough,
        },
        _ => CaptureOutcome::PassThrough,
    }
}

/// How an input event forwarded to the controlled peer travels.
#[derive(Debug)]
pub enum Outgoing {
    /// Over the datagram channel, as a mouse delta
    Delta(MouseDeltaPacket),
    /// Over the reliable stream, as an input packet
    Reliable(Packet),
}

/// How a captured event forwarded to the controlled peer is sent: pointer deltas over
/// the datagram channel, every other event over the reliable stream.
pub fn outgoing_for(event: InputEvent) -> (r: Outgoing)
    ensures
        event matches InputEvent::MouseMoveDelta(d) ==> r == Outgoing::Delta(d),
        !(event is MouseMoveDelta) ==> r == Outgoing::Reliable(Packet::Input(event)),
{
    match event {
        InputEvent::MouseMoveDelta(delta) => Outgoing::Delta(delta),
        other => Outgoing::Reliable(Packet::Input(other)),
    }
}

/// The peer that forwarded events go to: the peer this machine controls, if any.
pub fn forward_target(state: &StateManager) -> (r: Option<String>)
    ensures
        state@ matches SessionView::ControllingRemote(p) ==> (r matches Some(t) && t@ == p),
        !(state@ is ControllingRemote) ==> r is None,
{
    match state.state() {
        SessionState::ControllingRemote { target_peer_id } => Some(target_peer_id.clone()),
        _ => None,
    }
}

/// Where events forwarded to the controlled peer `target` go, among the connected peers
/// `connected`: to `target` when it is connected, otherwise to the first connected peer,
/// and nowhere when none is connected.
pub fn pick_forward_peer(target: &String, connected: &Vec<String>) -> (r: Option<usize>)
    ensures
        (exists|i: int| 0 <= i < connected@.len() && #[trigger] connected@[i]@ == target@)
            ==> (r matches Some(i) && i < connected@.len() && connected@[i as int]@ == target@),
        !(exists|i: int| 0 <= i < connected@.len() && #[trigger] connected@[i]@ == target@)
            ==> if connected@.len() > 0 { r == Some(0usize) } else { r is None },
{
    let mut i: usize = 0;
    while i < connected.len()
        invariant
            i <= connected@.len(),
            forall|j: int| 0 <= j < i ==> #[trigger] connected@[j]@ != target@,
        decreases connected@.len() - i,
    {
        if connected[i] == *target {
            return Some(i);
        }
        i = i + 1;
    }
    if connected.len() > 0 {
        Some(0)
    } else {
        None
    }
}

} // verus!
