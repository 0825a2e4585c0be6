//! Messages exchanged between peers.
//!
//! Values that peers exchange as IEEE-754 single-precision numbers are held
//! here as their 32-bit patterns (`f32::to_bits`): this library never does
//! arithmetic on them, it only carries them from one side to the other.
use vstd::prelude::*;

verus! {

/// Mouse button identifiers
#[derive(Debug, Clone, Copy, PartialEq, Eq, Structural)]
pub enum MouseButton {
    Left,
    Right,
    Middle,
    Other(u16),
}

/// Active keyboard modifiers
#[derive(Debug, Clone, Copy, PartialEq, Eq, Structural, Default)]
pub struct KeyModifiers {
    pub shift: bool,
    pub control: bool,
    pub alt_option: bool,
    pub meta_command: bool,
    pub caps_lock: bool,
}

/// Edges of a monitor where transitions occur
#[derive(Debug, Clone, Copy, PartialEq, Eq, Structural)]
pub enum ScreenEdge {
    Left,
    Right,
    Top,
    Bottom,
}

/// The edge facing `e` on the neighbouring screen.
pub open spec fn opposite_edge(e: ScreenEdge) -> ScreenEdge {
    match e {
        ScreenEdge::Left => ScreenEdge::Right,
        ScreenEdge::Right => ScreenEdge::Left,
        ScreenEdge::Top => ScreenEdge::Bottom,
        ScreenEdge::Bottom => ScreenEdge::Top,
    }
}

impl ScreenEdge {
    pub fn opposite(&self) -> (r: Self)
        ensures
            r == opposite_edge(*self),
    {
        match self {
            ScreenEdge::Left => ScreenEdge::Right,
            ScreenEdge::Right => ScreenEdge::Left,
            ScreenEdge::Top => ScreenEdge::Bottom,
            ScreenEdge::Bottom => ScreenEdge::Top,
        }
    }
}

/// Going to the opposite edge twice comes back to the same edge, and no edge
/// is its own opposite.
pub proof fn lemma_opposite_involutive(e: ScreenEdge)
    ensures
        opposite_edge(opposite_edge(e)) == e,
        opposite_edge(e) != e,
{
}


/// Formats supported by the shared clipboard
#[derive(Debug, PartialEq, Eq)]
pub enum ClipboardFormat {
    PlainText,
    HtmlText,
    RtfText,
    PngImage,
    FileList(Vec<String>),
}

/// Abstract clipboard format: file names taken as character sequences.
pub enum FormatView {
    PlainText,
    HtmlText,
    RtfText,
    PngImage,
    FileList(Seq<Seq<char>>),
}

impl View for ClipboardFormat {
    type V = FormatView;

    open spec fn view(&self) -> FormatView {
        match self {
            ClipboardFormat::PlainText => FormatView::PlainText,
            ClipboardFormat::HtmlText => FormatView::HtmlText,
            ClipboardFormat::RtfText => FormatView::RtfText,
            ClipboardFormat::PngImage => FormatView::PngImage,
            ClipboardFormat::FileList(names) => FormatView::FileList(names@.map_values(|n: String| n@)),
        }
    }
}

impl Clone for ClipboardFormat {
    fn clone(&self) -> (r: Self)
        ensures
            r@ == self@,
    {
        match self {
            ClipboardFormat::PlainText => ClipboardFormat::PlainText,
            ClipboardFormat::HtmlText => ClipboardFormat::HtmlText,
            ClipboardFormat::RtfText => ClipboardFormat::RtfText,
            ClipboardFormat::PngImage => ClipboardFormat::PngImage,
            ClipboardFormat::FileList(names) => {
                let mut copy: Vec<String> = Vec::new();
                let mut i: usize = 0;
                while i < names.len()
                    invariant
                        i <= names@.len(),
                        copy@.len() == i,
                        forall|k: int| 0 <= k < i ==> #[trigger] copy@[k]@ == names@[k]@,
                    decreases names@.len() - i,
                {
                    copy.push(names[i].clone());
                    i = i + 1;
                }
                assert(copy@.map_values(|n: String| n@) =~= names@.map_values(|n: String| n@));
                ClipboardFormat::FileList(copy)
            },
        }
    }
}

/// Metadata about a connected display
#[derive(Debug, Clone, PartialEq)]
pub struct DisplayInfo {
    pub id: u32,
    pub name: String,
    pub width: u32,
    pub height: u32,
    /// Bit pattern of the single-precision scale factor
    pub scale_factor: u32,
    pub is_primary: bool,
    pub x: i32,
    pub y: i32,
}

/// High-frequency mouse delta packet (sent over UDP with monotonic seq ID)
#[derive(Debug, Clone, PartialEq)]
pub struct MouseDeltaPacket {
    pub seq: u64,
    /// Bit pattern of the single-precision horizontal delta
    pub dx: u32,
    /// Bit pattern of the single-precision vertical delta
    pub dy: u32,
    /// Bit pattern of the single-precision cursor x coordinate
    pub current_x: u32,
    /// Bit pattern of the single-precision cursor y coordinate
    pub current_y: u32,
}

/// Discrete input events (sent reliably over TCP with ordering guaranteed)
#[derive(Debug, Clone, PartialEq)]
pub enum InputEvent {
    /// High-frequency delta move (can also be transported over UDP)
    MouseMoveDelta(MouseDeltaPacket),
    /// Set absolute cursor position on enter (single-precision bit patterns)
    MouseMoveAbsolute { x: u32, y: u32 },
    /// Mouse button pressed
    MouseDown(MouseButton),
    /// Mouse button released
    MouseUp(MouseButton),
    /// Mouse wheel scroll (single-precision bit patterns)
    Scroll { delta_x: u32, delta_y: u32 },
    /// Keyboard key pressed
    KeyDown { scancode: u32, keycode: u32, modifiers: KeyModifiers },
    /// Keyboard key released
    KeyUp { scancode: u32, keycode: u32, modifiers: KeyModifiers },
}

/// Control messages for peer coordination and session management
#[derive(Debug, Clone, PartialEq)]
pub enum ControlMessage {
    /// Initial handshake from a connecting peer
    Handshake {
        protocol_version: u32,
        peer_id: String,
        device_name: String,
        os: String,
        udp_port: u16,
        displays: Vec<DisplayInfo>,
    },
    /// Handshake response
    HandshakeAck {
        accepted: bool,
        assigned_peer_id: String,
        udp_port: u16,
        displays: Vec<DisplayInfo>,
        reason: Option<String>,
    },
    /// Heartbeat ping to calculate round-trip latency
    Ping { seq: u64, timestamp_ms: u64 },
    /// Heartbeat response
    Pong { seq: u64, timestamp_ms: u64 },
    /// The local pointer reached a screen edge and is jumping to a remote peer
    EnterScreen {
        entering_edge: ScreenEdge,
        /// Bit pattern of the single-precision position along that edge, from 0.0 to 1.0
        normalized_pos: u32,
    },
    /// The pointer left the remote machine and returned home
    LeaveScreen,
    /// Physical input on a follower machine: the follower reclaims local control
    PreemptTakeover { peer_id: String },
    /// Clipboard content changed notification (lazy transfer)
    ClipboardNotify { format: ClipboardFormat, data_size: usize, sha256: [u8; 32] },
    /// Request the actual clipboard payload
    ClipboardRequest { sha256: [u8; 32] },
    /// Clipboard data payload transfer
    ClipboardPayload { sha256: [u8; 32], format: ClipboardFormat, data: Vec<u8> },
    /// File drag-and-drop initiated across screen edge
    FileTransferInit { transfer_id: u64, file_name: String, total_size: u64, sha256: [u8; 32] },
    /// Chunk of file data
    FileTransferChunk { transfer_id: u64, offset: u64, data: Vec<u8> },
    /// File transfer finished
    FileTransferDone { transfer_id: u64 },
}

/// Top-level network packet wrapper
#[derive(Debug, Clone, PartialEq)]
pub enum Packet {
    Input(InputEvent),
    Control(ControlMessage),
}

impl Packet {
    /// Version of the wire protocol spoken by this library
    pub const PROTOCOL_VERSION: u32 = 1;
}

} // verus!
