//! Verified core of a peer-to-peer software KVM: the wire vocabulary, the
//! session state machine, the screen topology, hotkey detection, packet
//! encryption and framing, and the clipboard bookkeeping.

pub mod protocol;
pub mod state;
pub mod platform;
pub mod crypto;
pub mod hotkey;
pub mod topology;
pub mod config;
pub mod transport;
pub mod clipboard;
pub mod web_ui;
pub mod discovery;
pub mod session;
pub mod quartz;
pub mod win32;
