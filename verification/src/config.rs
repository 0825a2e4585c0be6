//! Application configuration defaults.
use vstd::prelude::*;
use vstd::string::*;
use crate::topology::ScreenTopology;
use std::time::{Duration, SystemTime, SystemTimeError, UNIX_EPOCH};

verus! {

#[verifier::external_type_specification]
#[verifier::external_body]
pub struct ExSystemTime(std::time::SystemTime);

#[verifier::external_type_specification]
#[verifier::external_body]
pub struct ExSystemTimeError(std::time::SystemTimeError);

/// Calls `SystemTime::now`. Nothing is claimed of the time read.
#[verifier::external_body]
fn system_time_now() -> SystemTime {
    SystemTime::now()
}

/// Calls `SystemTime::duration_since` with the Unix epoch. Nothing is claimed of the
/// duration: it depends on the clock.
#[verifier::external_body]
fn duration_since_epoch(t: &SystemTime) -> Result<Duration, SystemTimeError> {
    t.duration_since(UNIX_EPOCH)
}

/// Calls `Duration::subsec_nanos`: the fractional part of the duration in nanoseconds,
/// below one billion, as `Duration` documents.
#[verifier::external_body]
fn subsec_nanos(d: &Duration) -> (r: u32)
    ensures
        r < 1_000_000_000,
{
    d.subsec_nanos()
}

/// The salt made from a clock reading: its sub-second nanoseconds (12345 when the clock
/// read before the epoch, `None`) mixed with a fixed constant.
pub fn salt_from_nanos(subsec: Option<u32>) -> (r: u32)
    ensures
        r == (match subsec {
            Some(n) => n,
            None => 12345u32,
        }) ^ 0x5bd1e995u32,
{
    let nanos: u32 = match subsec {
        Some(n) => n,
        None => 12345,
    };
    nanos ^ 0x5bd1e995
}

/// Cheap per-start salt: the clock's sub-second nanoseconds (12345 when the clock
/// reads before the epoch) mixed with a fixed constant.
pub fn rand_u32() -> (r: u32)
    ensures
        exists|n: u32| (n < 1_000_000_000 || n == 12345) && r == n ^ 0x5bd1e995u32,
{
    let now = system_time_now();
    let subsec = match duration_since_epoch(&now) {
        Ok(d) => Some(subsec_nanos(&d)),
        Err(_) => None,
    };
    salt_from_nanos(subsec)
}

/// Lower-case hexadecimal digit of `d` (below 16).
pub open spec fn hex_char(d: int) -> char {
    if d < 10 { (('0' as int) + d) as char } else { (('a' as int) + d - 10) as char }
}

/// The first four digits of the eight-digit, zero-padded, lower-case hexadecimal
/// rendering of `v`: the digits of its upper sixteen bits.
pub open spec fn hex_prefix4(v: u32) -> Seq<char> {
    seq![
        hex_char(((v as int) / 0x1000_0000) % 16),
        hex_char(((v as int) / 0x100_0000) % 16),
        hex_char(((v as int) / 0x10_0000) % 16),
        hex_char(((v as int) / 0x1_0000) % 16),
    ]
}

fn hex_digit(d: u32) -> (r: &'static str)
    requires
        d < 16,
    ensures
        r@ == seq![hex_char(d as int)],
{
    match d {
        0 => {
            proof { reveal_strlit("0"); }
            "0"
        },
        1 => {
            proof { reveal_strlit("1"); }
            "1"
        },
        2 => {
            proof { reveal_strlit("2"); }
            "2"
        },
        3 => {
            proof { reveal_strlit("3"); }
            "3"
        },
        4 => {
            proof { reveal_strlit("4"); }
            "4"
        },
        5 => {
            proof { reveal_strlit("5"); }
            "5"
        },
        6 => {
            proof { reveal_strlit("6"); }
            "6"
        },
        7 => {
            proof { reveal_strlit("7"); }
            "7"
        },
        8 => {
            proof { reveal_strlit("8"); }
            "8"
        },
        9 => {
            proof { reveal_strlit("9"); }
            "9"
        },
        10 => {
            proof { reveal_strlit("a"); }
            "a"
        },
        11 => {
            proof { reveal_strlit("b"); }
            "b"
        },
        12 => {
            proof { reveal_strlit("c"); }
            "c"
        },
        13 => {
            proof { reveal_strlit("d"); }
            "d"
        },
        14 => {
            proof { reveal_strlit("e"); }
            "e"
        },
        15 => {
            proof { reveal_strlit("f"); }
            "f"
        },
        _ => {
            proof { reveal_strlit("f"); }
            "f"
        },
    }
}

/// Default UDP port for mouse deltas.
pub const DEFAULT_UDP_PORT: u16 = 24800;
/// Default TCP port for reliable events.
pub const DEFAULT_TCP_PORT: u16 = 24801;
/// Default UDP port for LAN discovery.
pub const DEFAULT_DISCOVERY_PORT: u16 = 24802;

/// The passphrase used when none is configured.
pub open spec fn default_secret() -> Seq<char> {
    "default-sharemouse-secret"@
}

#[derive(Debug, Clone)]
pub struct AppConfig {
    pub peer_id: String,
    pub device_name: String,
    pub udp_port: u16,
    pub tcp_port: u16,
    pub discovery_port: u16,
    pub shared_secret: String,
    pub auto_discover: bool,
    pub topology: ScreenTopology,
}

impl AppConfig {
    /// The default configuration of a machine named `hostname`, salted with `salt`:
    /// its peer id is the host name, a dash and the first four digits of the
    /// eight-digit hexadecimal rendering of the salt.
    pub fn from_host(hostname: String, salt: u32) -> (r: Self)
        ensures
            r.peer_id@ == hostname@ + "-"@ + hex_prefix4(salt),
            r.device_name@ == hostname@,
            r.udp_port == DEFAULT_UDP_PORT,
            r.tcp_port == DEFAULT_TCP_PORT,
            r.discovery_port == DEFAULT_DISCOVERY_PORT,
            r.shared_secret@ == default_secret(),
            r.auto_discover,
            r.topology.local_peer_id@ == r.peer_id@,
            r.topology.local_displays@.len() == 0,
            r.topology.neighbors@.len() == 0,
    {
        proof {
            reveal_strlit("-");
            reveal_strlit("default-sharemouse-secret");
        }
        let d0 = (salt >> 28) & 0xf;
        let d1 = (salt >> 24) & 0xf;
        let d2 = (salt >> 20) & 0xf;
        let d3 = (salt >> 16) & 0xf;
        proof {
            assert(d0 < 16 && d0 == ((salt as int) / 0x1000_0000) % 16) by (bit_vector)
                requires d0 == (salt >> 28) & 0xf;
            assert(d1 < 16 && d1 == ((salt as int) / 0x100_0000) % 16) by (bit_vector)
                requires d1 == (salt >> 24) & 0xf;
            assert(d2 < 16 && d2 == ((salt as int) / 0x10_0000) % 16) by (bit_vector)
                requires d2 == (salt >> 20) & 0xf;
            assert(d3 < 16 && d3 == ((salt as int) / 0x1_0000) % 16) by (bit_vector)
                requires d3 == (salt >> 16) & 0xf;
        }
        let mut peer_id = hostname.clone();
        peer_id.append("-");
        peer_id.append(hex_digit(d0));
        peer_id.append(hex_digit(d1));
        peer_id.append(hex_digit(d2));
        peer_id.append(hex_digit(d3));
        proof {
            assert(peer_id@ == hostname@ + "-"@ + hex_prefix4(salt));
        }
        let topology = ScreenTopology::new(peer_id.clone());
        AppConfig {
            peer_id,
            device_name: hostname,
            udp_port: DEFAULT_UDP_PORT,
            tcp_port: DEFAULT_TCP_PORT,
            discovery_port: DEFAULT_DISCOVERY_PORT,
            shared_secret: String::from_str("default-sharemouse-secret"),
            auto_discover: true,
            topology,
        }
    }
}

} // verus!
