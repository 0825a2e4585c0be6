//! Framing of encrypted packets on the reliable stream, and ordering of mouse deltas.
use vstd::prelude::*;
use crate::crypto::{CryptoError, PacketCipher, encrypted_under, aead_max_plaintext};

verus! {

/// Largest encrypted frame a peer accepts (10 MiB).
pub const MAX_FRAME_LEN: usize = 10 * 1024 * 1024;

/// Value of four bytes read as a big-endian unsigned integer.
pub open spec fn be_u32_value(b: Seq<u8>) -> int
    recommends
        b.len() == 4,
{
    (b[0] as int) * 0x100_0000 + (b[1] as int) * 0x1_0000 + (b[2] as int) * 0x100 + (b[3] as int)
}

/// Why an incoming frame is refused before its payload is read.
#[derive(Debug, Clone, Copy, PartialEq, Eq)]
pub enum FrameError {
    /// The announced payload length exceeds `MAX_FRAME_LEN`.
    TooLarge(usize),
}

/// The four-byte big-endian header announcing a payload of `payload_len` bytes
/// (the length is taken modulo 2^32, as the wire field has 32 bits).
pub fn frame_header(payload_len: usize) -> (r: [u8; 4])
    ensures
        be_u32_value(r@) == (payload_len as u32) as int,
{
    let v: u32 = payload_len as u32;
    let b0 = (v >> 24) as u8;
    let b1 = ((v >> 16) & 0xff) as u8;
    let b2 = ((v >> 8) & 0xff) as u8;
    let b3 = (v & 0xff) as u8;
    proof {
        assert((b0 as int) * 0x100_0000 + (b1 as int) * 0x1_0000 + (b2 as int) * 0x100 + (b3 as int) == v as int)
            by (bit_vector)
            requires
                b0 == (v >> 24) as u8,
                b1 == ((v >> 16) & 0xff) as u8,
                b2 == ((v >> 8) & 0xff) as u8,
                b3 == (v & 0xff) as u8;
    }
    [b0, b1, b2, b3]
}

/// The payload length announced by a frame header, refused above `MAX_FRAME_LEN`.
pub fn parse_frame_header(header: [u8; 4]) -> (r: Result<usize, FrameError>)
    ensures
        be_u32_value(header@) <= MAX_FRAME_LEN ==> r == Ok::<usize, FrameError>(be_u32_value(header@) as usize),
        be_u32_value(header@) > MAX_FRAME_LEN ==> r == Err::<usize, FrameError>(FrameError::TooLarge(be_u32_value(header@) as usize)),
{
    let v: u32 = ((header[0] as u32) << 24) | ((header[1] as u32) << 16) | ((header[2] as u32) << 8) | (header[3] as u32);
    let b0 = header[0];
    let b1 = header[1];
    let b2 = header[2];
    let b3 = header[3];
    proof {
        assert(v as int == (b0 as int) * 0x100_0000 + (b1 as int) * 0x1_0000 + (b2 as int) * 0x100 + (b3 as int))
            by (bit_vector)
            requires
                v == ((b0 as u32) << 24) | ((b1 as u32) << 16) | ((b2 as u32) << 8) | (b3 as u32);
    }
    let len = v as usize;
    if len > MAX_FRAME_LEN {
        Err(FrameError::TooLarge(len))
    } else {
        Ok(len)
    }
}

/// A complete outgoing frame: the header announcing the ciphertext's length,
/// followed by the ciphertext.
pub open spec fn is_frame_of(key: Seq<u8>, plaintext: Seq<u8>, frame: Seq<u8>) -> bool {
    &&& frame.len() >= 4
    &&& be_u32_value(frame.subrange(0, 4)) == ((frame.len() - 4) as int) % 0x1_0000_0000
    &&& encrypted_under(key, plaintext, frame.subrange(4, frame.len() as int))
}

/// Encrypt a serialized packet and frame it for the reliable stream.
pub fn seal_frame(cipher: &PacketCipher, serialized: &[u8]) -> (r: Result<Vec<u8>, CryptoError>)
    ensures
        serialized@.len() <= aead_max_plaintext() <==> r is Ok,
        r matches Ok(frame) ==> is_frame_of(cipher.key(), serialized@, frame@),
        r matches Err(e) ==> e == CryptoError::EncryptionError,
{
    let encrypted = match cipher.encrypt(serialized) {
        Ok(e) => e,
        Err(e) => return Err(e),
    };
    let n = encrypted.len();
    let header = frame_header(n);
    assert((n as u32) as int == (n as int) % 0x1_0000_0000) by (bit_vector);
    let mut frame: Vec<u8> = Vec::new();
    frame.push(header[0]);
    frame.push(header[1]);
    frame.push(header[2]);
    frame.push(header[3]);
    assert(frame@ == header@);
    let mut j: usize = 0;
    while j < encrypted.len()
        invariant
            j <= encrypted@.len(),
            frame@ == header@ + encrypted@.subrange(0, j as int),
        decreases encrypted@.len() - j,
    {
        frame.push(encrypted[j]);
        j = j + 1;
        assert(encrypted@.subrange(0, j as int) == encrypted@.subrange(0, j - 1).push(encrypted@[j - 1]));
    }
    assert(encrypted@.subrange(0, encrypted@.len() as int) == encrypted@);
    assert(frame@.subrange(0, 4) == header@);
    assert(frame@.subrange(4, frame@.len() as int) == encrypted@);
    Ok(frame)
}

/// A frame sealed for a plaintext whose ciphertext is within the limit is accepted by the
/// reader: its header announces exactly the length of what follows, and what follows is
/// the plaintext encrypted under the cipher's key.
pub proof fn lemma_frame_roundtrip(key: Seq<u8>, plaintext: Seq<u8>, frame: Seq<u8>)
    requires
        is_frame_of(key, plaintext, frame),
        frame.len() - 4 <= MAX_FRAME_LEN,
    ensures
        be_u32_value(frame.subrange(0, 4)) == frame.len() - 4,
        be_u32_value(frame.subrange(0, 4)) <= MAX_FRAME_LEN,
        encrypted_under(key, plaintext, frame.subrange(4, frame.len() as int)),
{
}

/// Tracks the highest mouse-delta sequence number accepted so far.
pub struct SeqTracker {
    last_received_seq: u64,
}

impl SeqTracker {
    /// The highest sequence number accepted so far (0 before any).
    pub closed spec fn last(&self) -> u64 {
        self.last_received_seq
    }

    pub fn new() -> (r: Self)
        ensures
            r.last() == 0,
    {
        SeqTracker { last_received_seq: 0 }
    }

    /// Accept a delta only when its sequence number is newer than every one accepted
    /// before; stale or out-of-order deltas are dropped to prevent cursor jitter.
    pub fn accept(&mut self, seq: u64) -> (r: bool)
        ensures
            r <==> seq > old(self).last(),
            r ==> final(self).last() == seq,
            !r ==> final(self).last() == old(self).last(),
            final(self).last() >= old(self).last(),
    {
        if seq <= self.last_received_seq {
            return false;
        }
        self.last_received_seq = seq;
        true
    }
}

} // verus!
