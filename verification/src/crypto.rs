//! Packet encryption: AES-256-GCM under a key derived from a passphrase.
use vstd::prelude::*;
use vstd::string::*;
use aes_gcm::aead::{Aead, KeyInit};
use aes_gcm::{Aes256Gcm, Key, Nonce};
use rand::RngCore;
use sha2::{Digest, Sha256};

verus! {

/// Largest plaintext AES-GCM accepts (`aes_gcm::P_MAX`, 2^36 bytes).
pub open spec fn aead_max_plaintext() -> int {
    0x10_0000_0000
}

/// Length of the nonce that prefixes every encrypted packet.
pub const NONCE_LEN: usize = 12;

/// Length of the AES-GCM authentication tag.
pub const TAG_LEN: usize = 16;

/// SHA-256 digest of `data`.
pub uninterp spec fn sha256(data: Seq<u8>) -> Seq<u8>;

/// AES-256-GCM encryption (no associated data) of `plaintext` under `key` and `nonce`:
/// the ciphertext followed by the 16-byte tag.
pub uninterp spec fn aes256gcm_seal(key: Seq<u8>, nonce: Seq<u8>, plaintext: Seq<u8>) -> Seq<u8>;

/// AES-256-GCM decryption (no associated data) of `ciphertext` under `key` and `nonce`;
/// `None` when the tag does not authenticate.
pub uninterp spec fn aes256gcm_open(key: Seq<u8>, nonce: Seq<u8>, ciphertext: Seq<u8>) -> Option<Seq<u8>>;

#[verifier::external_type_specification]
#[verifier::external_body]
pub struct ExAeadError(aes_gcm::Error);

/// Calls `sha2::Sha256::digest`. Trusted: the 32 bytes returned are the SHA-256
/// digest of `data`, a function of `data` alone.
#[verifier::external_body]
pub(crate) fn sha256_digest(data: &[u8]) -> (r: [u8; 32])
    ensures
        r@ == sha256(data@),
{
    Sha256::digest(data).into()
}

/// Calls `rand::thread_rng().fill_bytes`. Nothing is claimed of the 12 bytes: they
/// come from the thread-local random generator (which panics only when the
/// operating system cannot seed it).
#[verifier::external_body]
fn random_nonce() -> (r: [u8; 12]) {
    let mut nonce = [0u8; 12];
    rand::thread_rng().fill_bytes(&mut nonce);
    nonce
}

/// Calls `<Aes256Gcm as Aead>::encrypt` on a cipher keyed with `key`. Trusted, as the
/// crate's source shows: it fails exactly when the plaintext exceeds `P_MAX`; otherwise
/// it returns the deterministic AES-GCM ciphertext and tag, 16 bytes longer than the
/// plaintext.
#[verifier::external_body]
fn aes256gcm_encrypt(key: &[u8; 32], nonce: &[u8; 12], plaintext: &[u8]) -> (r: Result<Vec<u8>, aes_gcm::Error>)
    ensures
        r is Ok <==> plaintext@.len() <= aead_max_plaintext(),
        r matches Ok(c) ==> c@ == aes256gcm_seal(key@, nonce@, plaintext@) && c@.len() == plaintext@.len() + 16,
{
    Aes256Gcm::new(Key::<Aes256Gcm>::from_slice(key)).encrypt(Nonce::from_slice(nonce), plaintext)
}

/// Calls `<Aes256Gcm as Aead>::decrypt` on a cipher keyed with `key`. Trusted: the
/// result is a function of key, nonce and ciphertext; input shorter than the tag is
/// refused; and, as for any AEAD, decrypting what encryption produced under the same
/// key and nonce gives the plaintext back.
#[verifier::external_body]
fn aes256gcm_decrypt(key: &[u8; 32], nonce: &[u8; 12], ciphertext: &[u8]) -> (r: Result<Vec<u8>, aes_gcm::Error>)
    ensures
        r matches Ok(p) ==> aes256gcm_open(key@, nonce@, ciphertext@) == Some(p@),
        r is Err ==> aes256gcm_open(key@, nonce@, ciphertext@) is None,
        ciphertext@.len() < 16 ==> r is Err,
        r is Err ==> forall|p: Seq<u8>|
            p.len() <= aead_max_plaintext() ==> #[trigger] aes256gcm_seal(key@, nonce@, p) != ciphertext@,
        r matches Ok(q) ==> forall|p: Seq<u8>|
            p.len() <= aead_max_plaintext() && #[trigger] aes256gcm_seal(key@, nonce@, p) == ciphertext@ ==> q@ == p,
{
    Aes256Gcm::new(Key::<Aes256Gcm>::from_slice(key)).decrypt(Nonce::from_slice(nonce), ciphertext)
}

#[derive(Debug, Clone, Copy, PartialEq, Eq)]
pub enum CryptoError {
    EncryptionError,
    DecryptionError,
    InvalidData,
}

/// The human-readable rendering of a crypto error.
pub open spec fn crypto_error_message(e: CryptoError) -> Seq<char> {
    match e {
        CryptoError::EncryptionError => "Encryption failed"@,
        CryptoError::DecryptionError => "Decryption failed / auth tag mismatch"@,
        CryptoError::InvalidData => "Invalid key or nonce"@,
    }
}

impl CryptoError {
    /// The human-readable rendering of this error.
    pub fn message(&self) -> (r: String)
        ensures
            r@ == crypto_error_message(*self),
    {
        match self {
            CryptoError::EncryptionError => String::from_str("Encryption failed"),
            CryptoError::DecryptionError => String::from_str("Decryption failed / auth tag mismatch"),
            CryptoError::InvalidData => String::from_str("Invalid key or nonce"),
        }
    }
}

/// The salt hashed in front of every passphrase.
pub open spec fn key_salt() -> Seq<u8> {
    seq![99u8, 114, 111, 115, 115, 45, 107, 118, 109, 45, 115, 97, 108, 116, 45, 118, 49]
}

/// The key derived from a passphrase: SHA-256 over the salt followed by the passphrase's UTF-8 bytes.
pub open spec fn derived_key(passphrase: Seq<char>) -> Seq<u8> {
    sha256(key_salt() + vstd::utf8::encode_utf8(passphrase))
}

/// `payload` is a nonce followed by the AES-256-GCM sealing of `plaintext` under `key` with that nonce.
pub open spec fn encrypted_under(key: Seq<u8>, plaintext: Seq<u8>, payload: Seq<u8>) -> bool {
    &&& payload.len() >= 12
    &&& aes256gcm_seal(key, payload.subrange(0, 12), plaintext) == payload.subrange(12, payload.len() as int)
}

/// The key of a passphrase is SHA-256 over the 17 ASCII bytes `cross-kvm-salt-v1`
/// followed by the passphrase's UTF-8 bytes, so any two peers configured with the same
/// passphrase share it.
pub proof fn lemma_derived_key_salted(passphrase: Seq<char>)
    ensures
        derived_key(passphrase) == sha256(
            seq![99u8, 114, 111, 115, 115, 45, 107, 118, 109, 45, 115, 97, 108, 116, 45, 118, 49]
                + vstd::utf8::encode_utf8(passphrase),
        ),
        seq![99u8, 114, 111, 115, 115, 45, 107, 118, 109, 45, 115, 97, 108, 116, 45, 118, 49]
            == "cross-kvm-salt-v1"@.map_values(|c: char| c as u8),
{
    reveal_strlit("cross-kvm-salt-v1");
    assert(seq![99u8, 114, 111, 115, 115, 45, 107, 118, 109, 45, 115, 97, 108, 116, 45, 118, 49]
        =~= "cross-kvm-salt-v1"@.map_values(|c: char| c as u8));
}

pub struct PacketCipher {
    key: [u8; 32],
}

impl PacketCipher {
    /// The 256-bit AES key of this cipher.
    pub closed spec fn key(&self) -> Seq<u8> {
        self.key@
    }

    /// Derive a 256-bit AES key from a passphrase using SHA-256
    pub fn from_passphrase(passphrase: &str) -> (r: Self)
        ensures
            r.key() == derived_key(passphrase@),
            r.key() == sha256(seq![99u8, 114, 111, 115, 115, 45, 107, 118, 109, 45, 115, 97, 108, 116, 45, 118, 49]
                + vstd::utf8::encode_utf8(passphrase@)),
    {
        let mut material: Vec<u8> = vec![99u8, 114, 111, 115, 115, 45, 107, 118, 109, 45, 115, 97, 108, 116, 45, 118, 49];
        let bytes = passphrase.as_bytes();
        let ghost salt = material@;
        let mut i: usize = 0;
        while i < bytes.len()
            invariant
                i <= bytes@.len(),
                material@ == salt + bytes@.subrange(0, i as int),
            decreases bytes@.len() - i,
        {
            material.push(bytes[i]);
            i = i + 1;
            assert(bytes@.subrange(0, i as int) == bytes@.subrange(0, i - 1) .push(bytes@[i - 1]));
        }
        assert(bytes@.subrange(0, bytes@.len() as int) == bytes@);
        assert(salt == key_salt());
        let key = sha256_digest(material.as_slice());
        PacketCipher { key }
    }

    /// Encrypt plaintext. Prepends the 12-byte random nonce to the ciphertext.
    pub fn encrypt(&self, plaintext: &[u8]) -> (r: Result<Vec<u8>, CryptoError>)
        ensures
            plaintext@.len() <= aead_max_plaintext() <==> r is Ok,
            r matches Ok(out) ==> encrypted_under(self.key(), plaintext@, out@) && out@.len() == plaintext@.len() + 28,
            r matches Err(e) ==> e == CryptoError::EncryptionError,
    {
        let nonce = random_nonce();
        let ciphertext = match aes256gcm_encrypt(&self.key, &nonce, plaintext) {
            Ok(c) => c,
            Err(_) => return Err(CryptoError::EncryptionError),
        };
        let mut output: Vec<u8> = Vec::new();
        let mut i: usize = 0;
        while i < 12
            invariant
                i <= 12,
                output@ == nonce@.subrange(0, i as int),
            decreases 12 - i,
        {
            output.push(nonce[i]);
            i = i + 1;
            assert(nonce@.subrange(0, i as int) == nonce@.subrange(0, i - 1).push(nonce@[i - 1]));
        }
        let mut j: usize = 0;
        while j < ciphertext.len()
            invariant
                j <= ciphertext@.len(),
                output@ == nonce@ + ciphertext@.subrange(0, j as int),
            decreases ciphertext@.len() - j,
        {
            output.push(ciphertext[j]);
            j = j + 1;
            assert(ciphertext@.subrange(0, j as int) == ciphertext@.subrange(0, j - 1).push(ciphertext@[j - 1]));
        }
        assert(nonce@.subrange(0, 12) == nonce@);
        assert(ciphertext@.subrange(0, ciphertext@.len() as int) == ciphertext@);
        assert(output@.subrange(0, 12) == nonce@);
        assert(output@.subrange(12, output@.len() as int) == ciphertext@);
        Ok(output)
    }

    /// Decrypt payload where the first 12 bytes are the nonce.
    pub fn decrypt(&self, payload: &[u8]) -> (r: Result<Vec<u8>, CryptoError>)
        ensures
            payload@.len() < 12 ==> r == Err::<Vec<u8>, CryptoError>(CryptoError::InvalidData),
            payload@.len() >= 12 ==> match r {
                Ok(p) => aes256gcm_open(self.key(), payload@.subrange(0, 12), payload@.subrange(12, payload@.len() as int)) == Some(p@),
                Err(e) => e == CryptoError::DecryptionError
                    && aes256gcm_open(self.key(), payload@.subrange(0, 12), payload@.subrange(12, payload@.len() as int)) is None,
            },
            forall|p: Seq<u8>|
                p.len() <= aead_max_plaintext() && #[trigger] encrypted_under(self.key(), p, payload@)
                    ==> (r matches Ok(q) && q@ == p),
    {
        if payload.len() < 12 {
            return Err(CryptoError::InvalidData);
        }
        let mut nonce = [0u8; 12];
        let mut i: usize = 0;
        while i < 12
            invariant
                i <= 12,
                payload@.len() >= 12,
                forall|k: int| 0 <= k < i ==> nonce@[k] == payload@[k],
            decreases 12 - i,
        {
            nonce[i] = payload[i];
            i = i + 1;
        }
        assert(nonce@ == payload@.subrange(0, 12));
        let ciphertext = vstd::slice::slice_subrange(payload, 12, payload.len());
        match aes256gcm_decrypt(&self.key, &nonce, ciphertext) {
            Ok(p) => Ok(p),
            Err(_) => Err(CryptoError::DecryptionError),
        }
    }
}

} // verus!
