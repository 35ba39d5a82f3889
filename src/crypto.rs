//! Credential cipher: AES-256-GCM over UTF-8 text, with hex text for the
//! ciphertext and for the nonce, so that both can be stored beside a session.

use vstd::prelude::*;
use vstd::utf8::*;
use vstd::string::StringSliceAdditionalSpecFns;
use aes_gcm::aead::rand_core::RngCore;
use aes_gcm::aead::{Aead, KeyInit, OsRng};
use aes_gcm::{Aes256Gcm, Nonce};
use crate::encoding::{decode_hex, encode_hex, hex_bytes, hex_text, lemma_hex_round_trip};

verus! {

broadcast use {encode_utf8_valid_utf8, encode_utf8_decode_utf8};

/// Bytes in a key.
pub const KEY_SIZE: usize = 32;

/// Bytes in a nonce.
pub const NONCE_SIZE: usize = 12;

/// The longest plaintext, in bytes, that AES-GCM takes.
pub const MAX_PLAINTEXT: u64 = 68719476736;

/// Why a key or a stored ciphertext could not be used.
#[derive(Debug, Clone, Copy, PartialEq, Eq, Structural)]
pub enum CryptoError {
    /// The key text is not 64 hex digits.
    InvalidKey,
    /// The ciphertext or the nonce is not hex text, or the nonce is not
    /// twelve bytes.
    Malformed,
    /// The ciphertext does not authenticate under this key and nonce.
    Rejected,
    /// The plaintext is not UTF-8.
    NotText,
}

/// What AES-256-GCM makes of a plaintext: the ciphertext with its tag.
pub uninterp spec fn gcm_seal(key: Seq<u8>, nonce: Seq<u8>, plaintext: Seq<u8>) -> Seq<u8>;

/// What AES-256-GCM makes of a ciphertext: the plaintext, or `None` where
/// the tag does not match.
pub uninterp spec fn gcm_open(key: Seq<u8>, nonce: Seq<u8>, ciphertext: Seq<u8>) -> Option<Seq<u8>>;

/// The key that 64 hex digits stand for.
pub open spec fn key_of(text: Seq<char>) -> Option<Seq<u8>> {
    match hex_bytes(text) {
        Some(k) => if k.len() == KEY_SIZE {
            Some(k)
        } else {
            None
        },
        None => None,
    }
}

/// The stored form of `plaintext` under `key` and `nonce`: ciphertext hex,
/// nonce hex.
pub open spec fn sealed_text(key: Seq<u8>, nonce: Seq<u8>, plaintext: Seq<char>) -> (Seq<char>, Seq<char>) {
    (hex_text(gcm_seal(key, nonce, encode_utf8(plaintext))), hex_text(nonce))
}

/// What decrypting a stored ciphertext gives.
pub open spec fn opened_text(key: Seq<u8>, ciphertext: Seq<char>, nonce: Seq<char>) -> Result<Seq<char>, CryptoError> {
    match (hex_bytes(ciphertext), hex_bytes(nonce)) {
        (Some(c), Some(n)) => if n.len() != NONCE_SIZE {
            Err(CryptoError::Malformed)
        } else {
            match gcm_open(key, n, c) {
                Some(p) => if valid_utf8(p) {
                    Ok(decode_utf8(p))
                } else {
                    Err(CryptoError::NotText)
                },
                None => Err(CryptoError::Rejected),
            }
        },
        _ => Err(CryptoError::Malformed),
    }
}

/// Decrypting tells input that is not hex text, or a nonce of the wrong
/// size, apart from a ciphertext that does not authenticate (tampered, or
/// under another key): the first is `Malformed`, and well-formed input
/// never is.
pub proof fn lemma_failures_distinct(key: Seq<u8>, ciphertext: Seq<char>, nonce: Seq<char>)
    ensures
        hex_bytes(ciphertext).is_none() || hex_bytes(nonce).is_none() ==> opened_text(key, ciphertext, nonce)
            == Err::<Seq<char>, CryptoError>(CryptoError::Malformed),
        hex_bytes(ciphertext).is_some() && hex_bytes(nonce).is_some() && hex_bytes(nonce).unwrap().len()
            == NONCE_SIZE ==> opened_text(key, ciphertext, nonce) != Err::<Seq<char>, CryptoError>(
            CryptoError::Malformed,
        ),
        hex_bytes(ciphertext).is_some() && hex_bytes(nonce).is_some() && hex_bytes(nonce).unwrap().len()
            == NONCE_SIZE && gcm_open(key, hex_bytes(nonce).unwrap(), hex_bytes(ciphertext).unwrap()).is_none()
            ==> opened_text(key, ciphertext, nonce) == Err::<Seq<char>, CryptoError>(CryptoError::Rejected),
{
}

/// Relies on aes_gcm's Aes256Gcm::encrypt (aead::Aead, no associated data):
/// it fails only on a plaintext over MAX_PLAINTEXT bytes; its result is the
/// ciphertext (as long as the plaintext) with the 16-byte tag, which Aes256Gcm::decrypt under the same key and
/// nonce turns back into the plaintext.
#[verifier::external_body]
fn gcm_encrypt(key: &[u8; 32], nonce: &[u8; 12], plaintext: &[u8]) -> (r: Option<Vec<u8>>)
    ensures
        r.is_some() <==> plaintext@.len() <= MAX_PLAINTEXT,
        r matches Some(c) ==> c@ == gcm_seal(key@, nonce@, plaintext@),
        r matches Some(c) ==> c@.len() == plaintext@.len() + 16,
        r matches Some(c) ==> gcm_open(key@, nonce@, c@) == Some(plaintext@),
{
    Aes256Gcm::new(key.into()).encrypt(Nonce::from_slice(nonce), plaintext).ok()
}

/// Relies on aes_gcm's Aes256Gcm::decrypt (aead::Aead, no associated data):
/// the plaintext when the tag matches, an error otherwise.
#[verifier::external_body]
fn gcm_decrypt(key: &[u8; 32], nonce: &[u8; 12], ciphertext: &[u8]) -> (r: Option<Vec<u8>>)
    ensures
        match r {
            Some(p) => gcm_open(key@, nonce@, ciphertext@) == Some(p@),
            None => gcm_open(key@, nonce@, ciphertext@).is_none(),
        },
{
    Aes256Gcm::new(key.into()).decrypt(Nonce::from_slice(nonce), ciphertext).ok()
}

/// Relies on rand_core's OsRng, as aes_gcm re-exports it: twelve bytes from
/// the operating system's secure generator (it panics only where the
/// system has no randomness to give). Nothing is known of their value.
#[verifier::external_body]
fn random_nonce() -> (r: [u8; 12]) {
    let mut nonce = [0u8; 12];
    OsRng.fill_bytes(&mut nonce);
    nonce
}

/// Relies on String::from_utf8: it succeeds exactly on valid UTF-8 and then
/// holds the text those bytes encode.
#[verifier::external_body]
fn utf8_text(bytes: Vec<u8>) -> (r: Option<String>)
    ensures
        r.is_some() <==> valid_utf8(bytes@),
        r matches Some(s) ==> s@ == decode_utf8(bytes@),
{
    String::from_utf8(bytes).ok()
}

/// UTF-8 takes at least one byte per character.
proof fn lemma_utf8_len(chars: Seq<char>)
    ensures
        encode_utf8(chars).len() >= chars.len(),
    decreases chars.len(),
{
    if chars.len() > 0 {
        lemma_utf8_len(chars.drop_first());
    }
}

/// Reads a key from its 64 hex digits.
pub fn parse_key(text: &str) -> (r: Result<[u8; 32], CryptoError>)
    ensures
        match r {
            Ok(k) => key_of(text@) == Some(k@),
            Err(e) => key_of(text@).is_none() && e == CryptoError::InvalidKey,
        },
{
    let bytes = match decode_hex(text) {
        Some(b) => b,
        None => return Err(CryptoError::InvalidKey),
    };
    if bytes.len() != KEY_SIZE {
        return Err(CryptoError::InvalidKey);
    }
    let mut key = [0u8; 32];
    let mut i: usize = 0;
    while i < KEY_SIZE
        invariant
            i <= KEY_SIZE,
            bytes@.len() == KEY_SIZE,
            forall|j: int| 0 <= j < i ==> key@[j] == bytes@[j],
        decreases KEY_SIZE - i,
    {
        key[i] = bytes[i];
        i = i + 1;
    }
    assert(key@ =~= bytes@);
    Ok(key)
}

/// Encrypts `plaintext` under `key` with the given nonce. The nonce must
/// never be used twice with one key: `encrypt` draws a fresh one.
pub fn seal_with_nonce(key: &[u8; 32], nonce: &[u8; 12], plaintext: &str) -> (r: (String, String))
    requires
        plaintext.spec_bytes().len() <= MAX_PLAINTEXT,
    ensures
        (r.0@, r.1@) == sealed_text(key@, nonce@, plaintext@),
        opened_text(key@, r.0@, r.1@) == Ok::<Seq<char>, CryptoError>(plaintext@),
        r.0@.len() > plaintext@.len(),
{
    let ciphertext = match gcm_encrypt(key, nonce, plaintext.as_bytes()) {
        Some(c) => c,
        None => {
            proof {
                assert(false);
            }
            Vec::new()
        },
    };
    let c = encode_hex(ciphertext.as_slice());
    let n = encode_hex(nonce);
    proof {
        lemma_hex_round_trip(ciphertext@);
        lemma_hex_round_trip(nonce@);
        lemma_utf8_len(plaintext@);
    }
    (c, n)
}

/// Encrypts `plaintext` under `key` with a fresh random nonce. Returns the
/// ciphertext and the nonce, both as hex text.
pub fn encrypt(key: &[u8; 32], plaintext: &str) -> (r: (String, String))
    requires
        plaintext.spec_bytes().len() <= MAX_PLAINTEXT,
    ensures
        exists|n: Seq<u8>| n.len() == NONCE_SIZE && (r.0@, r.1@) == sealed_text(key@, n, plaintext@),
        opened_text(key@, r.0@, r.1@) == Ok::<Seq<char>, CryptoError>(plaintext@),
        r.0@.len() > plaintext@.len(),
{
    let nonce = random_nonce();
    seal_with_nonce(key, &nonce, plaintext)
}

/// Decrypts a ciphertext stored as hex text, with its nonce.
pub fn decrypt(key: &[u8; 32], ciphertext_hex: &str, nonce_hex: &str) -> (r: Result<String, CryptoError>)
    ensures
        match r {
            Ok(s) => opened_text(key@, ciphertext_hex@, nonce_hex@) == Ok::<Seq<char>, CryptoError>(s@),
            Err(e) => opened_text(key@, ciphertext_hex@, nonce_hex@) == Err::<Seq<char>, CryptoError>(e),
        },
{
    let ciphertext = match decode_hex(ciphertext_hex) {
        Some(c) => c,
        None => return Err(CryptoError::Malformed),
    };
    let nonce_bytes = match decode_hex(nonce_hex) {
        Some(n) => n,
        None => return Err(CryptoError::Malformed),
    };
    if nonce_bytes.len() != NONCE_SIZE {
        return Err(CryptoError::Malformed);
    }
    let mut nonce = [0u8; 12];
    let mut i: usize = 0;
    while i < NONCE_SIZE
        invariant
            i <= NONCE_SIZE,
            nonce_bytes@.len() == NONCE_SIZE,
            forall|j: int| 0 <= j < i ==> nonce@[j] == nonce_bytes@[j],
        decreases NONCE_SIZE - i,
    {
        nonce[i] = nonce_bytes[i];
        i = i + 1;
    }
    assert(nonce@ =~= nonce_bytes@);
    let plain = match gcm_decrypt(key, &nonce, ciphertext.as_slice()) {
        Some(p) => p,
        None => return Err(CryptoError::Rejected),
    };
    match utf8_text(plain) {
        Some(s) => Ok(s),
        None => Err(CryptoError::NotText),
    }
}

} // verus!
