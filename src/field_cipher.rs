use vstd::prelude::*;
use vstd::utf8::{decode_utf8, encode_utf8, valid_utf8};
use aes_gcm::aead::{Aead, KeyInit};
use base64::Engine;
use crate::key_derivation::fill_from_os_rng;

verus! {

broadcast use {vstd::utf8::encode_utf8_valid_utf8, vstd::utf8::encode_utf8_decode_utf8};

/// Longest plaintext, in bytes, that AES-GCM encrypts (2^36).
pub const MAX_PLAINTEXT_BYTES: u64 = 0x10_0000_0000;

/// Length of the AES-GCM authentication tag appended to a ciphertext.
pub const TAG_BYTES: usize = 16;

/// Length of an AES-256 key, in bytes.
pub const KEY_BYTES: usize = 32;

/// Length of an AES-GCM nonce, in bytes.
pub const NONCE_BYTES: usize = 12;

#[verifier::external_type_specification]
#[verifier::external_body]
pub struct ExAeadError(aes_gcm::Error);

#[verifier::external_type_specification]
#[verifier::external_body]
pub struct ExDecodeError(base64::DecodeError);

/// The AES-256-GCM ciphertext (with its tag) of `plaintext` under `key` and
/// `nonce`, with empty associated data.
pub uninterp spec fn aes_gcm_seal(key: Seq<u8>, nonce: Seq<u8>, plaintext: Seq<u8>) -> Seq<u8>;

/// The plaintext that AES-256-GCM recovers from `ciphertext` under `key` and
/// `nonce`, or `None` when the tag does not authenticate.
pub uninterp spec fn aes_gcm_open(key: Seq<u8>, nonce: Seq<u8>, ciphertext: Seq<u8>) -> Option<Seq<u8>>;

/// The standard-alphabet, padded base64 text of `bytes`.
pub uninterp spec fn base64_of(bytes: Seq<u8>) -> Seq<char>;

/// The bytes that standard-alphabet, padded base64 decoding gives for `text`,
/// or `None` when `text` is not canonical base64.
pub uninterp spec fn base64_decoded(text: Seq<char>) -> Option<Seq<u8>>;

/// Relies on aes-gcm's `Aes256Gcm::new` and `Aead::encrypt`: encryption fails
/// only on a plaintext longer than `P_MAX`, appends a 16-byte tag, and what it
/// produces decrypts to the plaintext under the same key and nonce.
#[verifier::external_body]
fn aes256gcm_encrypt(key: &[u8], nonce: &[u8], plaintext: &[u8]) -> (r: Result<Vec<u8>, aes_gcm::Error>)
    requires
        key@.len() == KEY_BYTES,
        nonce@.len() == NONCE_BYTES,
    ensures
        r.is_ok() <==> plaintext@.len() <= MAX_PLAINTEXT_BYTES,
        r matches Ok(c) ==> c@ == aes_gcm_seal(key@, nonce@, plaintext@),
        r matches Ok(c) ==> c@.len() == plaintext@.len() + TAG_BYTES,
        r matches Ok(c) ==> aes_gcm_open(key@, nonce@, c@) == Some(plaintext@),
{
    let cipher = aes_gcm::Aes256Gcm::new(aes_gcm::Key::<aes_gcm::Aes256Gcm>::from_slice(key));
    cipher.encrypt(aes_gcm::Nonce::from_slice(nonce), plaintext)
}

/// Relies on aes-gcm's `Aes256Gcm::new` and `Aead::decrypt`: decryption
/// succeeds exactly when the tag authenticates, and returns the plaintext.
#[verifier::external_body]
fn aes256gcm_decrypt(key: &[u8], nonce: &[u8], ciphertext: &[u8]) -> (r: Result<Vec<u8>, aes_gcm::Error>)
    requires
        key@.len() == KEY_BYTES,
        nonce@.len() == NONCE_BYTES,
    ensures
        r.is_ok() <==> aes_gcm_open(key@, nonce@, ciphertext@) is Some,
        r matches Ok(p) ==> aes_gcm_open(key@, nonce@, ciphertext@) == Some(p@),
{
    let cipher = aes_gcm::Aes256Gcm::new(aes_gcm::Key::<aes_gcm::Aes256Gcm>::from_slice(key));
    cipher.decrypt(aes_gcm::Nonce::from_slice(nonce), ciphertext)
}

/// Relies on base64's `STANDARD.encode`: padded text of four characters per
/// started group of three bytes, which `STANDARD.decode` turns back into the bytes.
#[verifier::external_body]
fn base64_encode(bytes: &[u8]) -> (r: String)
    ensures
        r@ == base64_of(bytes@),
        r@.len() == 4 * ((bytes@.len() + 2) / 3),
        base64_decoded(r@) == Some(bytes@),
{
    base64::engine::general_purpose::STANDARD.encode(bytes)
}

/// Relies on base64's `STANDARD.decode`: succeeds exactly on canonical padded
/// standard-alphabet text.
#[verifier::external_body]
fn base64_decode(text: &str) -> (r: Result<Vec<u8>, base64::DecodeError>)
    ensures
        r.is_ok() <==> base64_decoded(text@) is Some,
        r matches Ok(b) ==> base64_decoded(text@) == Some(b@),
{
    base64::engine::general_purpose::STANDARD.decode(text)
}

/// Relies on std's `String::from_utf8`: succeeds exactly on valid UTF-8 and
/// keeps the characters that the bytes encode.
#[verifier::external_body]
fn string_from_utf8(bytes: Vec<u8>) -> (r: Option<String>)
    ensures
        r is Some <==> valid_utf8(bytes@),
        r matches Some(s) ==> s@ == decode_utf8(bytes@),
{
    String::from_utf8(bytes).ok()
}

/// Failures of field encryption; deliberately silent on the cause.
#[derive(Debug, Clone, Copy, PartialEq, Eq, Structural)]
pub enum CipherError {
    /// The key is not 32 bytes, the plaintext is too long, or no nonce could be drawn.
    Encryption,
    /// Wrong key, tampered or malformed ciphertext or nonce, or non-text plaintext.
    Decryption,
}

/// Whether a field of `plaintext` can be encrypted under a key of `key_len` bytes.
pub open spec fn can_seal(plaintext: Seq<char>, key_len: nat) -> bool {
    key_len == KEY_BYTES && encode_utf8(plaintext).len() <= MAX_PLAINTEXT_BYTES
}

/// The stored form (ciphertext text, nonce text) of `plaintext` sealed under
/// `key` with the nonce bytes `nonce`.
pub open spec fn sealed_field(plaintext: Seq<char>, key: Seq<u8>, nonce: Seq<u8>) -> (Seq<char>, Seq<char>) {
    (base64_of(aes_gcm_seal(key, nonce, encode_utf8(plaintext))), base64_of(nonce))
}

/// The plaintext that a stored (ciphertext text, nonce text) pair opens to
/// under `key`, or `None` when any step fails.
pub open spec fn opened_field(ciphertext: Seq<char>, nonce: Seq<char>, key: Seq<u8>) -> Option<Seq<char>> {
    if key.len() != KEY_BYTES {
        None
    } else {
        match (base64_decoded(nonce), base64_decoded(ciphertext)) {
            (Some(n), Some(c)) => if n.len() != NONCE_BYTES {
                None
            } else {
                match aes_gcm_open(key, n, c) {
                    Some(p) => if valid_utf8(p) {
                        Some(decode_utf8(p))
                    } else {
                        None
                    },
                    None => None,
                }
            },
            _ => None,
        }
    }
}

/// Seals `plaintext` under `key` with the given nonce bytes. Everything but
/// the choice of nonce is fixed here; the result opens back to `plaintext`.
pub fn seal_with_nonce(plaintext: &str, key: &[u8], nonce: &[u8]) -> (r: Result<(String, String), CipherError>)
    requires
        nonce@.len() == NONCE_BYTES,
    ensures
        r is Ok <==> can_seal(plaintext@, key@.len()),
        r matches Ok((c, n)) ==> (c@, n@) == sealed_field(plaintext@, key@, nonce@),
        r matches Ok((c, n)) ==> opened_field(c@, n@, key@) == Some(plaintext@),
        r matches Ok((c, n)) ==> base64_decoded(c@) == Some(aes_gcm_seal(key@, nonce@, encode_utf8(plaintext@))),
        r matches Ok((c, n)) ==> base64_decoded(n@) == Some(nonce@),
        r matches Ok((c, n)) ==> c@.len() == 4 * ((encode_utf8(plaintext@).len() + TAG_BYTES + 2) / 3),
        r matches Err(e) ==> e == CipherError::Encryption,
{
    if key.len() != KEY_BYTES {
        return Err(CipherError::Encryption);
    }
    let bytes = plaintext.as_bytes();
    match aes256gcm_encrypt(key, nonce, bytes) {
        Ok(sealed) => {
            let c = base64_encode(sealed.as_slice());
            let n = base64_encode(nonce);
            Ok((c, n))
        },
        Err(_) => Err(CipherError::Encryption),
    }
}

/// Opens a stored (ciphertext text, nonce text) pair under `key`.
pub fn open_field(ciphertext: &str, nonce: &str, key: &[u8]) -> (r: Result<String, CipherError>)
    ensures
        r is Ok <==> opened_field(ciphertext@, nonce@, key@) is Some,
        r matches Ok(p) ==> opened_field(ciphertext@, nonce@, key@) == Some(p@),
        r matches Err(e) ==> e == CipherError::Decryption,
{
    if key.len() != KEY_BYTES {
        return Err(CipherError::Decryption);
    }
    let n = match base64_decode(nonce) {
        Ok(n) => n,
        Err(_) => return Err(CipherError::Decryption),
    };
    let c = match base64_decode(ciphertext) {
        Ok(c) => c,
        Err(_) => return Err(CipherError::Decryption),
    };
    if n.len() != NONCE_BYTES {
        return Err(CipherError::Decryption);
    }
    let p = match aes256gcm_decrypt(key, n.as_slice(), c.as_slice()) {
        Ok(p) => p,
        Err(_) => return Err(CipherError::Decryption),
    };
    match string_from_utf8(p) {
        Some(s) => Ok(s),
        None => Err(CipherError::Decryption),
    }
}

/// Draws a fresh nonce from the operating system's generator.
pub fn fresh_nonce() -> (r: Option<Vec<u8>>)
    ensures
        r matches Some(n) ==> n@.len() == NONCE_BYTES,
{
    let mut n: Vec<u8> = Vec::new();
    let mut i: usize = 0;
    while i < NONCE_BYTES
        invariant
            i <= NONCE_BYTES,
            n@.len() == i,
        decreases NONCE_BYTES - i,
    {
        n.push(0u8);
        i = i + 1;
    }
    if fill_from_os_rng(&mut n) {
        Some(n)
    } else {
        None
    }
}

} // verus!
