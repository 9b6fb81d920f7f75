//! Field encryption: AES-256-GCM under a per-context key, stored as the
//! Base64 text of `nonce || ciphertext`.
use vstd::prelude::*;
use vstd::utf8::*;
use vstd::string::*;
use aes_gcm::aead::{Aead, AeadCore, KeyInit, OsRng};
use aes_gcm::{Aes256Gcm, Key, Nonce};
use crate::digest::{derive_key, derive_key_spec};
use crate::encoding::{b64_decode, b64_encode, base64_encode, decode_base64, lemma_b64_encode_len, lemma_b64_round_trip, utf8_string};
use crate::error::{encryption, is_encryption, AppError};

verus! {

#[verifier::external_type_specification]
#[verifier::external_body]
pub struct ExAeadError(aes_gcm::Error);

/// Length in bytes of an AES-GCM nonce.
pub const NONCE_LEN: usize = 12;

/// The longest plaintext, in bytes, that AES-GCM accepts (2^36).
pub open spec fn gcm_max_plaintext() -> int {
    68719476736
}

/// The AES-256-GCM ciphertext (with its 16-byte tag appended) of
/// `plaintext` under `key` and `nonce`, with empty associated data.
pub uninterp spec fn aes256gcm_seal(key: Seq<u8>, nonce: Seq<u8>, plaintext: Seq<u8>) -> Seq<u8>;

/// AES-256-GCM authenticated decryption with empty associated data: the
/// plaintext, or `None` when the tag does not verify.
pub uninterp spec fn aes256gcm_open(key: Seq<u8>, nonce: Seq<u8>, ciphertext: Seq<u8>) -> Option<
    Seq<u8>,
>;

/// `Aes256Gcm::encrypt` (via `aead::Aead`) with empty associated data. It
/// fails exactly when the plaintext is longer than 2^36 bytes; otherwise the
/// ciphertext is 16 bytes longer than the plaintext and opening it under the
/// same key and nonce gives the plaintext back.
#[verifier::external_body]
pub(crate) fn aes256gcm_encrypt(key: &[u8], nonce: &[u8], plaintext: &[u8]) -> (r: Result<
    Vec<u8>,
    aes_gcm::Error,
>)
    requires
        key@.len() == 32,
        nonce@.len() == 12,
    ensures
        r is Ok <==> plaintext@.len() <= gcm_max_plaintext(),
        r matches Ok(c) ==> {
            &&& c@ == aes256gcm_seal(key@, nonce@, plaintext@)
            &&& c@.len() == plaintext@.len() + 16
            &&& aes256gcm_open(key@, nonce@, c@) == Some(plaintext@)
        },
{
    let cipher = Aes256Gcm::new(Key::<Aes256Gcm>::from_slice(key));
    cipher.encrypt(Nonce::from_slice(nonce), plaintext)
}

/// `Aes256Gcm::decrypt` (via `aead::Aead`) with empty associated data; the
/// error value is dropped.
#[verifier::external_body]
pub(crate) fn aes256gcm_decrypt(key: &[u8], nonce: &[u8], ciphertext: &[u8]) -> (r: Option<
    Vec<u8>,
>)
    requires
        key@.len() == 32,
        nonce@.len() == 12,
    ensures
        match r {
            Some(p) => aes256gcm_open(key@, nonce@, ciphertext@) == Some(p@),
            None => aes256gcm_open(key@, nonce@, ciphertext@) is None,
        },
{
    let cipher = Aes256Gcm::new(Key::<Aes256Gcm>::from_slice(key));
    cipher.decrypt(Nonce::from_slice(nonce), ciphertext).ok()
}

/// `Aes256Gcm::generate_nonce(&mut OsRng)`: 12 bytes from the operating
/// system's random source. Nothing is said of their value.
#[verifier::external_body]
pub(crate) fn random_nonce() -> (n: Vec<u8>)
    ensures
        n@.len() == 12,
{
    Aes256Gcm::generate_nonce(&mut OsRng).to_vec()
}

/// The stored text of `plaintext` sealed for `context` with `nonce`:
/// Base64 of the nonce followed by the AES-256-GCM ciphertext.
pub open spec fn sealed_text(
    master: Seq<char>,
    context: Seq<char>,
    nonce: Seq<u8>,
    plaintext: Seq<char>,
) -> Seq<char> {
    b64_encode(nonce + aes256gcm_seal(derive_key_spec(master, context), nonce, encode_utf8(plaintext)))
}

/// What reading a stored text back gives: the plaintext, or the message of
/// the first check that fails.
pub open spec fn decrypt_spec(master: Seq<char>, blob: Seq<char>, context: Seq<char>) -> Result<
    Seq<char>,
    Seq<char>,
> {
    match b64_decode(blob) {
        None => Err("Invalid base64 blob"@),
        Some(combined) => if combined.len() < 12 {
            Err("Blob too short"@)
        } else {
            match aes256gcm_open(
                derive_key_spec(master, context),
                combined.subrange(0, 12),
                combined.subrange(12, combined.len() as int),
            ) {
                None => Err("Decryption failed - invalid key or tampered data "@),
                Some(p) => if valid_utf8(p) {
                    Ok(decode_utf8(p))
                } else {
                    Err("Decrypted bytes are not valid UTF-8"@)
                },
            }
        },
    }
}

/// An executable outcome agrees with a specified one: the same text, or an
/// encryption error with the same message.
pub open spec fn outcome_is(r: Result<String, AppError>, expected: Result<Seq<char>, Seq<char>>) -> bool {
    match expected {
        Ok(t) => r matches Ok(s) && s@ == t,
        Err(m) => r matches Err(e) && is_encryption(e, m),
    }
}

/// `r` failed with the encryption error `m`.
pub open spec fn outcome_is_err<T>(r: Result<T, AppError>, m: Seq<char>) -> bool {
    r matches Err(e) && e matches AppError::Encryption(t) && t@ == m
}

/// The master key's text, when one is configured.
pub open spec fn master_text(master: Option<&str>) -> Option<Seq<char>> {
    match master {
        Some(m) => Some(m@),
        None => None,
    }
}

/// The configured master secret, or the encryption error that says it is
/// missing.
pub fn require_master(master: Option<&str>) -> (r: Result<&str, AppError>)
    ensures
        match master {
            Some(m) => r == Ok::<&str, AppError>(m),
            None => r matches Err(e) && is_encryption(e, "Master key not configured"@),
        },
{
    match master {
        Some(m) => Ok(m),
        None => Err(encryption("Master key not configured")),
    }
}

/// The Base64 text of a sealed field holds the 12-byte nonce, then a
/// ciphertext 16 bytes longer than the UTF-8 of the plaintext; only the
/// plaintext's length shows in the text's length.
pub open spec fn sealed_shape(blob: Seq<char>, plaintext: Seq<char>) -> bool {
    &&& b64_decode(blob) matches Some(c) && c.len() == 12 + encode_utf8(plaintext).len() + 16
    &&& blob.len() == 4 * ((encode_utf8(plaintext).len() + 30) / 3)
}

/// Sealed texts of plaintexts whose UTF-8 forms have one length have one
/// length too, whatever the key, context or nonce: a blob shows no more of
/// its plaintext than that length.
pub proof fn law_blob_length_shows_only_plaintext_length(b1: Seq<char>, p1: Seq<char>, b2: Seq<char>, p2: Seq<char>)
    requires
        sealed_shape(b1, p1),
        sealed_shape(b2, p2),
        encode_utf8(p1).len() == encode_utf8(p2).len(),
    ensures
        b1.len() == b2.len(),
{
}

/// Seals `plaintext` for `context` with a given 12-byte nonce.
pub fn seal_with_nonce(master: &str, plaintext: &str, context: &str, nonce: &[u8]) -> (r: Result<
    String,
    AppError,
>)
    requires
        nonce@.len() == 12,
    ensures
        r is Ok <==> encode_utf8(plaintext@).len() <= gcm_max_plaintext(),
        r matches Ok(blob) ==> blob@ == sealed_text(master@, context@, nonce@, plaintext@),
        r matches Ok(blob) ==> decrypt_spec(master@, blob@, context@) == Ok::<Seq<char>, Seq<char>>(plaintext@),
        r matches Ok(blob) ==> sealed_shape(blob@, plaintext@),
        r matches Err(e) ==> e is Encryption,
{
    let key = derive_key(master, context);
    let pt = plaintext.as_bytes();
    match aes256gcm_encrypt(key.as_slice(), nonce, pt) {
        Err(e) => Err(AppError::Encryption(e.to_string())),
        Ok(ciphertext) => {
            let mut combined: Vec<u8> = Vec::new();
            crate::digest::append_bytes(&mut combined, nonce);
            crate::digest::append_bytes(&mut combined, ciphertext.as_slice());
            let blob = base64_encode(combined.as_slice());
            proof {
                law_read_after_seal(master@, context@, nonce@, plaintext@);
                lemma_b64_round_trip(combined@);
                lemma_b64_encode_len(combined@);
            }
            Ok(blob)
        },
    }
}

/// Reading back a text sealed with any nonce gives the plaintext, whenever the
/// AES-GCM ciphertext opens under the key and nonce it was made with (which
/// the AES-GCM implementation guarantees for every ciphertext it produces).
pub proof fn law_read_after_seal(
    master: Seq<char>,
    context: Seq<char>,
    nonce: Seq<u8>,
    plaintext: Seq<char>,
)
    requires
        nonce.len() == 12,
        aes256gcm_open(
            derive_key_spec(master, context),
            nonce,
            aes256gcm_seal(derive_key_spec(master, context), nonce, encode_utf8(plaintext)),
        ) == Some(encode_utf8(plaintext)),
    ensures
        decrypt_spec(master, sealed_text(master, context, nonce, plaintext), context) == Ok::<
            Seq<char>,
            Seq<char>,
        >(plaintext),
{
    let key = derive_key_spec(master, context);
    let ct = aes256gcm_seal(key, nonce, encode_utf8(plaintext));
    let combined = nonce + ct;
    lemma_b64_round_trip(combined);
    assert(combined.subrange(0, 12) =~= nonce);
    assert(combined.subrange(12, combined.len() as int) =~= ct);
    encode_utf8_valid_utf8(plaintext);
    encode_utf8_decode_utf8(plaintext);
}

/// Encrypts `plaintext` for `context` under a fresh random nonce.
/// The stored text always reads back, through `decrypt`, as `plaintext`.
pub fn encrypt(master: &str, plaintext: &str, context: &str) -> (r: Result<String, AppError>)
    ensures
        r is Ok <==> encode_utf8(plaintext@).len() <= gcm_max_plaintext(),
        r matches Ok(blob) ==> exists|nonce: Seq<u8>|
            nonce.len() == 12 && blob@ == #[trigger] sealed_text(master@, context@, nonce, plaintext@),
        r matches Ok(blob) ==> decrypt_spec(master@, blob@, context@) == Ok::<Seq<char>, Seq<char>>(plaintext@),
        r matches Ok(blob) ==> sealed_shape(blob@, plaintext@),
        r matches Err(e) ==> e is Encryption,
{
    let nonce = random_nonce();
    seal_with_nonce(master, plaintext, context, nonce.as_slice())
}

/// Reads back a stored text sealed for `context`.
pub fn decrypt(master: &str, blob: &str, context: &str) -> (r: Result<String, AppError>)
    ensures
        outcome_is(r, decrypt_spec(master@, blob@, context@)),
{
    let key = derive_key(master, context);
    let combined = match decode_base64(blob) {
        None => {
            return Err(encryption("Invalid base64 blob"));
        },
        Some(c) => c,
    };
    if combined.len() < NONCE_LEN {
        return Err(encryption("Blob too short"));
    }
    let (nonce, ciphertext) = combined.as_slice().split_at(NONCE_LEN);
    let plain = match aes256gcm_decrypt(key.as_slice(), nonce, ciphertext) {
        None => {
            return Err(encryption("Decryption failed - invalid key or tampered data "));
        },
        Some(p) => p,
    };
    match utf8_string(plain) {
        None => Err(encryption("Decrypted bytes are not valid UTF-8")),
        Some(s) => Ok(s),
    }
}

} // verus!
