use aes_gcm::aead::{Aead, KeyInit};
use aes_gcm::{Aes256Gcm, Key, Nonce};
use base64::Engine;
use privara::cipher::{decrypt, encrypt, seal_with_nonce};
use privara::digest::{derive_key, zk_commit};
use privara::encoding::decode_base64;
use privara::error::AppError;
use privara::text::char_is_whitespace;
use sha2::Digest;

const MASTER: &str = "master-secret";

fn b64(data: &[u8]) -> String {
    base64::engine::general_purpose::STANDARD.encode(data)
}

#[test]
fn derive_key_hashes_master_colon_context() {
    let key = derive_key(MASTER, "payroll:name");
    let expected = hex::decode("d8f545a8b72efb56565d8182a45999a1ee199aac208d875e777b3a95501be2bc").unwrap();
    assert_eq!(key, expected);
    assert_eq!(key.len(), 32);
}

#[test]
fn derive_key_separates_contexts() {
    assert_ne!(derive_key(MASTER, "payroll:name"), derive_key(MASTER, "payroll:amount"));
    assert_ne!(derive_key("a", "x"), derive_key("b", "x"));
}

#[test]
fn zk_commit_is_hex_sha256_of_value_bars_salt() {
    let c = zk_commit("1500.5", "3f2a");
    assert_eq!(c, "ec9e9d35cc4bb53d00122759b1698af7d6fbcc9796201aeb6a3f283f4468ad04");
    let direct = hex::encode(sha2::Sha256::digest(b"1500.5||3f2a"));
    assert_eq!(c, direct);
}

#[test]
fn zk_commit_depends_on_salt() {
    assert_ne!(zk_commit("10", "a"), zk_commit("10", "b"));
    assert_eq!(zk_commit("10", "a"), zk_commit("10", "a"));
}

#[test]
fn zk_commit_is_sixty_four_lowercase_hex_chars() {
    for (v, salt) in [("", ""), ("1500.5", "3f2a"), ("\u{e9}t\u{e9}", "salt")] {
        let c = zk_commit(v, salt);
        assert_eq!(c.len(), 64);
        assert!(c.chars().all(|ch| matches!(ch, '0'..='9' | 'a'..='f')));
    }
}

#[test]
fn sealed_blob_length_follows_plaintext_length() {
    for text in ["", "a", "Alice Contractor", "\u{e9}\u{e9}\u{e9}", "0123456789abcdef0123"] {
        let blob = encrypt(MASTER, text, "payroll:name").unwrap();
        let raw = base64::engine::general_purpose::STANDARD.decode(&blob).unwrap();
        assert_eq!(raw.len(), 12 + text.len() + 16);
        assert_eq!(blob.len(), 4 * ((text.len() + 30) / 3));
    }
    let a = encrypt(MASTER, "abcd", "ctx").unwrap();
    let b = encrypt(MASTER, "wxyz", "ctx").unwrap();
    assert_eq!(a.len(), b.len());
}

#[test]
fn whitespace_matches_std() {
    for v in 0u32..0x3100 {
        if let Some(c) = char::from_u32(v) {
            assert_eq!(char_is_whitespace(c), c.is_whitespace(), "{:x}", v);
        }
    }
    assert!(char_is_whitespace('\u{3000}'));
    assert!(!char_is_whitespace('\u{200b}'));
}

#[test]
fn seal_with_nonce_matches_reference_construction() {
    let nonce = [7u8; 12];
    let blob = seal_with_nonce(MASTER, "Alice Contractor", "payroll:name", &nonce).unwrap();
    let key = derive_key(MASTER, "payroll:name");
    let cipher = Aes256Gcm::new(Key::<Aes256Gcm>::from_slice(&key));
    let ct = cipher.encrypt(Nonce::from_slice(&nonce), "Alice Contractor".as_bytes()).unwrap();
    let mut combined = nonce.to_vec();
    combined.extend_from_slice(&ct);
    assert_eq!(blob, b64(&combined));
    assert_eq!(ct.len(), "Alice Contractor".len() + 16);
}

#[test]
fn encrypt_then_decrypt_gives_plaintext_back() {
    for text in ["", "hello", "0xAbCdEf0123456789", "naïve café ✓ 日本"] {
        let blob = encrypt(MASTER, text, "governance:title").unwrap();
        assert_eq!(decrypt(MASTER, &blob, "governance:title").unwrap(), text);
    }
}

#[test]
fn encrypt_uses_fresh_nonces() {
    let a = encrypt(MASTER, "same", "ctx").unwrap();
    let b = encrypt(MASTER, "same", "ctx").unwrap();
    assert_ne!(a, b);
    let raw = base64::engine::general_purpose::STANDARD.decode(&a).unwrap();
    assert_eq!(raw.len(), 12 + 4 + 16);
}

#[test]
fn decrypt_rejects_invalid_base64() {
    assert_eq!(
        decrypt(MASTER, "not base64!", "ctx"),
        Err(AppError::Encryption("Invalid base64 blob".to_string()))
    );
}

#[test]
fn decrypt_rejects_short_blob() {
    let blob = b64(&[1, 2, 3, 4, 5]);
    assert_eq!(
        decrypt(MASTER, &blob, "ctx"),
        Err(AppError::Encryption("Blob too short".to_string()))
    );
}

#[test]
fn decrypt_rejects_tampering_and_wrong_context() {
    let blob = encrypt(MASTER, "secret", "payroll:wallet").unwrap();
    let mut raw = base64::engine::general_purpose::STANDARD.decode(&blob).unwrap();
    let last = raw.len() - 1;
    raw[last] ^= 1;
    let expected = Err(AppError::Encryption("Decryption failed - invalid key or tampered data ".to_string()));
    assert_eq!(decrypt(MASTER, &b64(&raw), "payroll:wallet"), expected);
    assert_eq!(decrypt(MASTER, &blob, "payroll:name"), expected);
    assert_eq!(decrypt("other-master", &blob, "payroll:wallet"), expected);
}

#[test]
fn decrypt_rejects_non_utf8_plaintext() {
    let nonce = [9u8; 12];
    let key = derive_key(MASTER, "ctx");
    let cipher = Aes256Gcm::new(Key::<Aes256Gcm>::from_slice(&key));
    let ct = cipher.encrypt(Nonce::from_slice(&nonce), &[0xffu8, 0xfe][..]).unwrap();
    let mut combined = nonce.to_vec();
    combined.extend_from_slice(&ct);
    assert_eq!(
        decrypt(MASTER, &b64(&combined), "ctx"),
        Err(AppError::Encryption("Decrypted bytes are not valid UTF-8".to_string()))
    );
}

#[test]
fn decode_base64_accepts_exactly_canonical_texts() {
    assert_eq!(decode_base64("Zm9v"), Some(b"foo".to_vec()));
    assert_eq!(decode_base64("Zm8="), Some(b"fo".to_vec()));
    assert_eq!(decode_base64("Zg=="), Some(b"f".to_vec()));
    assert_eq!(decode_base64(""), Some(Vec::new()));
    assert_eq!(decode_base64("Zg"), None);
    assert_eq!(decode_base64("Zh=="), None);
    assert_eq!(decode_base64("Zm9v\n"), None);
    assert_eq!(decode_base64("+/+/"), Some(vec![0xfb, 0xff, 0xbf]));
}

#[test]
fn base64_texts_of_all_byte_values_round_trip() {
    let data: Vec<u8> = (0..=255u8).collect();
    for n in 0..data.len() {
        let text = b64(&data[..n]);
        assert_eq!(decode_base64(&text), Some(data[..n].to_vec()));
    }
}

