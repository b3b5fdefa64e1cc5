//! Field encryption: round trip, nonce freshness, tamper detection, and the
//! blob transport encoding.

use aes_gcm::aead::Aead;
use aes_gcm::KeyInit;
use base64ct::Encoding;
use pnt::cipher::{EntryAes256GcmSecretEncrypter, StrAes256GcmEncrypter};
use pnt::entry::{EncryptedEntry, InputEntry};
use pnt::errors::CryptoError;

#[test]
fn test_str_aes256_gcm_impl() {
    let encrypter = StrAes256GcmEncrypter::from_random_key().unwrap();
    let plaintext = "hello world";
    let cip = encrypter.encrypt(plaintext).unwrap();
    let plain2 = encrypter.decrypt(&cip).unwrap();
    assert_eq!(plaintext, plain2);
}

#[test]
fn test_encrypt_decrypt_entry() {
    let encrypter = EntryAes256GcmSecretEncrypter::from_random_key().unwrap();
    let u_input = InputEntry {
        about: "name".to_owned(),
        notes: String::new(),
        username: "def".to_owned(),
        password: "abc".to_owned(),
    };
    let v_e = encrypter.encrypt(&u_input).unwrap();
    let enc_entry = EncryptedEntry {
        id: 123,
        about: v_e.about,
        notes: v_e.notes,
        encrypted_username: v_e.encrypted_username,
        encrypted_password: v_e.encrypted_password,
        created_time: 0,
        updated_time: 0,
    };
    let entry = encrypter.decrypt(&enc_entry).unwrap();
    assert_eq!(u_input.about, entry.about);
    assert_eq!(u_input.notes, entry.notes);
    assert_eq!(u_input.password, entry.password);
    assert_eq!(u_input.username, entry.username);
}

/// Round trip: decrypting what encrypt produced returns the plaintext,
/// including edge shapes (empty text, unicode, long text).
#[test]
fn round_trip() {
    let enc = StrAes256GcmEncrypter::from_key([9u8; 32]);
    for p in ["", "a", "pa ss wo rd", "snowman \u{2603} and beyond \u{1F512}", &"x".repeat(4096)]
    {
        let blob = enc.encrypt(p).unwrap();
        assert_eq!(enc.decrypt(&blob).unwrap(), p);
    }
}

/// Probabilistic encryption: the same plaintext encrypts to two different
/// blobs (fresh random nonce), and both decrypt back to it.
#[test]
fn probabilistic_encryption() {
    let enc = StrAes256GcmEncrypter::from_key([4u8; 32]);
    let p = "the same plaintext";
    let c1 = enc.encrypt(p).unwrap();
    let c2 = enc.encrypt(p).unwrap();
    assert_ne!(c1, c2);
    assert_eq!(enc.decrypt(&c1).unwrap(), p);
    assert_eq!(enc.decrypt(&c2).unwrap(), p);
}

/// Tamper detection: flipping any single byte of the nonce or of the cipher
/// output makes decryption fail; it never returns altered text.
#[test]
fn tamper_detection() {
    let enc = StrAes256GcmEncrypter::from_key([5u8; 32]);
    let blob = enc.encrypt("attack at dawn").unwrap();
    let bytes = base64ct::Base64::decode_vec(&blob).unwrap();
    for i in 0..bytes.len() {
        let mut tampered = bytes.clone();
        tampered[i] ^= 0x01;
        let tampered_blob = base64ct::Base64::encode_string(&tampered);
        assert!(enc.decrypt(&tampered_blob).is_err(), "byte {} went undetected", i);
    }
}

/// Each malformed-blob shape maps to its own error, and none of them is
/// ever confused with a successful decryption.
#[test]
fn decrypt_error_variants() {
    let enc = StrAes256GcmEncrypter::from_key([6u8; 32]);
    // Not base64 at all.
    assert_eq!(enc.decrypt("!!! not base64 !!!").unwrap_err(), CryptoError::DecodeCiphertext);
    // Canonical base64, but too short to carry a 12-byte nonce.
    assert_eq!(enc.decrypt("YWJj").unwrap_err(), CryptoError::CiphertextSplit);
    // Long enough, but no authentic cipher output follows the nonce.
    let bogus = base64ct::Base64::encode_string(&[0u8; 32]);
    assert_eq!(enc.decrypt(&bogus).unwrap_err(), CryptoError::Decrypt);
    // A blob from a different key fails authentication.
    let other = StrAes256GcmEncrypter::from_key([7u8; 32]);
    let foreign = other.encrypt("text").unwrap();
    assert_eq!(enc.decrypt(&foreign).unwrap_err(), CryptoError::Decrypt);
}

/// A blob whose authentic plaintext is not valid text is refused rather
/// than returned: the decrypted bytes must decode as text.
#[test]
fn non_text_plaintext_is_refused() {
    let key = [2u8; 32];
    let nonce_bytes = [9u8; 12];
    let gcm = aes_gcm::Aes256Gcm::new_from_slice(&key).unwrap();
    let nonce = aes_gcm::aead::array::Array::from(nonce_bytes);
    // 0xFF is never valid in UTF-8.
    let sealed = gcm.encrypt(&nonce, &[0xffu8, 0xfe, 0x00][..]).unwrap();
    let mut raw = nonce_bytes.to_vec();
    raw.extend_from_slice(&sealed);
    let blob = base64ct::Base64::encode_string(&raw);
    let enc = StrAes256GcmEncrypter::from_key(key);
    assert_eq!(enc.decrypt(&blob).unwrap_err(), CryptoError::DecodeNonce);
}

/// The blob really is transport-encoded: it is canonical base64 whose
/// payload starts with the 12-byte nonce, and the stored text never
/// contains the plaintext.
#[test]
fn blob_transport_encoding() {
    let enc = StrAes256GcmEncrypter::from_key([8u8; 32]);
    let blob = enc.encrypt("plain secret").unwrap();
    let bytes = base64ct::Base64::decode_vec(&blob).unwrap();
    assert_eq!(bytes.len(), 12 + "plain secret".len() + 16);
    assert!(!blob.contains("plain secret"));
}

/// Entry encryption stores metadata in clear, secrets only as blobs, and
/// empty notes as the absent value.
#[test]
fn entry_field_policy() {
    let enc = EntryAes256GcmSecretEncrypter::from_key([3u8; 32]);
    let input = InputEntry {
        about: "bank".to_owned(),
        notes: String::new(),
        username: "alice".to_owned(),
        password: "hunter2".to_owned(),
    };
    let stored = enc.encrypt(&input).unwrap();
    assert_eq!(stored.about, "bank");
    assert_eq!(stored.notes, None);
    assert_ne!(stored.encrypted_username, "alice");
    assert_ne!(stored.encrypted_password, "hunter2");

    let with_notes = InputEntry { notes: "branch office".to_owned(), ..input };
    let stored2 = enc.encrypt(&with_notes).unwrap();
    assert_eq!(stored2.notes.as_deref(), Some("branch office"));
}
