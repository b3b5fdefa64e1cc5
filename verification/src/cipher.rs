//! Authenticated per-field encryption: AES-256-GCM over text fields, with
//! the ciphertext carried as one base64 blob.
//!
//! A ciphertext blob is `base64(nonce ++ cipher_output)`: a fresh 12-byte
//! random nonce followed by the AES-GCM output (which ends in the 16-byte
//! authentication tag). This is the one canonical transport encoding; the
//! nonce is never reused for a key because it is drawn anew on every call.

use aes_gcm::KeyInit;
use aes_gcm::aead::Aead;
use aes_gcm::aead::Generate;
use vstd::prelude::*;
use vstd::utf8::{encode_utf8, valid_utf8};

use crate::codec::{b64_of, push_all, B64_MAX_INPUT_LEN};
use crate::entry::{EncryptedEntry, InputEntry, ValidEntry};
use crate::errors::CryptoError;

verus! {

broadcast use vstd::utf8::group_utf8_lib;

/// The AES-256-GCM output (cipher text then tag) for this key, nonce and
/// plaintext. Named rather than written out: the library only ever produces
/// and checks it through `aes_gcm`.
pub uninterp spec fn sealed_of(key: Seq<u8>, nonce: Seq<u8>, pt: Seq<u8>) -> Seq<u8>;

/// `blob` is a well-formed ciphertext blob of plaintext `pt` under `key`:
/// the canonical base64 of some 12-byte nonce followed by the AES-GCM output
/// for that nonce and the UTF-8 bytes of `pt`.
pub open spec fn is_sealed_blob(key: Seq<u8>, blob: Seq<char>, pt: Seq<char>) -> bool {
    exists|nonce: Seq<u8>|
        nonce.len() == 12 && blob == b64_of(nonce + sealed_of(key, nonce, encode_utf8(pt)))
}

/// Relies on the system RNG (`Generate` through `getrandom`): nothing is
/// assumed of the drawn value.
#[verifier::external_body]
fn random_bytes_12() -> (r: Result<[u8; 12], CryptoError>) {
    <[u8; 12] as Generate>::try_generate().map_err(|_| CryptoError::Encrypt)
}

/// Relies on the system RNG (`Generate` through `getrandom`): nothing is
/// assumed of the drawn value.
#[verifier::external_body]
pub(crate) fn random_bytes_32() -> (r: Result<[u8; 32], CryptoError>) {
    <[u8; 32] as Generate>::try_generate().map_err(|_| CryptoError::GenerateKey)
}

/// Relies on `aes_gcm::Aes256Gcm` encryption (`Aead::encrypt`): the output
/// depends on the key, nonce and plaintext alone, and is the plaintext plus
/// the 16-byte tag.
#[verifier::external_body]
fn aes_gcm_seal(key: &[u8; 32], nonce: &[u8; 12], pt: &[u8]) -> (r: Result<Vec<u8>, CryptoError>)
    ensures
        r matches Ok(ct) ==> ct@ == sealed_of(key@, nonce@, pt@) && ct@.len() == pt@.len() + 16,
{
    let gcm = match aes_gcm::Aes256Gcm::new_from_slice(key) {
        Ok(g) => g,
        Err(_) => return Err(CryptoError::Encrypt),
    };
    let n = aes_gcm::aead::array::Array::from(*nonce);
    gcm.encrypt(&n, pt).map_err(|_| CryptoError::Encrypt)
}

/// Relies on `aes_gcm::Aes256Gcm` decryption (`Aead::decrypt`): it returns a
/// plaintext only when the input is authentic output of AES-256-GCM for this
/// key and nonce, and it always accepts what that encryption produced.
#[verifier::external_body]
fn aes_gcm_open(key: &[u8; 32], nonce: &[u8; 12], ct: &[u8]) -> (r: Result<Vec<u8>, CryptoError>)
    ensures
        r matches Ok(pt) ==> ct@ == sealed_of(key@, nonce@, pt@),
        r matches Ok(pt) ==> forall|p2: Seq<u8>| ct@ == sealed_of(key@, nonce@, p2) ==> p2 == pt@,
        r is Err ==> forall|p2: Seq<u8>| ct@ != sealed_of(key@, nonce@, p2),
        r matches Err(e) ==> e == CryptoError::Decrypt,
{
    let gcm = match aes_gcm::Aes256Gcm::new_from_slice(key) {
        Ok(g) => g,
        Err(_) => return Err(CryptoError::Decrypt),
    };
    let n = aes_gcm::aead::array::Array::from(*nonce);
    gcm.decrypt(&n, ct).map_err(|_| CryptoError::Decrypt)
}

/// The text is not the canonical base64 of any byte sequence.
pub open spec fn blob_undecodable(blob: Seq<char>) -> bool {
    forall|b: Seq<u8>| blob != b64_of(b)
}

/// The text decodes, but to fewer bytes than one 12-byte nonce.
pub open spec fn blob_too_short(blob: Seq<char>) -> bool {
    exists|b: Seq<u8>| blob == b64_of(b) && b.len() < 12
}

/// The text decodes and carries a nonce, but what follows is not authentic
/// AES-GCM output for this key and that nonce.
pub open spec fn blob_inauthentic(key: Seq<u8>, blob: Seq<char>) -> bool {
    exists|b: Seq<u8>|
        blob == b64_of(b) && b.len() >= 12 && (forall|p: Seq<u8>|
            b.subrange(12, b.len() as int) != sealed_of(key, b.subrange(0, 12), p))
}

/// The text decodes to an authentic sealing under this key, but of bytes
/// that are not valid text.
pub open spec fn blob_not_text(key: Seq<u8>, blob: Seq<char>) -> bool {
    exists|b: Seq<u8>, p: Seq<u8>|
        blob == b64_of(b) && b.len() >= 12 && b.subrange(12, b.len() as int) == sealed_of(
            key,
            b.subrange(0, 12),
            p,
        ) && !valid_utf8(p)
}

/// AES-256-GCM over text: one plaintext string in, one ciphertext blob out,
/// and back. Encrypting the same text twice yields different blobs (fresh
/// random nonce each call); both decrypt to the same text.
pub struct StrAes256GcmEncrypter {
    key: [u8; 32],
}

impl StrAes256GcmEncrypter {
    /// The 256-bit key this cipher is bound to.
    pub closed spec fn key_view(&self) -> Seq<u8> {
        self.key@
    }

    /// Binds a cipher to a key. Cheap: the cipher holds no state beyond the
    /// key itself.
    pub fn from_key(key: [u8; 32]) -> (r: Self)
        ensures
            r.key_view() == key@,
    {
        StrAes256GcmEncrypter { key }
    }

    /// Binds a cipher to a fresh random key.
    pub fn from_random_key() -> (r: Result<Self, CryptoError>) {
        let key = random_bytes_32()?;
        Ok(StrAes256GcmEncrypter { key })
    }

    /// Encrypts a text field into a ciphertext blob under a fresh random
    /// nonce. Every blob this returns decrypts back to exactly `plaintext`,
    /// and its decoded form is the 12-byte nonce followed by the sealed
    /// output, which is the plaintext's byte length plus the 16-byte tag.
    /// Text beyond the base64 encoder's capacity is refused up front.
    pub fn encrypt(&self, plaintext: &str) -> (r: Result<String, CryptoError>)
        ensures
            r matches Ok(blob) ==> is_sealed_blob(self.key_view(), blob@, plaintext@),
            r matches Ok(blob) ==> exists|nonce: Seq<u8>|
                {
                    &&& nonce.len() == 12
                    &&& blob@ == b64_of(
                        nonce + sealed_of(self.key_view(), nonce, encode_utf8(plaintext@)),
                    )
                    &&& sealed_of(self.key_view(), nonce, encode_utf8(plaintext@)).len()
                        == encode_utf8(plaintext@).len() + 16
                },
            encode_utf8(plaintext@).len() > B64_MAX_INPUT_LEN - 28 ==> r is Err,
    {
        let pt_bytes = plaintext.as_bytes();
        if pt_bytes.len() as u64 > B64_MAX_INPUT_LEN - 28 {
            return Err(CryptoError::Encrypt);
        }
        let nonce = random_bytes_12()?;
        let ct = aes_gcm_seal(&self.key, &nonce, pt_bytes)?;
        let mut buf: Vec<u8> = Vec::new();
        push_all(&mut buf, nonce.as_slice());
        push_all(&mut buf, ct.as_slice());
        proof {
            assert(buf@ =~= nonce@ + sealed_of(self.key_view(), nonce@, encode_utf8(plaintext@)));
        }
        let blob = crate::codec::b64_encode(buf.as_slice());
        proof {
            assert(nonce@.len() == 12 && blob@ == b64_of(
                nonce@ + sealed_of(self.key_view(), nonce@, encode_utf8(plaintext@)),
            ) && sealed_of(self.key_view(), nonce@, encode_utf8(plaintext@)).len()
                == encode_utf8(plaintext@).len() + 16);
        }
        Ok(blob)
    }

    /// Decrypts a ciphertext blob, authenticating it in the process. Returns
    /// the one plaintext the blob was sealed from, and fails rather than
    /// return altered text on any blob that is not authentic under this key
    /// — with each failure shape mapped to its own error: text that is not
    /// base64, a decoded form too short for a nonce, an inauthentic sealed
    /// part, and authentic bytes that are not text.
    pub fn decrypt(&self, ciphertext: &str) -> (r: Result<String, CryptoError>)
        ensures
            r matches Ok(pt) ==> is_sealed_blob(self.key_view(), ciphertext@, pt@),
            forall|pt: Seq<char>| is_sealed_blob(self.key_view(), ciphertext@, pt)
                ==> (r matches Ok(q) && q@ == pt),
            (r == Err::<String, CryptoError>(CryptoError::DecodeCiphertext)) <==> blob_undecodable(
                ciphertext@,
            ),
            (r == Err::<String, CryptoError>(CryptoError::CiphertextSplit)) <==> blob_too_short(
                ciphertext@,
            ),
            (r == Err::<String, CryptoError>(CryptoError::Decrypt)) <==> blob_inauthentic(
                self.key_view(),
                ciphertext@,
            ),
            (r == Err::<String, CryptoError>(CryptoError::DecodeNonce)) <==> blob_not_text(
                self.key_view(),
                ciphertext@,
            ),
    {
        let ghost key = self.key_view();
        let bytes = match crate::codec::b64_decode(ciphertext) {
            Some(b) => b,
            None => {
                proof {
                    assert(!blob_too_short(ciphertext@)) by {
                        if blob_too_short(ciphertext@) {
                            let b = choose|b: Seq<u8>| ciphertext@ == b64_of(b) && b.len() < 12;
                            assert(ciphertext@ != b64_of(b));
                        }
                    }
                    assert(!blob_inauthentic(key, ciphertext@)) by {
                        if blob_inauthentic(key, ciphertext@) {
                            let b = choose|b: Seq<u8>|
                                ciphertext@ == b64_of(b) && b.len() >= 12 && (forall|p: Seq<u8>|
                                    b.subrange(12, b.len() as int) != sealed_of(
                                        key,
                                        b.subrange(0, 12),
                                        p,
                                    ));
                            assert(ciphertext@ != b64_of(b));
                        }
                    }
                    assert(!blob_not_text(key, ciphertext@)) by {
                        if blob_not_text(key, ciphertext@) {
                            let (b, p) = choose|b: Seq<u8>, p: Seq<u8>|
                                ciphertext@ == b64_of(b) && b.len() >= 12 && b.subrange(
                                    12,
                                    b.len() as int,
                                ) == sealed_of(key, b.subrange(0, 12), p) && !valid_utf8(p);
                            assert(ciphertext@ != b64_of(b));
                        }
                    }
                }
                return Err(CryptoError::DecodeCiphertext);
            },
        };
        if bytes.len() < 12 {
            proof {
                assert forall|pt: Seq<char>|
                    !is_sealed_blob(self.key_view(), ciphertext@, pt) by {
                    if is_sealed_blob(self.key_view(), ciphertext@, pt) {
                        let nonce = choose|nonce: Seq<u8>|
                            nonce.len() == 12 && ciphertext@ == b64_of(
                                nonce + sealed_of(self.key_view(), nonce, encode_utf8(pt)));
                        assert(bytes@ == nonce + sealed_of(
                            self.key_view(), nonce, encode_utf8(pt)));
                    }
                }
                assert(blob_too_short(ciphertext@)) by {
                    assert(ciphertext@ == b64_of(bytes@) && bytes@.len() < 12);
                }
                assert(!blob_inauthentic(key, ciphertext@)) by {
                    if blob_inauthentic(key, ciphertext@) {
                        let b = choose|b: Seq<u8>|
                            ciphertext@ == b64_of(b) && b.len() >= 12 && (forall|p: Seq<u8>|
                                b.subrange(12, b.len() as int) != sealed_of(
                                    key,
                                    b.subrange(0, 12),
                                    p,
                                ));
                        assert(b == bytes@);
                    }
                }
                assert(!blob_not_text(key, ciphertext@)) by {
                    if blob_not_text(key, ciphertext@) {
                        let (b, p) = choose|b: Seq<u8>, p: Seq<u8>|
                            ciphertext@ == b64_of(b) && b.len() >= 12 && b.subrange(
                                12,
                                b.len() as int,
                            ) == sealed_of(key, b.subrange(0, 12), p) && !valid_utf8(p);
                        assert(b == bytes@);
                    }
                }
            }
            return Err(CryptoError::CiphertextSplit);
        }
        let mut nonce: [u8; 12] = [0u8; 12];
        let mut i: usize = 0;
        while i < 12
            invariant
                i <= 12,
                bytes@.len() >= 12,
                forall|j: int| 0 <= j < i ==> nonce@[j] == bytes@[j],
            decreases 12 - i,
        {
            nonce[i] = bytes[i];
            i = i + 1;
        }
        let ct = vstd::slice::slice_subrange(bytes.as_slice(), 12, bytes.len());
        proof {
            assert(bytes@ =~= nonce@ + ct@);
            assert(nonce@ =~= bytes@.subrange(0, 12));
            assert(ct@ =~= bytes@.subrange(12, bytes@.len() as int));
        }
        let pt_bytes = match aes_gcm_open(&self.key, &nonce, ct) {
            Ok(p) => p,
            Err(e) => {
                proof {
                    assert forall|pt: Seq<char>|
                        !is_sealed_blob(key, ciphertext@, pt) by {
                        if is_sealed_blob(key, ciphertext@, pt) {
                            let n2 = choose|n2: Seq<u8>|
                                n2.len() == 12 && ciphertext@ == b64_of(
                                    n2 + sealed_of(key, n2, encode_utf8(pt)));
                            assert(bytes@ == n2 + sealed_of(key, n2, encode_utf8(pt)));
                            assert(n2 =~= bytes@.subrange(0, 12));
                            assert(nonce@ =~= bytes@.subrange(0, 12));
                            assert(ct@ =~= sealed_of(key, n2, encode_utf8(pt)));
                        }
                    }
                    assert(blob_inauthentic(key, ciphertext@)) by {
                        assert(ciphertext@ == b64_of(bytes@) && bytes@.len() >= 12);
                        assert forall|p: Seq<u8>|
                            bytes@.subrange(12, bytes@.len() as int) != sealed_of(
                                key,
                                bytes@.subrange(0, 12),
                                p,
                            ) by {
                            assert(ct@ != sealed_of(key, nonce@, p));
                        }
                    }
                    assert(!blob_too_short(ciphertext@)) by {
                        if blob_too_short(ciphertext@) {
                            let b = choose|b: Seq<u8>| ciphertext@ == b64_of(b) && b.len() < 12;
                            assert(b == bytes@);
                        }
                    }
                    assert(!blob_not_text(key, ciphertext@)) by {
                        if blob_not_text(key, ciphertext@) {
                            let (b, p) = choose|b: Seq<u8>, p: Seq<u8>|
                                ciphertext@ == b64_of(b) && b.len() >= 12 && b.subrange(
                                    12,
                                    b.len() as int,
                                ) == sealed_of(key, b.subrange(0, 12), p) && !valid_utf8(p);
                            assert(b == bytes@);
                            assert(ct@ == sealed_of(key, nonce@, p));
                        }
                    }
                }
                return Err(e);
            },
        };
        let ghost pt_bytes_view = pt_bytes@;
        proof {
            assert(!blob_undecodable(ciphertext@)) by {
                assert(ciphertext@ == b64_of(bytes@));
            }
            assert(!blob_too_short(ciphertext@)) by {
                if blob_too_short(ciphertext@) {
                    let b = choose|b: Seq<u8>| ciphertext@ == b64_of(b) && b.len() < 12;
                    assert(b == bytes@);
                }
            }
            assert(!blob_inauthentic(key, ciphertext@)) by {
                if blob_inauthentic(key, ciphertext@) {
                    let b = choose|b: Seq<u8>|
                        ciphertext@ == b64_of(b) && b.len() >= 12 && (forall|p: Seq<u8>|
                            b.subrange(12, b.len() as int) != sealed_of(key, b.subrange(0, 12), p));
                    assert(b == bytes@);
                    assert(bytes@.subrange(12, bytes@.len() as int) != sealed_of(
                        key,
                        bytes@.subrange(0, 12),
                        pt_bytes_view,
                    ));
                    assert(ct@ == sealed_of(key, nonce@, pt_bytes_view));
                }
            }
        }
        match crate::codec::string_from_utf8(pt_bytes) {
            Some(s) => {
                proof {
                    assert(is_sealed_blob(key, ciphertext@, s@));
                    assert forall|pt: Seq<char>| is_sealed_blob(key, ciphertext@, pt)
                        implies pt == s@ by {
                        let n2 = choose|n2: Seq<u8>|
                            n2.len() == 12 && ciphertext@ == b64_of(
                                n2 + sealed_of(key, n2, encode_utf8(pt)));
                        assert(bytes@ == n2 + sealed_of(key, n2, encode_utf8(pt)));
                        assert(n2 =~= bytes@.subrange(0, 12));
                        assert(nonce@ =~= bytes@.subrange(0, 12));
                        assert(ct@ =~= sealed_of(key, n2, encode_utf8(pt)));
                        assert(encode_utf8(pt) == pt_bytes_view);
                        assert(encode_utf8(s@) == pt_bytes_view);
                        vstd::utf8::encode_utf8_decode_utf8(pt);
                        vstd::utf8::encode_utf8_decode_utf8(s@);
                    }
                    assert(!blob_not_text(key, ciphertext@)) by {
                        if blob_not_text(key, ciphertext@) {
                            let (b, p) = choose|b: Seq<u8>, p: Seq<u8>|
                                ciphertext@ == b64_of(b) && b.len() >= 12 && b.subrange(
                                    12,
                                    b.len() as int,
                                ) == sealed_of(key, b.subrange(0, 12), p) && !valid_utf8(p);
                            assert(b == bytes@);
                            assert(ct@ == sealed_of(key, nonce@, p));
                            assert(p == pt_bytes_view);
                            assert(encode_utf8(s@) == pt_bytes_view);
                            assert(valid_utf8(pt_bytes_view));
                        }
                    }
                }
                Ok(s)
            },
            None => {
                proof {
                    assert forall|pt: Seq<char>|
                        !is_sealed_blob(key, ciphertext@, pt) by {
                        if is_sealed_blob(key, ciphertext@, pt) {
                            let n2 = choose|n2: Seq<u8>|
                                n2.len() == 12 && ciphertext@ == b64_of(
                                    n2 + sealed_of(key, n2, encode_utf8(pt)));
                            assert(bytes@ == n2 + sealed_of(key, n2, encode_utf8(pt)));
                            assert(n2 =~= bytes@.subrange(0, 12));
                            assert(nonce@ =~= bytes@.subrange(0, 12));
                            assert(ct@ =~= sealed_of(key, n2, encode_utf8(pt)));
                            assert(pt_bytes_view == encode_utf8(pt));
                        }
                    }
                    assert(blob_not_text(key, ciphertext@)) by {
                        assert(ciphertext@ == b64_of(bytes@) && bytes@.len() >= 12);
                        assert(bytes@.subrange(12, bytes@.len() as int) == sealed_of(
                            key,
                            bytes@.subrange(0, 12),
                            pt_bytes_view,
                        ));
                        assert(!valid_utf8(pt_bytes_view));
                    }
                }
                Err(CryptoError::DecodeNonce)
            },
        }
    }
}

/// Encrypts and decrypts the secret fields of a credential entry, leaving
/// `about` and `notes` in clear as the data model prescribes.
pub struct EntryAes256GcmSecretEncrypter {
    inner_enc: StrAes256GcmEncrypter,
}

impl EntryAes256GcmSecretEncrypter {
    /// The 256-bit key the inner cipher is bound to.
    pub closed spec fn key_view(&self) -> Seq<u8> {
        self.inner_enc.key_view()
    }

    /// Binds an entry encrypter to a key.
    pub fn from_key(key: [u8; 32]) -> (r: Self)
        ensures
            r.key_view() == key@,
    {
        EntryAes256GcmSecretEncrypter { inner_enc: StrAes256GcmEncrypter::from_key(key) }
    }

    /// Binds an entry encrypter to a fresh random key.
    pub fn from_random_key() -> (r: Result<Self, CryptoError>) {
        let inner_enc = StrAes256GcmEncrypter::from_random_key()?;
        Ok(EntryAes256GcmSecretEncrypter { inner_enc })
    }

    /// Encrypts the secret fields of a user-typed entry into an entry fit
    /// for storage: `username` and `password` become ciphertext blobs of
    /// exactly the typed text, `about` is copied in clear, and empty `notes`
    /// become the absent value.
    pub fn encrypt(&self, input_entry: &InputEntry) -> (r: Result<ValidEntry, CryptoError>)
        ensures
            r matches Ok(ve) ==> {
                &&& ve.about@ == input_entry.about@
                &&& input_entry.notes@.len() == 0 ==> ve.notes is None
                &&& input_entry.notes@.len() > 0
                    ==> (ve.notes matches Some(n) && n@ == input_entry.notes@)
                &&& is_sealed_blob(self.key_view(), ve.encrypted_username@, input_entry.username@)
                &&& is_sealed_blob(self.key_view(), ve.encrypted_password@, input_entry.password@)
            },
    {
        let cipher_username = self.inner_enc.encrypt(input_entry.username.as_str())?;
        let cipher_passwd = self.inner_enc.encrypt(input_entry.password.as_str())?;
        Ok(ValidEntry {
            about: input_entry.about.clone(),
            notes: if input_entry.notes.as_str().is_empty() {
                None
            } else {
                Some(input_entry.notes.clone())
            },
            encrypted_username: cipher_username,
            encrypted_password: cipher_passwd,
        })
    }

    /// Decrypts the secret fields of a stored entry back into the text the
    /// user once typed. Absent `notes` come back as the empty text. Always
    /// succeeds on blobs this encrypter's key sealed; any success certifies
    /// that the blobs were authentic.
    pub fn decrypt(&self, encrypted_entry: &EncryptedEntry) -> (r: Result<InputEntry, CryptoError>)
        ensures
            r matches Ok(ie) ==> {
                &&& ie.about@ == encrypted_entry.about@
                &&& encrypted_entry.notes is None ==> ie.notes@ == Seq::<char>::empty()
                &&& (encrypted_entry.notes matches Some(n)) ==> ie.notes@
                    == encrypted_entry.notes->Some_0@
                &&& is_sealed_blob(self.key_view(), encrypted_entry.encrypted_username@,
                    ie.username@)
                &&& is_sealed_blob(self.key_view(), encrypted_entry.encrypted_password@,
                    ie.password@)
            },
            forall|u: Seq<char>, p: Seq<char>|
                is_sealed_blob(self.key_view(), encrypted_entry.encrypted_username@, u)
                    && is_sealed_blob(self.key_view(), encrypted_entry.encrypted_password@, p)
                    ==> (r matches Ok(ie) && ie.username@ == u && ie.password@ == p),
    {
        let username = self.inner_enc.decrypt(encrypted_entry.encrypted_username.as_str())?;
        let password = self.inner_enc.decrypt(encrypted_entry.encrypted_password.as_str())?;
        Ok(InputEntry {
            about: encrypted_entry.about.clone(),
            notes: match &encrypted_entry.notes {
                Some(desc) => desc.clone(),
                None => String::new(),
            },
            username,
            password,
        })
    }
}

/// Re-encrypts one stored entry's secret fields under a new key — the step
/// a change of master password owes every entry, since the old key can no
/// longer be derived afterwards. The new blobs seal exactly the plaintexts
/// the old blobs sealed, and the metadata carries over.
pub fn reencrypt_entry(
    old_enc: &EntryAes256GcmSecretEncrypter,
    new_enc: &EntryAes256GcmSecretEncrypter,
    entry: &EncryptedEntry,
) -> (r: Result<ValidEntry, CryptoError>)
    ensures
        r matches Ok(ve) ==> {
            &&& ve.about@ == entry.about@
            &&& (entry.notes matches Some(n) && n@.len() > 0) ==> (ve.notes matches Some(m)
                && m@ == entry.notes->Some_0@)
            &&& (entry.notes is None || entry.notes->Some_0@.len() == 0) ==> ve.notes is None
            &&& exists|u: Seq<char>|
                is_sealed_blob(old_enc.key_view(), entry.encrypted_username@, u)
                    && #[trigger] is_sealed_blob(new_enc.key_view(), ve.encrypted_username@, u)
            &&& exists|p: Seq<char>|
                is_sealed_blob(old_enc.key_view(), entry.encrypted_password@, p)
                    && #[trigger] is_sealed_blob(new_enc.key_view(), ve.encrypted_password@, p)
        },
{
    let input_entry = old_enc.decrypt(entry)?;
    let ghost u = input_entry.username@;
    let ghost p = input_entry.password@;
    let reencrypted = new_enc.encrypt(&input_entry)?;
    proof {
        assert(is_sealed_blob(old_enc.key_view(), entry.encrypted_username@, u)
            && is_sealed_blob(new_enc.key_view(), reencrypted.encrypted_username@, u));
        assert(is_sealed_blob(old_enc.key_view(), entry.encrypted_password@, p)
            && is_sealed_blob(new_enc.key_view(), reencrypted.encrypted_password@, p));
    }
    Ok(reencrypted)
}

} // verus!
