//! Master-password hashing, verification and symmetric-key derivation.
//!
//! Two distinct derivations share the Argon2id primitive and must never be
//! conflated: the verification hash (a PHC text that is persisted) and the
//! raw 256-bit field key (which exists only in memory while a session is
//! unlocked). Keeping them as two named operations means key material can
//! never be persisted or shown where a verification hash was meant.

use argon2::PasswordHasher;
use argon2::PasswordVerifier;
use vstd::prelude::*;
use vstd::utf8::encode_utf8;

use crate::cipher::EntryAes256GcmSecretEncrypter;
use crate::codec::{decode_b64_s_mph, encode_b64_s_mph, is_master_record, B64_MAX_INPUT_LEN};
use crate::context::SecurityContext;
use crate::errors::{AppError, CryptoError};

verus! {

/// The PHC hash text that Argon2id with default parameters assigns to this
/// password and salt. Named rather than written out: the library only ever
/// produces it through `argon2`.
pub uninterp spec fn phc_of(pw: Seq<u8>, salt: Seq<u8>) -> Seq<char>;

/// Whether Argon2id verification accepts candidate password `pw` against
/// the PHC hash text `phc`. Named rather than written out: the library only
/// ever computes it through `argon2`.
pub uninterp spec fn phc_accepts(phc: Seq<char>, pw: Seq<u8>) -> bool;

/// Whether Argon2id verification can check candidates against this stored
/// hash text at all: the text parses as a PHC string whose algorithm,
/// version and parameters the hasher supports. Every text the hasher
/// produces satisfies it; a stored record that fails it can only come from
/// outside alteration.
pub uninterp spec fn phc_wellformed(phc: Seq<char>) -> bool;

/// The 32 raw key bytes that Argon2id with default parameters derives from
/// this password and salt. A second, independent output mode of the same
/// primitive as `phc_of`; the two texts never coincide in use.
pub uninterp spec fn derived_key_of(pw: Seq<u8>, salt: Seq<u8>) -> Seq<u8>;

/// Relies on `argon2::Argon2::hash_password_with_salt` (Argon2id, default
/// parameters): the PHC hash text depends on the password and salt alone,
/// and is short ASCII — under 512 bytes of UTF-8, its components all being
/// length-capped. With a 32-byte salt the call fails only on a password of
/// 2^32 bytes or more (allocation of the fixed working memory is taken to
/// succeed, as allocation is elsewhere in this model).
#[verifier::external_body]
fn argon2_phc_hash(pw: &[u8], salt: &[u8; 32]) -> (r: Result<String, CryptoError>)
    ensures
        r matches Ok(h) ==> h@ == phc_of(pw@, salt@),
        r matches Ok(h) ==> encode_utf8(h@).len() <= 512,
        r is Err ==> pw@.len() > 0xFFFF_FFFF,
{
    match argon2::Argon2::default().hash_password_with_salt(pw, salt) {
        Ok(h) => Ok(h.to_string()),
        Err(_) => Err(CryptoError::EncryptMainPwd),
    }
}

/// Relies on `argon2::Argon2::verify_password`: acceptance depends on the
/// candidate password and the PHC hash text alone, and it errs exactly on
/// texts the check cannot be run against — `phc_wellformed` — which never
/// include a text the hasher produced. A candidate of any length gets an
/// answer: the hasher maps its own too-long-password condition to a plain
/// rejection. (Allocation of the fixed working memory is taken to succeed,
/// as allocation is elsewhere in this model.)
#[verifier::external_body]
fn argon2_verify(pw: &[u8], phc: &str) -> (r: Result<bool, CryptoError>)
    ensures
        r matches Ok(b) ==> b == phc_accepts(phc@, pw@),
        r matches Ok(b) ==> forall|salt: Seq<u8>| phc@ == phc_of(pw@, salt) ==> b,
        r is Err ==> !phc_wellformed(phc@),
        r is Ok ==> phc_wellformed(phc@),
        r matches Err(e) ==> e == CryptoError::EncryptMainPwd,
        r is Err ==> forall|pw2: Seq<u8>, salt: Seq<u8>| phc@ != phc_of(pw2, salt),
{
    match PasswordVerifier::<str>::verify_password(&argon2::Argon2::default(), pw, phc) {
        Ok(()) => Ok(true),
        Err(argon2::password_hash::Error::PasswordInvalid) => Ok(false),
        Err(_) => Err(CryptoError::EncryptMainPwd),
    }
}

/// Relies on `argon2::Argon2::hash_password_into` (Argon2id, default
/// parameters): the 32 bytes written depend on the password and salt alone.
/// With a 32-byte salt and 32-byte output the call fails only on a password
/// of 2^32 bytes or more (allocation of the fixed working memory is taken
/// to succeed, as allocation is elsewhere in this model).
#[verifier::external_body]
fn argon2_derive_key(pw: &[u8], salt: &[u8; 32]) -> (r: Result<[u8; 32], CryptoError>)
    ensures
        r matches Ok(k) ==> k@ == derived_key_of(pw@, salt@),
        r is Err ==> pw@.len() > 0xFFFF_FFFF,
{
    let mut out = [0u8; 32];
    match argon2::Argon2::default().hash_password_into(pw, salt, &mut out) {
        Ok(()) => Ok(out),
        Err(_) => Err(CryptoError::GenerateKey),
    }
}

/// Key determinism: the derived key is a function of the password and salt
/// alone — which is what lets a later unlock with the correct password
/// reproduce the key that encrypted the existing data — so any two keys
/// derived from identical inputs are identical.
pub proof fn lemma_key_determinism(pw: Seq<u8>, salt: Seq<u8>, k1: Seq<u8>, k2: Seq<u8>)
    requires
        k1 == derived_key_of(pw, salt),
        k2 == derived_key_of(pw, salt),
    ensures
        k1 == k2,
{
}

/// Key determinism at the verifier: two verifiers carrying the same salt
/// derive the same key from the same password, so a later unlock reproduces
/// the key that encrypted the existing data. `load_security_context` pins
/// its context's key to exactly this value.
pub proof fn lemma_gen_key_deterministic(
    v1: &MainPwdVerifier,
    v2: &MainPwdVerifier,
    pw: Seq<char>,
)
    requires
        v1.salt_view() == v2.salt_view(),
    ensures
        derived_key_of(encode_utf8(pw), v1.salt_view()) == derived_key_of(
            encode_utf8(pw),
            v2.salt_view(),
        ),
{
}

/// The persisted master-password record that hashing `pw` under `salt`
/// produces.
pub open spec fn master_record_of(pw: Seq<char>, salt: Seq<u8>) -> Seq<char> {
    crate::codec::b64_of(
        crate::codec::master_record_bytes(salt, phc_of(encode_utf8(pw), salt)),
    )
}

/// One-way encryption of the master password for later verification: emits
/// the opaque record string `base64(salt ++ utf8(phc))` that is persisted at
/// vault initialization.
pub struct MainPwdEncrypter {
    salt: [u8; 32],
}

impl MainPwdEncrypter {
    /// The fixed 32-byte salt this encrypter hashes under.
    pub closed spec fn salt_view(&self) -> Seq<u8> {
        self.salt@
    }

    /// Uses the given salt, unchanged.
    pub fn from_salt(salt: [u8; 32]) -> (r: Self)
        ensures
            r.salt_view() == salt@,
    {
        MainPwdEncrypter { salt }
    }

    /// Draws a fresh random salt; done once per vault, never again.
    pub fn new_from_random_salt() -> (r: Result<Self, CryptoError>) {
        let salt = crate::cipher::random_bytes_32()?;
        Ok(MainPwdEncrypter { salt })
    }

    /// The salt in use.
    pub fn salt(&self) -> (r: &[u8; 32])
        ensures
            r@ == self.salt_view(),
    {
        &self.salt
    }

    /// Hashes the master password (Argon2id) and packs salt and hash text
    /// into the one record string that is persisted. Success is owed for
    /// every password below the hasher's 2^32-byte input limit.
    pub fn encrypt(&self, plaintext: String) -> (r: Result<String, CryptoError>)
        ensures
            r matches Ok(rec) ==> rec@ == master_record_of(plaintext@, self.salt_view()),
            r matches Ok(rec) ==> is_master_record(
                rec@, self.salt_view(), phc_of(encode_utf8(plaintext@), self.salt_view())),
            encode_utf8(plaintext@).len() <= 0xFFFF_FFFF ==> r is Ok,
    {
        let mph = argon2_phc_hash(plaintext.as_str().as_bytes(), &self.salt)?;
        if mph.as_str().as_bytes().len() as u64 > B64_MAX_INPUT_LEN - 32 {
            return Err(CryptoError::EncryptMainPwd);
        }
        Ok(encode_b64_s_mph(&self.salt, mph.as_str()))
    }
}

/// Verifies candidate master passwords against a persisted record, and, once
/// one is accepted, derives the field key from it.
#[derive(Debug)]
pub struct MainPwdVerifier {
    salt: [u8; 32],
    mph: String,
}

impl MainPwdVerifier {
    /// The salt carried in the record this verifier was built from.
    pub closed spec fn salt_view(&self) -> Seq<u8> {
        self.salt@
    }

    /// The PHC hash text carried in the record this verifier was built from.
    pub closed spec fn mph_view(&self) -> Seq<char> {
        self.mph@
    }

    /// Unpacks a persisted record into a verifier. Fails with
    /// `DataCorrupted` exactly when the string is not a well-formed record;
    /// a wrong password can never produce that failure.
    pub fn from_b64_s_mph(b64_s_mph: &str) -> (r: Result<Self, AppError>)
        ensures
            r matches Ok(v) ==> is_master_record(b64_s_mph@, v.salt_view(), v.mph_view()),
            forall|salt: Seq<u8>, phc: Seq<char>| is_master_record(b64_s_mph@, salt, phc)
                ==> (r matches Ok(v) && v.salt_view() == salt && v.mph_view() == phc),
            r is Err ==> r == Err::<MainPwdVerifier, AppError>(AppError::DataCorrupted),
    {
        let (salt_vec, mph) = decode_b64_s_mph(b64_s_mph)?;
        let mut salt: [u8; 32] = [0u8; 32];
        let mut i: usize = 0;
        while i < 32
            invariant
                i <= 32,
                salt_vec@.len() == 32,
                forall|j: int| 0 <= j < i ==> salt@[j] == salt_vec@[j],
            decreases 32 - i,
        {
            salt[i] = salt_vec[i];
            i = i + 1;
        }
        proof {
            assert(salt@ =~= salt_vec@);
        }
        Ok(MainPwdVerifier { salt, mph })
    }

    /// Checks one candidate master password against the stored hash.
    /// `Ok(true)` exactly on acceptance, and the password that produced the
    /// stored hash is always accepted. It errs — always `EncryptMainPwd` —
    /// exactly when the stored text is not one the hasher can check, which
    /// never happens to a text the hasher produced: corruption of the
    /// stored hash is reported as an error, never as a wrong password.
    pub fn verify(&self, passwd: &str) -> (r: Result<bool, CryptoError>)
        ensures
            r matches Ok(b) ==> b == phc_accepts(self.mph_view(), encode_utf8(passwd@)),
            r matches Ok(b) ==> forall|salt: Seq<u8>|
                self.mph_view() == phc_of(encode_utf8(passwd@), salt) ==> b,
            r is Err <==> !phc_wellformed(self.mph_view()),
            r is Err ==> r == Err::<bool, CryptoError>(CryptoError::EncryptMainPwd),
            r is Err ==> forall|pw2: Seq<u8>, salt: Seq<u8>|
                self.mph_view() != phc_of(pw2, salt),
    {
        argon2_verify(passwd.as_bytes(), self.mph.as_str())
    }

    /// Derives the 256-bit field key from the password and the stored salt.
    /// Deterministic: the same password and salt always reproduce the key
    /// that encrypted the existing data. Success is owed below the hasher's
    /// 2^32-byte input limit.
    fn gen_key(&self, passwd: &str) -> (r: Result<[u8; 32], CryptoError>)
        ensures
            r matches Ok(k) ==> k@ == derived_key_of(encode_utf8(passwd@), self.salt_view()),
            encode_utf8(passwd@).len() <= 0xFFFF_FFFF ==> r is Ok,
    {
        argon2_derive_key(passwd.as_bytes(), &self.salt)
    }

    /// Builds the security context that an accepted verification earns: an
    /// entry cipher bound to the key derived from this password and salt.
    /// Does not re-verify the password; callers verify first. Success is
    /// owed below the hasher's 2^32-byte input limit.
    pub fn load_security_context(&self, passwd: &str) -> (r: Result<SecurityContext, CryptoError>)
        ensures
            r matches Ok(ctx) ==> ctx.key_view()
                == derived_key_of(encode_utf8(passwd@), self.salt_view()),
            encode_utf8(passwd@).len() <= 0xFFFF_FFFF ==> r is Ok,
    {
        let key = self.gen_key(passwd)?;
        Ok(SecurityContext::new(EntryAes256GcmSecretEncrypter::from_key(key)))
    }
}

} // verus!
