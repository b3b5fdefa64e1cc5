//! The capability earned by a successful master-password verification.

use vstd::prelude::*;

use crate::cipher::EntryAes256GcmSecretEncrypter;

verus! {

/// An opaque capability holding the unlocked entry cipher. It has exactly
/// one producer — a successful verification — and is destroyed on lock,
/// idle re-lock or process exit; while no instance is live, no secret field
/// can be read or written.
pub struct SecurityContext {
    encrypter: EntryAes256GcmSecretEncrypter,
}

impl SecurityContext {
    /// The 256-bit key the owned cipher is bound to.
    pub closed spec fn key_view(&self) -> Seq<u8> {
        self.encrypter.key_view()
    }

    /// Wraps an unlocked entry cipher.
    pub fn new(encrypter: EntryAes256GcmSecretEncrypter) -> (r: Self)
        ensures
            r.key_view() == encrypter.key_view(),
    {
        SecurityContext { encrypter }
    }

    /// The owned entry cipher; the only door to the secret fields.
    pub fn encrypter(&self) -> (r: &EntryAes256GcmSecretEncrypter)
        ensures
            r.key_view() == self.key_view(),
    {
        &self.encrypter
    }
}

} // verus!
