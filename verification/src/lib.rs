//! Core of a local, single-user secret manager: master-password hashing and
//! verification, symmetric key derivation, authenticated per-field encryption,
//! the retry-limited authentication controller, and the session lock and
//! navigation state machine that keeps decrypted data behind verification.

use vstd::prelude::*;

pub mod auth;
pub mod cfg;
pub mod cipher;
pub mod codec;
pub mod component;
pub mod context;
pub mod crypto;
pub mod entry;
pub mod errors;
pub mod events;
pub mod help;
pub mod intents;
pub mod msg;
pub mod screen;
pub mod session;
pub mod setup;

verus! {

/// Highest number of consecutive failed master-password attempts before the
/// session is terminated.
pub const ALLOC_INVALID_MAIN_PASS_MAX: u8 = 3;

} // verus!
