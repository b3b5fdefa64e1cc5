//! Error taxonomy of the security core.

use vstd::prelude::*;

verus! {

/// Errors surfaced while the application runs.
#[derive(Debug, PartialEq, Eq, Structural, Clone, Copy)]
pub enum AppError {
    /// The master password was still wrong when the retry limit was reached.
    InvalidPassword,
    /// Stored data could not be read back in the expected shape: the data
    /// file was altered outside the application. Fatal.
    DataCorrupted,
    /// An operation that needs a `SecurityContext` ran while locked.
    MainPwdNotVerified,
}

impl AppError {
    /// Human-readable description, in place of a `Display` impl.
    pub fn message(&self) -> (r: &'static str)
        ensures
            r@.len() > 0,
    {
        let m: &'static str = match self {
            AppError::InvalidPassword => "invalid password",
            AppError::DataCorrupted => "data is corrupted (the data file has been manually altered ?)",
            AppError::MainPwdNotVerified => "main password is not verified",
        };
        proof {
            reveal_strlit("invalid password");
            reveal_strlit("data is corrupted (the data file has been manually altered ?)");
            reveal_strlit("main password is not verified");
        }
        m
    }
}

/// Errors raised by the hashing, key-derivation and field-cipher layer.
#[derive(Debug, PartialEq, Eq, Structural, Clone, Copy)]
pub enum CryptoError {
    /// Hashing the master password failed inside the password-hash library.
    EncryptMainPwd,
    /// Key derivation failed inside the password-hash library.
    GenerateKey,
    /// Authenticated encryption failed.
    Encrypt,
    /// Authenticated decryption failed: wrong key or tampered blob.
    Decrypt,
    /// A ciphertext blob was too short to carry a nonce.
    CiphertextSplit,
    /// Decrypted bytes were not valid text.
    DecodeNonce,
    /// A ciphertext blob was not canonical base64.
    DecodeCiphertext,
}

impl CryptoError {
    /// Human-readable description, in place of a `Display` impl.
    pub fn message(&self) -> (r: &'static str)
        ensures
            r@.len() > 0,
    {
        let m: &'static str = match self {
            CryptoError::EncryptMainPwd => "failed to encrypt main password",
            CryptoError::GenerateKey => "generate key error",
            CryptoError::Encrypt => "encrypt error",
            CryptoError::Decrypt => "decrypt error",
            CryptoError::CiphertextSplit => "split ciphertext error",
            CryptoError::DecodeNonce => "decode nonce error",
            CryptoError::DecodeCiphertext => "decode ciphertext error",
        };
        proof {
            reveal_strlit("failed to encrypt main password");
            reveal_strlit("generate key error");
            reveal_strlit("encrypt error");
            reveal_strlit("decrypt error");
            reveal_strlit("split ciphertext error");
            reveal_strlit("decode nonce error");
            reveal_strlit("decode ciphertext error");
        }
        m
    }
}

} // verus!
