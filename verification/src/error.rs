//! Error types of the vault.

use vstd::prelude::*;
use vstd::string::StringExecFns;

verus! {

/// Why a provider name could not be mapped to a credential service.
#[derive(Clone, Copy, Debug, PartialEq, Eq, Structural)]
pub enum KeyStoreError {
    /// The provider is not in the fixed allow-list.
    UnknownProvider,
}

impl KeyStoreError {
    /// A short description for the user.
    pub fn message(&self) -> (r: String)
        ensures
            r@ == "provider inconnu"@,
    {
        String::from_str("provider inconnu")
    }
}

/// Everything that can go wrong inside the vault.
#[derive(Clone, Copy, Debug, PartialEq, Eq, Structural)]
pub enum VaultError {
    /// The home or configuration directory is unavailable.
    ConfigError,
    /// The filesystem or the operating system's random source failed.
    IOError,
    /// Stored bytes are not in the expected format.
    SerializationError,
    /// Authenticated decryption failed, or a key could not be derived.
    CryptoError,
    /// The provider is not in the fixed allow-list.
    UnknownProvider,
    /// A history operation was attempted while the session was locked.
    LockedError,
}

/// The description of each error, as a specification.
pub open spec fn error_text(e: VaultError) -> Seq<char> {
    match e {
        VaultError::ConfigError => "configuration directory unavailable"@,
        VaultError::IOError => "input/output failure"@,
        VaultError::SerializationError => "malformed stored data"@,
        VaultError::CryptoError => "decryption failed"@,
        VaultError::UnknownProvider => "provider inconnu"@,
        VaultError::LockedError => "locked"@,
    }
}

impl VaultError {
    /// A short description for the user.
    pub fn message(&self) -> (r: String)
        ensures
            r@ == error_text(*self),
    {
        match self {
            VaultError::ConfigError => String::from_str("configuration directory unavailable"),
            VaultError::IOError => String::from_str("input/output failure"),
            VaultError::SerializationError => String::from_str("malformed stored data"),
            VaultError::CryptoError => String::from_str("decryption failed"),
            VaultError::UnknownProvider => String::from_str("provider inconnu"),
            VaultError::LockedError => String::from_str("locked"),
        }
    }
}

/// The vault error that stands for a key-store error.
pub fn from_key_store_error(e: KeyStoreError) -> (r: VaultError)
    ensures
        r == VaultError::UnknownProvider,
{
    match e {
        KeyStoreError::UnknownProvider => VaultError::UnknownProvider,
    }
}

} // verus!
