//! A local vault for secrets and chat history.
//!
//! The vault protects third-party API credentials and a user's chat history at
//! rest. Everything that touches the disk or a platform service happens outside
//! this library: callers hand in an in-memory image of the vault directory
//! ([`files::VaultFiles`]) and write it back afterwards.

pub mod bytes;
pub mod error;
pub mod primitives;
pub mod codec;
pub mod derive;
pub mod format;
pub mod files;
pub mod kek;
pub mod session;
pub mod history;
pub mod vault;
pub mod chat;
