//! The vault directory as plain values, and where its files live.
//!
//! The library never touches the disk. A caller reads the files of the vault
//! directory into a [`VaultFiles`], lets the library work on it, and writes back
//! what changed.

use vstd::prelude::*;
use vstd::string::StringExecFns;
use crate::error::{KeyStoreError, VaultError};
use crate::primitives::opt_view;

verus! {

/// A provider whose credential the vault can hold: the fixed allow-list.
#[derive(Clone, Copy, Debug, PartialEq, Eq, Structural)]
pub enum Provider {
    OpenAi,
    Mistral,
}

/// The provider that a name stands for, if it is in the allow-list.
pub open spec fn provider_named(name: Seq<char>) -> Option<Provider> {
    if name == "openai"@ {
        Some(Provider::OpenAi)
    } else if name == "mistral"@ {
        Some(Provider::Mistral)
    } else {
        None
    }
}

/// Looks a provider name up in the allow-list.
pub fn provider_from_name(name: &str) -> (r: Result<Provider, KeyStoreError>)
    ensures
        match r {
            Ok(p) => provider_named(name@) == Some(p),
            Err(e) => e == KeyStoreError::UnknownProvider && provider_named(name@) is None,
        },
{
    let given = String::from_str(name);
    if given == String::from_str("openai") {
        Ok(Provider::OpenAi)
    } else if given == String::from_str("mistral") {
        Ok(Provider::Mistral)
    } else {
        Err(KeyStoreError::UnknownProvider)
    }
}

/// The service identifier of a provider in the platform credential backend.
pub open spec fn service_of(p: Provider) -> Seq<char> {
    match p {
        Provider::OpenAi => "BatouLab:openai"@,
        Provider::Mistral => "BatouLab:mistral"@,
    }
}

/// The service identifier under which the platform credential backend holds a
/// provider's secret; `UnknownProvider` for a name outside the allow-list.
pub fn service_name(provider: &str) -> (r: Result<&'static str, KeyStoreError>)
    ensures
        match r {
            Ok(s) => provider_named(provider@) is Some && s@ == service_of(provider_named(provider@)->0),
            Err(e) => e == KeyStoreError::UnknownProvider && provider_named(provider@) is None,
        },
{
    match provider_from_name(provider) {
        Ok(Provider::OpenAi) => Ok("BatouLab:openai"),
        Ok(Provider::Mistral) => Ok("BatouLab:mistral"),
        Err(e) => Err(e),
    }
}

/// A directory path followed by a separator and a file name.
pub open spec fn joined(dir: Seq<char>, name: Seq<char>) -> Seq<char> {
    dir + "/"@ + name
}

/// Joins a directory path and a file name.
pub fn join_path(dir: &str, name: &str) -> (r: String)
    ensures
        r@ == joined(dir@, name@),
{
    String::from_str(dir).concat("/").concat(name)
}

/// The directory of the chat history below the home directory.
pub fn chats_root(home: &str) -> (r: String)
    ensures
        r@ == joined(home@, ".config/BatouLab/chats"@),
{
    join_path(home, ".config/BatouLab/chats")
}

/// The directory of the credential files below the configuration directory.
pub fn keys_dir(config_dir: &str) -> (r: String)
    ensures
        r@ == joined(config_dir@, "BatouLab/keys"@),
{
    join_path(config_dir, "BatouLab/keys")
}

/// The directories of the vault, chat directory first and key directory
/// second, below the user's home and configuration directories.
/// `ConfigError` where either of the two is unavailable.
pub fn vault_dirs(home: Option<&str>, config: Option<&str>) -> (r: Result<(String, String), VaultError>)
    ensures
        match (home, config) {
            (Some(h), Some(c)) => r matches Ok((chats, keys)) && chats@ == joined(
                h@,
                ".config/BatouLab/chats"@,
            ) && keys@ == joined(c@, "BatouLab/keys"@),
            _ => r == Err::<(String, String), VaultError>(VaultError::ConfigError),
        },
{
    match (home, config) {
        (Some(h), Some(c)) => Ok((chats_root(h), keys_dir(c))),
        _ => Err(VaultError::ConfigError),
    }
}

/// The path of the salt file in the chat directory.
pub fn key_file_path(chats_root: &str) -> (r: String)
    ensures
        r@ == joined(chats_root@, ".key.json"@),
{
    join_path(chats_root, ".key.json")
}

/// The path of the history file in the chat directory.
pub fn history_path(chats_root: &str) -> (r: String)
    ensures
        r@ == joined(chats_root@, "index.json"@),
{
    join_path(chats_root, "index.json")
}

/// The path of the root key file in the key directory.
pub fn kek_path(keys_dir: &str) -> (r: String)
    ensures
        r@ == joined(keys_dir@, ".kek"@),
{
    join_path(keys_dir, ".kek")
}

/// The path of a provider's encrypted credential file in the key directory.
pub fn enc_path(keys_dir: &str, provider: &str) -> (r: String)
    ensures
        r@ == joined(keys_dir@, provider@ + ".enc"@),
{
    let name = String::from_str(provider).concat(".enc");
    join_path(keys_dir, name.as_str())
}

/// The files of the vault directory, each absent or with its content.
#[derive(Clone, Debug, PartialEq, Eq)]
pub struct VaultFiles {
    /// The root key file: raw key bytes.
    pub kek: Option<Vec<u8>>,
    /// The salt file.
    pub salt: Option<Vec<u8>>,
    /// The history file.
    pub history: Option<Vec<u8>>,
    /// The encrypted credential file of OpenAI.
    pub openai: Option<Vec<u8>>,
    /// The encrypted credential file of Mistral.
    pub mistral: Option<Vec<u8>>,
}

/// The mathematical value of a [`VaultFiles`].
pub struct VaultFilesView {
    pub kek: Option<Seq<u8>>,
    pub salt: Option<Seq<u8>>,
    pub history: Option<Seq<u8>>,
    pub openai: Option<Seq<u8>>,
    pub mistral: Option<Seq<u8>>,
}

impl View for VaultFiles {
    type V = VaultFilesView;

    open spec fn view(&self) -> VaultFilesView {
        VaultFilesView {
            kek: opt_view(self.kek),
            salt: opt_view(self.salt),
            history: opt_view(self.history),
            openai: opt_view(self.openai),
            mistral: opt_view(self.mistral),
        }
    }
}

impl VaultFilesView {
    /// The content of a provider's credential file.
    pub open spec fn credential(self, p: Provider) -> Option<Seq<u8>> {
        match p {
            Provider::OpenAi => self.openai,
            Provider::Mistral => self.mistral,
        }
    }

    /// These files with a provider's credential file replaced.
    pub open spec fn with_credential(self, p: Provider, content: Option<Seq<u8>>) -> VaultFilesView {
        match p {
            Provider::OpenAi => VaultFilesView { openai: content, ..self },
            Provider::Mistral => VaultFilesView { mistral: content, ..self },
        }
    }

    /// These files with the root key file replaced.
    pub open spec fn with_kek(self, content: Option<Seq<u8>>) -> VaultFilesView {
        VaultFilesView { kek: content, ..self }
    }

    /// These files with the salt file replaced.
    pub open spec fn with_salt(self, content: Option<Seq<u8>>) -> VaultFilesView {
        VaultFilesView { salt: content, ..self }
    }

    /// These files with the history file replaced.
    pub open spec fn with_history(self, content: Option<Seq<u8>>) -> VaultFilesView {
        VaultFilesView { history: content, ..self }
    }
}

impl VaultFiles {
    /// An empty vault directory.
    pub fn new() -> (r: VaultFiles)
        ensures
            r@ == (VaultFilesView { kek: None, salt: None, history: None, openai: None, mistral: None }),
    {
        VaultFiles { kek: None, salt: None, history: None, openai: None, mistral: None }
    }

    /// The content of a provider's credential file.
    pub fn credential(&self, p: Provider) -> (r: &Option<Vec<u8>>)
        ensures
            opt_view(*r) == self@.credential(p),
    {
        match p {
            Provider::OpenAi => &self.openai,
            Provider::Mistral => &self.mistral,
        }
    }

    /// Replaces the content of a provider's credential file.
    pub fn set_credential(&mut self, p: Provider, content: Option<Vec<u8>>)
        ensures
            final(self)@ == old(self)@.with_credential(p, opt_view(content)),
    {
        match p {
            Provider::OpenAi => {
                self.openai = content;
            },
            Provider::Mistral => {
                self.mistral = content;
            },
        }
    }
}

} // verus!
