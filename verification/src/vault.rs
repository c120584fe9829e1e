//! The credential vault: one secret per provider, kept in the platform
//! credential backend where that works and in an encrypted file where it does
//! not.
//!
//! The platform backend is a service outside this library. The caller talks to
//! it and tells the vault what it answered; the vault decides what happens to
//! the encrypted files.

use vstd::prelude::*;
use vstd::utf8::{decode_utf8, encode_utf8, valid_utf8};
use crate::bytes::to_vec;
use crate::codec::{decrypt_once, decrypted, encrypt_once, is_sealing_of, Envelope, EnvelopeView};
use crate::derive::{content_key, derive_content_key, legacy_context, legacy_label, vendor_context, vendor_label};
use crate::error::{from_key_store_error, VaultError};
use crate::files::{provider_from_name, provider_named, Provider, VaultFiles, VaultFilesView};
use crate::format::{
    decode_envelope, decode_legacy_envelope, envelope_reads_back, envelope_text, parsed_envelope,
    parsed_legacy_envelope, write_envelope,
};
use crate::kek::ensure_kek;
use crate::primitives::{utf8_string, KEY_LEN, PLAINTEXT_LIMIT};

verus! {

/// That a call which found the directory as `before` left it as `after` with a
/// root key of 32 bytes in place: the stored key where there was one, and
/// nothing changed; else a new key, and nothing else changed.
pub open spec fn kek_settled(before: VaultFilesView, after: VaultFilesView) -> bool {
    match before.kek {
        Some(k) => k.len() == KEY_LEN && after == before,
        None => after.kek is Some && after.kek->0.len() == KEY_LEN && after == before.with_kek(after.kek),
    }
}

/// That `e` is the error with which a directory gives no root key: a key file
/// that does not hold 32 bytes gives `SerializationError`, and a missing one
/// `IOError`, when no randomness could be had to create it.
pub open spec fn kek_refused(before: VaultFilesView, e: VaultError) -> bool {
    match before.kek {
        Some(k) => k.len() != KEY_LEN && e == VaultError::SerializationError,
        None => e == VaultError::IOError,
    }
}

/// The secret bytes behind a credential file under a root key: the canonical
/// envelope opened under the provider's content key, or else the binary form of
/// earlier versions opened under the label of earlier versions.
pub open spec fn credential_bytes(kek: Seq<u8>, provider: Seq<char>, doc: Seq<u8>) -> Result<Seq<u8>, VaultError> {
    match parsed_envelope(doc) {
        Some(e) => decrypted(content_key(kek, vendor_label(provider)), e),
        None => match parsed_legacy_envelope(doc) {
            Some(e) => decrypted(content_key(kek, legacy_label(provider)), e),
            None => Err(VaultError::SerializationError),
        },
    }
}

/// The secret behind a credential file: the bytes, where they are UTF-8.
pub open spec fn credential_text(kek: Seq<u8>, provider: Seq<char>, doc: Seq<u8>) -> Result<Seq<char>, VaultError> {
    match credential_bytes(kek, provider, doc) {
        Ok(b) => if valid_utf8(b) {
            Ok(decode_utf8(b))
        } else {
            Err(VaultError::SerializationError)
        },
        Err(e) => Err(e),
    }
}

/// Seals a secret under the content key of `provider`. The content key is
/// overwritten with zeros before the call returns.
///
/// Whatever nonce was drawn, the envelope is a sealing of the secret under that
/// key. Fails with `IOError` when no randomness could be had, and with
/// `CryptoError` when the cipher refuses the secret for its length.
pub fn seal_credential(kek: &[u8], provider: &str, secret: &[u8]) -> (r: Result<Envelope, VaultError>)
    ensures
        match r {
            Ok(e) => is_sealing_of(content_key(kek@, vendor_label(provider@)), e@, secret@),
            Err(e) => e == VaultError::IOError || (e == VaultError::CryptoError && secret@.len()
                >= PLAINTEXT_LIMIT),
        },
{
    let context = vendor_context(provider);
    let mut key = derive_content_key(kek, context.as_str());
    encrypt_once(&mut key, secret)
}

/// Opens a credential file under the root key. The content key is overwritten
/// with zeros before the call returns.
///
/// A canonical envelope is opened under the provider's content key. A file in
/// the binary form of earlier versions is opened under their label. An
/// envelope that does not authenticate gives `CryptoError`; a file in neither
/// form gives `SerializationError`.
pub fn open_credential(kek: &[u8], provider: &str, doc: &[u8]) -> (r: Result<Vec<u8>, VaultError>)
    ensures
        match r {
            Ok(b) => credential_bytes(kek@, provider@, doc@) == Ok::<Seq<u8>, VaultError>(b@),
            Err(e) => credential_bytes(kek@, provider@, doc@) == Err::<Seq<u8>, VaultError>(e),
        },
{
    match decode_envelope(doc) {
        Ok(envelope) => {
            let context = vendor_context(provider);
            let mut key = derive_content_key(kek, context.as_str());
            decrypt_once(&mut key, &envelope)
        },
        Err(_) => match decode_legacy_envelope(doc) {
            Ok(envelope) => {
                let context = legacy_context(provider);
                let mut key = derive_content_key(kek, context.as_str());
                decrypt_once(&mut key, &envelope)
            },
            Err(e) => Err(e),
        },
    }
}

/// Writes a sealed secret into a provider's file. The text is read back before
/// it is written: `SerializationError` says that it did not read back as the
/// envelope, and the file is then left as it is.
pub fn store_credential(files: &mut VaultFiles, p: Provider, envelope: &Envelope) -> (r: Result<(), VaultError>)
    ensures
        match r {
            Ok(()) => envelope_reads_back(envelope@) && final(files)@ == old(files)@.with_credential(
                p,
                Some(envelope_text(envelope@)),
            ),
            Err(e) => e == VaultError::SerializationError && !envelope_reads_back(envelope@) && final(files)@
                == old(files)@,
        },
{
    match write_envelope(envelope) {
        Ok(text) => {
            files.set_credential(p, Some(text));
            Ok(())
        },
        Err(e) => Err(e),
    }
}

/// Stores a provider's secret.
///
/// `backend_stored` says whether the platform credential backend took the
/// secret. Where it did, the files stay as they are. Where it did not, the
/// secret is sealed under the provider's content key and written, as a
/// canonical envelope, into the provider's file; the root key is created on
/// first use. After a call that succeeded on this path, opening the provider's
/// file under the root key gives the secret back. A provider outside the
/// allow-list gives `UnknownProvider`.
pub fn save_api_key(files: &mut VaultFiles, provider: &str, key: &str, backend_stored: bool) -> (r: Result<
    (),
    VaultError,
>)
    ensures
        match provider_named(provider@) {
            None => r == Err::<(), VaultError>(VaultError::UnknownProvider) && final(files)@ == old(files)@,
            Some(p) => if backend_stored {
                r is Ok && final(files)@ == old(files)@
            } else {
                match r {
                    Ok(()) => final(files)@.kek is Some && kek_settled(
                        old(files)@,
                        old(files)@.with_kek(final(files)@.kek),
                    ) && final(files)@.credential(p) is Some && credential_text(
                        final(files)@.kek->0,
                        provider@,
                        final(files)@.credential(p)->0,
                    ) == Ok::<Seq<char>, VaultError>(key@) && exists|e: EnvelopeView| #[trigger]
                        is_sealing_of(
                            content_key(final(files)@.kek->0, vendor_label(provider@)),
                            e,
                            encode_utf8(key@),
                        ) && final(files)@ == old(files)@.with_kek(final(files)@.kek).with_credential(
                            p,
                            Some(envelope_text(e)),
                        ),
                    Err(e) => (kek_refused(old(files)@, e) && final(files)@ == old(files)@) || (kek_settled(
                        old(files)@,
                        final(files)@,
                    ) && (e == VaultError::IOError || e == VaultError::SerializationError || (e
                        == VaultError::CryptoError && encode_utf8(key@).len() >= PLAINTEXT_LIMIT))),
                }
            },
        },
{
    let p = match provider_from_name(provider) {
        Ok(p) => p,
        Err(e) => {
            return Err(from_key_store_error(e));
        },
    };
    if backend_stored {
        return Ok(());
    }
    let kek = match ensure_kek(files) {
        Ok(k) => k,
        Err(e) => {
            return Err(e);
        },
    };
    let ghost mid = files@;
    let envelope = match seal_credential(kek.as_slice(), provider, key.as_bytes()) {
        Ok(envelope) => envelope,
        Err(e) => {
            return Err(e);
        },
    };
    match store_credential(files, p, &envelope) {
        Ok(()) => {
            proof {
                assert(files@.kek == mid.kek);
                assert(mid =~= old(files)@.with_kek(files@.kek));
                assert(is_sealing_of(
                    content_key(files@.kek->0, vendor_label(provider@)),
                    envelope@,
                    encode_utf8(key@),
                ));
                saved_credential_reads_back(
                    files@.kek->0,
                    provider@,
                    envelope@,
                    encode_utf8(key@),
                    envelope_text(envelope@),
                );
                vstd::utf8::encode_utf8_valid_utf8(key@);
                vstd::utf8::encode_utf8_decode_utf8(key@);
            }
            Ok(())
        },
        Err(e) => Err(e),
    }
}

/// Loads a provider's secret.
///
/// `backend_value` is what the platform credential backend holds for the
/// provider, if it answered. Where it holds a secret, that is the result.
/// Otherwise the provider's file is opened under the root key; without a file
/// there is no secret, which is no error. A provider outside the allow-list
/// gives `UnknownProvider`.
pub fn load_api_key(files: &mut VaultFiles, provider: &str, backend_value: Option<String>) -> (r: Result<
    Option<String>,
    VaultError,
>)
    ensures
        match provider_named(provider@) {
            None => r == Err::<Option<String>, VaultError>(VaultError::UnknownProvider) && final(files)@
                == old(files)@,
            Some(p) => match backend_value {
                Some(s) => r matches Ok(Some(t)) && t@ == s@ && final(files)@ == old(files)@,
                None => match old(files)@.credential(p) {
                    None => r matches Ok(None) && final(files)@ == old(files)@,
                    Some(doc) => match r {
                        Ok(Some(t)) => kek_settled(old(files)@, final(files)@) && credential_text(
                            final(files)@.kek->0,
                            provider@,
                            doc,
                        ) == Ok::<Seq<char>, VaultError>(t@),
                        Ok(None) => false,
                        Err(e) => (kek_refused(old(files)@, e) && final(files)@ == old(files)@) || (
                        kek_settled(old(files)@, final(files)@) && credential_text(
                            final(files)@.kek->0,
                            provider@,
                            doc,
                        ) == Err::<Seq<char>, VaultError>(e)),
                    },
                },
            },
        },
{
    let p = match provider_from_name(provider) {
        Ok(p) => p,
        Err(e) => {
            return Err(from_key_store_error(e));
        },
    };
    if let Some(s) = backend_value {
        return Ok(Some(s));
    }
    if files.credential(p).is_none() {
        return Ok(None);
    }
    let kek = match ensure_kek(files) {
        Ok(k) => k,
        Err(e) => {
            return Err(e);
        },
    };
    assert(files@.credential(p) == old(files)@.credential(p));
    match files.credential(p) {
        None => Ok(None),
        Some(doc) => match open_credential(kek.as_slice(), provider, doc.as_slice()) {
            Ok(bytes) => match utf8_string(bytes) {
                Some(text) => Ok(Some(text)),
                None => Err(VaultError::SerializationError),
            },
            Err(e) => Err(e),
        },
    }
}

/// Rewrites a provider's credential file in the canonical form, where it is
/// still in the binary form of earlier versions.
///
/// Returns `true` where the file was rewritten: it then holds the canonical
/// envelope of the same secret, sealed under the provider's content key.
/// Returns `false`, and changes nothing, where there is no file or the file is
/// canonical already. A file in neither form, or one that does not open, gives
/// the error that reading it gives and is left as it is.
pub fn migrate_credential(files: &mut VaultFiles, provider: &str) -> (r: Result<bool, VaultError>)
    ensures
        match provider_named(provider@) {
            None => r == Err::<bool, VaultError>(VaultError::UnknownProvider) && final(files)@ == old(files)@,
            Some(p) => match old(files)@.credential(p) {
                None => r == Ok::<bool, VaultError>(false) && final(files)@ == old(files)@,
                Some(doc) => if parsed_envelope(doc) is Some {
                    r == Ok::<bool, VaultError>(false) && final(files)@ == old(files)@
                } else {
                    match r {
                        Ok(rewritten) => rewritten && final(files)@.kek is Some && kek_settled(
                            old(files)@,
                            old(files)@.with_kek(final(files)@.kek),
                        ) && credential_bytes(final(files)@.kek->0, provider@, doc) is Ok
                            && final(files)@.credential(p) is Some && credential_bytes(
                            final(files)@.kek->0,
                            provider@,
                            final(files)@.credential(p)->0,
                        ) == credential_bytes(final(files)@.kek->0, provider@, doc) && exists|
                            e: EnvelopeView,
                        | #[trigger]
                            is_sealing_of(
                                content_key(final(files)@.kek->0, vendor_label(provider@)),
                                e,
                                credential_bytes(final(files)@.kek->0, provider@, doc)->Ok_0,
                            ) && final(files)@ == old(files)@.with_kek(final(files)@.kek).with_credential(
                                p,
                                Some(envelope_text(e)),
                            ),
                        Err(e) => (kek_refused(old(files)@, e) && final(files)@ == old(files)@) || (
                        kek_settled(old(files)@, final(files)@) && match credential_bytes(
                            final(files)@.kek->0,
                            provider@,
                            doc,
                        ) {
                            Ok(secret) => e == VaultError::IOError || e == VaultError::SerializationError || (e
                                == VaultError::CryptoError && secret.len() >= PLAINTEXT_LIMIT),
                            Err(reason) => e == reason,
                        }),
                    }
                },
            },
        },
{
    let p = match provider_from_name(provider) {
        Ok(p) => p,
        Err(e) => {
            return Err(from_key_store_error(e));
        },
    };
    let doc = match files.credential(p) {
        None => {
            return Ok(false);
        },
        Some(doc) => to_vec(doc.as_slice()),
    };
    if decode_envelope(doc.as_slice()).is_ok() {
        return Ok(false);
    }
    let kek = match ensure_kek(files) {
        Ok(k) => k,
        Err(e) => {
            return Err(e);
        },
    };
    let ghost mid = files@;
    let secret = match open_credential(kek.as_slice(), provider, doc.as_slice()) {
        Ok(s) => s,
        Err(e) => {
            return Err(e);
        },
    };
    let envelope = match seal_credential(kek.as_slice(), provider, secret.as_slice()) {
        Ok(envelope) => envelope,
        Err(e) => {
            return Err(e);
        },
    };
    match store_credential(files, p, &envelope) {
        Ok(()) => {
            proof {
                assert(files@.kek == mid.kek);
                assert(mid =~= old(files)@.with_kek(files@.kek));
                assert(is_sealing_of(
                    content_key(files@.kek->0, vendor_label(provider@)),
                    envelope@,
                    credential_bytes(files@.kek->0, provider@, doc@)->Ok_0,
                ));
                saved_credential_reads_back(
                    files@.kek->0,
                    provider@,
                    envelope@,
                    credential_bytes(files@.kek->0, provider@, doc@)->Ok_0,
                    envelope_text(envelope@),
                );
            }
            Ok(true)
        },
        Err(e) => Err(e),
    }
}

/// Removes a provider's encrypted file. Removing what is not there succeeds
/// and changes nothing. A provider outside the allow-list gives
/// `UnknownProvider`.
pub fn remove_api_key(files: &mut VaultFiles, provider: &str) -> (r: Result<(), VaultError>)
    ensures
        match provider_named(provider@) {
            None => r == Err::<(), VaultError>(VaultError::UnknownProvider) && final(files)@ == old(files)@,
            Some(p) => r is Ok && final(files)@ == old(files)@.with_credential(p, None),
        },
{
    match provider_from_name(provider) {
        Ok(p) => {
            files.set_credential(p, None);
            Ok(())
        },
        Err(e) => Err(from_key_store_error(e)),
    }
}

/// Removing a credential that is absent changes nothing, and removing twice
/// leaves the directory as removing once does.
pub proof fn remove_is_idempotent(files: VaultFilesView, p: Provider)
    ensures
        files.credential(p) is None ==> files.with_credential(p, None) == files,
        files.with_credential(p, None).with_credential(p, None) == files.with_credential(p, None),
        files.with_credential(p, None).credential(p) is None,
{
}

/// A secret that was sealed into a provider's file reads back under the same
/// root key: a file that holds the envelope `e`, a sealing of `secret` under the
/// provider's content key, opens to `secret`.
pub proof fn saved_credential_reads_back(
    kek: Seq<u8>,
    provider: Seq<char>,
    e: EnvelopeView,
    secret: Seq<u8>,
    doc: Seq<u8>,
)
    requires
        is_sealing_of(content_key(kek, vendor_label(provider)), e, secret),
        parsed_envelope(doc) == Some(e),
    ensures
        credential_bytes(kek, provider, doc) == Ok::<Seq<u8>, VaultError>(secret),
{
}

} // verus!
