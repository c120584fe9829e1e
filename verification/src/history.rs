//! The chat history at rest: an envelope sealed under the session key.

use vstd::prelude::*;
use vstd::string::StringSliceAdditionalSpecFns;
use vstd::utf8::{decode_utf8, encode_utf8, valid_utf8};
use crate::bytes::to_vec;
use crate::codec::{decrypt, decrypted, encrypt, is_sealing_of, Envelope, EnvelopeView};
use crate::error::VaultError;
use crate::files::{VaultFiles, VaultFilesView};
use crate::format::{
    classified, classify, envelope_reads_back, envelope_text, parsed_envelope, write_envelope, StoredBlob,
    StoredBlobView,
};
use crate::primitives::{utf8_string, PLAINTEXT_LIMIT};
use crate::session::{PassphraseSession, SessionStatus};

verus! {

/// What a vault without a history file holds: the empty JSON array.
pub open spec fn empty_history() -> Seq<u8> {
    "[]".spec_bytes()
}

/// The bytes that reading the history gives for the key a session holds and the
/// content of the history file.
pub open spec fn history_bytes(key: Option<Seq<u8>>, stored: Option<Seq<u8>>) -> Result<Seq<u8>, VaultError> {
    match key {
        None => Err(VaultError::LockedError),
        Some(k) => match stored {
            None => Ok(empty_history()),
            Some(doc) => match classified(doc) {
                None => Err(VaultError::SerializationError),
                Some(StoredBlobView::LegacyPlaintext) => Ok(doc),
                Some(StoredBlobView::Sealed(e)) => decrypted(k, e),
            },
        },
    }
}

/// The text that reading the history gives: the bytes, where they are UTF-8.
pub open spec fn history_text(key: Option<Seq<u8>>, stored: Option<Seq<u8>>) -> Result<Seq<char>, VaultError> {
    match history_bytes(key, stored) {
        Ok(b) => if valid_utf8(b) {
            Ok(decode_utf8(b))
        } else {
            Err(VaultError::SerializationError)
        },
        Err(e) => Err(e),
    }
}

/// Writes a sealed history into the history file. The text is read back
/// before it is written: `SerializationError` says that it did not read back
/// as the envelope, and the file is then left as it is.
pub fn store_history(files: &mut VaultFiles, envelope: &Envelope) -> (r: Result<(), VaultError>)
    ensures
        match r {
            Ok(()) => envelope_reads_back(envelope@) && final(files)@ == old(files)@.with_history(
                Some(envelope_text(envelope@)),
            ),
            Err(e) => e == VaultError::SerializationError && !envelope_reads_back(envelope@) && final(files)@
                == old(files)@,
        },
{
    match write_envelope(envelope) {
        Ok(text) => {
            files.history = Some(text);
            assert(files@ =~= old(files)@.with_history(Some(envelope_text(envelope@))));
            Ok(())
        },
        Err(e) => Err(e),
    }
}

/// Seals `json` under the session key and writes the envelope into the history
/// file.
///
/// A locked session gives `LockedError`. After a call that succeeded, reading
/// the history under the same key gives `json` back: the file holds, whatever
/// nonce was drawn, the canonical text of a sealing of `json` under the session
/// key, and that text reads back. On any failure the directory is unchanged:
/// `IOError` when no randomness could be had, `CryptoError` when the cipher
/// refuses the text for its length, `SerializationError` when the text written
/// would not read back.
pub fn save_history(session: &PassphraseSession, files: &mut VaultFiles, json: &str) -> (r: Result<(), VaultError>)
    ensures
        session.key() is None ==> r == Err::<(), VaultError>(VaultError::LockedError),
        match r {
            Ok(()) => session.key() is Some && history_bytes(session.key(), final(files)@.history) == Ok::<
                Seq<u8>,
                VaultError,
            >(encode_utf8(json@)) && history_text(session.key(), final(files)@.history) == Ok::<
                Seq<char>,
                VaultError,
            >(json@) && exists|e: EnvelopeView| #[trigger]
                is_sealing_of(session.key()->0, e, encode_utf8(json@)) && final(files)@ == old(
                    files,
                )@.with_history(Some(envelope_text(e))),
            Err(e) => final(files)@ == old(files)@ && match e {
                VaultError::LockedError => session.key() is None,
                VaultError::IOError => session.key() is Some,
                VaultError::CryptoError => session.key() is Some && encode_utf8(json@).len() >= PLAINTEXT_LIMIT,
                VaultError::SerializationError => session.key() is Some,
                _ => false,
            },
        },
{
    match session.held_key() {
        None => Err(VaultError::LockedError),
        Some(key) => match encrypt(key, json.as_bytes()) {
            Ok(envelope) => match store_history(files, &envelope) {
                Ok(()) => {
                    proof {
                        assert(is_sealing_of(session.key()->0, envelope@, encode_utf8(json@)));
                        saved_history_reads_back(
                            session.key()->0,
                            envelope@,
                            encode_utf8(json@),
                            envelope_text(envelope@),
                        );
                        vstd::utf8::encode_utf8_valid_utf8(json@);
                        vstd::utf8::encode_utf8_decode_utf8(json@);
                    }
                    Ok(())
                },
                Err(e) => Err(e),
            },
            Err(e) => Err(e),
        },
    }
}

/// Reads the history as bytes.
///
/// A locked session gives `LockedError`. Without a history file the result is
/// the empty array. An envelope is opened under the session key, and gives
/// `CryptoError` where it does not authenticate; legacy plaintext comes back
/// unchanged; anything else gives `SerializationError`.
pub fn load_history_bytes(session: &PassphraseSession, files: &VaultFiles) -> (r: Result<Vec<u8>, VaultError>)
    ensures
        match r {
            Ok(b) => history_bytes(session.key(), files@.history) == Ok::<Seq<u8>, VaultError>(b@),
            Err(e) => history_bytes(session.key(), files@.history) == Err::<Seq<u8>, VaultError>(e),
        },
{
    match session.held_key() {
        None => Err(VaultError::LockedError),
        Some(key) => match &files.history {
            None => Ok(to_vec("[]".as_bytes())),
            Some(doc) => match classify(doc.as_slice()) {
                Err(e) => Err(e),
                Ok(StoredBlob::LegacyPlaintext) => Ok(to_vec(doc.as_slice())),
                Ok(StoredBlob::Sealed(envelope)) => decrypt(key, &envelope),
            },
        },
    }
}

/// Reads the history as text: what [`load_history_bytes`] gives, where it is
/// UTF-8, and `SerializationError` where it is not.
pub fn load_history(session: &PassphraseSession, files: &VaultFiles) -> (r: Result<String, VaultError>)
    ensures
        match r {
            Ok(s) => history_text(session.key(), files@.history) == Ok::<Seq<char>, VaultError>(s@),
            Err(e) => history_text(session.key(), files@.history) == Err::<Seq<char>, VaultError>(e),
        },
{
    match load_history_bytes(session, files) {
        Ok(bytes) => match utf8_string(bytes) {
            Some(text) => Ok(text),
            None => Err(VaultError::SerializationError),
        },
        Err(e) => Err(e),
    }
}

/// A locked session reports `Locked` and gives up no history, whatever the
/// history file holds.
pub proof fn locked_session_refuses_history(session: PassphraseSession, stored: Option<Seq<u8>>)
    requires
        session.key() is None,
    ensures
        session.spec_status() == SessionStatus::Locked,
        history_bytes(session.key(), stored) == Err::<Seq<u8>, VaultError>(VaultError::LockedError),
        history_text(session.key(), stored) == Err::<Seq<char>, VaultError>(VaultError::LockedError),
{
}

/// What was saved under a key is read back under the same key: a history file
/// that parses as the envelope `e`, a sealing of `plaintext`, reads as
/// `plaintext`.
pub proof fn saved_history_reads_back(key: Seq<u8>, e: EnvelopeView, plaintext: Seq<u8>, stored: Seq<u8>)
    requires
        is_sealing_of(key, e, plaintext),
        parsed_envelope(stored) == Some(e),
    ensures
        history_bytes(Some(key), Some(stored)) == Ok::<Seq<u8>, VaultError>(plaintext),
{
}

/// Reading under a key that does not open the stored envelope fails closed with
/// `CryptoError`: no bytes are given up.
pub proof fn wrong_key_fails_closed(key: Seq<u8>, e: EnvelopeView, stored: Seq<u8>)
    requires
        classified(stored) == Some(StoredBlobView::Sealed(e)),
        decrypted(key, e) is Err,
    ensures
        history_bytes(Some(key), Some(stored)) == Err::<Seq<u8>, VaultError>(VaultError::CryptoError),
        history_text(Some(key), Some(stored)) == Err::<Seq<char>, VaultError>(VaultError::CryptoError),
{
}

} // verus!
