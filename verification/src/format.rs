//! The text forms in which the vault keeps its data: the envelope and the salt
//! file, both small JSON objects with base64 members, and the classification of
//! stored bytes that predate encryption.

use vstd::prelude::*;
use vstd::string::StringSliceAdditionalSpecFns;
use crate::bytes::{append, equal, slice_copy};
use crate::codec::{Envelope, EnvelopeView, ENVELOPE_VERSION};
use crate::error::VaultError;
use crate::primitives::{b64_decode, b64_encode, b64_nopad_decode, base64_decode, base64_encode, base64_nopad_decode, json_lookup, json_member, JsonMember, JsonMemberView, NONCE_LEN};

verus! {

/// Length in bytes of the passphrase salt.
pub const SALT_LEN: usize = 16;

/// The canonical text of an envelope:
/// `{"v":1,"nonce":"<base64>","ct":"<base64>"}`.
pub open spec fn envelope_text(e: EnvelopeView) -> Seq<u8> {
    "{\"v\":1,\"nonce\":\"".spec_bytes() + base64_encode(e.nonce) + "\",\"ct\":\"".spec_bytes()
        + base64_encode(e.ciphertext) + "\"}".spec_bytes()
}

/// The text of the salt file: `{"v":1,"salt":"<base64>"}`.
pub open spec fn salt_text(salt: Seq<u8>) -> Seq<u8> {
    "{\"v\":1,\"salt\":\"".spec_bytes() + base64_encode(salt) + "\"}".spec_bytes()
}

/// Whether a document carries the version tag `"v":1`.
pub open spec fn has_version_tag(doc: Seq<u8>) -> bool {
    json_member(doc, "v"@) == JsonMemberView::Number(ENVELOPE_VERSION)
}

/// The bytes behind a base64 string member of a document, where there is one.
pub open spec fn base64_member(doc: Seq<u8>, name: Seq<char>) -> Option<Seq<u8>> {
    match json_member(doc, name) {
        JsonMemberView::Text(t) => base64_decode(t),
        _ => None,
    }
}

/// The envelope that a document holds, where it follows the envelope schema:
/// the version tag, and base64 strings under `nonce` and `ct`.
pub open spec fn parsed_envelope(doc: Seq<u8>) -> Option<EnvelopeView> {
    if has_version_tag(doc) && base64_member(doc, "nonce"@) is Some && base64_member(doc, "ct"@) is Some {
        Some(
            EnvelopeView {
                nonce: base64_member(doc, "nonce"@)->0,
                ciphertext: base64_member(doc, "ct"@)->0,
            },
        )
    } else {
        None
    }
}

/// The salt that a document holds, where it follows the salt-file schema: the
/// version tag, and a base64 string of 16 bytes under `salt`.
pub open spec fn parsed_salt(doc: Seq<u8>) -> Option<Seq<u8>> {
    if has_version_tag(doc) && base64_member(doc, "salt"@) is Some && base64_member(doc, "salt"@)->0.len()
        == SALT_LEN {
        base64_member(doc, "salt"@)
    } else {
        None
    }
}

/// What stored bytes turn out to be.
#[derive(Clone, Debug, PartialEq, Eq)]
pub enum StoredBlob {
    /// An envelope in the canonical schema.
    Sealed(Envelope),
    /// Valid JSON with no string member `nonce`: plaintext from before encryption.
    LegacyPlaintext,
}

/// The mathematical value of a [`StoredBlob`].
pub enum StoredBlobView {
    Sealed(EnvelopeView),
    LegacyPlaintext,
}

impl View for StoredBlob {
    type V = StoredBlobView;

    open spec fn view(&self) -> StoredBlobView {
        match self {
            StoredBlob::Sealed(e) => StoredBlobView::Sealed(e@),
            StoredBlob::LegacyPlaintext => StoredBlobView::LegacyPlaintext,
        }
    }
}

/// Whether a document is valid JSON that has no string member `nonce`.
pub open spec fn is_legacy_plaintext(doc: Seq<u8>) -> bool {
    match json_member(doc, "nonce"@) {
        JsonMemberView::Malformed => false,
        JsonMemberView::Text(_) => false,
        _ => true,
    }
}

/// The classification of stored bytes: an envelope where they follow the
/// envelope schema, else legacy plaintext where they are valid JSON without a
/// string member `nonce`, else nothing.
pub open spec fn classified(doc: Seq<u8>) -> Option<StoredBlobView> {
    if parsed_envelope(doc) is Some {
        Some(StoredBlobView::Sealed(parsed_envelope(doc)->0))
    } else if is_legacy_plaintext(doc) {
        Some(StoredBlobView::LegacyPlaintext)
    } else {
        None
    }
}

/// Writes an envelope in its canonical text form.
pub fn encode_envelope(envelope: &Envelope) -> (r: Vec<u8>)
    ensures
        r@ == envelope_text(envelope@),
{
    let mut out: Vec<u8> = Vec::new();
    append(&mut out, "{\"v\":1,\"nonce\":\"".as_bytes());
    let nonce = b64_encode(envelope.nonce.as_slice());
    append(&mut out, nonce.as_slice());
    append(&mut out, "\",\"ct\":\"".as_bytes());
    let ciphertext = b64_encode(envelope.ciphertext.as_slice());
    append(&mut out, ciphertext.as_slice());
    append(&mut out, "\"}".as_bytes());
    assert(out@ =~= envelope_text(envelope@));
    out
}

/// Writes the salt file for a salt.
pub fn encode_salt(salt: &[u8]) -> (r: Vec<u8>)
    ensures
        r@ == salt_text(salt@),
{
    let mut out: Vec<u8> = Vec::new();
    append(&mut out, "{\"v\":1,\"salt\":\"".as_bytes());
    let text = b64_encode(salt);
    append(&mut out, text.as_slice());
    append(&mut out, "\"}".as_bytes());
    assert(out@ =~= salt_text(salt@));
    out
}

/// Reads the base64 string member `name` of a document.
fn read_base64_member(doc: &[u8], name: &str) -> (r: Option<Vec<u8>>)
    ensures
        crate::primitives::opt_view(r) == base64_member(doc@, name@),
{
    match json_lookup(doc, name) {
        JsonMember::Text(t) => b64_decode(t.as_slice()),
        _ => None,
    }
}

/// Reads the version tag of a document.
fn read_version_tag(doc: &[u8]) -> (r: bool)
    ensures
        r == has_version_tag(doc@),
{
    match json_lookup(doc, "v") {
        JsonMember::Number(n) => n == ENVELOPE_VERSION,
        _ => false,
    }
}

/// Reads an envelope from its text form.
///
/// Succeeds exactly on documents that follow the envelope schema; every other
/// document gives `SerializationError`.
pub fn decode_envelope(doc: &[u8]) -> (r: Result<Envelope, VaultError>)
    ensures
        match r {
            Ok(e) => parsed_envelope(doc@) == Some(e@),
            Err(e) => e == VaultError::SerializationError && parsed_envelope(doc@) is None,
        },
{
    if !read_version_tag(doc) {
        return Err(VaultError::SerializationError);
    }
    match read_base64_member(doc, "nonce") {
        Some(nonce) => match read_base64_member(doc, "ct") {
            Some(ciphertext) => Ok(Envelope { nonce, ciphertext }),
            None => Err(VaultError::SerializationError),
        },
        None => Err(VaultError::SerializationError),
    }
}

/// Reads the salt from the text of the salt file.
///
/// Succeeds exactly on documents that follow the salt-file schema; every other
/// document gives `SerializationError`.
pub fn decode_salt(doc: &[u8]) -> (r: Result<Vec<u8>, VaultError>)
    ensures
        match r {
            Ok(s) => parsed_salt(doc@) == Some(s@) && s@.len() == SALT_LEN,
            Err(e) => e == VaultError::SerializationError && parsed_salt(doc@) is None,
        },
{
    if !read_version_tag(doc) {
        return Err(VaultError::SerializationError);
    }
    match read_base64_member(doc, "salt") {
        Some(salt) => if salt.len() == SALT_LEN {
            Ok(salt)
        } else {
            Err(VaultError::SerializationError)
        },
        None => Err(VaultError::SerializationError),
    }
}

/// Whether the canonical text of an envelope reads back as that envelope.
pub open spec fn envelope_reads_back(e: EnvelopeView) -> bool {
    parsed_envelope(envelope_text(e)) == Some(e)
}

/// Whether the text of the salt file for a salt reads back as that salt.
pub open spec fn salt_reads_back(salt: Seq<u8>) -> bool {
    parsed_salt(salt_text(salt)) == Some(salt)
}

/// Writes an envelope in its canonical text form and reads the text back
/// before it is handed out: a text that is returned is one that
/// [`decode_envelope`] reads as this envelope. `SerializationError` says that
/// the text did not read back.
pub fn write_envelope(envelope: &Envelope) -> (r: Result<Vec<u8>, VaultError>)
    ensures
        match r {
            Ok(t) => t@ == envelope_text(envelope@) && envelope_reads_back(envelope@),
            Err(e) => e == VaultError::SerializationError && !envelope_reads_back(envelope@),
        },
{
    let text = encode_envelope(envelope);
    match decode_envelope(text.as_slice()) {
        Ok(back) => {
            if equal(back.nonce.as_slice(), envelope.nonce.as_slice()) && equal(
                back.ciphertext.as_slice(),
                envelope.ciphertext.as_slice(),
            ) {
                Ok(text)
            } else {
                Err(VaultError::SerializationError)
            }
        },
        Err(e) => Err(e),
    }
}

/// Writes the salt file for a salt and reads the text back before it is handed
/// out: a text that is returned is one that [`decode_salt`] reads as this salt.
/// `SerializationError` says that the text did not read back.
pub fn write_salt(salt: &[u8]) -> (r: Result<Vec<u8>, VaultError>)
    ensures
        match r {
            Ok(t) => t@ == salt_text(salt@) && salt_reads_back(salt@),
            Err(e) => e == VaultError::SerializationError && !salt_reads_back(salt@),
        },
{
    let text = encode_salt(salt);
    match decode_salt(text.as_slice()) {
        Ok(back) => {
            if equal(back.as_slice(), salt) {
                Ok(text)
            } else {
                Err(VaultError::SerializationError)
            }
        },
        Err(e) => Err(e),
    }
}

/// Decides what stored bytes are: an envelope, or plaintext from before
/// encryption. Bytes that are neither give `SerializationError`.
pub fn classify(doc: &[u8]) -> (r: Result<StoredBlob, VaultError>)
    ensures
        match r {
            Ok(b) => classified(doc@) == Some(b@),
            Err(e) => e == VaultError::SerializationError && classified(doc@) is None,
        },
{
    match decode_envelope(doc) {
        Ok(envelope) => Ok(StoredBlob::Sealed(envelope)),
        Err(_) => match json_lookup(doc, "nonce") {
            JsonMember::Malformed => Err(VaultError::SerializationError),
            JsonMember::Text(_) => Err(VaultError::SerializationError),
            _ => Ok(StoredBlob::LegacyPlaintext),
        },
    }
}

/// The envelope behind the binary form that earlier versions stored: unpadded
/// base64 of the 24-byte nonce followed by the ciphertext.
pub open spec fn parsed_legacy_envelope(text: Seq<u8>) -> Option<EnvelopeView> {
    match base64_nopad_decode(text) {
        Some(raw) => if raw.len() >= NONCE_LEN {
            Some(
                EnvelopeView {
                    nonce: raw.subrange(0, NONCE_LEN as int),
                    ciphertext: raw.subrange(NONCE_LEN as int, raw.len() as int),
                },
            )
        } else {
            None
        },
        None => None,
    }
}

/// Reads an envelope from the binary form of earlier versions.
///
/// Succeeds exactly on unpadded base64 of at least 24 bytes; every other text
/// gives `SerializationError`.
pub fn decode_legacy_envelope(text: &[u8]) -> (r: Result<Envelope, VaultError>)
    ensures
        match r {
            Ok(e) => parsed_legacy_envelope(text@) == Some(e@),
            Err(e) => e == VaultError::SerializationError && parsed_legacy_envelope(text@) is None,
        },
{
    match b64_nopad_decode(text) {
        Some(raw) => if raw.len() >= NONCE_LEN {
            let nonce = slice_copy(raw.as_slice(), 0, NONCE_LEN);
            let ciphertext = slice_copy(raw.as_slice(), NONCE_LEN, raw.len());
            Ok(Envelope { nonce, ciphertext })
        } else {
            Err(VaultError::SerializationError)
        },
        None => Err(VaultError::SerializationError),
    }
}

} // verus!
