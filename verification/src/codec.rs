//! The envelope: authenticated encryption of a byte payload under a 256-bit key.

use vstd::prelude::*;
use crate::bytes::to_vec;
use crate::error::VaultError;
use crate::primitives::{aead_open, aead_seal, os_random, wipe, xchacha20poly1305_open, xchacha20poly1305_seal, NONCE_LEN, PLAINTEXT_LIMIT, TAG_LEN};

verus! {

/// The version tag that every stored document carries; there is no other yet.
pub const ENVELOPE_VERSION: u64 = 1;

/// An encrypted payload: the nonce it was sealed with, and the ciphertext with
/// its authentication tag.
#[derive(Clone, Debug, PartialEq, Eq)]
pub struct Envelope {
    pub nonce: Vec<u8>,
    pub ciphertext: Vec<u8>,
}

/// The mathematical value of an [`Envelope`].
pub struct EnvelopeView {
    pub nonce: Seq<u8>,
    pub ciphertext: Seq<u8>,
}

impl View for Envelope {
    type V = EnvelopeView;

    open spec fn view(&self) -> EnvelopeView {
        EnvelopeView { nonce: self.nonce@, ciphertext: self.ciphertext@ }
    }
}

/// What sealing a plaintext under a key and a 24-byte nonce gives: the envelope,
/// or nothing where the cipher refuses the plaintext.
pub open spec fn sealed(key: Seq<u8>, nonce: Seq<u8>, plaintext: Seq<u8>) -> Option<EnvelopeView> {
    match xchacha20poly1305_seal(key, nonce, plaintext) {
        Some(c) => Some(EnvelopeView { nonce: nonce, ciphertext: c }),
        None => None,
    }
}

/// What opening an envelope under a key gives: the plaintext, or nothing where
/// the nonce has the wrong length or the tag does not authenticate.
pub open spec fn opened(key: Seq<u8>, envelope: EnvelopeView) -> Option<Seq<u8>> {
    if envelope.nonce.len() == NONCE_LEN {
        xchacha20poly1305_open(key, envelope.nonce, envelope.ciphertext)
    } else {
        None
    }
}

/// That `e` is a sealing of `plaintext` under `key`: its nonce has 24 bytes, its
/// ciphertext is what the cipher gives for that nonce, and it opens to the
/// plaintext again.
pub open spec fn is_sealing_of(key: Seq<u8>, e: EnvelopeView, plaintext: Seq<u8>) -> bool {
    &&& e.nonce.len() == NONCE_LEN
    &&& sealed(key, e.nonce, plaintext) == Some(e)
    &&& opened(key, e) == Some(plaintext)
}

/// What decrypting an envelope under a key returns: the plaintext where the
/// envelope opens, and `CryptoError` where it does not.
pub open spec fn decrypted(key: Seq<u8>, envelope: EnvelopeView) -> Result<Seq<u8>, VaultError> {
    match opened(key, envelope) {
        Some(p) => Ok(p),
        None => Err(VaultError::CryptoError),
    }
}

/// Seals `plaintext` under `key` with a nonce of the right length.
fn seal(key: &[u8; 32], nonce: Vec<u8>, plaintext: &[u8]) -> (r: Result<Envelope, VaultError>)
    requires
        nonce@.len() == NONCE_LEN,
    ensures
        match r {
            Ok(e) => e.nonce@ == nonce@ && is_sealing_of(key@, e@, plaintext@) && e.ciphertext@.len()
                == plaintext@.len() + TAG_LEN,
            Err(e) => e == VaultError::CryptoError && sealed(key@, nonce@, plaintext@) is None,
        },
        plaintext@.len() < PLAINTEXT_LIMIT ==> r is Ok,
{
    match aead_seal(key, nonce.as_slice(), plaintext) {
        Some(ciphertext) => Ok(Envelope { nonce, ciphertext }),
        None => Err(VaultError::CryptoError),
    }
}

/// Seals `plaintext` under `key` with the given nonce.
///
/// Fails with `CryptoError` exactly where the cipher refuses the plaintext,
/// which it does not below [`PLAINTEXT_LIMIT`] bytes.
pub fn encrypt_with_nonce(key: &[u8; 32], nonce: &[u8; 24], plaintext: &[u8]) -> (r: Result<Envelope, VaultError>)
    ensures
        match r {
            Ok(e) => e.nonce@ == nonce@ && is_sealing_of(key@, e@, plaintext@) && e.ciphertext@.len()
                == plaintext@.len() + TAG_LEN,
            Err(e) => e == VaultError::CryptoError && sealed(key@, nonce@, plaintext@) is None,
        },
        plaintext@.len() < PLAINTEXT_LIMIT ==> r is Ok,
{
    seal(key, to_vec(nonce.as_slice()), plaintext)
}

/// Seals `plaintext` under `key` with a fresh random nonce.
///
/// Whatever nonce the operating system gave, the envelope is the sealing of the
/// plaintext under it and opens to the plaintext again. The call fails with
/// `IOError` when no randomness could be had, and with `CryptoError` when the
/// cipher refuses the plaintext.
pub fn encrypt(key: &[u8; 32], plaintext: &[u8]) -> (r: Result<Envelope, VaultError>)
    ensures
        match r {
            Ok(e) => is_sealing_of(key@, e@, plaintext@) && e.ciphertext@.len() == plaintext@.len() + TAG_LEN,
            Err(e) => e == VaultError::IOError
                || (e == VaultError::CryptoError && plaintext@.len() >= PLAINTEXT_LIMIT),
        },
{
    match os_random(NONCE_LEN) {
        Some(nonce) => seal(key, nonce, plaintext),
        None => Err(VaultError::IOError),
    }
}

/// Opens an envelope under `key`.
///
/// Fails closed: the plaintext comes back only where the tag authenticates
/// under this key and nonce; every other input gives `CryptoError` and no
/// bytes.
pub fn decrypt(key: &[u8; 32], envelope: &Envelope) -> (r: Result<Vec<u8>, VaultError>)
    ensures
        match r {
            Ok(p) => decrypted(key@, envelope@) == Ok::<Seq<u8>, VaultError>(p@),
            Err(e) => decrypted(key@, envelope@) == Err::<Seq<u8>, VaultError>(e),
        },
        envelope.ciphertext@.len() < TAG_LEN ==> r is Err,
{
    if envelope.nonce.len() != NONCE_LEN {
        return Err(VaultError::CryptoError);
    }
    match aead_open(key, envelope.nonce.as_slice(), envelope.ciphertext.as_slice()) {
        Some(plaintext) => Ok(plaintext),
        None => Err(VaultError::CryptoError),
    }
}

/// Whether a key holds nothing but zeros.
pub open spec fn is_zeroed(key: Seq<u8>) -> bool {
    forall|i: int| 0 <= i < key.len() ==> key[i] == 0u8
}

/// Overwrites a key with zeros.
pub fn erase_key(key: &mut [u8; 32])
    ensures
        is_zeroed(final(key)@),
{
    wipe(key);
}

/// Seals `plaintext` under `key` as [`encrypt`] does, and overwrites the key
/// with zeros before it returns, whatever the outcome.
pub fn encrypt_once(key: &mut [u8; 32], plaintext: &[u8]) -> (r: Result<Envelope, VaultError>)
    ensures
        is_zeroed(final(key)@),
        match r {
            Ok(e) => is_sealing_of(old(key)@, e@, plaintext@) && e.ciphertext@.len() == plaintext@.len()
                + TAG_LEN,
            Err(e) => e == VaultError::IOError || (e == VaultError::CryptoError && plaintext@.len()
                >= PLAINTEXT_LIMIT),
        },
{
    let r = encrypt(key, plaintext);
    erase_key(key);
    r
}

/// Opens an envelope under `key` as [`decrypt`] does, and overwrites the key
/// with zeros before it returns, whatever the outcome.
pub fn decrypt_once(key: &mut [u8; 32], envelope: &Envelope) -> (r: Result<Vec<u8>, VaultError>)
    ensures
        is_zeroed(final(key)@),
        match r {
            Ok(p) => decrypted(old(key)@, envelope@) == Ok::<Seq<u8>, VaultError>(p@),
            Err(e) => decrypted(old(key)@, envelope@) == Err::<Seq<u8>, VaultError>(e),
        },
{
    let r = decrypt(key, envelope);
    erase_key(key);
    r
}

/// Decrypting what was encrypted under the same key gives the payload back:
/// for every envelope that is a sealing of `plaintext` under `key`, which is
/// what `encrypt` returns, `decrypt` returns `plaintext`.
pub proof fn decrypt_inverts_encrypt(key: Seq<u8>, plaintext: Seq<u8>, e: EnvelopeView)
    requires
        is_sealing_of(key, e, plaintext),
    ensures
        decrypted(key, e) == Ok::<Seq<u8>, VaultError>(plaintext),
{
}

/// An envelope whose nonce has lost or gained bytes is refused with
/// `CryptoError` under every key.
pub proof fn resized_nonce_is_refused(key: Seq<u8>, e: EnvelopeView)
    requires
        e.nonce.len() != NONCE_LEN,
    ensures
        decrypted(key, e) == Err::<Seq<u8>, VaultError>(VaultError::CryptoError),
{
}

} // verus!
