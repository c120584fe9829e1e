//! The root key-encryption-key: 32 bytes, created once, then returned on demand.

use vstd::prelude::*;
use crate::bytes::to_vec;
use crate::error::VaultError;
use crate::files::{VaultFiles, VaultFilesView};
use crate::primitives::{os_random, KEY_LEN};

verus! {

/// Whether a vault directory holds a root key file that is not a root key: its
/// length is not 32 bytes, as after a write that was cut short.
pub open spec fn kek_is_damaged(files: VaultFilesView) -> bool {
    files.kek is Some && files.kek->0.len() != KEY_LEN
}

/// The root key that is in effect once `fresh` has been offered to a vault
/// directory: the stored one where there is one, else the fresh one.
pub open spec fn kek_in_effect(files: VaultFilesView, fresh: Seq<u8>) -> Seq<u8> {
    match files.kek {
        Some(k) => k,
        None => fresh,
    }
}

/// The vault directory once `fresh` has been offered to it.
pub open spec fn with_kek_in_effect(files: VaultFilesView, fresh: Seq<u8>) -> VaultFilesView {
    files.with_kek(Some(kek_in_effect(files, fresh)))
}

/// Returns the stored root key, or stores and returns `fresh` where none is
/// stored yet. A stored key is never replaced; a key file that does not hold 32
/// bytes gives `SerializationError` and is left as it is.
pub fn ensure_kek_with(files: &mut VaultFiles, fresh: &[u8; 32]) -> (r: Result<Vec<u8>, VaultError>)
    ensures
        match r {
            Ok(k) => !kek_is_damaged(old(files)@) && k@.len() == KEY_LEN && k@ == kek_in_effect(
                old(files)@,
                fresh@,
            ) && final(files)@ == with_kek_in_effect(old(files)@, fresh@),
            Err(e) => e == VaultError::SerializationError && kek_is_damaged(old(files)@) && final(files)@
                == old(files)@,
        },
{
    match &files.kek {
        Some(k) => {
            if k.len() != KEY_LEN {
                return Err(VaultError::SerializationError);
            }
            let stored = to_vec(k.as_slice());
            assert(files@ =~= with_kek_in_effect(files@, fresh@));
            Ok(stored)
        },
        None => {
            let copy = to_vec(fresh.as_slice());
            files.kek = Some(to_vec(fresh.as_slice()));
            Ok(copy)
        },
    }
}

/// Returns the root key, creating it from 32 fresh random bytes on first use.
///
/// A key that is returned has 32 bytes and is the one the directory holds
/// afterwards. A stored key is returned and nothing changes. A key file of
/// another length gives `SerializationError`; without a key file, `IOError`
/// means that no randomness could be had. On failure nothing changes.
pub fn ensure_kek(files: &mut VaultFiles) -> (r: Result<Vec<u8>, VaultError>)
    ensures
        match r {
            Ok(k) => k@.len() == KEY_LEN && final(files)@ == old(files)@.with_kek(Some(k@)) && (old(
                files,
            )@.kek matches Some(s) ==> k@ == s),
            Err(e) => final(files)@ == old(files)@ && match old(files)@.kek {
                Some(s) => s.len() != KEY_LEN && e == VaultError::SerializationError,
                None => e == VaultError::IOError,
            },
        },
{
    match &files.kek {
        Some(k) => {
            if k.len() != KEY_LEN {
                return Err(VaultError::SerializationError);
            }
            let stored = to_vec(k.as_slice());
            assert(files@ =~= old(files)@.with_kek(Some(stored@)));
            Ok(stored)
        },
        None => match os_random(KEY_LEN) {
            Some(fresh) => {
                let copy = to_vec(fresh.as_slice());
                files.kek = Some(fresh);
                Ok(copy)
            },
            None => Err(VaultError::IOError),
        },
    }
}

/// Once a root key is in effect, a later call returns the same key and leaves
/// the directory as it is, whatever fresh bytes it is offered.
pub proof fn kek_is_created_once(files: VaultFilesView, first: Seq<u8>, second: Seq<u8>)
    ensures
        kek_in_effect(with_kek_in_effect(files, first), second) == kek_in_effect(files, first),
        with_kek_in_effect(with_kek_in_effect(files, first), second) == with_kek_in_effect(files, first),
{
}

} // verus!
