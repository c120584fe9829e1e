//! The passphrase session: a key derived from a passphrase and a stored salt,
//! held in memory while the vault is unlocked.

use vstd::prelude::*;
use vstd::utf8::encode_utf8;
use crate::bytes::to_vec;
use crate::error::VaultError;
use crate::files::{VaultFiles, VaultFilesView};
use crate::codec::{erase_key, is_zeroed};
use crate::format::{decode_salt, parsed_salt, salt_reads_back, salt_text, write_salt, SALT_LEN};
use crate::primitives::{argon2_accepts, argon2id, argon2id_hash, os_random};

verus! {

/// Memory cost of the passphrase hash, in KiB: 256 MiB.
pub const ARGON2_MEMORY_KIB: u32 = 262_144;

/// Number of passes of the passphrase hash over its memory.
pub const ARGON2_ITERATIONS: u32 = 3;

/// Number of lanes of the passphrase hash.
pub const ARGON2_LANES: u32 = 1;

/// Largest lane count that Argon2 takes.
pub const ARGON2_MAX_LANES: u32 = 0x00FF_FFFF;

/// What a passphrase hash costs: memory in KiB, passes over it, and lanes.
#[derive(Clone, Copy, Debug, PartialEq, Eq, Structural)]
pub struct KdfCost {
    pub memory_kib: u32,
    pub iterations: u32,
    pub lanes: u32,
}

/// The vault's cost parameters: 256 MiB of memory, three passes, one lane. They
/// are chosen to resist offline search while an interactive unlock stays
/// bearable.
pub open spec fn standard_cost() -> KdfCost {
    KdfCost { memory_kib: ARGON2_MEMORY_KIB, iterations: ARGON2_ITERATIONS, lanes: ARGON2_LANES }
}

impl KdfCost {
    /// The vault's cost parameters.
    pub fn standard() -> (r: KdfCost)
        ensures
            r == standard_cost(),
    {
        KdfCost { memory_kib: ARGON2_MEMORY_KIB, iterations: ARGON2_ITERATIONS, lanes: ARGON2_LANES }
    }
}

/// Whether the session holds a key.
#[derive(Clone, Copy, Debug, PartialEq, Eq, Structural)]
pub enum SessionStatus {
    Locked,
    Unlocked,
}

/// The guarded slot for the session key, and the cost at which keys are
/// derived. The slot is empty while the vault is locked.
pub struct PassphraseSession {
    cost: KdfCost,
    slot: Option<[u8; 32]>,
}

/// The key for a passphrase and a salt at a cost: their Argon2id hash, or
/// nothing where Argon2 rejects the cost, the passphrase or the salt.
pub open spec fn derived_key(cost: KdfCost, passphrase: Seq<char>, salt: Seq<u8>) -> Option<Seq<u8>> {
    if cost.lanes <= ARGON2_MAX_LANES {
        argon2id(encode_utf8(passphrase), salt, cost.memory_kib, cost.iterations, cost.lanes)
    } else {
        None
    }
}

/// The session key for a passphrase and a salt: their key at the vault's cost
/// parameters.
pub open spec fn session_key(passphrase: Seq<char>, salt: Seq<u8>) -> Option<Seq<u8>> {
    derived_key(standard_cost(), passphrase, salt)
}

/// That `salt` is the salt of the vault after a call that found the directory
/// as `before` and left it as `after`: the stored salt where there was one, and
/// nothing changed; else a new 16-byte salt, now stored in a salt file that
/// reads back as it.
pub open spec fn salt_established(before: VaultFilesView, after: VaultFilesView, salt: Seq<u8>) -> bool {
    match before.salt {
        Some(doc) => after == before && parsed_salt(doc) == Some(salt),
        None => salt.len() == SALT_LEN && salt_reads_back(salt) && after == before.with_salt(
            Some(salt_text(salt)),
        ),
    }
}

/// Reads the stored salt, or stores and returns a fresh salt of the right
/// length where no salt file exists yet.
fn settle_salt(files: &mut VaultFiles, fresh: Vec<u8>) -> (r: Result<Vec<u8>, VaultError>)
    requires
        fresh@.len() == SALT_LEN,
    ensures
        match r {
            Ok(s) => salt_established(old(files)@, final(files)@, s@) && s@.len() == SALT_LEN
                && (old(files)@.salt is None ==> s@ == fresh@),
            Err(e) => e == VaultError::SerializationError && final(files)@ == old(files)@ && match old(
                files,
            )@.salt {
                Some(doc) => parsed_salt(doc) is None,
                None => !salt_reads_back(fresh@),
            },
        },
{
    match &files.salt {
        Some(doc) => {
            let r = decode_salt(doc.as_slice());
            assert(files@ =~= old(files)@);
            r
        },
        None => match write_salt(fresh.as_slice()) {
            Ok(doc) => {
                files.salt = Some(doc);
                assert(files@ =~= old(files)@.with_salt(Some(salt_text(fresh@))));
                Ok(fresh)
            },
            Err(e) => Err(e),
        },
    }
}

/// Reads the stored salt, or stores and returns `fresh` where no salt file
/// exists yet. A salt file that does not follow its schema gives
/// `SerializationError` and is never replaced; so does a fresh salt whose file
/// would not read back, and no file is then written.
pub fn read_or_create_salt_with(files: &mut VaultFiles, fresh: &[u8; 16]) -> (r: Result<Vec<u8>, VaultError>)
    ensures
        match r {
            Ok(s) => salt_established(old(files)@, final(files)@, s@) && s@.len() == SALT_LEN
                && (old(files)@.salt is None ==> s@ == fresh@),
            Err(e) => e == VaultError::SerializationError && final(files)@ == old(files)@ && match old(
                files,
            )@.salt {
                Some(doc) => parsed_salt(doc) is None,
                None => !salt_reads_back(fresh@),
            },
        },
{
    settle_salt(files, to_vec(fresh.as_slice()))
}

/// Reads the stored salt, or creates one from 16 fresh random bytes on first
/// use.
///
/// A stored salt is returned and nothing changes; a salt file that does not
/// follow its schema gives `SerializationError`. Without a salt file, `IOError`
/// means that no randomness could be had, and `SerializationError` that the new
/// file would not read back. On failure the directory is unchanged.
pub fn read_or_create_salt(files: &mut VaultFiles) -> (r: Result<Vec<u8>, VaultError>)
    ensures
        match r {
            Ok(s) => salt_established(old(files)@, final(files)@, s@) && s@.len() == SALT_LEN,
            Err(e) => final(files)@ == old(files)@ && match old(files)@.salt {
                Some(doc) => e == VaultError::SerializationError && parsed_salt(doc) is None,
                None => e == VaultError::IOError || e == VaultError::SerializationError,
            },
        },
        old(files)@.salt is Some && parsed_salt(old(files)@.salt->0) is Some ==> r is Ok,
{
    match &files.salt {
        Some(doc) => {
            let r = decode_salt(doc.as_slice());
            assert(files@ =~= old(files)@);
            r
        },
        None => match os_random(SALT_LEN) {
            Some(fresh) => settle_salt(files, fresh),
            None => Err(VaultError::IOError),
        },
    }
}

/// Whether Argon2 takes a cost: at least 8 KiB of memory and 8 KiB for each
/// lane, at least one pass, and between one lane and 2^24 - 1.
pub open spec fn cost_is_valid(cost: KdfCost) -> bool {
    &&& cost.memory_kib >= 8
    &&& cost.memory_kib >= 8 * cost.lanes
    &&& cost.iterations >= 1
    &&& 1 <= cost.lanes <= ARGON2_MAX_LANES
}

/// Whether Argon2 takes a passphrase and a salt: a salt of 8 bytes or more, and
/// neither beyond 32 bits of length.
pub open spec fn inputs_fit(passphrase: Seq<char>, salt: Seq<u8>) -> bool {
    &&& 8 <= salt.len() <= 0xFFFF_FFFF
    &&& encode_utf8(passphrase).len() <= 0xFFFF_FFFF
}

/// Derives the key for a passphrase and a salt at a cost. Fails with
/// `CryptoError` exactly where Argon2 rejects the inputs, which it does not for
/// a valid cost, a salt of 8 bytes or more and lengths within 32 bits.
pub fn derive_key_with(cost: KdfCost, passphrase: &str, salt: &[u8]) -> (r: Result<[u8; 32], VaultError>)
    ensures
        match r {
            Ok(k) => derived_key(cost, passphrase@, salt@) == Some(k@),
            Err(e) => e == VaultError::CryptoError && derived_key(cost, passphrase@, salt@) is None,
        },
        cost_is_valid(cost) && inputs_fit(passphrase@, salt@) ==> r is Ok,
{
    if cost.lanes > ARGON2_MAX_LANES {
        return Err(VaultError::CryptoError);
    }
    match argon2id_hash(passphrase.as_bytes(), salt, cost.memory_kib, cost.iterations, cost.lanes) {
        Some(k) => Ok(k),
        None => Err(VaultError::CryptoError),
    }
}

/// Derives the session key from a passphrase and a salt with the vault's fixed
/// Argon2id parameters. Every passphrase gives a key: the call fails, with
/// `CryptoError`, only for a salt of under 8 bytes or lengths beyond 32 bits.
pub fn derive_key(passphrase: &str, salt: &[u8]) -> (r: Result<[u8; 32], VaultError>)
    ensures
        match r {
            Ok(k) => session_key(passphrase@, salt@) == Some(k@),
            Err(e) => e == VaultError::CryptoError && session_key(passphrase@, salt@) is None,
        },
        inputs_fit(passphrase@, salt@) ==> r is Ok,
{
    derive_key_with(KdfCost::standard(), passphrase, salt)
}

impl PassphraseSession {
    /// The key that the session holds, if it is unlocked.
    pub closed spec fn key(&self) -> Option<Seq<u8>> {
        match self.slot {
            Some(k) => Some(k@),
            None => None,
        }
    }

    /// The status that the session reports.
    pub open spec fn spec_status(&self) -> SessionStatus {
        if self.key() is Some {
            SessionStatus::Unlocked
        } else {
            SessionStatus::Locked
        }
    }

    /// The cost at which the session derives its key.
    pub closed spec fn cost(&self) -> KdfCost {
        self.cost
    }

    /// A new session at the vault's cost parameters. It starts locked.
    pub fn new() -> (r: PassphraseSession)
        ensures
            r.key() is None,
            r.cost() == standard_cost(),
    {
        PassphraseSession { cost: KdfCost::standard(), slot: None }
    }

    /// A new session that derives its key at another cost, for machines that
    /// cannot afford the vault's own. It starts locked.
    pub fn with_cost(cost: KdfCost) -> (r: PassphraseSession)
        ensures
            r.key() is None,
            r.cost() == cost,
    {
        PassphraseSession { cost, slot: None }
    }

    /// The key in the slot, for the vault's own use.
    pub(crate) fn held_key(&self) -> (r: Option<&[u8; 32]>)
        ensures
            match r {
                Some(k) => self.key() == Some(k@),
                None => self.key() is None,
            },
    {
        self.slot.as_ref()
    }

    /// Whether the session is locked or unlocked. The key itself stays inside.
    pub fn status(&self) -> (r: SessionStatus)
        ensures
            r == self.spec_status(),
    {
        if self.slot.is_some() {
            SessionStatus::Unlocked
        } else {
            SessionStatus::Locked
        }
    }

    /// Overwrites the key that the session holds, if any, with zeros. The
    /// slot keeps the zeros; [`lock`](Self::lock) empties it.
    pub fn erase(&mut self)
        ensures
            final(self).cost() == old(self).cost(),
            match old(self).key() {
                Some(_) => final(self).key() is Some && is_zeroed(final(self).key()->0),
                None => final(self).key() is None,
            },
    {
        match &mut self.slot {
            Some(k) => {
                erase_key(k);
            },
            None => {},
        }
    }

    /// Overwrites the key that the session holds, if any, with zeros and
    /// releases it. Always succeeds; a locked session stays locked.
    pub fn lock(&mut self)
        ensures
            final(self).key() is None,
            final(self).cost() == old(self).cost(),
    {
        self.erase();
        self.slot = None;
    }

    /// Puts `key` into the slot. A key that the session held before is
    /// overwritten with zeros first.
    pub fn install(&mut self, key: [u8; 32])
        ensures
            final(self).key() == Some(key@),
            final(self).cost() == old(self).cost(),
    {
        self.lock();
        self.slot = Some(key);
    }

    /// Unlocks the session with the key for `passphrase` and `salt`.
    ///
    /// The key is derived at the session's cost. Fails with `CryptoError`
    /// exactly where Argon2 rejects the inputs; the session is then as it was.
    pub fn unlock_with_salt(&mut self, passphrase: &str, salt: &[u8]) -> (r: Result<(), VaultError>)
        ensures
            final(self).cost() == old(self).cost(),
            match r {
                Ok(()) => final(self).key() is Some && final(self).key() == derived_key(
                    old(self).cost(),
                    passphrase@,
                    salt@,
                ),
                Err(e) => e == VaultError::CryptoError && derived_key(old(self).cost(), passphrase@, salt@) is None
                    && final(self).key() == old(self).key(),
            },
            cost_is_valid(old(self).cost()) && inputs_fit(passphrase@, salt@) ==> r is Ok,
    {
        match derive_key_with(self.cost, passphrase, salt) {
            Ok(k) => {
                self.install(k);
                Ok(())
            },
            Err(e) => Err(e),
        }
    }

    /// Unlocks the session with `passphrase`: reads or creates the salt, derives
    /// the session key and holds it.
    ///
    /// Any passphrase unlocks; a wrong one gives a key under which nothing
    /// stored will open. With a salt file that follows its schema and a valid
    /// cost the call succeeds for every passphrase within 32 bits of length. On
    /// failure the session is as it was: `IOError` and `SerializationError` come
    /// from the salt, with the directory unchanged, and `CryptoError` from the
    /// derivation.
    pub fn unlock(&mut self, files: &mut VaultFiles, passphrase: &str) -> (r: Result<(), VaultError>)
        ensures
            final(self).cost() == old(self).cost(),
            match r {
                Ok(()) => final(self).key() is Some && exists|salt: Seq<u8>|
                    #[trigger] salt_established(old(files)@, final(files)@, salt) && final(self).key()
                        == derived_key(old(self).cost(), passphrase@, salt),
                Err(e) => final(self).key() == old(self).key() && match e {
                    VaultError::CryptoError => exists|salt: Seq<u8>|
                        #[trigger] salt_established(old(files)@, final(files)@, salt) && derived_key(
                            old(self).cost(),
                            passphrase@,
                            salt,
                        ) is None,
                    VaultError::SerializationError => final(files)@ == old(files)@ && (old(files)@.salt is Some
                        ==> parsed_salt(old(files)@.salt->0) is None),
                    VaultError::IOError => final(files)@ == old(files)@ && old(files)@.salt is None,
                    _ => false,
                },
            },
            old(files)@.salt is Some && parsed_salt(old(files)@.salt->0) is Some && parsed_salt(
                old(files)@.salt->0,
            )->0.len() == SALT_LEN && cost_is_valid(old(self).cost()) && encode_utf8(passphrase@).len()
                <= 0xFFFF_FFFF ==> r is Ok,
    {
        match read_or_create_salt(files) {
            Ok(salt) => self.unlock_with_salt(passphrase, salt.as_slice()),
            Err(e) => Err(e),
        }
    }
}

/// The salt is created once: after a call that established `salt`, the
/// directory holds a salt file that reads as `salt`, so that every later call
/// establishes the same salt and changes nothing.
pub proof fn salt_is_created_once(before: VaultFilesView, after: VaultFilesView, salt: Seq<u8>)
    requires
        salt_established(before, after, salt),
    ensures
        after.salt is Some,
        parsed_salt(after.salt->0) == Some(salt),
        salt_established(after, after, salt),
{
}

/// Unlocking again with the same passphrase gives the same key: two calls that
/// established salts over the same directory, the second after the first,
/// derive from the same salt.
pub proof fn same_passphrase_same_key(
    cost: KdfCost,
    passphrase: Seq<char>,
    before: VaultFilesView,
    after: VaultFilesView,
    first: Seq<u8>,
    second: Seq<u8>,
)
    requires
        salt_established(before, after, first),
        salt_established(after, after, second),
    ensures
        first == second,
        derived_key(cost, passphrase, first) == derived_key(cost, passphrase, second),
{
}

} // verus!
