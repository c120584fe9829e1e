//! The cryptographic and encoding primitives the vault is built on.
//!
//! Each function here is one call into an outside crate, and its contract states
//! what that crate's source and documentation give of the call. A result that is
//! a fixed function of the arguments but far too large to write down (a cipher,
//! a hash, a parse) has a name here, and the contracts speak of the name.

use vstd::prelude::*;
use chacha20poly1305::aead::Aead;
use chacha20poly1305::aead::KeyInit;
use base64::Engine;
use rand::RngCore;
use zeroize::Zeroize;

verus! {

/// Length in bytes of every symmetric key.
pub const KEY_LEN: usize = 32;

/// Length in bytes of an XChaCha20 nonce.
pub const NONCE_LEN: usize = 24;

/// Length in bytes of the Poly1305 tag that ends every ciphertext.
pub const TAG_LEN: usize = 16;

/// Plaintexts of this many bytes or more are refused by the cipher.
pub const PLAINTEXT_LIMIT: u64 = 274_877_906_880;

/// The ciphertext (tag included) that XChaCha20-Poly1305 produces for a key, a
/// nonce and a plaintext, with no associated data; `None` where the cipher
/// refuses the plaintext.
pub uninterp spec fn xchacha20poly1305_seal(key: Seq<u8>, nonce: Seq<u8>, plaintext: Seq<u8>) -> Option<Seq<u8>>;

/// The plaintext that XChaCha20-Poly1305 recovers from a ciphertext under a key
/// and a nonce; `None` where the tag does not authenticate.
pub uninterp spec fn xchacha20poly1305_open(key: Seq<u8>, nonce: Seq<u8>, ciphertext: Seq<u8>) -> Option<Seq<u8>>;

/// The 32 bytes that HKDF-SHA256 expands from input key material and an info
/// string, with no salt.
pub uninterp spec fn hkdf_sha256(ikm: Seq<u8>, info: Seq<u8>) -> Seq<u8>;

/// The 32-byte Argon2id (version 0x13) hash of a password and a salt under the
/// given memory cost in KiB, iteration count and lane count; `None` where
/// Argon2 rejects the inputs.
pub uninterp spec fn argon2id(password: Seq<u8>, salt: Seq<u8>, m_cost: u32, t_cost: u32, lanes: u32) -> Option<Seq<u8>>;

/// The standard padded base64 text of a byte string.
pub uninterp spec fn base64_encode(data: Seq<u8>) -> Seq<u8>;

/// The bytes that a standard padded base64 text stands for; `None` where the
/// text is not valid base64.
pub uninterp spec fn base64_decode(text: Seq<u8>) -> Option<Seq<u8>>;

/// The bytes that an unpadded base64 text stands for; `None` where the text
/// is not valid unpadded base64.
pub uninterp spec fn base64_nopad_decode(text: Seq<u8>) -> Option<Seq<u8>>;

/// What a JSON document holds under a member name.
#[derive(Clone, Debug, PartialEq, Eq)]
pub enum JsonMember {
    /// The document is not valid JSON.
    Malformed,
    /// The document is valid, but is no object or has no such member.
    Absent,
    /// The member is a string; these are its UTF-8 bytes.
    Text(Vec<u8>),
    /// The member is a non-negative integer that fits in 64 bits.
    Number(u64),
    /// The member is anything else.
    Other,
}

/// The mathematical value of a [`JsonMember`].
pub enum JsonMemberView {
    Malformed,
    Absent,
    Text(Seq<u8>),
    Number(u64),
    Other,
}

impl View for JsonMember {
    type V = JsonMemberView;

    open spec fn view(&self) -> JsonMemberView {
        match self {
            JsonMember::Malformed => JsonMemberView::Malformed,
            JsonMember::Absent => JsonMemberView::Absent,
            JsonMember::Text(t) => JsonMemberView::Text(t@),
            JsonMember::Number(n) => JsonMemberView::Number(*n),
            JsonMember::Other => JsonMemberView::Other,
        }
    }
}

/// What `serde_json` finds in a document under a member name: the document
/// parsed, the member looked up, and its variant told apart.
pub uninterp spec fn json_member(doc: Seq<u8>, name: Seq<char>) -> JsonMemberView;

/// The view of an optional byte vector.
pub open spec fn opt_view(v: Option<Vec<u8>>) -> Option<Seq<u8>> {
    match v {
        Some(b) => Some(b@),
        None => None,
    }
}

/// Calls `OsRng.try_fill_bytes` of `rand` on a fresh buffer of `n` bytes.
///
/// The bytes come from the operating system; the contract gives their number
/// and nothing else. `None` means that the operating system's source failed.
#[verifier::external_body]
pub(crate) fn os_random(n: usize) -> (r: Option<Vec<u8>>)
    ensures
        r matches Some(v) ==> v@.len() == n,
{
    let mut buf = vec![0u8; n];
    match rand::rngs::OsRng.try_fill_bytes(&mut buf) {
        Ok(()) => Some(buf),
        Err(_) => None,
    }
}

/// Calls `XChaCha20Poly1305::encrypt` of `chacha20poly1305` with no associated
/// data.
///
/// The result is the named ciphertext. The cipher refuses only plaintexts of
/// [`PLAINTEXT_LIMIT`] bytes or more. The ciphertext is the plaintext's length
/// plus the 16-byte tag, and decrypting it under the same key and nonce gives
/// the plaintext back.
#[verifier::external_body]
pub(crate) fn aead_seal(key: &[u8; 32], nonce: &[u8], plaintext: &[u8]) -> (r: Option<Vec<u8>>)
    requires
        nonce@.len() == NONCE_LEN,
    ensures
        opt_view(r) == xchacha20poly1305_seal(key@, nonce@, plaintext@),
        plaintext@.len() < PLAINTEXT_LIMIT ==> r is Some,
        r matches Some(c) ==> c@.len() == plaintext@.len() + TAG_LEN
            && xchacha20poly1305_open(key@, nonce@, c@) == Some(plaintext@),
{
    let cipher = chacha20poly1305::XChaCha20Poly1305::new(chacha20poly1305::Key::from_slice(key));
    cipher.encrypt(chacha20poly1305::XNonce::from_slice(nonce), plaintext).ok()
}

/// Calls `XChaCha20Poly1305::decrypt` of `chacha20poly1305` with no associated
/// data.
///
/// The result is the named plaintext. A ciphertext shorter than the 16-byte tag
/// is refused before anything else is looked at.
#[verifier::external_body]
pub(crate) fn aead_open(key: &[u8; 32], nonce: &[u8], ciphertext: &[u8]) -> (r: Option<Vec<u8>>)
    requires
        nonce@.len() == NONCE_LEN,
    ensures
        opt_view(r) == xchacha20poly1305_open(key@, nonce@, ciphertext@),
        ciphertext@.len() < TAG_LEN ==> r is None,
{
    let cipher = chacha20poly1305::XChaCha20Poly1305::new(chacha20poly1305::Key::from_slice(key));
    cipher.decrypt(chacha20poly1305::XNonce::from_slice(nonce), ciphertext).ok()
}

/// Calls `Hkdf::<Sha256>::new` without salt and then `expand` of `hkdf` for 32
/// bytes of output.
///
/// `expand` refuses only outputs longer than 255 hash lengths, so this call
/// always succeeds; its result is the named expansion of the key material and
/// the info string.
#[verifier::external_body]
pub(crate) fn hkdf_expand(ikm: &[u8], info: &[u8]) -> (r: Option<[u8; 32]>)
    ensures
        match r {
            Some(k) => k@ == hkdf_sha256(ikm@, info@),
            None => false,
        },
{
    let hk = hkdf::Hkdf::<sha2::Sha256>::new(None, ikm);
    let mut okm = [0u8; 32];
    match hk.expand(info, &mut okm) {
        Ok(()) => Some(okm),
        Err(_) => None,
    }
}

/// Whether Argon2 takes these cost parameters and input lengths: at least 8 KiB
/// of memory and 8 KiB for each lane, at least one pass and one lane, a salt of
/// 8 bytes or more, and neither salt nor password beyond 32 bits of length.
pub open spec fn argon2_accepts(password_len: nat, salt_len: nat, m_cost: u32, t_cost: u32, lanes: u32) -> bool {
    &&& m_cost >= 8
    &&& m_cost >= 8 * lanes
    &&& t_cost >= 1
    &&& lanes >= 1
    &&& 8 <= salt_len <= 0xFFFF_FFFF
    &&& password_len <= 0xFFFF_FFFF
}

/// Calls `Params::new`, `Argon2::new` and `hash_password_into` of `argon2` for
/// Argon2id, version 0x13, with a 32-byte output.
///
/// The result is the named hash. Argon2 checks the cost parameters and the
/// lengths of password and salt and refuses nothing else, so the hash is there
/// wherever [`argon2_accepts`] holds.
#[verifier::external_body]
pub(crate) fn argon2id_hash(password: &[u8], salt: &[u8], m_cost: u32, t_cost: u32, lanes: u32) -> (r: Option<[u8; 32]>)
    requires
        lanes <= 0x00FF_FFFF,
    ensures
        match r {
            Some(k) => argon2id(password@, salt@, m_cost, t_cost, lanes) == Some(k@),
            None => argon2id(password@, salt@, m_cost, t_cost, lanes) is None,
        },
        argon2_accepts(password@.len(), salt@.len(), m_cost, t_cost, lanes) ==> r is Some,
{
    let params = argon2::Params::new(m_cost, t_cost, lanes, None).ok()?;
    let hasher = argon2::Argon2::new(argon2::Algorithm::Argon2id, argon2::Version::V0x13, params);
    let mut key = [0u8; 32];
    hasher.hash_password_into(password, salt, &mut key).ok()?;
    Some(key)
}

/// Calls `STANDARD.encode` of `base64`.
///
/// The result is the named text, and decoding it gives the bytes back.
#[verifier::external_body]
pub(crate) fn b64_encode(data: &[u8]) -> (r: Vec<u8>)
    ensures
        r@ == base64_encode(data@),
        base64_decode(r@) == Some(data@),
{
    base64::engine::general_purpose::STANDARD.encode(data).into_bytes()
}

/// Calls `STANDARD.decode` of `base64`.
///
/// The result is the named decoding, `None` for text that is not valid padded
/// base64.
#[verifier::external_body]
pub(crate) fn b64_decode(text: &[u8]) -> (r: Option<Vec<u8>>)
    ensures
        opt_view(r) == base64_decode(text@),
{
    base64::engine::general_purpose::STANDARD.decode(text).ok()
}

/// Calls `STANDARD_NO_PAD.decode` of `base64`.
///
/// The result is the named decoding, `None` for text that is not valid
/// unpadded base64.
#[verifier::external_body]
pub(crate) fn b64_nopad_decode(text: &[u8]) -> (r: Option<Vec<u8>>)
    ensures
        opt_view(r) == base64_nopad_decode(text@),
{
    base64::engine::general_purpose::STANDARD_NO_PAD.decode(text).ok()
}

/// Calls `zeroize` of `zeroize` on a key: every byte of the key is zero
/// afterwards.
#[verifier::external_body]
pub(crate) fn wipe(key: &mut [u8; 32])
    ensures
        forall|i: int| 0 <= i < 32 ==> final(key)@[i] == 0u8,
{
    key.zeroize();
}

/// Calls `String::from_utf8` of the standard library: the bytes become a string
/// exactly when they are valid UTF-8, and the string is then their decoding.
#[verifier::external_body]
pub(crate) fn utf8_string(bytes: Vec<u8>) -> (r: Option<String>)
    ensures
        match r {
            Some(s) => vstd::utf8::valid_utf8(bytes@) && s@ == vstd::utf8::decode_utf8(bytes@),
            None => !vstd::utf8::valid_utf8(bytes@),
        },
{
    String::from_utf8(bytes).ok()
}

/// Looks a member up in a JSON document with `serde_json`.
///
/// [`json_member`] names the composite of three calls: `serde_json::from_slice`
/// parses the document into a `Value` (`Malformed` where it refuses);
/// `Value::get` finds the member by name (`Absent` where the value is no object
/// or has no such member); and the member's variant decides the rest, a number
/// being read with `Number::as_u64`.
#[verifier::external_body]
pub(crate) fn json_lookup(doc: &[u8], name: &str) -> (r: JsonMember)
    ensures
        r@ == json_member(doc@, name@),
{
    match serde_json::from_slice::<serde_json::Value>(doc) {
        Err(_) => JsonMember::Malformed,
        Ok(value) => match value.get(name) {
            None => JsonMember::Absent,
            Some(serde_json::Value::String(s)) => JsonMember::Text(s.as_bytes().to_vec()),
            Some(serde_json::Value::Number(n)) => match n.as_u64() {
                Some(k) => JsonMember::Number(k),
                None => JsonMember::Other,
            },
            Some(_) => JsonMember::Other,
        },
    }
}

} // verus!
