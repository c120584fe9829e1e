//! Content keys: one independent 256-bit key per context label, expanded from
//! the root key-encryption-key.

use vstd::prelude::*;
use vstd::string::StringExecFns;
use vstd::utf8::encode_utf8;
use crate::primitives::{hkdf_expand, hkdf_sha256};

verus! {

/// The content key for a root key and a context label.
pub open spec fn content_key(kek: Seq<u8>, context: Seq<char>) -> Seq<u8> {
    hkdf_sha256(kek, encode_utf8(context))
}

/// Derives the content key for `context` from the root key.
///
/// The key depends on nothing but the root key and the label, so deriving it
/// again gives the same key.
pub fn derive_content_key(kek: &[u8], context: &str) -> (r: [u8; 32])
    ensures
        r@ == content_key(kek@, context@),
{
    match hkdf_expand(kek, context.as_bytes()) {
        Some(key) => key,
        None => vstd::pervasive::unreached(),
    }
}

/// The context label under which a provider's credential is protected.
pub open spec fn vendor_label(provider: Seq<char>) -> Seq<char> {
    "vendor:"@ + provider
}

/// The context label that earlier versions of the vault used for a provider.
pub open spec fn legacy_label(provider: Seq<char>) -> Seq<char> {
    "batoulab:"@ + provider
}

/// Builds the context label `vendor:<provider>`.
pub fn vendor_context(provider: &str) -> (r: String)
    ensures
        r@ == vendor_label(provider@),
{
    String::from_str("vendor:").concat(provider)
}

/// Builds the context label `batoulab:<provider>` of earlier versions.
pub fn legacy_context(provider: &str) -> (r: String)
    ensures
        r@ == legacy_label(provider@),
{
    String::from_str("batoulab:").concat(provider)
}

/// Deriving twice from the same root key and label gives the same key.
pub proof fn derive_is_repeatable(kek: Seq<u8>, context: Seq<char>, first: Seq<u8>, second: Seq<u8>)
    requires
        first == content_key(kek, context),
        second == content_key(kek, context),
    ensures
        first == second,
{
}

/// Two providers share a context label only if they are the same provider, so
/// no two providers are protected by the same derivation.
pub proof fn vendor_label_is_injective(a: Seq<char>, b: Seq<char>)
    requires
        vendor_label(a) == vendor_label(b),
    ensures
        a == b,
{
    let p = "vendor:"@;
    assert(a =~= (p + a).subrange(p.len() as int, (p + a).len() as int));
    assert(b =~= (p + b).subrange(p.len() as int, (p + b).len() as int));
}

} // verus!
