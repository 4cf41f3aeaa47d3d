//! The key schedule: one-way derivation of the next group secret and of the
//! per-epoch application secret.
//!
//! Both derivations are SHA-256 over the secret followed by a label that
//! keeps the two apart; the application secret also binds the epoch.

use crate::bytes::append_bytes;
use sha2::Digest;
use sha2::Sha256;
use vstd::bytes::spec_u64_to_le_bytes;
use vstd::bytes::u64_to_le_bytes;
use vstd::prelude::*;
use vstd::utf8::encode_utf8;

verus! {

/// Length in bytes of every secret that the key schedule produces.
pub const SECRET_LEN: usize = 32;

/// Domain-separation label of the group-secret ratchet.
pub const NEXT_SECRET_LABEL: &'static str = "mls_next_secret";

/// Domain-separation label of the application-secret derivation.
pub const APPLICATION_SECRET_LABEL: &'static str = "mls_application_secret";

/// The SHA-256 digest of `data`, as computed by the `sha2` crate.
pub uninterp spec fn sha256(data: Seq<u8>) -> Seq<u8>;

/// Calls `sha2::Sha256::digest` on `data`.
///
/// Trusted: the result is the SHA-256 digest of exactly the bytes given, and
/// a SHA-256 digest is 32 bytes long.
#[verifier::external_body]
fn sha256_digest(data: &[u8]) -> (out: Vec<u8>)
    ensures
        out@ == sha256(data@),
        out@.len() == SECRET_LEN,
{
    Sha256::digest(data).to_vec()
}

/// What is hashed to ratchet `secret` forward: the secret, then the label.
pub open spec fn next_secret_preimage(secret: Seq<u8>) -> Seq<u8> {
    secret + encode_utf8(NEXT_SECRET_LABEL@)
}

/// What is hashed to obtain the application secret of `epoch`: the group
/// secret, the label, and the epoch as eight little-endian bytes.
pub open spec fn application_secret_preimage(group_secret: Seq<u8>, epoch: u64) -> Seq<u8> {
    group_secret + encode_utf8(APPLICATION_SECRET_LABEL@) + spec_u64_to_le_bytes(epoch)
}

/// The group secret that follows `secret` in the chain.
pub open spec fn next_secret(secret: Seq<u8>) -> Seq<u8> {
    sha256(next_secret_preimage(secret))
}

/// The application secret that belongs to `group_secret` at `epoch`.
pub open spec fn application_secret(group_secret: Seq<u8>, epoch: u64) -> Seq<u8> {
    sha256(application_secret_preimage(group_secret, epoch))
}

/// Ratchets the group secret forward by one step.
pub fn derive_next_secret(current_secret: &[u8]) -> (next: Vec<u8>)
    ensures
        next@ == next_secret(current_secret@),
        next@.len() == SECRET_LEN,
{
    let mut preimage: Vec<u8> = Vec::new();
    append_bytes(&mut preimage, current_secret);
    append_bytes(&mut preimage, NEXT_SECRET_LABEL.as_bytes());
    sha256_digest(preimage.as_slice())
}

/// Derives the secret that protects application messages at `epoch`.
pub fn derive_application_secret(group_secret: &[u8], epoch: u64) -> (secret: Vec<u8>)
    ensures
        secret@ == application_secret(group_secret@, epoch),
        secret@.len() == SECRET_LEN,
{
    let mut preimage: Vec<u8> = Vec::new();
    append_bytes(&mut preimage, group_secret);
    append_bytes(&mut preimage, APPLICATION_SECRET_LABEL.as_bytes());
    let epoch_bytes = u64_to_le_bytes(epoch);
    append_bytes(&mut preimage, epoch_bytes.as_slice());
    sha256_digest(preimage.as_slice())
}

} // verus!
