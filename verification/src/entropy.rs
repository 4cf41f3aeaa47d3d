//! Fresh random bytes from the operating system.

use rand::RngCore;
use rand::rngs::OsRng;
use vstd::prelude::*;

verus! {

/// The error with which the operating system's random source fails.
#[verifier::external_type_specification]
#[verifier::external_body]
pub struct ExRandError(rand::Error);

/// Calls `OsRng.try_fill_bytes` on the whole of `buf`.
///
/// Trusted: the buffer keeps its length whatever the outcome; an empty buffer
/// is filled without a call to the system, so never fails; no claim on the bytes.
#[verifier::external_body]
fn fill_from_os(buf: &mut Vec<u8>) -> (filled: Result<(), rand::Error>)
    ensures
        final(buf)@.len() == old(buf)@.len(),
        old(buf)@.len() == 0 ==> filled is Ok,
{
    OsRng.try_fill_bytes(buf.as_mut_slice())
}

/// `len` bytes from the operating system's random source, or `None` where the
/// source fails. Asking for no bytes asks nothing of the source and succeeds.
pub fn random_bytes(len: usize) -> (bytes: Option<Vec<u8>>)
    ensures
        bytes matches Some(b) ==> b@.len() == len,
        len == 0 ==> bytes is Some,
{
    let mut buf: Vec<u8> = Vec::with_capacity(len);
    let mut i: usize = 0;
    while i < len
        invariant
            i <= len,
            buf@.len() == i,
        decreases len - i,
    {
        buf.push(0u8);
        i += 1;
    }
    let filled = fill_from_os(&mut buf);
    delivered(buf, filled)
}

/// What a draw into `buf` gives once the source has answered: the buffer
/// where it delivered, nothing where it failed.
pub fn delivered(buf: Vec<u8>, filled: Result<(), rand::Error>) -> (bytes: Option<Vec<u8>>)
    ensures
        filled is Ok ==> bytes == Some(buf),
        filled is Err ==> bytes is None,
{
    match filled {
        Ok(()) => Some(buf),
        Err(_) => None,
    }
}

} // verus!
