//! Clearing secrets from memory.
//!
//! Derived keys, shared secrets and private scalars live for one call. Every
//! function that makes one clears it before it returns, on every path.

use vstd::prelude::*;
use zeroize::Zeroize;

verus! {

/// `Zeroize::zeroize` of `Vec<u8>`. Trusted: the buffer is overwritten with
/// zeros in a way the compiler does not remove, and is left empty.
#[verifier::external_body]
pub(crate) fn wipe(buffer: &mut Vec<u8>)
    ensures
        final(buffer)@.len() == 0,
{
    buffer.zeroize();
}

/// `Zeroize::zeroize` of `[u8; 32]`. Trusted: every byte of the key is
/// overwritten with zero in a way the compiler does not remove.
#[verifier::external_body]
pub(crate) fn wipe_key(key: &mut [u8; 32])
    ensures
        forall|i: int| 0 <= i < 32 ==> final(key)@[i] == 0,
{
    key.zeroize();
}

} // verus!
