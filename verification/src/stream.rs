//! AES-256 in counter mode, the stream cipher of the hybrid envelope.
//!
//! A stream cipher combines its input with a keystream by exclusive or, so
//! applying it twice gives the input back. Only the keystream is the `ctr`
//! crate's; the rest is proved here.

use ctr::cipher::{KeyIvInit, StreamCipher};
use vstd::prelude::*;

verus! {

/// Length in bytes of the key of the stream cipher.
pub const STREAM_KEY_LEN: usize = 32;

/// Length in bytes of the initial counter block.
pub const IV_LEN: usize = 16;

/// The first `len` bytes of the keystream that AES-256 in counter mode, with
/// a 128-bit big-endian counter starting at `iv`, produces under `key`.
pub uninterp spec fn aes256_ctr_keystream(key: Seq<u8>, iv: Seq<u8>, len: nat) -> Seq<u8>;

/// `data` combined with `keystream`, byte by byte, by exclusive or.
pub open spec fn xor_bytes(data: Seq<u8>, keystream: Seq<u8>) -> Seq<u8> {
    Seq::new(data.len(), |i: int| data[i] ^ keystream[i])
}

/// `data` encrypted, or decrypted, with AES-256 in counter mode under `key`
/// and `iv`.
pub open spec fn aes256_ctr(key: Seq<u8>, iv: Seq<u8>, data: Seq<u8>) -> Seq<u8> {
    xor_bytes(data, aes256_ctr_keystream(key, iv, data.len()))
}

/// Combining with the same keystream twice gives the data back.
pub proof fn lemma_xor_twice(data: Seq<u8>, keystream: Seq<u8>)
    ensures
        xor_bytes(xor_bytes(data, keystream), keystream) == data,
{
    let once = xor_bytes(data, keystream);
    let twice = xor_bytes(once, keystream);
    assert forall|i: int| 0 <= i < data.len() implies twice[i] == data[i] by {
        let d = data[i];
        let k = keystream[i];
        assert((d ^ k) ^ k == d) by (bit_vector);
    }
    assert(twice =~= data);
}

/// The stream cipher undoes itself: what it made of `data`, it turns back
/// into `data` under the same key and IV.
pub proof fn lemma_ctr_undoes_itself(key: Seq<u8>, iv: Seq<u8>, data: Seq<u8>)
    ensures
        aes256_ctr(key, iv, aes256_ctr(key, iv, data)) == data,
        aes256_ctr(key, iv, data).len() == data.len(),
{
    lemma_xor_twice(data, aes256_ctr_keystream(key, iv, data.len()));
}

/// `StreamCipher::apply_keystream` of `ctr::Ctr128BE<aes::Aes256>` on a copy
/// of `data`. Trusted: the result is `data` combined by exclusive or with as
/// many bytes of the keystream named by [`aes256_ctr_keystream`].
#[verifier::external_body]
pub(crate) fn aes256_ctr_apply(key: &[u8], iv: &[u8], data: &[u8]) -> (output: Vec<u8>)
    requires
        key@.len() == STREAM_KEY_LEN,
        iv@.len() == IV_LEN,
    ensures
        output@ == xor_bytes(data@, aes256_ctr_keystream(key@, iv@, data@.len())),
{
    let mut output = data.to_vec();
    let mut cipher = ctr::Ctr128BE::<aes::Aes256>::new(key.into(), iv.into());
    cipher.apply_keystream(&mut output);
    output
}

} // verus!
