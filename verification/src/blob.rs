//! A placeholder cipher for front ends under development: it complements
//! every byte and protects nothing.

use crate::aead::NONCE_LEN;
use crate::error::CryptoError;
use crate::bytes::append_bytes;
use vstd::prelude::*;

verus! {

/// Data and the nonce drawn for it.
pub struct EncryptedResult {
    data: Vec<u8>,
    nonce: Vec<u8>,
}

impl EncryptedResult {
    /// The bytes of the data.
    pub closed spec fn data_bytes(&self) -> Seq<u8> {
        self.data@
    }

    /// The bytes of the nonce.
    pub closed spec fn nonce_bytes(&self) -> Seq<u8> {
        self.nonce@
    }

    /// A copy of the data.
    pub fn get_data(&self) -> (bytes: Vec<u8>)
        ensures
            bytes@ == self.data_bytes(),
    {
        let mut bytes: Vec<u8> = Vec::new();
        append_bytes(&mut bytes, self.data.as_slice());
        bytes
    }

    /// A copy of the nonce.
    pub fn get_nonce(&self) -> (bytes: Vec<u8>)
        ensures
            bytes@ == self.nonce_bytes(),
    {
        let mut bytes: Vec<u8> = Vec::new();
        append_bytes(&mut bytes, self.nonce.as_slice());
        bytes
    }
}

/// Every byte of `data` with all its bits flipped.
pub open spec fn complemented(data: Seq<u8>) -> Seq<u8> {
    Seq::new(data.len(), |i: int| data[i] ^ 0xFF)
}

#[verifier::external_type_specification]
#[verifier::external_body]
pub struct ExGetrandomError(getrandom::Error);

/// `getrandom::getrandom` on a buffer of `len` bytes. Trusted: where the call
/// succeeds, the result has `len` bytes. Whether it succeeds is the operating
/// system's to decide.
#[verifier::external_body]
pub(crate) fn os_random_bytes(len: usize) -> (bytes: Result<Vec<u8>, getrandom::Error>)
    ensures
        bytes matches Ok(buffer) ==> buffer@.len() == len,
{
    let mut buffer = vec![0u8; len];
    getrandom::getrandom(&mut buffer)?;
    Ok(buffer)
}

/// Complements every byte of `data`. Key and nonce are not used.
pub fn mock_encrypt(data: &[u8], key: &str, nonce: &[u8]) -> (output: Vec<u8>)
    ensures
        output@ == complemented(data@),
{
    let mut output: Vec<u8> = Vec::new();
    let mut i: usize = 0;
    while i < data.len()
        invariant
            i <= data@.len(),
            output@.len() == i,
            forall|j: int| 0 <= j < i ==> output@[j] == data@[j] ^ 0xFF,
        decreases data@.len() - i,
    {
        output.push(data[i] ^ 0xFF);
        i += 1;
    }
    assert(output@ =~= complemented(data@));
    output
}

/// Pairs the complemented `file_data` with the nonce given.
pub fn blob_with_nonce(file_data: &[u8], user_password: &str, nonce: Vec<u8>) -> (blob:
    EncryptedResult)
    ensures
        blob.data_bytes() == complemented(file_data@),
        blob.nonce_bytes() == nonce@,
{
    let data = mock_encrypt(file_data, user_password, nonce.as_slice());
    EncryptedResult { data, nonce }
}

/// Draws a nonce of 12 bytes and pairs the complemented `file_data` with
/// it. Fails only where the operating system yields no random bytes.
pub fn encrypt_blob(file_data: &[u8], user_password: &str) -> (blob: Result<
    EncryptedResult,
    CryptoError,
>)
    ensures
        match blob {
            Ok(result) => result.data_bytes() == complemented(file_data@)
                && result.nonce_bytes().len() == NONCE_LEN,
            Err(e) => e == CryptoError::RandomSourceFailure,
        },
{
    match os_random_bytes(NONCE_LEN) {
        Ok(nonce) => Ok(blob_with_nonce(file_data, user_password, nonce)),
        Err(_) => Err(CryptoError::RandomSourceFailure),
    }
}

} // verus!
