//! Secret byte buffers: owned copies that are wiped when they are released
//! and compared in constant time.

use crate::error::CryptoError;
use vstd::prelude::*;
use vstd::slice::slice_to_vec;

verus! {

/// An owned buffer of key material. It holds a copy of what it was made
/// from, and its memory is overwritten with zeros when it is dropped.
pub struct SecureBytes {
    bytes: Vec<u8>,
}

impl View for SecureBytes {
    type V = Seq<u8>;

    closed spec fn view(&self) -> Seq<u8> {
        self.bytes@
    }
}

impl SecureBytes {
    /// A buffer that holds a copy of `data`.
    pub fn new(data: &[u8]) -> (secret: SecureBytes)
        ensures
            secret@ == data@,
    {
        SecureBytes { bytes: slice_to_vec(data) }
    }

    /// A buffer that takes over `bytes`, so that no second copy of them is
    /// left behind.
    pub fn adopt(bytes: Vec<u8>) -> (secret: SecureBytes)
        ensures
            secret@ == bytes@,
    {
        SecureBytes { bytes }
    }

    /// A buffer of `len` bytes from the system's random source.
    pub fn random(len: usize) -> (r: Result<SecureBytes, CryptoError>)
        ensures
            match r {
                Ok(secret) => secret@.len() == len,
                Err(e) => e.is_standard(1001),
            },
    {
        match fill_random(len) {
            Some(bytes) => Ok(SecureBytes { bytes }),
            None => Err(CryptoError::standard(1001)),
        }
    }

    /// A copy of the bytes.
    pub fn data(&self) -> (copy: Vec<u8>)
        ensures
            copy@ == self@,
    {
        self.bytes.clone()
    }

    /// The number of bytes.
    pub fn len(&self) -> (n: usize)
        ensures
            n == self@.len(),
    {
        self.bytes.len()
    }

    /// The bytes, borrowed.
    pub fn as_slice(&self) -> (bytes: &[u8])
        ensures
            bytes@ == self@,
    {
        self.bytes.as_slice()
    }

    /// Whether two secrets hold the same bytes, decided in time that does
    /// not depend on the bytes.
    pub fn ct_eq(&self, other: &SecureBytes) -> (same: bool)
        ensures
            same == (self@ == other@),
    {
        constant_time_eq(self.bytes.as_slice(), other.bytes.as_slice())
    }
}

impl Drop for SecureBytes {
    fn drop(&mut self)
        opens_invariants none
        no_unwind
    {
        wipe(&mut self.bytes);
    }
}

/// `getrandom::getrandom` on a fresh buffer of `len` bytes. The bytes come
/// from the operating system, so only the length is stated, and only of a
/// call that succeeds.
#[verifier::external_body]
pub(crate) fn fill_random(len: usize) -> (bytes: Option<Vec<u8>>)
    ensures
        bytes matches Some(b) ==> b@.len() == len,
{
    let mut buffer = vec![0u8; len];
    match getrandom::getrandom(&mut buffer) {
        Ok(()) => Some(buffer),
        Err(_) => None,
    }
}

/// `subtle::ConstantTimeEq::ct_eq` on two byte slices: slices of different
/// lengths are unequal, and slices of one length are equal when every pair
/// of bytes is.
#[verifier::external_body]
pub(crate) fn constant_time_eq(a: &[u8], b: &[u8]) -> (same: bool)
    ensures
        same == (a@ == b@),
{
    bool::from(subtle::ConstantTimeEq::ct_eq(a, b))
}

/// `zeroize::Zeroize::zeroize` on a vector: every byte is overwritten with
/// zero and the vector is left empty.
#[verifier::external_body]
pub(crate) fn wipe(buffer: &mut Vec<u8>)
    ensures
        final(buffer)@.len() == 0,
    opens_invariants none
    no_unwind
{
    zeroize::Zeroize::zeroize(buffer)
}

} // verus!
