//! AES-GCM with a 96-bit nonce and a 128-bit tag, under a 128-bit or a
//! 256-bit key.

use vstd::prelude::*;

verus! {

/// Length in bytes of a nonce.
pub const NONCE_LEN: usize = 12;

/// Length in bytes of the authentication tag.
pub const TAG_LEN: usize = 16;

/// Length in bytes of an AES-256 key.
pub const AES256_KEY_LEN: usize = 32;

/// Length in bytes of an AES-128 key.
pub const AES128_KEY_LEN: usize = 16;

/// The cipher that seals a message.
#[derive(Clone, Copy, Debug, PartialEq, Eq, Structural)]
pub enum EncryptionAlgorithm {
    Aes256Gcm,
    Aes128Gcm,
}

/// Most bytes of message, and most bytes of associated data, that AES-GCM
/// seals in one call.
pub open spec fn seal_limit() -> nat {
    0x10_0000_0000
}

/// Ciphertext and tag that AES-256-GCM gives for a message.
pub uninterp spec fn aes256_gcm_sealed(
    key: Seq<u8>,
    nonce: Seq<u8>,
    message: Seq<u8>,
    aad: Seq<u8>,
) -> Seq<u8>;

/// The message that AES-256-GCM recovers from ciphertext and tag, or `None`
/// where it does not authenticate them.
pub uninterp spec fn aes256_gcm_opened(
    key: Seq<u8>,
    nonce: Seq<u8>,
    sealed: Seq<u8>,
    aad: Seq<u8>,
) -> Option<Seq<u8>>;

/// Ciphertext and tag that AES-128-GCM gives for a message.
pub uninterp spec fn aes128_gcm_sealed(
    key: Seq<u8>,
    nonce: Seq<u8>,
    message: Seq<u8>,
    aad: Seq<u8>,
) -> Seq<u8>;

/// The message that AES-128-GCM recovers from ciphertext and tag, or `None`
/// where it does not authenticate them.
pub uninterp spec fn aes128_gcm_opened(
    key: Seq<u8>,
    nonce: Seq<u8>,
    sealed: Seq<u8>,
    aad: Seq<u8>,
) -> Option<Seq<u8>>;

/// Length in bytes of the key that `algorithm` takes.
pub open spec fn key_len(algorithm: EncryptionAlgorithm) -> nat {
    match algorithm {
        EncryptionAlgorithm::Aes256Gcm => AES256_KEY_LEN as nat,
        EncryptionAlgorithm::Aes128Gcm => AES128_KEY_LEN as nat,
    }
}

/// Ciphertext and tag that `algorithm` gives for a message.
pub open spec fn sealed(
    algorithm: EncryptionAlgorithm,
    key: Seq<u8>,
    nonce: Seq<u8>,
    message: Seq<u8>,
    aad: Seq<u8>,
) -> Seq<u8> {
    match algorithm {
        EncryptionAlgorithm::Aes256Gcm => aes256_gcm_sealed(key, nonce, message, aad),
        EncryptionAlgorithm::Aes128Gcm => aes128_gcm_sealed(key, nonce, message, aad),
    }
}

/// The message that `algorithm` recovers, or `None`.
pub open spec fn opened(
    algorithm: EncryptionAlgorithm,
    key: Seq<u8>,
    nonce: Seq<u8>,
    sealed: Seq<u8>,
    aad: Seq<u8>,
) -> Option<Seq<u8>> {
    match algorithm {
        EncryptionAlgorithm::Aes256Gcm => aes256_gcm_opened(key, nonce, sealed, aad),
        EncryptionAlgorithm::Aes128Gcm => aes128_gcm_opened(key, nonce, sealed, aad),
    }
}

/// Whether `algorithm` takes a key of this length.
pub fn accepts_key(algorithm: EncryptionAlgorithm, key: &[u8]) -> (accepted: bool)
    ensures
        accepted == (key@.len() == key_len(algorithm)),
{
    match algorithm {
        EncryptionAlgorithm::Aes256Gcm => aes256_gcm_accepts_key(key),
        EncryptionAlgorithm::Aes128Gcm => aes128_gcm_accepts_key(key),
    }
}

/// Seals `message` and binds `aad`. Fails exactly where the message or the
/// associated data is longer than the cipher seals in one call.
pub fn seal(
    algorithm: EncryptionAlgorithm,
    key: &[u8],
    nonce: &[u8],
    message: &[u8],
    aad: &[u8],
) -> (out: Option<Vec<u8>>)
    requires
        key@.len() == key_len(algorithm),
        nonce@.len() == NONCE_LEN,
    ensures
        out is Some <==> (message@.len() <= seal_limit() && aad@.len() <= seal_limit()),
        out matches Some(bytes) ==> bytes@ == sealed(algorithm, key@, nonce@, message@, aad@),
        out matches Some(bytes) ==> bytes@.len() == message@.len() + TAG_LEN,
{
    match algorithm {
        EncryptionAlgorithm::Aes256Gcm => aes256_gcm_seal(key, nonce, message, aad),
        EncryptionAlgorithm::Aes128Gcm => aes128_gcm_seal(key, nonce, message, aad),
    }
}

/// Opens ciphertext and tag under `aad`.
pub fn open(
    algorithm: EncryptionAlgorithm,
    key: &[u8],
    nonce: &[u8],
    sealed_bytes: &[u8],
    aad: &[u8],
) -> (out: Option<Vec<u8>>)
    requires
        key@.len() == key_len(algorithm),
        nonce@.len() == NONCE_LEN,
    ensures
        match out {
            Some(message) => opened(algorithm, key@, nonce@, sealed_bytes@, aad@) == Some(
                message@,
            ),
            None => opened(algorithm, key@, nonce@, sealed_bytes@, aad@) is None,
        },
{
    match algorithm {
        EncryptionAlgorithm::Aes256Gcm => aes256_gcm_open(key, nonce, sealed_bytes, aad),
        EncryptionAlgorithm::Aes128Gcm => aes128_gcm_open(key, nonce, sealed_bytes, aad),
    }
}

/// `Aes256Gcm::new_from_slice`: it takes a key of exactly 32 bytes.
#[verifier::external_body]
fn aes256_gcm_accepts_key(key: &[u8]) -> (accepted: bool)
    ensures
        accepted == (key@.len() == AES256_KEY_LEN),
{
    <aes_gcm::Aes256Gcm as aes_gcm::KeyInit>::new_from_slice(key).is_ok()
}

/// `Aes128Gcm::new_from_slice`: it takes a key of exactly 16 bytes.
#[verifier::external_body]
fn aes128_gcm_accepts_key(key: &[u8]) -> (accepted: bool)
    ensures
        accepted == (key@.len() == AES128_KEY_LEN),
{
    <aes_gcm::Aes128Gcm as aes_gcm::KeyInit>::new_from_slice(key).is_ok()
}

/// `Aead::encrypt` of `Aes256Gcm`. It refuses a message or associated data
/// of more than 2^36 bytes and nothing else, and appends the 16-byte tag to
/// the ciphertext, which is as long as the message.
#[verifier::external_body]
fn aes256_gcm_seal(key: &[u8], nonce: &[u8], message: &[u8], aad: &[u8]) -> (out: Option<Vec<u8>>)
    requires
        key@.len() == AES256_KEY_LEN,
        nonce@.len() == NONCE_LEN,
    ensures
        out is Some <==> (message@.len() <= seal_limit() && aad@.len() <= seal_limit()),
        out matches Some(bytes) ==> bytes@ == aes256_gcm_sealed(key@, nonce@, message@, aad@),
        out matches Some(bytes) ==> bytes@.len() == message@.len() + TAG_LEN,
{
    let cipher = <aes_gcm::Aes256Gcm as aes_gcm::KeyInit>::new_from_slice(key).ok()?;
    let nonce = aes_gcm::Nonce::from_slice(nonce);
    aes_gcm::aead::Aead::encrypt(&cipher, nonce, aes_gcm::aead::Payload { msg: message, aad }).ok()
}

/// `Aead::decrypt` of `Aes256Gcm`. The result is a function of the
/// arguments, which is all that is stated of it.
#[verifier::external_body]
fn aes256_gcm_open(key: &[u8], nonce: &[u8], sealed: &[u8], aad: &[u8]) -> (out: Option<Vec<u8>>)
    requires
        key@.len() == AES256_KEY_LEN,
        nonce@.len() == NONCE_LEN,
    ensures
        match out {
            Some(message) => aes256_gcm_opened(key@, nonce@, sealed@, aad@) == Some(message@),
            None => aes256_gcm_opened(key@, nonce@, sealed@, aad@) is None,
        },
{
    let cipher = <aes_gcm::Aes256Gcm as aes_gcm::KeyInit>::new_from_slice(key).ok()?;
    let nonce = aes_gcm::Nonce::from_slice(nonce);
    aes_gcm::aead::Aead::decrypt(&cipher, nonce, aes_gcm::aead::Payload { msg: sealed, aad }).ok()
}

/// `Aead::encrypt` of `Aes128Gcm`. It refuses a message or associated data
/// of more than 2^36 bytes and nothing else, and appends the 16-byte tag to
/// the ciphertext, which is as long as the message.
#[verifier::external_body]
fn aes128_gcm_seal(key: &[u8], nonce: &[u8], message: &[u8], aad: &[u8]) -> (out: Option<Vec<u8>>)
    requires
        key@.len() == AES128_KEY_LEN,
        nonce@.len() == NONCE_LEN,
    ensures
        out is Some <==> (message@.len() <= seal_limit() && aad@.len() <= seal_limit()),
        out matches Some(bytes) ==> bytes@ == aes128_gcm_sealed(key@, nonce@, message@, aad@),
        out matches Some(bytes) ==> bytes@.len() == message@.len() + TAG_LEN,
{
    let cipher = <aes_gcm::Aes128Gcm as aes_gcm::KeyInit>::new_from_slice(key).ok()?;
    let nonce = aes_gcm::Nonce::from_slice(nonce);
    aes_gcm::aead::Aead::encrypt(&cipher, nonce, aes_gcm::aead::Payload { msg: message, aad }).ok()
}

/// `Aead::decrypt` of `Aes128Gcm`. The result is a function of the
/// arguments, which is all that is stated of it.
#[verifier::external_body]
fn aes128_gcm_open(key: &[u8], nonce: &[u8], sealed: &[u8], aad: &[u8]) -> (out: Option<Vec<u8>>)
    requires
        key@.len() == AES128_KEY_LEN,
        nonce@.len() == NONCE_LEN,
    ensures
        match out {
            Some(message) => aes128_gcm_opened(key@, nonce@, sealed@, aad@) == Some(message@),
            None => aes128_gcm_opened(key@, nonce@, sealed@, aad@) is None,
        },
{
    let cipher = <aes_gcm::Aes128Gcm as aes_gcm::KeyInit>::new_from_slice(key).ok()?;
    let nonce = aes_gcm::Nonce::from_slice(nonce);
    aes_gcm::aead::Aead::decrypt(&cipher, nonce, aes_gcm::aead::Payload { msg: sealed, aad }).ok()
}

} // verus!
