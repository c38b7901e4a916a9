//! Key derivation: a 32-byte cipher key from a master key and a salt, by
//! Argon2id or by PBKDF2-HMAC-SHA256.

use crate::error::CryptoError;
use crate::secure::SecureBytes;
use vstd::prelude::*;

verus! {

/// Length in bytes of a derived key.
pub const DERIVED_KEY_LEN: usize = 32;

/// Length in bytes of the salt that a service draws.
pub const SALT_LEN: usize = 32;

/// Largest degree of parallelism that Argon2 takes.
pub const ARGON2_MAX_PARALLELISM: u32 = 0x00FF_FFFF;

/// The function that stretches the master key.
#[derive(Clone, Copy, Debug, PartialEq, Eq, Structural)]
pub enum KdfAlgorithm {
    Argon2,
    Pbkdf2,
}

/// The 32 bytes that Argon2id, version 1.3, derives from a password and a
/// salt under the given costs, or `None` where it refuses the inputs.
pub uninterp spec fn argon2id_derived(
    password: Seq<u8>,
    salt: Seq<u8>,
    mem_cost: u32,
    time_cost: u32,
    parallelism: u32,
) -> Option<Seq<u8>>;

/// The 32 bytes that PBKDF2 with HMAC-SHA256 derives from a password and a
/// salt in the given number of rounds.
pub uninterp spec fn pbkdf2_sha256_derived(password: Seq<u8>, salt: Seq<u8>, rounds: u32) -> Seq<
    u8,
>;

/// The costs that Argon2 takes: at least eight blocks of memory and eight
/// for each lane, at least one pass, and between one lane and 2^24 - 1.
pub open spec fn argon2_costs_valid(mem_cost: u32, time_cost: u32, parallelism: u32) -> bool {
    &&& mem_cost >= 8
    &&& mem_cost >= 8 * parallelism
    &&& time_cost >= 1
    &&& 1 <= parallelism <= ARGON2_MAX_PARALLELISM
}

/// What key derivation gives: the key, or the code of the failure.
pub open spec fn kdf_outcome(
    algorithm: KdfAlgorithm,
    master_key: Seq<u8>,
    salt: Seq<u8>,
    mem_cost: u32,
    time_cost: u32,
    parallelism: u32,
) -> Result<Seq<u8>, u32> {
    match algorithm {
        KdfAlgorithm::Argon2 => {
            if !argon2_costs_valid(mem_cost, time_cost, parallelism) {
                Err(1005)
            } else {
                match argon2id_derived(master_key, salt, mem_cost, time_cost, parallelism) {
                    Some(key) => Ok(key),
                    None => Err(1006),
                }
            }
        },
        KdfAlgorithm::Pbkdf2 => Ok(pbkdf2_sha256_derived(master_key, salt, time_cost)),
    }
}

/// Derives the cipher key. With Argon2id the three costs are used as they
/// stand; with PBKDF2 `time_cost` is the number of rounds and the other two
/// costs are ignored.
pub fn derive_key(
    algorithm: KdfAlgorithm,
    master_key: &[u8],
    salt: &[u8],
    mem_cost: u32,
    time_cost: u32,
    parallelism: u32,
) -> (r: Result<SecureBytes, CryptoError>)
    ensures
        match r {
            Ok(key) => kdf_outcome(algorithm, master_key@, salt@, mem_cost, time_cost, parallelism)
                == Ok::<Seq<u8>, u32>(key@) && key@.len() == DERIVED_KEY_LEN,
            Err(e) => kdf_outcome(algorithm, master_key@, salt@, mem_cost, time_cost, parallelism)
                == Err::<Seq<u8>, u32>(e.code_of()) && e.is_standard(e.code_of()),
        },
{
    match algorithm {
        KdfAlgorithm::Argon2 => {
            if parallelism > ARGON2_MAX_PARALLELISM {
                return Err(CryptoError::standard(1005));
            }
            if !argon2_costs_accepted(mem_cost, time_cost, parallelism) {
                return Err(CryptoError::standard(1005));
            }
            match argon2id_hash(master_key, salt, mem_cost, time_cost, parallelism) {
                Some(key) => Ok(SecureBytes::adopt(key)),
                None => Err(CryptoError::standard(1006)),
            }
        },
        KdfAlgorithm::Pbkdf2 => {
            Ok(SecureBytes::adopt(pbkdf2_hmac_sha256(master_key, salt, time_cost)))
        },
    }
}

/// `argon2::Params::new` with no output length: whether it accepts the
/// costs. It rejects less than eight blocks of memory, less than eight
/// blocks for each lane, no pass, no lane, and more than 2^24 - 1 lanes. The
/// bound on `parallelism` keeps its product with eight within 32 bits.
#[verifier::external_body]
fn argon2_costs_accepted(mem_cost: u32, time_cost: u32, parallelism: u32) -> (accepted: bool)
    requires
        parallelism <= ARGON2_MAX_PARALLELISM,
    ensures
        accepted == argon2_costs_valid(mem_cost, time_cost, parallelism),
{
    argon2::Params::new(mem_cost, time_cost, parallelism, None).is_ok()
}

/// `argon2::Argon2::hash_password_into` for Argon2id, version 1.3, into 32
/// bytes. The result is a function of the arguments, which is all that is
/// stated of it.
#[verifier::external_body]
fn argon2id_hash(
    password: &[u8],
    salt: &[u8],
    mem_cost: u32,
    time_cost: u32,
    parallelism: u32,
) -> (key: Option<Vec<u8>>)
    requires
        argon2_costs_valid(mem_cost, time_cost, parallelism),
    ensures
        match key {
            Some(k) => k@.len() == DERIVED_KEY_LEN && argon2id_derived(
                password@,
                salt@,
                mem_cost,
                time_cost,
                parallelism,
            ) == Some(k@),
            None => argon2id_derived(password@, salt@, mem_cost, time_cost, parallelism) is None,
        },
{
    let params = argon2::Params::new(mem_cost, time_cost, parallelism, None).ok()?;
    let hasher = argon2::Argon2::new(argon2::Algorithm::Argon2id, argon2::Version::V0x13, params);
    let mut key = [0u8; 32];
    hasher.hash_password_into(password, salt, &mut key).ok()?;
    Some(key.to_vec())
}

/// `pbkdf2::pbkdf2_hmac_array` with SHA-256 and 32 bytes of output. The
/// result is a function of the arguments, which is all that is stated of it.
#[verifier::external_body]
fn pbkdf2_hmac_sha256(password: &[u8], salt: &[u8], rounds: u32) -> (key: Vec<u8>)
    ensures
        key@.len() == DERIVED_KEY_LEN,
        key@ == pbkdf2_sha256_derived(password@, salt@, rounds),
{
    pbkdf2::pbkdf2_hmac_array::<sha2::Sha256, 32>(password, salt, rounds).to_vec()
}

} // verus!
