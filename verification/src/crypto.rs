//! The authenticated encryption service: a cipher key derived from a master
//! key, the ciphertext frame with its version byte and nonce, the binding of
//! each ciphertext to a caller's context, and the size of a frame.

use crate::aead::{
    accepts_key, key_len, open, opened, seal, seal_limit, sealed, EncryptionAlgorithm, NONCE_LEN,
    TAG_LEN,
};
use crate::error::CryptoError;
use crate::kdf::{derive_key, kdf_outcome, KdfAlgorithm, SALT_LEN};
use crate::secure::{constant_time_eq, fill_random, SecureBytes};
use vstd::prelude::*;
use vstd::slice::{slice_subrange, slice_to_vec};

verus! {

/// Length in bytes of what stands before the sealed bytes in a frame: the
/// version byte and the nonce.
pub const FRAME_HEADER_LEN: usize = 13;

/// Largest key version that fits the version byte of a frame.
pub const MAX_KEY_VERSION: u32 = 255;

/// How a service derives its key and which cipher it uses.
#[derive(Clone, Copy, Debug)]
pub struct Config {
    pub kdf_time_cost: u32,
    pub kdf_mem_cost: u32,
    pub kdf_parallelism: u32,
    pub algorithm: EncryptionAlgorithm,
    pub kdf_algorithm: KdfAlgorithm,
    pub key_version: u32,
}

impl Config {
    /// A configuration of the given costs, cipher, derivation and version.
    pub fn new(
        kdf_time_cost: u32,
        kdf_mem_cost: u32,
        kdf_parallelism: u32,
        algorithm: EncryptionAlgorithm,
        kdf_algorithm: KdfAlgorithm,
        key_version: u32,
    ) -> (config: Config)
        ensures
            config == (Config {
                kdf_time_cost,
                kdf_mem_cost,
                kdf_parallelism,
                algorithm,
                kdf_algorithm,
                key_version,
            }),
    {
        Config { kdf_time_cost, kdf_mem_cost, kdf_parallelism, algorithm, kdf_algorithm, key_version }
    }
}

/// The bytes of the optional associated data: none is the same as empty.
pub open spec fn aad_bytes(aad: Option<Seq<u8>>) -> Seq<u8> {
    match aad {
        Some(bytes) => bytes,
        None => Seq::empty(),
    }
}

/// The views of an optional slice.
pub open spec fn optional_view(bytes: Option<&[u8]>) -> Option<Seq<u8>> {
    match bytes {
        Some(b) => Some(b@),
        None => None,
    }
}

/// A ciphertext frame: the version byte, the nonce, then ciphertext and tag.
pub open spec fn frame(version: u8, nonce: Seq<u8>, sealed_bytes: Seq<u8>) -> Seq<u8> {
    seq![version] + nonce + sealed_bytes
}

/// What is left of an opened message once the context that trails it has
/// been checked, or the code of the failure: 1011 where the message is
/// shorter than the context, 1012 where it ends in other bytes.
pub open spec fn unbound(plain: Seq<u8>, context: Seq<u8>) -> Result<Seq<u8>, u32> {
    if plain.len() < context.len() {
        Err(1011)
    } else if plain.subrange(plain.len() - context.len(), plain.len() as int) != context {
        Err(1012)
    } else {
        Ok(plain.subrange(0, plain.len() - context.len()))
    }
}

/// What a service is made of, or the code of the failure: 1004 where the
/// key version does not fit one byte, the code of the key derivation where
/// that fails, 1002 or 1003 where the cipher does not take the derived key.
pub open spec fn service_key(master_key: Seq<u8>, salt: Seq<u8>, config: Config) -> Result<
    Seq<u8>,
    u32,
> {
    if config.key_version > MAX_KEY_VERSION {
        Err(1004)
    } else {
        match kdf_outcome(
            config.kdf_algorithm,
            master_key,
            salt,
            config.kdf_mem_cost,
            config.kdf_time_cost,
            config.kdf_parallelism,
        ) {
            Err(code) => Err(code),
            Ok(key) => if key.len() == key_len(config.algorithm) {
                Ok(key)
            } else {
                match config.algorithm {
                    EncryptionAlgorithm::Aes256Gcm => Err(1002),
                    EncryptionAlgorithm::Aes128Gcm => Err(1003),
                }
            },
        }
    }
}

/// The frame that seals `data` for `context` under a key and a nonce: the
/// cipher sees `data` followed by `context`.
pub open spec fn sealed_frame_under(
    algorithm: EncryptionAlgorithm,
    key: Seq<u8>,
    key_version: u32,
    nonce: Seq<u8>,
    data: Seq<u8>,
    context: Seq<u8>,
    aad: Option<Seq<u8>>,
) -> Seq<u8> {
    frame(key_version as u8, nonce, sealed(algorithm, key, nonce, data + context, aad_bytes(aad)))
}

/// What decryption under a key gives: the data, or the code of the
/// failure. A frame shorter than its header fails with 1008, a version byte
/// that is not the configured version with 1009, a frame that the cipher
/// does not authenticate with 1010; then the context is checked.
pub open spec fn decrypt_outcome_under(
    algorithm: EncryptionAlgorithm,
    key: Seq<u8>,
    key_version: u32,
    ciphertext: Seq<u8>,
    context: Seq<u8>,
    aad: Option<Seq<u8>>,
) -> Result<Seq<u8>, u32> {
    if ciphertext.len() < FRAME_HEADER_LEN {
        Err(1008)
    } else if ciphertext[0] as u32 != key_version {
        Err(1009)
    } else {
        match opened(
            algorithm,
            key,
            ciphertext.subrange(1, FRAME_HEADER_LEN as int),
            ciphertext.subrange(FRAME_HEADER_LEN as int, ciphertext.len() as int),
            aad_bytes(aad),
        ) {
            None => Err(1010),
            Some(plain) => unbound(plain, context),
        }
    }
}

/// Splits the context off an opened message, comparing in constant time.
pub fn unbind_context(plain: Vec<u8>, context: &[u8]) -> (r: Result<Vec<u8>, CryptoError>)
    ensures
        match r {
            Ok(data) => unbound(plain@, context@) == Ok::<Seq<u8>, u32>(data@),
            Err(e) => unbound(plain@, context@) == Err::<Seq<u8>, u32>(e.code_of())
                && e.is_standard(e.code_of()),
        },
{
    if plain.len() < context.len() {
        return Err(CryptoError::standard(1011));
    }
    let split = plain.len() - context.len();
    let tail = slice_subrange(plain.as_slice(), split, plain.len());
    if !constant_time_eq(tail, context) {
        return Err(CryptoError::standard(1012));
    }
    Ok(slice_to_vec(slice_subrange(plain.as_slice(), 0, split)))
}

/// Draws a fresh nonce from the system's random source.
pub fn generate_nonce() -> (r: Result<Vec<u8>, CryptoError>)
    ensures
        match r {
            Ok(nonce) => nonce@.len() == NONCE_LEN,
            Err(e) => e.is_standard(1023),
        },
{
    match fill_random(NONCE_LEN) {
        Some(nonce) => Ok(nonce),
        None => Err(CryptoError::standard(1023)),
    }
}

/// An encryption service: a cipher, the key it was given, and the version
/// under which its frames are written.
pub struct CryptoService {
    algorithm: EncryptionAlgorithm,
    kdf_algorithm: KdfAlgorithm,
    key_version: u32,
    key: SecureBytes,
}

impl CryptoService {
    /// The cipher key.
    pub closed spec fn key_of(&self) -> Seq<u8> {
        self.key@
    }

    /// The configured key version.
    pub closed spec fn key_version_of(&self) -> u32 {
        self.key_version
    }

    /// The cipher.
    pub closed spec fn algorithm_of(&self) -> EncryptionAlgorithm {
        self.algorithm
    }

    /// The function that derived the key.
    pub closed spec fn kdf_algorithm_of(&self) -> KdfAlgorithm {
        self.kdf_algorithm
    }

    /// The key has the length that the cipher takes, and the key version
    /// fits the version byte.
    pub open spec fn wf(&self) -> bool {
        &&& self.key_of().len() == key_len(self.algorithm_of())
        &&& self.key_version_of() <= MAX_KEY_VERSION
    }

    #[verifier::type_invariant]
    closed spec fn inv(&self) -> bool {
        self.wf()
    }

    /// The frame that seals `data` for `context` under `nonce`.
    pub open spec fn sealed_frame(
        &self,
        nonce: Seq<u8>,
        data: Seq<u8>,
        context: Seq<u8>,
        aad: Option<Seq<u8>>,
    ) -> Seq<u8> {
        sealed_frame_under(
            self.algorithm_of(),
            self.key_of(),
            self.key_version_of(),
            nonce,
            data,
            context,
            aad,
        )
    }

    /// Whether the cipher seals this much in one call.
    pub open spec fn sealable(data: Seq<u8>, context: Seq<u8>, aad: Option<Seq<u8>>) -> bool {
        data.len() + context.len() <= seal_limit() && aad_bytes(aad).len() <= seal_limit()
    }

    /// What decryption gives: the data, or the code of the failure.
    pub open spec fn decrypt_outcome(
        &self,
        ciphertext: Seq<u8>,
        context: Seq<u8>,
        aad: Option<Seq<u8>>,
    ) -> Result<Seq<u8>, u32> {
        decrypt_outcome_under(
            self.algorithm_of(),
            self.key_of(),
            self.key_version_of(),
            ciphertext,
            context,
            aad,
        )
    }

    /// A service whose key is derived from `master_key` and `salt`.
    pub fn with_salt(master_key: &[u8], salt: &[u8], config: &Config) -> (r: Result<
        CryptoService,
        CryptoError,
    >)
        ensures
            match r {
                Ok(service) => service_key(master_key@, salt@, *config) == Ok::<Seq<u8>, u32>(
                    service.key_of(),
                ) && service.key_version_of() == config.key_version && service.algorithm_of()
                    == config.algorithm && service.wf(),
                Err(e) => service_key(master_key@, salt@, *config) == Err::<Seq<u8>, u32>(
                    e.code_of(),
                ) && e.is_standard(e.code_of()),
            },
    {
        if config.key_version > MAX_KEY_VERSION {
            return Err(CryptoError::standard(1004));
        }
        let key = match derive_key(
            config.kdf_algorithm,
            master_key,
            salt,
            config.kdf_mem_cost,
            config.kdf_time_cost,
            config.kdf_parallelism,
        ) {
            Ok(key) => key,
            Err(e) => {
                return Err(e);
            },
        };
        if !accepts_key(config.algorithm, key.as_slice()) {
            return match config.algorithm {
                EncryptionAlgorithm::Aes256Gcm => Err(CryptoError::standard(1002)),
                EncryptionAlgorithm::Aes128Gcm => Err(CryptoError::standard(1003)),
            };
        }
        Ok(
            CryptoService {
                algorithm: config.algorithm,
                kdf_algorithm: config.kdf_algorithm,
                key_version: config.key_version,
                key,
            },
        )
    }

    /// A service whose key is derived from `master_key` and a fresh random
    /// salt of 32 bytes. The salt is not kept: no other service derives the
    /// same key from the master key alone.
    pub fn new(master_key: &[u8], config: &Config) -> (r: Result<CryptoService, CryptoError>)
        ensures
            config.key_version > MAX_KEY_VERSION ==> r is Err,
            match r {
                Ok(service) => service.wf() && service.key_version_of() == config.key_version
                    && service.algorithm_of() == config.algorithm && exists|salt: Seq<u8>|
                    salt.len() == SALT_LEN && #[trigger] service_key(master_key@, salt, *config)
                        == Ok::<Seq<u8>, u32>(service.key_of()),
                Err(e) => e.is_standard(e.code_of()) && (e.code_of() == 1001 || exists|
                    salt: Seq<u8>,
                |
                    salt.len() == SALT_LEN && #[trigger] service_key(master_key@, salt, *config)
                        == Err::<Seq<u8>, u32>(e.code_of())),
            },
    {
        if config.key_version > MAX_KEY_VERSION {
            let e = CryptoError::standard(1004);
            assert(service_key(master_key@, Seq::new(SALT_LEN as nat, |i: int| 0u8), *config)
                == Err::<Seq<u8>, u32>(1004));
            return Err(e);
        }
        let salt = match SecureBytes::random(SALT_LEN) {
            Ok(salt) => salt,
            Err(e) => {
                return Err(e);
            },
        };
        CryptoService::with_salt(master_key, salt.as_slice(), config)
    }

    /// The cipher.
    pub fn algorithm(&self) -> (algorithm: EncryptionAlgorithm)
        ensures
            algorithm == self.algorithm_of(),
    {
        self.algorithm
    }

    /// The function that derived the key.
    pub fn kdf_algorithm(&self) -> (algorithm: KdfAlgorithm)
        ensures
            algorithm == self.kdf_algorithm_of(),
    {
        self.kdf_algorithm
    }

    /// The configured key version.
    pub fn key_version(&self) -> (version: u32)
        ensures
            version == self.key_version_of(),
            version <= MAX_KEY_VERSION,
    {
        proof {
            use_type_invariant(self);
        }
        self.key_version
    }

    /// Seals `data` for `context` under the given nonce: the message that the
    /// cipher sees is `data` followed by `context`. Fails with 1007 exactly
    /// where that is more than the cipher seals in one call.
    pub fn encrypt_with_nonce(
        &self,
        nonce: &[u8],
        data: &[u8],
        context: &[u8],
        aad: Option<&[u8]>,
    ) -> (r: Result<Vec<u8>, CryptoError>)
        requires
            nonce@.len() == NONCE_LEN,
        ensures
            r is Ok <==> CryptoService::sealable(data@, context@, optional_view(aad)),
            match r {
                Ok(out) => out@ == self.sealed_frame(
                    nonce@,
                    data@,
                    context@,
                    optional_view(aad),
                ) && out@.len() == data@.len() + context@.len() + FRAME_HEADER_LEN + TAG_LEN,
                Err(e) => e.is_standard(1007),
            },
    {
        proof {
            use_type_invariant(self);
        }
        let mut message = slice_to_vec(data);
        message.extend_from_slice(context);
        assert(message@ =~= data@ + context@);
        let empty: Vec<u8> = Vec::new();
        let aad_slice = match aad {
            Some(bytes) => bytes,
            None => empty.as_slice(),
        };
        assert(aad_slice@ =~= aad_bytes(optional_view(aad)));
        match seal(self.algorithm, self.key.as_slice(), nonce, message.as_slice(), aad_slice) {
            None => Err(CryptoError::standard(1007)),
            Some(sealed_bytes) => {
                let mut out: Vec<u8> = Vec::new();
                out.push(self.key_version as u8);
                out.extend_from_slice(nonce);
                out.extend_from_slice(sealed_bytes.as_slice());
                assert(out@ =~= frame(self.key_version as u8, nonce@, sealed_bytes@));
                Ok(out)
            },
        }
    }

    /// Seals `data` for `context` under a fresh random nonce.
    pub fn encrypt(&self, data: &[u8], context: &[u8], aad: Option<&[u8]>) -> (r: Result<
        Vec<u8>,
        CryptoError,
    >)
        ensures
            !CryptoService::sealable(data@, context@, optional_view(aad)) ==> r is Err,
            match r {
                Ok(out) => exists|nonce: Seq<u8>|
                    nonce.len() == NONCE_LEN && out@ == #[trigger] self.sealed_frame(
                        nonce,
                        data@,
                        context@,
                        optional_view(aad),
                    ),
                Err(e) => e.is_standard(1023) || (e.is_standard(1007) && !CryptoService::sealable(
                    data@,
                    context@,
                    optional_view(aad),
                )),
            },
    {
        let nonce = match generate_nonce() {
            Ok(nonce) => nonce,
            Err(e) => {
                return Err(e);
            },
        };
        let r = self.encrypt_with_nonce(nonce.as_slice(), data, context, aad);
        proof {
            if r is Ok {
                let out = r->Ok_0;
                assert(nonce@.len() == NONCE_LEN && out@ == self.sealed_frame(
                    nonce@,
                    data@,
                    context@,
                    optional_view(aad),
                ));
            }
        }
        r
    }

    /// Opens a frame and checks that it was sealed for `context`.
    pub fn decrypt(&self, ciphertext: &[u8], context: &[u8], aad: Option<&[u8]>) -> (r: Result<
        Vec<u8>,
        CryptoError,
    >)
        ensures
            match r {
                Ok(data) => self.decrypt_outcome(ciphertext@, context@, optional_view(aad))
                    == Ok::<Seq<u8>, u32>(data@),
                Err(e) => self.decrypt_outcome(ciphertext@, context@, optional_view(aad))
                    == Err::<Seq<u8>, u32>(e.code_of()) && e.is_standard(e.code_of()),
            },
    {
        proof {
            use_type_invariant(self);
        }
        if ciphertext.len() < FRAME_HEADER_LEN {
            return Err(CryptoError::standard(1008));
        }
        let version = ciphertext[0] as u32;
        if version != self.key_version {
            return Err(CryptoError::standard(1009));
        }
        let nonce = slice_subrange(ciphertext, 1, FRAME_HEADER_LEN);
        let sealed_bytes = slice_subrange(ciphertext, FRAME_HEADER_LEN, ciphertext.len());
        let empty: Vec<u8> = Vec::new();
        let aad_slice = match aad {
            Some(bytes) => bytes,
            None => empty.as_slice(),
        };
        assert(aad_slice@ =~= aad_bytes(optional_view(aad)));
        match open(self.algorithm, self.key.as_slice(), nonce, sealed_bytes, aad_slice) {
            None => Err(CryptoError::standard(1010)),
            Some(plain) => unbind_context(plain, context),
        }
    }

    /// What an encrypted frame adds to the size of its input: nonce, tag and
    /// version byte. The context, which is sealed with the data, is not
    /// counted.
    pub fn estimate_encrypted_size(&self, input_size: u32) -> (size: u32)
        requires
            input_size + NONCE_LEN + TAG_LEN + 1 <= u32::MAX,
        ensures
            size == input_size + NONCE_LEN + TAG_LEN + 1,
    {
        input_size + 12 + 16 + 1
    }
}

} // verus!
