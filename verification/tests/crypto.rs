use archive_pipeline::aead::{accepts_key, open, seal, EncryptionAlgorithm};
use archive_pipeline::crypto::{generate_nonce, unbind_context, Config, CryptoService};
use archive_pipeline::error::CryptoError;
use archive_pipeline::kdf::{derive_key, KdfAlgorithm};
use archive_pipeline::secure::SecureBytes;

const MASTER: &[u8] = b"0123456789abcdef0123456789abcdef";
const SALT: &[u8] = b"fedcba9876543210fedcba9876543210";
const NONCE: &[u8] = &[1, 2, 3, 4, 5, 6, 7, 8, 9, 10, 11, 12];

fn pbkdf2_config(key_version: u32) -> Config {
    Config::new(1000, 0, 0, EncryptionAlgorithm::Aes256Gcm, KdfAlgorithm::Pbkdf2, key_version)
}

fn service(key_version: u32) -> CryptoService {
    CryptoService::with_salt(MASTER, SALT, &pbkdf2_config(key_version)).unwrap()
}

fn code_of<T>(r: Result<T, CryptoError>) -> u32 {
    match r {
        Ok(_) => panic!("expected an error"),
        Err(e) => e.code(),
    }
}

#[test]
fn pbkdf2_matches_known_vector() {
    // PBKDF2-HMAC-SHA256, "password" / "salt", 1 round, 32 bytes.
    let key = derive_key(KdfAlgorithm::Pbkdf2, b"password", b"salt", 0, 1, 0).unwrap();
    let expected: [u8; 32] = [
        0x12, 0x0f, 0xb6, 0xcf, 0xfc, 0xf8, 0xb3, 0x2c, 0x43, 0xe7, 0x22, 0x52, 0x56, 0xc4, 0xf8,
        0x37, 0xa8, 0x65, 0x48, 0xc9, 0x2c, 0xcc, 0x35, 0x48, 0x08, 0x05, 0x98, 0x7c, 0xb7, 0x0b,
        0xe1, 0x7b,
    ];
    assert_eq!(key.data(), expected.to_vec());
}

#[test]
fn argon2_derives_32_bytes_that_depend_on_the_salt() {
    let a = derive_key(KdfAlgorithm::Argon2, MASTER, SALT, 64, 1, 1).unwrap();
    let b = derive_key(KdfAlgorithm::Argon2, MASTER, b"another salt of 32 bytes, or so.", 64, 1, 1)
        .unwrap();
    let again = derive_key(KdfAlgorithm::Argon2, MASTER, SALT, 64, 1, 1).unwrap();
    assert_eq!(a.len(), 32);
    assert_ne!(a.data(), MASTER.to_vec());
    assert!(!a.ct_eq(&b));
    assert!(a.ct_eq(&again));
}

#[test]
fn argon2_rejects_invalid_costs() {
    // Less than eight blocks of memory.
    assert_eq!(code_of(derive_key(KdfAlgorithm::Argon2, MASTER, SALT, 7, 1, 1)), 1005);
    // Less than eight blocks for each lane.
    assert_eq!(code_of(derive_key(KdfAlgorithm::Argon2, MASTER, SALT, 15, 1, 2)), 1005);
    // No pass.
    assert_eq!(code_of(derive_key(KdfAlgorithm::Argon2, MASTER, SALT, 64, 0, 1)), 1005);
    // No lane, and too many.
    assert_eq!(code_of(derive_key(KdfAlgorithm::Argon2, MASTER, SALT, 64, 1, 0)), 1005);
    assert_eq!(
        code_of(derive_key(KdfAlgorithm::Argon2, MASTER, SALT, u32::MAX, 1, 0x0100_0000)),
        1005
    );
    assert_eq!(code_of(derive_key(KdfAlgorithm::Argon2, MASTER, SALT, u32::MAX, 1, u32::MAX)), 1005);
}

#[test]
fn argon2_refuses_a_short_salt() {
    assert_eq!(code_of(derive_key(KdfAlgorithm::Argon2, MASTER, b"short", 64, 1, 1)), 1006);
}

#[test]
fn aes128_never_takes_the_derived_key() {
    let config =
        Config::new(1000, 0, 0, EncryptionAlgorithm::Aes128Gcm, KdfAlgorithm::Pbkdf2, 1);
    assert_eq!(code_of(CryptoService::with_salt(MASTER, SALT, &config)), 1003);
    assert_eq!(code_of(CryptoService::new(MASTER, &config)), 1003);
}

#[test]
fn key_version_must_fit_one_byte() {
    assert_eq!(code_of(CryptoService::with_salt(MASTER, SALT, &pbkdf2_config(256))), 1004);
    assert_eq!(code_of(CryptoService::new(MASTER, &pbkdf2_config(256))), 1004);
    assert_eq!(service(255).key_version(), 255);
}

#[test]
fn frame_is_version_nonce_then_sealed_bytes() {
    let s = service(7);
    let out = s.encrypt_with_nonce(NONCE, b"payload", b"ctx", None).unwrap();
    assert_eq!(out[0], 7);
    assert_eq!(&out[1..13], NONCE);
    // Ciphertext is as long as data and context; the tag is 16 bytes.
    assert_eq!(out.len(), 1 + 12 + 7 + 3 + 16);
    assert_ne!(&out[13..20], b"payload");
}

#[test]
fn sealing_is_a_function_of_key_nonce_message_and_aad() {
    let s = service(1);
    let a = s.encrypt_with_nonce(NONCE, b"payload", b"ctx", Some(b"aad")).unwrap();
    let b = s.encrypt_with_nonce(NONCE, b"payload", b"ctx", Some(b"aad")).unwrap();
    let other_aad = s.encrypt_with_nonce(NONCE, b"payload", b"ctx", Some(b"aae")).unwrap();
    let no_aad = s.encrypt_with_nonce(NONCE, b"payload", b"ctx", None).unwrap();
    let empty_aad = s.encrypt_with_nonce(NONCE, b"payload", b"ctx", Some(b"")).unwrap();
    assert_eq!(a, b);
    assert_ne!(a, other_aad);
    assert_eq!(no_aad, empty_aad);
}

#[test]
fn aes256_gcm_matches_known_vectors() {
    // Published AES-256-GCM vectors: zero key, zero nonce, no data and one zero block.
    let key = [0u8; 32];
    let nonce = [0u8; 12];
    let tag_only = seal(EncryptionAlgorithm::Aes256Gcm, &key, &nonce, &[], &[]).unwrap();
    assert_eq!(
        tag_only,
        vec![
            0x53, 0x0f, 0x8a, 0xfb, 0xc7, 0x45, 0x36, 0xb9, 0xa9, 0x63, 0xb4, 0xf1, 0xc4, 0xcb,
            0x73, 0x8b
        ]
    );
    let block = seal(EncryptionAlgorithm::Aes256Gcm, &key, &nonce, &[0u8; 16], &[]).unwrap();
    assert_eq!(
        block,
        vec![
            0xce, 0xa7, 0x40, 0x3d, 0x4d, 0x60, 0x6b, 0x6e, 0x07, 0x4e, 0xc5, 0xd3, 0xba, 0xf3,
            0x9d, 0x18, 0xd0, 0xd1, 0xc8, 0xa7, 0x99, 0x99, 0x6b, 0xf0, 0x26, 0x5b, 0x98, 0xb5,
            0xd4, 0x8a, 0xb9, 0x19
        ]
    );
    assert_eq!(
        open(EncryptionAlgorithm::Aes256Gcm, &key, &nonce, &block, &[]),
        Some(vec![0u8; 16])
    );
    assert_eq!(open(EncryptionAlgorithm::Aes256Gcm, &key, &nonce, &block, &[1]), None);
    assert_eq!(open(EncryptionAlgorithm::Aes256Gcm, &key, &nonce, &block[..15], &[]), None);
}

#[test]
fn aes128_gcm_matches_known_vectors() {
    // Published AES-128-GCM vectors: zero key, zero nonce, no data and one zero block.
    let key = [0u8; 16];
    let nonce = [0u8; 12];
    let tag_only = seal(EncryptionAlgorithm::Aes128Gcm, &key, &nonce, &[], &[]).unwrap();
    assert_eq!(
        tag_only,
        vec![
            0x58, 0xe2, 0xfc, 0xce, 0xfa, 0x7e, 0x30, 0x61, 0x36, 0x7f, 0x1d, 0x57, 0xa4, 0xe7,
            0x45, 0x5a
        ]
    );
    let block = seal(EncryptionAlgorithm::Aes128Gcm, &key, &nonce, &[0u8; 16], &[]).unwrap();
    assert_eq!(
        block,
        vec![
            0x03, 0x88, 0xda, 0xce, 0x60, 0xb6, 0xa3, 0x92, 0xf3, 0x28, 0xc2, 0xb9, 0x71, 0xb2,
            0xfe, 0x78, 0xab, 0x6e, 0x47, 0xd4, 0x2c, 0xec, 0x13, 0xbd, 0xf5, 0x3a, 0x67, 0xb2,
            0x12, 0x57, 0xbd, 0xdf
        ]
    );
    assert_eq!(
        open(EncryptionAlgorithm::Aes128Gcm, &key, &nonce, &block, &[]),
        Some(vec![0u8; 16])
    );
    let mut changed = block.clone();
    changed[31] ^= 1;
    assert_eq!(open(EncryptionAlgorithm::Aes128Gcm, &key, &nonce, &changed, &[]), None);
}

#[test]
fn ciphers_take_keys_of_their_own_length() {
    assert!(accepts_key(EncryptionAlgorithm::Aes256Gcm, &[0u8; 32]));
    assert!(!accepts_key(EncryptionAlgorithm::Aes256Gcm, &[0u8; 16]));
    assert!(accepts_key(EncryptionAlgorithm::Aes128Gcm, &[0u8; 16]));
    assert!(!accepts_key(EncryptionAlgorithm::Aes128Gcm, &[0u8; 32]));
    assert!(!accepts_key(EncryptionAlgorithm::Aes128Gcm, &[]));
}

#[test]
fn encrypt_then_decrypt_gives_the_data_back() {
    let s = service(3);
    for data in [&b""[..], &b"x"[..], &b"Hello, world!\n"[..]] {
        for context in [&b""[..], &b"tenantA"[..]] {
            let sealed = s.encrypt(data, context, Some(b"v1")).unwrap();
            assert_eq!(s.decrypt(&sealed, context, Some(b"v1")).unwrap(), data.to_vec());
        }
    }
}

#[test]
fn fresh_nonce_for_every_call() {
    let s = service(3);
    let a = s.encrypt(b"same", b"", None).unwrap();
    let b = s.encrypt(b"same", b"", None).unwrap();
    assert_ne!(a[1..13], b[1..13]);
    assert_eq!(generate_nonce().unwrap().len(), 12);
}

#[test]
fn decrypt_rejects_short_input() {
    let s = service(3);
    assert_eq!(code_of(s.decrypt(&[], b"", None)), 1008);
    assert_eq!(code_of(s.decrypt(&[3; 12], b"", None)), 1008);
    // Thirteen bytes hold a header and no tag: the cipher refuses them.
    assert_eq!(code_of(s.decrypt(&[3; 13], b"", None)), 1010);
}

#[test]
fn key_version_binding() {
    let v1 = service(1);
    let v2 = service(2);
    let sealed = v1.encrypt(b"data", b"ctx", None).unwrap();
    assert_eq!(code_of(v2.decrypt(&sealed, b"ctx", None)), 1009);
    assert_eq!(v1.decrypt(&sealed, b"ctx", None).unwrap(), b"data".to_vec());
}

#[test]
fn context_binding() {
    let s = service(1);
    let sealed = s.encrypt(b"data", b"tenantA", Some(b"v1")).unwrap();
    let r = s.decrypt(&sealed, b"tenantB", Some(b"v1"));
    match r {
        Err(CryptoError::ContextValidationFailed { code, .. }) => assert_eq!(code, 1012),
        _ => panic!("expected a failed context check"),
    }
    // A context longer than the whole message cannot be split off.
    assert_eq!(code_of(s.decrypt(&sealed, b"a context longer than the message", Some(b"v1"))), 1011);
    // A context that the message happens to end with passes, and the rest comes out.
    assert_eq!(s.decrypt(&sealed, b"A", Some(b"v1")).unwrap(), b"datatenant".to_vec());
}

#[test]
fn encrypted_with_argon2id_and_context() {
    let master = SecureBytes::random(32).unwrap();
    let salt = SecureBytes::random(32).unwrap();
    let config =
        Config::new(3, 65536, 1, EncryptionAlgorithm::Aes256Gcm, KdfAlgorithm::Argon2, 1);
    let s = CryptoService::with_salt(master.as_slice(), salt.as_slice(), &config).unwrap();
    let sealed = s.encrypt(b"payload", b"tenantA", Some(b"v1")).unwrap();
    assert_eq!(code_of(s.decrypt(&sealed, b"tenantB", Some(b"v1"))), 1012);
    assert_eq!(s.decrypt(&sealed, b"tenantA", Some(b"v1")).unwrap(), b"payload".to_vec());
}

#[test]
fn tampering_is_detected() {
    let s = service(1);
    let sealed = s.encrypt(b"data", b"ctx", Some(b"aad")).unwrap();
    for at in 1..sealed.len() {
        let mut changed = sealed.clone();
        changed[at] ^= 0x80;
        let r = s.decrypt(&changed, b"ctx", Some(b"aad"));
        match r {
            Err(CryptoError::DecryptionFailed { code, message }) => {
                assert_eq!(code, 1010);
                assert_eq!(message, "Decryption operation failed");
            }
            _ => panic!("expected a failed decryption at byte {}", at),
        }
    }
    assert_eq!(code_of(s.decrypt(&sealed, b"ctx", Some(b"other"))), 1010);
    assert_eq!(code_of(s.decrypt(&sealed, b"ctx", None)), 1010);
}

#[test]
fn another_salt_gives_another_key() {
    let a = CryptoService::with_salt(MASTER, SALT, &pbkdf2_config(1)).unwrap();
    let b = CryptoService::with_salt(MASTER, b"another salt of 32 bytes, or so.", &pbkdf2_config(1))
        .unwrap();
    let sealed = a.encrypt(b"data", b"", None).unwrap();
    assert_eq!(code_of(b.decrypt(&sealed, b"", None)), 1010);
    // Two services made from the master key alone draw two salts.
    let c = CryptoService::new(MASTER, &pbkdf2_config(1)).unwrap();
    let d = CryptoService::new(MASTER, &pbkdf2_config(1)).unwrap();
    let sealed = c.encrypt(b"data", b"", None).unwrap();
    assert_eq!(code_of(d.decrypt(&sealed, b"", None)), 1010);
}

#[test]
fn unbind_context_splits_in_order() {
    assert_eq!(unbind_context(b"datactx".to_vec(), b"ctx").unwrap(), b"data".to_vec());
    assert_eq!(unbind_context(b"ctx".to_vec(), b"ctx").unwrap(), Vec::<u8>::new());
    assert_eq!(unbind_context(Vec::new(), b"").unwrap(), Vec::<u8>::new());
    assert_eq!(code_of(unbind_context(b"ct".to_vec(), b"ctx")), 1011);
    assert_eq!(code_of(unbind_context(b"datactx".to_vec(), b"cty")), 1012);
}

#[test]
fn estimate_adds_nonce_tag_and_version() {
    let s = service(1);
    assert_eq!(s.estimate_encrypted_size(0), 29);
    assert_eq!(s.estimate_encrypted_size(100), 129);
    let sealed = s.encrypt(&[0u8; 100], b"", None).unwrap();
    assert_eq!(sealed.len(), 129);
}

#[test]
fn secure_bytes_copy_and_compare() {
    let source = vec![1u8, 2, 3];
    let a = SecureBytes::new(&source);
    let b = SecureBytes::new(&[1, 2, 3]);
    let c = SecureBytes::new(&[1, 2, 4]);
    let d = SecureBytes::new(&[1, 2]);
    assert_eq!(a.data(), source);
    assert_eq!(a.len(), 3);
    assert!(a.ct_eq(&b));
    assert!(!a.ct_eq(&c));
    assert!(!a.ct_eq(&d));
    let r = SecureBytes::random(32).unwrap();
    assert_eq!(r.len(), 32);
    assert_eq!(SecureBytes::random(0).unwrap().len(), 0);
}
