use archive_pipeline::aead::EncryptionAlgorithm;
use archive_pipeline::config::{
    ArchiveConfig, ArchiveConfigBuilder, ArchiveFormat, CompressionAlgorithm, DEFAULT_CHUNK_SIZE,
    MAX_MEMORY_LIMIT,
};
use archive_pipeline::crypto::Config;
use archive_pipeline::error::ArchiveError;
use archive_pipeline::kdf::KdfAlgorithm;

fn code_of(r: Result<ArchiveConfig, ArchiveError>) -> u32 {
    match r {
        Ok(_) => panic!("expected an error"),
        Err(e) => e.code(),
    }
}

#[test]
fn defaults() {
    let config = ArchiveConfig::builder().build().unwrap();
    assert_eq!(config.algorithm(), CompressionAlgorithm::Gzip);
    assert_eq!(config.level(), 6);
    assert_eq!(config.chunk_size(), 65536);
    assert_eq!(config.chunk_size(), DEFAULT_CHUNK_SIZE);
    assert!(!config.checksum());
    assert_eq!(config.memory_limit(), 256 * 1024 * 1024);
    assert_eq!(config.memory_limit(), MAX_MEMORY_LIMIT);
    assert_eq!(config.archive_format(), ArchiveFormat::Single);
    assert!(config.comment().is_none());
    assert!(config.extra().is_none());
    assert!(config.os_code().is_none());
    assert!(config.dict().is_none());
    assert!(config.preset().is_none());
    assert!(config.encryption_config().is_none());
    assert!(config.encryption_context().is_none());
    assert!(config.encryption_aad().is_none());
}

#[test]
fn builder_keeps_what_it_is_given() {
    let encryption =
        Config::new(3, 65536, 1, EncryptionAlgorithm::Aes256Gcm, KdfAlgorithm::Argon2, 2);
    let config = ArchiveConfigBuilder::new()
        .level(11)
        .algorithm(CompressionAlgorithm::Brotli)
        .chunk_size(1)
        .comment(Some("note".to_string()))
        .extra(Some(vec![1, 2]))
        .os_code(Some(3))
        .encryption_config(Some(encryption))
        .encryption_context(Some(b"tenantA".to_vec()))
        .encryption_aad(Some(b"v1".to_vec()))
        .checksum(true)
        .memory_limit(Some(1024))
        .preset(Some("fast".to_string()))
        .dict(Some(vec![9]))
        .archive_format(ArchiveFormat::Zip)
        .build()
        .unwrap();
    assert_eq!(config.level(), 11);
    assert_eq!(config.algorithm(), CompressionAlgorithm::Brotli);
    assert_eq!(config.chunk_size(), 1);
    assert_eq!(config.comment(), &Some("note".to_string()));
    assert_eq!(config.extra(), &Some(vec![1, 2]));
    assert_eq!(config.os_code(), Some(3));
    assert_eq!(config.encryption_config().unwrap().key_version, 2);
    assert_eq!(config.encryption_context(), &Some(b"tenantA".to_vec()));
    assert_eq!(config.encryption_aad(), &Some(b"v1".to_vec()));
    assert!(config.checksum());
    assert_eq!(config.memory_limit(), 1024);
    assert_eq!(config.preset(), &Some("fast".to_string()));
    assert_eq!(config.dict(), &Some(vec![9]));
    assert_eq!(config.archive_format(), ArchiveFormat::Zip);
}

#[test]
fn zero_chunk_size_is_rejected() {
    assert_eq!(code_of(ArchiveConfigBuilder::new().chunk_size(0).build()), 2001);
    match ArchiveConfigBuilder::new().chunk_size(0).build() {
        Err(ArchiveError::InvalidChunkSize { .. }) => {}
        _ => panic!("expected an invalid chunk size"),
    }
}

#[test]
fn memory_limit_is_capped() {
    assert!(ArchiveConfigBuilder::new().memory_limit(Some(MAX_MEMORY_LIMIT)).build().is_ok());
    let over = ArchiveConfigBuilder::new().memory_limit(Some(MAX_MEMORY_LIMIT + 1)).build();
    match over {
        Err(ArchiveError::MemoryLimitExceeded { code, .. }) => assert_eq!(code, 2009),
        _ => panic!("expected a memory limit error"),
    }
    assert!(ArchiveConfigBuilder::new().memory_limit(Some(0)).build().is_ok());
}

#[test]
fn level_ranges() {
    for algorithm in
        [CompressionAlgorithm::Gzip, CompressionAlgorithm::Zlib, CompressionAlgorithm::Deflate]
    {
        assert!(ArchiveConfigBuilder::new().algorithm(algorithm).level(0).build().is_ok());
        assert!(ArchiveConfigBuilder::new().algorithm(algorithm).level(9).build().is_ok());
        assert_eq!(code_of(ArchiveConfigBuilder::new().algorithm(algorithm).level(10).build()), 2002);
        assert_eq!(code_of(ArchiveConfigBuilder::new().algorithm(algorithm).level(-1).build()), 2002);
    }
    let brotli = CompressionAlgorithm::Brotli;
    assert!(ArchiveConfigBuilder::new().algorithm(brotli).level(0).build().is_ok());
    assert!(ArchiveConfigBuilder::new().algorithm(brotli).level(11).build().is_ok());
    assert_eq!(code_of(ArchiveConfigBuilder::new().algorithm(brotli).level(12).build()), 2002);
    let store = CompressionAlgorithm::Store;
    assert!(ArchiveConfigBuilder::new().algorithm(store).build().is_ok());
    assert!(ArchiveConfigBuilder::new().algorithm(store).level(6).build().is_ok());
    assert_eq!(code_of(ArchiveConfigBuilder::new().algorithm(store).level(5).build()), 2002);
    assert_eq!(code_of(ArchiveConfigBuilder::new().algorithm(store).level(0).build()), 2002);
}

#[test]
fn first_broken_rule_wins() {
    let all = ArchiveConfigBuilder::new()
        .chunk_size(0)
        .memory_limit(Some(MAX_MEMORY_LIMIT + 1))
        .level(99)
        .build();
    assert_eq!(code_of(all), 2001);
    let two = ArchiveConfigBuilder::new().memory_limit(Some(MAX_MEMORY_LIMIT + 1)).level(99).build();
    assert_eq!(code_of(two), 2009);
}
