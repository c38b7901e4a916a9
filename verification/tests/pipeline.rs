use archive_pipeline::aead::EncryptionAlgorithm;
use archive_pipeline::archive::Progress;
use archive_pipeline::checksum::checksum_of;
use archive_pipeline::config::{
    ArchiveConfig, ArchiveConfigBuilder, ArchiveFormat, CompressionAlgorithm,
};
use archive_pipeline::crypto::Config;
use archive_pipeline::driver::StreamArchiver;
use archive_pipeline::entry::ArchiveFile;
use archive_pipeline::error::ArchiveError;
use archive_pipeline::kdf::KdfAlgorithm;
use archive_pipeline::secure::SecureBytes;

const NOW: u64 = 1_600_000_000;
const MASTER: &[u8] = b"0123456789abcdef0123456789abcdef";
const SALT: &[u8] = b"fedcba9876543210fedcba9876543210";
const NONCE: &[u8] = &[1, 2, 3, 4, 5, 6, 7, 8, 9, 10, 11, 12];

fn config(algorithm: CompressionAlgorithm, level: i32, checksum: bool) -> ArchiveConfig {
    ArchiveConfigBuilder::new().algorithm(algorithm).level(level).checksum(checksum).build().unwrap()
}

fn hello() -> Vec<ArchiveFile> {
    vec![ArchiveFile::new("hello.txt".to_string(), b"Hello, world!\n".to_vec())]
}

fn code_of<T>(r: Result<T, ArchiveError>) -> u32 {
    match r {
        Ok(_) => panic!("expected an error"),
        Err(e) => e.code(),
    }
}

fn sample(len: usize) -> Vec<u8> {
    (0..len).map(|i| (i * 31 % 251) as u8).collect()
}

#[test]
fn plain_gzip_round_trip() {
    let archiver = StreamArchiver::new(config(CompressionAlgorithm::Gzip, 6, false));
    let out = archiver.archive_files(hello(), NOW).unwrap();
    assert_eq!(&out[..3], &[0x1f, 0x8b, 0x08]);
    let files = archiver.unarchive_files(&out, NOW).unwrap();
    assert_eq!(files.len(), 1);
    assert_eq!(files[0].name(), "data");
    assert_eq!(files[0].data(), b"Hello, world!\n".to_vec());
    assert_eq!(files[0].modified_time(), None);
    assert_eq!(files[0].permissions(), None);
    assert_eq!(files[0].checksum(), None);
}

#[test]
fn every_algorithm_round_trips_with_and_without_footer() {
    let data = sample(200_000);
    for (algorithm, level) in [
        (CompressionAlgorithm::Store, 6),
        (CompressionAlgorithm::Gzip, 0),
        (CompressionAlgorithm::Gzip, 9),
        (CompressionAlgorithm::Zlib, 1),
        (CompressionAlgorithm::Deflate, 6),
        (CompressionAlgorithm::Brotli, 0),
        (CompressionAlgorithm::Brotli, 5),
    ] {
        for checksum in [false, true] {
            let archiver = StreamArchiver::new(config(algorithm, level, checksum));
            let out = archiver
                .archive_files(vec![ArchiveFile::new("f".to_string(), data.clone())], NOW)
                .unwrap();
            let files = archiver.unarchive_files(&out, NOW).unwrap();
            assert_eq!(files.len(), 1);
            assert_eq!(files[0].name(), "data");
            assert_eq!(files[0].data(), data);
        }
    }
}

#[test]
fn store_is_the_identity_and_the_footer_is_the_crc() {
    let plain = StreamArchiver::new(config(CompressionAlgorithm::Store, 6, false));
    assert_eq!(plain.archive_files(hello(), NOW).unwrap(), b"Hello, world!\n".to_vec());
    let tagged = StreamArchiver::new(config(CompressionAlgorithm::Store, 6, true));
    let out = tagged.archive_files(hello(), NOW).unwrap();
    assert_eq!(&out[..14], b"Hello, world!\n");
    assert_eq!(&out[14..], &checksum_of(b"Hello, world!\n").to_le_bytes());
    assert_eq!(&out[14..], &[0x18, 0xa7, 0x55, 0x7b]);
}

#[test]
fn codecs_write_their_own_framing() {
    let zlib = StreamArchiver::new(config(CompressionAlgorithm::Zlib, 6, false));
    let out = zlib.archive_files(hello(), NOW).unwrap();
    assert_eq!(out[0], 0x78);
    let deflate = StreamArchiver::new(config(CompressionAlgorithm::Deflate, 6, false));
    let raw = deflate.archive_files(hello(), NOW).unwrap();
    assert_ne!(raw, b"Hello, world!\n".to_vec());
    // A zlib stream is the raw stream between a two-byte header and a four-byte trailer.
    assert_eq!(&out[2..out.len() - 4], &raw[..]);
    let brotli = StreamArchiver::new(config(CompressionAlgorithm::Brotli, 11, false));
    let b = brotli.archive_files(hello(), NOW).unwrap();
    assert_ne!(b, raw);
    assert_ne!(b, b"Hello, world!\n".to_vec());
    // Each codec refuses the stream of another.
    assert!(zlib.unarchive_files(&b, NOW).is_err());
    assert!(brotli.unarchive_files(&out, NOW).is_err());
}

#[test]
fn gzip_header_holds_comment_extra_and_os() {
    let config = ArchiveConfigBuilder::new()
        .comment(Some("note".to_string()))
        .extra(Some(vec![b'A', b'B', 0x01, 0x00, 0x7f]))
        .os_code(Some(3))
        .build()
        .unwrap();
    let archiver = StreamArchiver::new(config);
    let out = archiver.archive_files(hello(), NOW).unwrap();
    assert_eq!(&out[..3], &[0x1f, 0x8b, 0x08]);
    // FEXTRA and FCOMMENT are set.
    assert_eq!(out[3], 0x04 | 0x10);
    assert_eq!(out[9], 3);
    assert_eq!(&out[10..12], &[5, 0]);
    assert_eq!(&out[12..17], &[b'A', b'B', 0x01, 0x00, 0x7f]);
    assert_eq!(&out[17..22], b"note\0");
    let files = archiver.unarchive_files(&out, NOW).unwrap();
    assert_eq!(files[0].data(), b"Hello, world!\n".to_vec());
}

#[test]
fn header_fields_that_do_not_fit_are_refused() {
    let with_nul = ArchiveConfigBuilder::new().comment(Some("a\0b".to_string())).build().unwrap();
    let r = StreamArchiver::new(with_nul).archive_files(hello(), NOW);
    match r {
        Err(ArchiveError::InvalidInput { code, .. }) => assert_eq!(code, 2011),
        _ => panic!("expected the comment to be refused"),
    }
    let long = ArchiveConfigBuilder::new().extra(Some(vec![0; 65536])).build().unwrap();
    assert_eq!(code_of(StreamArchiver::new(long).archive_files(hello(), NOW)), 2011);
    let fits = ArchiveConfigBuilder::new().extra(Some(vec![0; 65535])).build().unwrap();
    assert!(StreamArchiver::new(fits).archive_files(hello(), NOW).is_ok());
    let os = ArchiveConfigBuilder::new().os_code(Some(256)).build().unwrap();
    assert_eq!(code_of(StreamArchiver::new(os).archive_files(hello(), NOW)), 2011);
    // Other algorithms have no header.
    let zlib = ArchiveConfigBuilder::new()
        .algorithm(CompressionAlgorithm::Zlib)
        .comment(Some("a\0b".to_string()))
        .build()
        .unwrap();
    assert!(StreamArchiver::new(zlib).archive_files(hello(), NOW).is_ok());
}

#[test]
fn zip_deflate_two_entries() {
    let config = ArchiveConfigBuilder::new()
        .algorithm(CompressionAlgorithm::Deflate)
        .archive_format(ArchiveFormat::Zip)
        .build()
        .unwrap();
    let archiver = StreamArchiver::new(config);
    let mut a = ArchiveFile::new("a".to_string(), b"AAAA".to_vec());
    let mut b = ArchiveFile::new("b".to_string(), b"BBBB".to_vec());
    a.set_modified_time(Some(1_700_000_000));
    b.set_modified_time(Some(1_700_000_000));
    b.set_permissions(Some(0o600));
    let packed = archiver
        .create_archive(
            vec![
                ArchiveFile::new("a".to_string(), b"AAAA".to_vec()),
                ArchiveFile::new("b".to_string(), b"BBBB".to_vec()),
            ],
            NOW,
        )
        .unwrap();
    assert_eq!(&packed[..4], b"PK\x03\x04");
    let out = archiver.archive_files(vec![a, b], NOW).unwrap();
    let files = archiver.unarchive_files(&out, NOW).unwrap();
    assert_eq!(files.len(), 2);
    assert_eq!(files[0].name(), "a");
    assert_eq!(files[0].data(), b"AAAA".to_vec());
    assert_eq!(files[1].name(), "b");
    assert_eq!(files[1].data(), b"BBBB".to_vec());
    // The stamp of 1_700_000_000 is 2033-11-22 22:13:20: November, as the time itself.
    assert_eq!(files[0].modified_time(), Some(2_016_310_400));
    assert_eq!(files[1].modified_time(), Some(2_016_310_400));
    assert_eq!(files[0].permissions(), Some(0o100644));
    assert_eq!(files[1].permissions(), Some(0o100600));
    assert_eq!(files[0].checksum(), None);
}

#[test]
fn zip_image_is_a_zip_archive() {
    let config = ArchiveConfigBuilder::new()
        .algorithm(CompressionAlgorithm::Store)
        .archive_format(ArchiveFormat::Zip)
        .build()
        .unwrap();
    let archiver = StreamArchiver::new(config);
    let packed = archiver
        .create_archive(vec![ArchiveFile::new("name.txt".to_string(), b"body".to_vec())], NOW)
        .unwrap();
    // Local file header signature, and the end of central directory record.
    assert_eq!(&packed[..4], b"PK\x03\x04");
    assert_eq!(&packed[packed.len() - 22..packed.len() - 18], b"PK\x05\x06");
    // Stored: name and body stand in the clear.
    assert_eq!(&packed[30..38], b"name.txt");
    assert_eq!(&packed[38..42], b"body");
    // With nothing compressed on top, the archive is the packed bytes.
    let out = archiver
        .archive_files(vec![ArchiveFile::new("name.txt".to_string(), b"body".to_vec())], NOW)
        .unwrap();
    assert_eq!(out, packed);
    let files = archiver.extract_archive(&packed, NOW).unwrap();
    assert_eq!(files.len(), 1);
    assert_eq!(files[0].name(), "name.txt");
    assert_eq!(files[0].data(), b"body".to_vec());
}

#[test]
fn zip_stamps_entries_without_a_time_with_now() {
    let config = ArchiveConfigBuilder::new()
        .algorithm(CompressionAlgorithm::Store)
        .archive_format(ArchiveFormat::Zip)
        .build()
        .unwrap();
    let archiver = StreamArchiver::new(config);
    // 86_400 * 31 + 7_200 is 1980-02-01 02:00:00 by the count of the format.
    let out = archiver
        .archive_files(vec![ArchiveFile::new("a".to_string(), Vec::new())], 86_400 * 31 + 7_200)
        .unwrap();
    let files = archiver.unarchive_files(&out, 5).unwrap();
    assert_eq!(files[0].modified_time(), Some(315_532_800 + 86_400 * 31 + 7_200));
}

#[test]
fn zip_takes_no_entry_and_many() {
    let config = ArchiveConfigBuilder::new()
        .algorithm(CompressionAlgorithm::Deflate)
        .archive_format(ArchiveFormat::Zip)
        .checksum(true)
        .build()
        .unwrap();
    let archiver = StreamArchiver::new(config);
    let out = archiver.archive_files(Vec::new(), NOW).unwrap();
    assert!(archiver.unarchive_files(&out, NOW).unwrap().is_empty());
    let many: Vec<ArchiveFile> =
        (0..50).map(|i| ArchiveFile::new(format!("dir/file-{}", i), sample(i * 100))).collect();
    let out = archiver.archive_files(many, NOW).unwrap();
    let files = archiver.unarchive_files(&out, NOW).unwrap();
    assert_eq!(files.len(), 50);
    for (i, file) in files.iter().enumerate() {
        assert_eq!(file.name(), format!("dir/file-{}", i));
        assert_eq!(file.data(), sample(i * 100));
    }
}

#[test]
fn zip_takes_only_deflate_and_store() {
    for algorithm in
        [CompressionAlgorithm::Gzip, CompressionAlgorithm::Zlib, CompressionAlgorithm::Brotli]
    {
        let config = ArchiveConfigBuilder::new()
            .algorithm(algorithm)
            .archive_format(ArchiveFormat::Zip)
            .build()
            .unwrap();
        let r = StreamArchiver::new(config).archive_files(hello(), NOW);
        match r {
            Err(ArchiveError::UnsupportedAlgorithm { code, .. }) => assert_eq!(code, 2003),
            _ => panic!("expected the pairing to be refused"),
        }
    }
}

#[test]
fn zip_refuses_what_is_no_archive() {
    let config = ArchiveConfigBuilder::new()
        .algorithm(CompressionAlgorithm::Store)
        .archive_format(ArchiveFormat::Zip)
        .build()
        .unwrap();
    let archiver = StreamArchiver::new(config);
    assert_eq!(code_of(archiver.unarchive_files(b"not a zip archive at all", NOW)), 2005);
    assert_eq!(code_of(archiver.extract_archive(&[], NOW)), 2005);
}

#[test]
fn without_a_container_exactly_one_entry() {
    let archiver = StreamArchiver::new(config(CompressionAlgorithm::Gzip, 6, false));
    match archiver.archive_files(Vec::new(), NOW) {
        Err(ArchiveError::InvalidArchiveFormat { code, .. }) => assert_eq!(code, 2014),
        _ => panic!("expected no entry to be refused"),
    }
    let two = vec![
        ArchiveFile::new("a".to_string(), Vec::new()),
        ArchiveFile::new("b".to_string(), Vec::new()),
    ];
    assert_eq!(code_of(archiver.archive_files(two, NOW)), 2014);
}

#[test]
fn brotli_with_checksum_detects_a_flipped_byte() {
    let archiver = StreamArchiver::new(config(CompressionAlgorithm::Brotli, 11, true));
    let out = archiver.archive_files(hello(), NOW).unwrap();
    assert_eq!(archiver.unarchive_files(&out, NOW).unwrap()[0].data(), b"Hello, world!\n".to_vec());
    let mut flipped = out.clone();
    let last = flipped.len() - 1;
    flipped[last] ^= 0xff;
    match archiver.unarchive_files(&flipped, NOW) {
        Err(ArchiveError::ChecksumMismatch { code, .. }) => assert_eq!(code, 2007),
        _ => panic!("expected a checksum mismatch"),
    }
    for at in 0..out.len() {
        let mut changed = out.clone();
        changed[at] ^= 0x01;
        assert_eq!(code_of(archiver.unarchive_files(&changed, NOW)), 2007);
    }
}

#[test]
fn checksum_needs_four_bytes() {
    let archiver = StreamArchiver::new(config(CompressionAlgorithm::Store, 6, true));
    match archiver.unarchive_files(&[1, 2, 3], NOW) {
        Err(ArchiveError::InvalidInput { code, .. }) => assert_eq!(code, 2011),
        _ => panic!("expected the input to be refused"),
    }
    let files = archiver.unarchive_files(&[0, 0, 0, 0], NOW).unwrap();
    assert!(files[0].data().is_empty());
}

#[test]
fn corrupted_stream_is_an_io_failure() {
    let archiver = StreamArchiver::new(config(CompressionAlgorithm::Gzip, 6, false));
    let r = archiver.unarchive_files(b"this is no gzip member", NOW);
    let code = code_of(r);
    assert!(code == 2005 || code == 2011 || code == 2012);
    let mut out = archiver.archive_files(hello(), NOW).unwrap();
    // The trailer of a gzip member holds the CRC-32 of the data.
    let at = out.len() - 6;
    out[at] ^= 0xff;
    let code = code_of(archiver.unarchive_files(&out, NOW));
    assert!(code == 2005 || code == 2011 || code == 2012);
}

#[test]
fn memory_guard() {
    let config = ArchiveConfigBuilder::new().memory_limit(Some(100)).build().unwrap();
    let archiver = StreamArchiver::new(config);
    let over = vec![ArchiveFile::new("f".to_string(), vec![0; 101])];
    match archiver.archive_files(over, NOW) {
        Err(ArchiveError::MemoryLimitExceeded { code, .. }) => assert_eq!(code, 2009),
        _ => panic!("expected the input to be refused"),
    }
    let at = vec![ArchiveFile::new("f".to_string(), vec![0; 100])];
    assert!(archiver.archive_files(at, NOW).is_ok());
    assert_eq!(code_of(archiver.unarchive_files(&[0; 101], NOW)), 2009);
    // The guard counts the entries together, and comes before the entry count.
    let many = vec![
        ArchiveFile::new("a".to_string(), vec![0; 60]),
        ArchiveFile::new("b".to_string(), vec![0; 41]),
    ];
    assert_eq!(code_of(archiver.archive_files(many, NOW)), 2009);
}

#[test]
fn abort_before_the_first_chunk() {
    let mut archiver = StreamArchiver::new(config(CompressionAlgorithm::Gzip, 6, false));
    archiver.abort();
    match archiver.archive_files(hello(), NOW) {
        Err(ArchiveError::OperationAborted { code, .. }) => assert_eq!(code, 2004),
        _ => panic!("expected the operation to be aborted"),
    }
    assert_eq!(code_of(archiver.unarchive_files(&[1, 2, 3], NOW)), 2004);
    assert_eq!(code_of(archiver.archive_stream(&vec![vec![1]])), 2004);
    assert_eq!(code_of(archiver.unarchive_stream(&vec![vec![1]], NOW)), 2004);
    assert_eq!(code_of(archiver.check_aborted()), 2004);
}

#[test]
fn abort_before_the_second_chunk() {
    let config = ArchiveConfigBuilder::new().chunk_size(65536).build().unwrap();
    let mut archiver = StreamArchiver::new(config);
    let input = vec![ArchiveFile::new("big".to_string(), sample(1024 * 1024))];
    let mut run = archiver.begin_archive(input, NOW).unwrap();
    let first = archiver.archive_chunk(&mut run).unwrap();
    assert_eq!(first, Some(Progress { processed: 65536, total: Some(1024 * 1024) }));
    archiver.abort();
    match archiver.archive_chunk(&mut run) {
        Err(ArchiveError::OperationAborted { code, .. }) => assert_eq!(code, 2004),
        _ => panic!("expected the operation to be aborted"),
    }
    assert!(!run.is_done());
}

#[test]
fn chunks_are_windows_of_the_configured_size() {
    let config = ArchiveConfigBuilder::new().chunk_size(1000).build().unwrap();
    let archiver = StreamArchiver::new(config);
    let data = sample(2500);
    let input = vec![ArchiveFile::new("f".to_string(), data.clone())];
    let mut run = archiver.begin_archive(input, NOW).unwrap();
    let mut seen = Vec::new();
    while let Some(progress) = archiver.archive_chunk(&mut run).unwrap() {
        seen.push(progress.processed);
        assert_eq!(progress.total, Some(2500));
    }
    assert_eq!(seen, vec![1000, 2000, 2500]);
    assert!(run.is_done());
    assert_eq!(archiver.archive_chunk(&mut run).unwrap(), None);
    let body = archiver.finish_archive(run).unwrap();
    // Stepping gives what the single call gives.
    let whole =
        archiver.archive_files(vec![ArchiveFile::new("f".to_string(), data.clone())], NOW).unwrap();
    assert_eq!(body, whole);

    let mut back = archiver.begin_unarchive(body).unwrap();
    let mut reads = 0;
    while let Some(progress) = archiver.unarchive_chunk(&mut back).unwrap() {
        reads += 1;
        assert!(progress.processed <= whole.len());
        assert_eq!(progress.total, Some(whole.len()));
    }
    assert_eq!(reads, 3);
    assert!(back.is_done());
    let files = archiver.finish_unarchive(back, NOW).unwrap();
    assert_eq!(files[0].data(), data);
}

#[test]
fn abort_while_unarchiving() {
    let config = ArchiveConfigBuilder::new()
        .algorithm(CompressionAlgorithm::Store)
        .chunk_size(4)
        .build()
        .unwrap();
    let mut archiver = StreamArchiver::new(config);
    let mut run = archiver.begin_unarchive(b"0123456789".to_vec()).unwrap();
    let first = archiver.unarchive_chunk(&mut run).unwrap();
    assert_eq!(first, Some(Progress { processed: 4, total: Some(10) }));
    archiver.abort();
    assert_eq!(code_of(archiver.unarchive_chunk(&mut run)), 2004);
    assert!(!run.is_done());
}

#[test]
fn encryption_needs_a_master_key() {
    let encryption =
        Config::new(1000, 0, 0, EncryptionAlgorithm::Aes256Gcm, KdfAlgorithm::Pbkdf2, 1);
    let config = ArchiveConfigBuilder::new().encryption_config(Some(encryption)).build().unwrap();
    let archiver = StreamArchiver::new(config);
    match archiver.archive_files(hello(), NOW) {
        Err(ArchiveError::InvalidMasterKey { code, .. }) => assert_eq!(code, 2008),
        _ => panic!("expected the master key to be asked for"),
    }
    assert_eq!(code_of(archiver.unarchive_files(&[0; 64], NOW)), 2008);
}

fn encrypted(context: &[u8], key_version: u32) -> StreamArchiver {
    let encryption =
        Config::new(1000, 0, 0, EncryptionAlgorithm::Aes256Gcm, KdfAlgorithm::Pbkdf2, key_version);
    let config = ArchiveConfigBuilder::new()
        .encryption_config(Some(encryption))
        .encryption_context(Some(context.to_vec()))
        .encryption_aad(Some(b"v1".to_vec()))
        .checksum(true)
        .build()
        .unwrap();
    let mut archiver = StreamArchiver::new(config);
    archiver.set_master_key(SecureBytes::new(MASTER));
    archiver
}

#[test]
fn encrypted_gzip_round_trip_under_one_salt() {
    let archiver = encrypted(b"tenantA", 1);
    let body = archiver.archive_body(hello(), NOW).unwrap();
    assert_eq!(&body[..3], &[0x1f, 0x8b, 0x08]);
    let out = archiver.seal_body(body.clone(), SALT, NONCE).unwrap();
    assert_eq!(out[0], 1);
    assert_eq!(&out[1..13], NONCE);
    assert_eq!(out.len(), 13 + body.len() + 7 + 16);
    let files = archiver.unarchive_files_with_salt(&out, SALT, NOW).unwrap();
    assert_eq!(files.len(), 1);
    assert_eq!(files[0].data(), b"Hello, world!\n".to_vec());
    assert_eq!(archiver.unseal_body(&out, SALT).unwrap(), body);
}

#[test]
fn encrypted_gzip_with_context() {
    let master = SecureBytes::random(32).unwrap();
    let salt = SecureBytes::random(32).unwrap();
    let with_context = |context: &[u8]| {
        let encryption =
            Config::new(3, 65536, 1, EncryptionAlgorithm::Aes256Gcm, KdfAlgorithm::Argon2, 1);
        let config = ArchiveConfigBuilder::new()
            .algorithm(CompressionAlgorithm::Gzip)
            .encryption_config(Some(encryption))
            .encryption_context(Some(context.to_vec()))
            .encryption_aad(Some(b"v1".to_vec()))
            .build()
            .unwrap();
        let mut archiver = StreamArchiver::new(config);
        archiver.set_master_key(SecureBytes::new(master.as_slice()));
        archiver
    };
    let tenant_a = with_context(b"tenantA");
    let body = tenant_a.archive_body(hello(), NOW).unwrap();
    let out = tenant_a.seal_body(body, salt.as_slice(), NONCE).unwrap();
    match with_context(b"tenantB").unarchive_files_with_salt(&out, salt.as_slice(), NOW) {
        Err(e) => assert_eq!(e.code(), 1012),
        Ok(_) => panic!("expected a failed context check"),
    }
    let files = tenant_a.unarchive_files_with_salt(&out, salt.as_slice(), NOW).unwrap();
    assert_eq!(files[0].data(), b"Hello, world!\n".to_vec());
}

#[test]
fn encrypted_archive_is_bound_to_its_context() {
    let tenant_a = encrypted(b"tenantA", 1);
    let tenant_b = encrypted(b"tenantB", 1);
    let body = tenant_a.archive_body(hello(), NOW).unwrap();
    let out = tenant_a.seal_body(body, SALT, NONCE).unwrap();
    match tenant_b.unarchive_files_with_salt(&out, SALT, NOW) {
        Err(ArchiveError::EncryptionError { code, .. }) => assert_eq!(code, 1012),
        _ => panic!("expected a failed context check"),
    }
}

#[test]
fn encrypted_archive_is_bound_to_its_key_version() {
    let v1 = encrypted(b"ctx", 1);
    let v2 = encrypted(b"ctx", 2);
    let body = v1.archive_body(hello(), NOW).unwrap();
    let out = v1.seal_body(body, SALT, NONCE).unwrap();
    match v2.unarchive_files_with_salt(&out, SALT, NOW) {
        Err(ArchiveError::EncryptionError { code, .. }) => assert_eq!(code, 2006),
        _ => panic!("expected the encryption layer to fail"),
    }
}

#[test]
fn encrypted_archive_detects_every_flipped_byte() {
    let archiver = encrypted(b"ctx", 1);
    let body = archiver.archive_body(hello(), NOW).unwrap();
    let out = archiver.seal_body(body, SALT, NONCE).unwrap();
    for at in 0..out.len() {
        let mut changed = out.clone();
        changed[at] ^= 0x01;
        let code = code_of(archiver.unarchive_files_with_salt(&changed, SALT, NOW));
        assert!(code == 2006 || code == 1012);
    }
}

#[test]
fn a_fresh_salt_derives_another_key() {
    let archiver = encrypted(b"ctx", 1);
    let out = archiver.archive_files(hello(), NOW).unwrap();
    assert_eq!(out[0], 1);
    // The salt of the archive is gone, so no later call derives its key.
    assert_eq!(code_of(archiver.unarchive_files(&out, NOW)), 2006);
    assert_eq!(code_of(archiver.unarchive_files_with_salt(&out, SALT, NOW)), 2006);
}

#[test]
fn key_version_above_one_byte_fails_in_the_encryption_layer() {
    let archiver = encrypted(b"ctx", 256);
    assert_eq!(code_of(archiver.archive_files(hello(), NOW)), 2006);
}

#[test]
fn stream_round_trip() {
    let archiver = StreamArchiver::new(config(CompressionAlgorithm::Gzip, 6, true));
    let chunks = vec![b"Hello, ".to_vec(), Vec::new(), b"world!\n".to_vec()];
    let out = archiver.archive_stream(&chunks).unwrap();
    // A stream is archived as the one entry that its chunks make together.
    assert_eq!(out, archiver.archive_files(hello(), NOW).unwrap());
    let halves = vec![out[..10].to_vec(), out[10..].to_vec()];
    let files = archiver.unarchive_stream(&halves, NOW).unwrap();
    assert_eq!(files.len(), 1);
    assert_eq!(files[0].name(), "data");
    assert_eq!(files[0].data(), b"Hello, world!\n".to_vec());
}

#[test]
fn zip_over_stream_is_rejected() {
    let config = ArchiveConfigBuilder::new()
        .algorithm(CompressionAlgorithm::Deflate)
        .archive_format(ArchiveFormat::Zip)
        .build()
        .unwrap();
    let mut archiver = StreamArchiver::new(config);
    match archiver.archive_stream(&vec![vec![1, 2, 3]]) {
        Err(ArchiveError::UnsupportedFeature { code, .. }) => assert_eq!(code, 2013),
        _ => panic!("expected the stream to be refused"),
    }
    assert_eq!(code_of(archiver.begin_archive_stream()), 2013);
    // The container is looked at before the abort flag.
    archiver.abort();
    assert_eq!(code_of(archiver.archive_stream(&Vec::new())), 2013);
}

#[test]
fn stream_is_held_to_the_memory_limit_as_it_grows() {
    let config = ArchiveConfigBuilder::new()
        .algorithm(CompressionAlgorithm::Store)
        .memory_limit(Some(10))
        .build()
        .unwrap();
    let mut archiver = StreamArchiver::new(config);
    let mut run = archiver.begin_archive_stream().unwrap();
    let first = archiver.archive_stream_chunk(&mut run, &[1; 6]).unwrap();
    assert_eq!(first, Progress { processed: 6, total: None });
    assert_eq!(code_of(archiver.archive_stream_chunk(&mut run, &[2; 5])), 2009);
    let second = archiver.archive_stream_chunk(&mut run, &[3; 4]).unwrap();
    assert_eq!(second, Progress { processed: 10, total: None });
    assert_eq!(archiver.finish_archive_stream(run).unwrap(), vec![1, 1, 1, 1, 1, 1, 3, 3, 3, 3]);

    assert_eq!(code_of(archiver.archive_stream(&vec![vec![0; 6], vec![0; 5]])), 2009);
    assert_eq!(code_of(archiver.unarchive_stream(&vec![vec![0; 6], vec![0; 5]], NOW)), 2009);
    let mut input = Vec::new();
    assert_eq!(
        archiver.gather_chunk(&mut input, &[7; 10]).unwrap(),
        Progress { processed: 10, total: None }
    );
    assert_eq!(code_of(archiver.gather_chunk(&mut input, &[7; 1])), 2009);
    assert_eq!(input, vec![7; 10]);
    archiver.abort();
    assert_eq!(code_of(archiver.gather_chunk(&mut input, &[])), 2004);
    let mut run = StreamArchiver::new(
        ArchiveConfigBuilder::new().algorithm(CompressionAlgorithm::Store).build().unwrap(),
    )
    .begin_archive_stream()
    .unwrap();
    assert_eq!(code_of(archiver.archive_stream_chunk(&mut run, &[1])), 2004);
    assert_eq!(code_of(archiver.finish_archive_stream(run)), 2004);
}

#[test]
fn strip_footer_and_open_body() {
    let archiver = StreamArchiver::new(config(CompressionAlgorithm::Store, 6, true));
    let mut body = b"abc".to_vec();
    body.extend_from_slice(&checksum_of(b"abc").to_le_bytes());
    assert_eq!(archiver.strip_footer(body.clone()).unwrap(), b"abc".to_vec());
    assert_eq!(archiver.open_body(body.clone(), NOW).unwrap()[0].data(), b"abc".to_vec());
    body[0] = b'x';
    assert_eq!(code_of(archiver.strip_footer(body)), 2007);
    let plain = StreamArchiver::new(config(CompressionAlgorithm::Store, 6, false));
    assert_eq!(plain.strip_footer(b"abc".to_vec()).unwrap(), b"abc".to_vec());
    assert_eq!(plain.seal(b"abc".to_vec()).unwrap(), b"abc".to_vec());
    assert!(plain.master_key().is_none());
    assert_eq!(plain.config().level(), 6);
}
