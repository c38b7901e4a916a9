use archive_pipeline::aead::EncryptionAlgorithm;
use archive_pipeline::config::{
    ArchiveConfig, ArchiveConfigBuilder, ArchiveFormat, CompressionAlgorithm,
};
use archive_pipeline::crypto::Config;
use archive_pipeline::entry::ArchiveFile;
use archive_pipeline::host::{
    archive_files_blob, archive_stream, mime_type, unarchive_files_blob, unarchive_stream,
};
use archive_pipeline::kdf::KdfAlgorithm;

fn with(algorithm: CompressionAlgorithm) -> ArchiveConfig {
    ArchiveConfigBuilder::new().algorithm(algorithm).build().unwrap()
}

fn hello() -> Vec<ArchiveFile> {
    vec![ArchiveFile::new("hello.txt".to_string(), b"Hello, world!\n".to_vec())]
}

#[test]
fn content_types() {
    assert_eq!(mime_type(&with(CompressionAlgorithm::Gzip)), "application/gzip");
    assert_eq!(mime_type(&with(CompressionAlgorithm::Zlib)), "application/zlib");
    assert_eq!(mime_type(&with(CompressionAlgorithm::Deflate)), "application/deflate");
    assert_eq!(mime_type(&with(CompressionAlgorithm::Brotli)), "application/brotli");
    assert_eq!(mime_type(&with(CompressionAlgorithm::Store)), "application/octet-stream");
    let encryption =
        Config::new(1000, 0, 0, EncryptionAlgorithm::Aes256Gcm, KdfAlgorithm::Pbkdf2, 1);
    let sealed = ArchiveConfigBuilder::new().encryption_config(Some(encryption)).build().unwrap();
    assert_eq!(mime_type(&sealed), "application/octet-stream");
}

#[test]
fn blob_round_trip() {
    let blob = archive_files_blob(hello(), with(CompressionAlgorithm::Gzip), false, 0).unwrap();
    assert_eq!(blob.content_type, "application/gzip");
    assert_eq!(&blob.bytes[..3], &[0x1f, 0x8b, 0x08]);
    let files =
        unarchive_files_blob(&blob.bytes, with(CompressionAlgorithm::Gzip), false, 0).unwrap();
    assert_eq!(files[0].name(), "data");
    assert_eq!(files[0].data(), b"Hello, world!\n".to_vec());
}

#[test]
fn stream_entry_points() {
    let chunks = vec![b"Hello, ".to_vec(), b"world!\n".to_vec()];
    let blob = archive_stream(&chunks, with(CompressionAlgorithm::Brotli), false).unwrap();
    assert_eq!(blob.content_type, "application/brotli");
    let files =
        unarchive_stream(&vec![blob.bytes], with(CompressionAlgorithm::Brotli), false, 0).unwrap();
    assert_eq!(files[0].data(), b"Hello, world!\n".to_vec());
    let zip = ArchiveConfigBuilder::new()
        .algorithm(CompressionAlgorithm::Deflate)
        .archive_format(ArchiveFormat::Zip)
        .build()
        .unwrap();
    assert_eq!(archive_stream(&chunks, zip, false).err().unwrap().code(), 2013);
}

#[test]
fn entry_points_see_an_abort_that_has_fired() {
    let r = archive_files_blob(hello(), with(CompressionAlgorithm::Gzip), true, 0);
    assert_eq!(r.err().unwrap().code(), 2004);
    let r = unarchive_files_blob(&[1], with(CompressionAlgorithm::Gzip), true, 0);
    assert_eq!(r.err().unwrap().code(), 2004);
    let r = archive_stream(&Vec::new(), with(CompressionAlgorithm::Gzip), true);
    assert_eq!(r.err().unwrap().code(), 2004);
    let r = unarchive_stream(&Vec::new(), with(CompressionAlgorithm::Gzip), true, 0);
    assert_eq!(r.err().unwrap().code(), 2004);
}

#[test]
fn entry_points_have_no_master_key() {
    let encryption =
        Config::new(1000, 0, 0, EncryptionAlgorithm::Aes256Gcm, KdfAlgorithm::Pbkdf2, 1);
    let sealed = ArchiveConfigBuilder::new().encryption_config(Some(encryption)).build().unwrap();
    assert_eq!(archive_files_blob(hello(), sealed, false, 0).err().unwrap().code(), 2008);
}
