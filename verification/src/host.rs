//! One-call entry points for a host: a driver is made for the call, told to
//! abort where the host's abort source has fired, and run once. The output
//! of an archive comes with its content type.

use crate::archive::archive_body_of;
use crate::batch::byte_rows;
use crate::config::{ArchiveConfig, ArchiveConfigView, CompressionAlgorithm};
use crate::driver::{Failure, StreamArchiver};
use crate::entry::{files_view, ArchiveFile};
use crate::error::ArchiveError;
use crate::streaming::{joined, stream_body_of};
use crate::unarchive::unarchive_outcome_fits;
use vstd::prelude::*;
use vstd::string::*;

verus! {

/// The content type of the output of `config`: that of the compression
/// algorithm, and `application/octet-stream` where nothing is compressed
/// or the output is encrypted.
pub open spec fn mime_of(config: ArchiveConfigView) -> Seq<char> {
    if config.encryption_config is Some {
        "application/octet-stream"@
    } else {
        match config.algorithm {
            CompressionAlgorithm::Gzip => "application/gzip"@,
            CompressionAlgorithm::Zlib => "application/zlib"@,
            CompressionAlgorithm::Deflate => "application/deflate"@,
            CompressionAlgorithm::Brotli => "application/brotli"@,
            CompressionAlgorithm::Store => "application/octet-stream"@,
        }
    }
}

/// The content type of the output of `config`.
pub fn mime_type(config: &ArchiveConfig) -> (mime: &'static str)
    ensures
        mime@ == mime_of(config@),
{
    if config.encryption_config().is_some() {
        return "application/octet-stream";
    }
    match config.algorithm() {
        CompressionAlgorithm::Gzip => "application/gzip",
        CompressionAlgorithm::Zlib => "application/zlib",
        CompressionAlgorithm::Deflate => "application/deflate",
        CompressionAlgorithm::Brotli => "application/brotli",
        CompressionAlgorithm::Store => "application/octet-stream",
    }
}

/// Bytes with their content type.
pub struct TypedBlob {
    pub bytes: Vec<u8>,
    pub content_type: String,
}

/// Whether `r` is what archiving gives through an entry point: the outcome
/// of sealing `body` without a master key, with the content type of the
/// configuration.
pub open spec fn blob_fits(
    config: ArchiveConfigView,
    body: Result<Seq<u8>, Failure>,
    r: Result<TypedBlob, ArchiveError>,
) -> bool {
    match body {
        Err(failure) => r matches Err(e) && failure.fits(e),
        Ok(bytes) => match config.encryption_config {
            None => r matches Ok(blob) && blob.bytes@ == bytes && blob.content_type@ == mime_of(
                config,
            ),
            Some(_) => r matches Err(e) && e.is_standard(2008),
        },
    }
}

fn driver_for(config: ArchiveConfig, aborted: bool) -> (archiver: StreamArchiver)
    ensures
        archiver.config_of() == config@,
        archiver.aborted_of() == aborted,
        archiver.master_key_of() is None,
{
    let mut archiver = StreamArchiver::new(config);
    if aborted {
        archiver.abort();
    }
    archiver
}

fn typed(archiver: &StreamArchiver, bytes: Vec<u8>) -> (blob: TypedBlob)
    ensures
        blob.bytes@ == bytes@,
        blob.content_type@ == mime_of(archiver.config_of()),
{
    TypedBlob { bytes, content_type: String::from_str(mime_type(archiver.config())) }
}

/// Archives the entries in one call. No master key is set, so a
/// configuration that asks for encryption fails with 2008 once the body
/// has been made.
pub fn archive_files_blob(
    files: Vec<ArchiveFile>,
    config: ArchiveConfig,
    aborted: bool,
    now: u64,
) -> (r: Result<TypedBlob, ArchiveError>)
    ensures
        blob_fits(config@, archive_body_of(config@, aborted, files_view(files@), now), r),
{
    let archiver = driver_for(config, aborted);
    match archiver.archive_files(files, now) {
        Ok(bytes) => Ok(typed(&archiver, bytes)),
        Err(e) => Err(e),
    }
}

/// Unarchives the bytes of a blob in one call.
pub fn unarchive_files_blob(data: &[u8], config: ArchiveConfig, aborted: bool, now: u64) -> (r:
    Result<Vec<ArchiveFile>, ArchiveError>)
    ensures
        unarchive_outcome_fits(config@, aborted, None, data@, now, r),
{
    let archiver = driver_for(config, aborted);
    archiver.unarchive_files(data, now)
}

/// Archives a stream in one call.
pub fn archive_stream(chunks: &Vec<Vec<u8>>, config: ArchiveConfig, aborted: bool) -> (r: Result<
    TypedBlob,
    ArchiveError,
>)
    ensures
        blob_fits(config@, stream_body_of(config@, aborted, byte_rows(chunks@)), r),
{
    let archiver = driver_for(config, aborted);
    match archiver.archive_stream(chunks) {
        Ok(bytes) => Ok(typed(&archiver, bytes)),
        Err(e) => Err(e),
    }
}

/// Unarchives a stream in one call.
pub fn unarchive_stream(chunks: &Vec<Vec<u8>>, config: ArchiveConfig, aborted: bool, now: u64) -> (r:
    Result<Vec<ArchiveFile>, ArchiveError>)
    ensures
        unarchive_outcome_fits(config@, aborted, None, joined(byte_rows(chunks@)), now, r),
{
    let archiver = driver_for(config, aborted);
    archiver.unarchive_stream(chunks, now)
}

} // verus!
