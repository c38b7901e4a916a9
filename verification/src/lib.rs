//! A client-side archival pipeline. Named byte blobs are packed into one
//! buffer, as a single entry or as a ZIP container; the buffer is compressed
//! in chunks by gzip, zlib, deflate or brotli, or stored as it is; the
//! stream may be tagged with a CRC-32 footer and sealed with AES-GCM under
//! a key derived from a master key. The reverse path undoes each layer in
//! mirror order.
//!
//! The driver keeps a memory limit and polls an abort flag at every
//! checkpoint. Where a host wants to be told of progress between chunks, it
//! runs the steps of the driver itself; the single calls run them in a
//! loop.

pub mod aead;
pub mod archive;
pub mod batch;
pub mod checksum;
pub mod codec;
pub mod config;
pub mod container;
pub mod crypto;
pub mod driver;
pub mod entry;
pub mod error;
pub mod host;
pub mod kdf;
pub mod laws;
pub mod secure;
pub mod stream;
pub mod streaming;
pub mod text;
pub mod unarchive;

pub use crate::aead::EncryptionAlgorithm;
pub use crate::archive::{ArchiveRun, Progress};
pub use crate::batch::BatchResult;
pub use crate::config::{ArchiveConfig, ArchiveConfigBuilder, ArchiveFormat, CompressionAlgorithm};
pub use crate::crypto::{Config, CryptoService};
pub use crate::driver::StreamArchiver;
pub use crate::entry::ArchiveFile;
pub use crate::error::{ArchiveError, CryptoError};
pub use crate::host::{
    archive_files_blob, archive_stream, unarchive_files_blob, unarchive_stream, TypedBlob,
};
pub use crate::kdf::KdfAlgorithm;
pub use crate::secure::SecureBytes;
pub use crate::stream::StreamState;
pub use crate::streaming::StreamRun;
pub use crate::unarchive::UnarchiveRun;
