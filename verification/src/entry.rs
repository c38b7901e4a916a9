//! Archive entries: a named blob with optional metadata.

use crate::checksum::{checksum_of, crc32};
use vstd::prelude::*;
use vstd::slice::slice_to_vec;

verus! {

/// `bytes::Bytes`, which holds the bytes of an entry; what it holds is
/// named by `bytes_contents`.
#[verifier::external_type_specification]
#[verifier::external_body]
pub struct ExBytes(bytes::Bytes);

/// The bytes that a `bytes::Bytes` holds.
pub uninterp spec fn bytes_contents(buffer: bytes::Bytes) -> Seq<u8>;

/// `Bytes::from` on a vector: the buffer holds the bytes of the vector.
#[verifier::external_body]
fn bytes_from_vec(data: Vec<u8>) -> (buffer: bytes::Bytes)
    ensures
        bytes_contents(buffer) == data@,
{
    bytes::Bytes::from(data)
}

/// `Deref::deref` of `Bytes`: the slice of the bytes that the buffer holds.
#[verifier::external_body]
fn bytes_as_slice(buffer: &bytes::Bytes) -> (slice: &[u8])
    ensures
        slice@ == bytes_contents(*buffer),
{
    &buffer[..]
}

/// What an entry holds.
pub struct ArchiveFileView {
    pub name: Seq<char>,
    pub data: Seq<u8>,
    pub modified_time: Option<u64>,
    pub permissions: Option<u32>,
    pub checksum: Option<u32>,
}

impl ArchiveFileView {
    /// Whether the recorded checksum, where there is one, is the CRC-32 of
    /// the data.
    pub open spec fn intact(&self) -> bool {
        match self.checksum {
            Some(expected) => crc32(self.data) == expected,
            None => true,
        }
    }
}

/// One entry of an archive: a name, the bytes, and optionally the time of
/// the last modification in seconds since the Unix epoch, POSIX permissions,
/// and the CRC-32 of the bytes.
pub struct ArchiveFile {
    name: String,
    data: bytes::Bytes,
    modified_time: Option<u64>,
    permissions: Option<u32>,
    checksum: Option<u32>,
}

impl View for ArchiveFile {
    type V = ArchiveFileView;

    closed spec fn view(&self) -> ArchiveFileView {
        ArchiveFileView {
            name: self.name@,
            data: bytes_contents(self.data),
            modified_time: self.modified_time,
            permissions: self.permissions,
            checksum: self.checksum,
        }
    }
}

/// What a list of entries holds.
pub open spec fn files_view(files: Seq<ArchiveFile>) -> Seq<ArchiveFileView> {
    files.map_values(|file: ArchiveFile| file@)
}

impl ArchiveFile {
    /// An entry made at ingress: no metadata yet, and the CRC-32 of the
    /// bytes recorded.
    pub fn new(name: String, data: Vec<u8>) -> (file: ArchiveFile)
        ensures
            file@ == (ArchiveFileView {
                name: name@,
                data: data@,
                modified_time: None,
                permissions: None,
                checksum: Some(crc32(data@)),
            }),
    {
        let sum = checksum_of(data.as_slice());
        ArchiveFile {
            name,
            data: bytes_from_vec(data),
            modified_time: None,
            permissions: None,
            checksum: Some(sum),
        }
    }

    /// An entry read back from an archive: metadata as it was found, and no
    /// checksum recorded.
    pub fn extracted(
        name: String,
        data: Vec<u8>,
        modified_time: Option<u64>,
        permissions: Option<u32>,
    ) -> (file: ArchiveFile)
        ensures
            file@ == (ArchiveFileView {
                name: name@,
                data: data@,
                modified_time,
                permissions,
                checksum: None,
            }),
    {
        ArchiveFile { name, data: bytes_from_vec(data), modified_time, permissions, checksum: None }
    }

    /// A copy of the name.
    pub fn name(&self) -> (name: String)
        ensures
            name@ == self@.name,
    {
        self.name.clone()
    }

    /// A copy of the bytes.
    pub fn data(&self) -> (data: Vec<u8>)
        ensures
            data@ == self@.data,
    {
        slice_to_vec(bytes_as_slice(&self.data))
    }

    /// The bytes, borrowed.
    pub fn as_slice(&self) -> (data: &[u8])
        ensures
            data@ == self@.data,
    {
        bytes_as_slice(&self.data)
    }

    /// The name, borrowed.
    pub fn name_str(&self) -> (name: &str)
        ensures
            name@ == self@.name,
    {
        self.name.as_str()
    }

    /// The number of bytes.
    pub fn len(&self) -> (n: usize)
        ensures
            n == self@.data.len(),
    {
        bytes_as_slice(&self.data).len()
    }

    /// The time of the last modification.
    pub fn modified_time(&self) -> (mtime: Option<u64>)
        ensures
            mtime == self@.modified_time,
    {
        self.modified_time
    }

    /// The POSIX permissions.
    pub fn permissions(&self) -> (permissions: Option<u32>)
        ensures
            permissions == self@.permissions,
    {
        self.permissions
    }

    /// The recorded checksum.
    pub fn checksum(&self) -> (checksum: Option<u32>)
        ensures
            checksum == self@.checksum,
    {
        self.checksum
    }

    /// Sets or clears the time of the last modification.
    pub fn set_modified_time(&mut self, mtime: Option<u64>)
        ensures
            final(self)@ == (ArchiveFileView { modified_time: mtime, ..old(self)@ }),
    {
        self.modified_time = mtime;
    }

    /// Sets or clears the POSIX permissions.
    pub fn set_permissions(&mut self, permissions: Option<u32>)
        ensures
            final(self)@ == (ArchiveFileView { permissions, ..old(self)@ }),
    {
        self.permissions = permissions;
    }

    /// Whether the recorded checksum, where there is one, is the CRC-32 of
    /// the bytes.
    pub fn verify_checksum(&self) -> (ok: bool)
        ensures
            ok == self@.intact(),
    {
        match self.checksum {
            Some(expected) => checksum_of(bytes_as_slice(&self.data)) == expected,
            None => true,
        }
    }
}

} // verus!
