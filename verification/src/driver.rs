//! The pipeline driver: entries are packed, compressed in chunks, tagged
//! and sealed, and the reverse. The driver keeps the memory limit and
//! stops at the next checkpoint once it has been told to abort.

use crate::config::{ArchiveConfig, ArchiveConfigView, ArchiveFormat, CompressionAlgorithm};
use crate::container::{
    dos_time, restored_time, unix_time, zip_accepts, zip_entry, zip_entry_count, zip_len, zip_open,
    zip_packed, zip_packer_add, zip_packer_finish, zip_packer_new, zip_pending, zip_read,
    zip_reads_all, zip_source, zip_timestamp, ZipEntrySpec, ZipMemberView, DEFAULT_PERMISSIONS,
};
use crate::entry::{files_view, ArchiveFile, ArchiveFileView};
use crate::error::{is_io_failure, ArchiveError};
use crate::secure::SecureBytes;
use vstd::prelude::*;
use vstd::slice::slice_to_vec;
use vstd::string::*;

verus! {

/// How an operation fails: with a given code, or with one of the three
/// codes that an I/O failure takes.
pub enum Failure {
    Code(u32),
    Io,
}

impl Failure {
    /// Whether `error` is an error of this failure.
    pub open spec fn fits(&self, error: ArchiveError) -> bool {
        match self {
            Failure::Code(code) => error.code_of() == *code && error.kind_fits_code(),
            Failure::Io => is_io_failure(error),
        }
    }
}

/// The name of the entry that comes out where there is no container.
pub open spec fn single_entry_name() -> Seq<char> {
    "data"@
}

/// The sum of the sizes of `files`.
pub open spec fn total_size(files: Seq<ArchiveFileView>) -> nat
    decreases files.len(),
{
    if files.len() == 0 {
        0
    } else {
        total_size(files.drop_last()) + files.last().data.len()
    }
}

/// The entry that the ZIP writer is given for `file`: permissions default
/// to `0o644`, and the timestamp is that of the modification time, or of
/// `now` where there is none.
pub open spec fn entry_of(file: ArchiveFileView, deflated: bool, now: u64) -> ZipEntrySpec {
    ZipEntrySpec {
        name: file.name,
        data: file.data,
        deflated,
        permissions: match file.permissions {
            Some(permissions) => permissions,
            None => DEFAULT_PERMISSIONS,
        },
        modified: dos_time(
            match file.modified_time {
                Some(t) => t,
                None => now,
            },
        ),
    }
}

/// The entries that the ZIP writer is given for `files`.
pub open spec fn entries_of(files: Seq<ArchiveFileView>, deflated: bool, now: u64) -> Seq<
    ZipEntrySpec,
> {
    files.map_values(|file: ArchiveFileView| entry_of(file, deflated, now))
}

/// What packing gives. Without a container there must be exactly one entry,
/// and its bytes are the result. The ZIP container takes deflate and
/// store; an abort is seen before the first entry.
pub open spec fn packed(
    config: ArchiveConfigView,
    aborted: bool,
    files: Seq<ArchiveFileView>,
    now: u64,
) -> Result<Seq<u8>, Failure> {
    match config.archive_format {
        ArchiveFormat::Single => if files.len() != 1 {
            Err(Failure::Code(2014))
        } else {
            Ok(files[0].data)
        },
        ArchiveFormat::Zip => if config.algorithm != CompressionAlgorithm::Deflate
            && config.algorithm != CompressionAlgorithm::Store {
            Err(Failure::Code(2003))
        } else if aborted && files.len() > 0 {
            Err(Failure::Code(2004))
        } else {
            match zip_packed(
                entries_of(files, config.algorithm == CompressionAlgorithm::Deflate, now),
            ) {
                Some(bytes) => Ok(bytes),
                None => Err(Failure::Io),
            }
        },
    }
}

/// The entry that comes out of a ZIP member: the time is the timestamp read
/// as universal time, or `now` where the timestamp is no moment of the
/// calendar; no checksum is recorded.
pub open spec fn restored(member: ZipMemberView, now: u64) -> ArchiveFileView {
    ArchiveFileView {
        name: member.name,
        data: member.data,
        modified_time: Some(restored_time(member.modified, now)),
        permissions: member.mode,
        checksum: None,
    }
}

/// The one entry that comes out where there is no container.
pub open spec fn single_entry(data: Seq<u8>) -> ArchiveFileView {
    ArchiveFileView {
        name: single_entry_name(),
        data,
        modified_time: None,
        permissions: None,
        checksum: None,
    }
}

/// What unpacking gives. An abort is seen before the first member.
pub open spec fn extracted(config: ArchiveConfigView, aborted: bool, data: Seq<u8>, now: u64) -> Result<
    Seq<ArchiveFileView>,
    Failure,
> {
    match config.archive_format {
        ArchiveFormat::Single => Ok(seq![single_entry(data)]),
        ArchiveFormat::Zip => match zip_entry_count(data) {
            None => Err(Failure::Io),
            Some(count) => if aborted && count > 0 {
                Err(Failure::Code(2004))
            } else if zip_reads_all(data, count) {
                Ok(Seq::new(count, |i: int| restored(zip_entry(data, i as nat)->Some_0, now)))
            } else {
                Err(Failure::Io)
            },
        },
    }
}

/// Drives the pipeline for one configuration.
pub struct StreamArchiver {
    config: ArchiveConfig,
    master_key: Option<SecureBytes>,
    aborted: bool,
}

impl StreamArchiver {
    /// The configuration.
    pub closed spec fn config_of(&self) -> ArchiveConfigView {
        self.config@
    }

    /// Whether the driver has been told to abort.
    pub closed spec fn aborted_of(&self) -> bool {
        self.aborted
    }

    /// The master key, where one is set.
    pub closed spec fn master_key_of(&self) -> Option<Seq<u8>> {
        match self.master_key {
            Some(key) => Some(key@),
            None => None,
        }
    }

    /// A driver without a master key that has not been told to abort.
    pub fn new(config: ArchiveConfig) -> (archiver: StreamArchiver)
        ensures
            archiver.config_of() == config@,
            !archiver.aborted_of(),
            archiver.master_key_of() is None,
    {
        StreamArchiver { config, master_key: None, aborted: false }
    }

    /// Sets the master key from which the encryption layer derives its key.
    pub fn set_master_key(&mut self, key: SecureBytes)
        ensures
            final(self).master_key_of() == Some(key@),
            final(self).config_of() == old(self).config_of(),
            final(self).aborted_of() == old(self).aborted_of(),
    {
        self.master_key = Some(key);
    }

    /// Tells the driver to abort: every checkpoint from now on fails.
    pub fn abort(&mut self)
        ensures
            final(self).aborted_of(),
            final(self).config_of() == old(self).config_of(),
            final(self).master_key_of() == old(self).master_key_of(),
    {
        self.aborted = true;
    }

    /// The configuration.
    pub fn config(&self) -> (config: &ArchiveConfig)
        ensures
            config@ == self.config_of(),
            config@.wf(),
    {
        proof {
            use_type_invariant(&self.config);
        }
        &self.config
    }

    /// The master key, where one is set.
    pub fn master_key(&self) -> (key: &Option<SecureBytes>)
        ensures
            match *key {
                Some(k) => self.master_key_of() == Some(k@),
                None => self.master_key_of() is None,
            },
    {
        &self.master_key
    }

    /// A checkpoint: fails once the driver has been told to abort.
    pub fn check_aborted(&self) -> (r: Result<(), ArchiveError>)
        ensures
            r is Err <==> self.aborted_of(),
            r matches Err(e) ==> e.is_standard(2004),
    {
        if self.aborted {
            Err(ArchiveError::standard(2004))
        } else {
            Ok(())
        }
    }

    /// Packs the entries into one byte buffer. `now` is the time that
    /// entries without a modification time are stamped with.
    #[verifier::loop_isolation(false)]
    pub fn create_archive(&self, files: Vec<ArchiveFile>, now: u64) -> (r: Result<
        Vec<u8>,
        ArchiveError,
    >)
        ensures
            match r {
                Ok(bytes) => packed(self.config_of(), self.aborted_of(), files_view(files@), now)
                    == Ok::<Seq<u8>, Failure>(bytes@),
                Err(e) => packed(self.config_of(), self.aborted_of(), files_view(files@), now)
                    matches Err(failure) && failure.fits(e),
            },
    {
        match self.config.archive_format() {
            ArchiveFormat::Single => {
                if files.len() != 1 {
                    return Err(ArchiveError::standard(2014));
                }
                Ok(files[0].data())
            },
            ArchiveFormat::Zip => {
                let deflated = match self.config.algorithm() {
                    CompressionAlgorithm::Deflate => true,
                    CompressionAlgorithm::Store => false,
                    _ => {
                        return Err(ArchiveError::standard(2003));
                    },
                };
                let ghost entries = entries_of(files_view(files@), deflated, now);
                let mut packer = zip_packer_new();
                let mut i: usize = 0;
                while i < files.len()
                    invariant
                        i <= files.len(),
                        entries == entries_of(files_view(files@), deflated, now),
                        zip_pending(packer) == entries.take(i as int),
                        forall|j: int|
                            0 <= j < i ==> zip_accepts(#[trigger] entries.take(j), entries[j]),
                        i > 0 ==> !self.aborted_of(),
                    decreases files.len() - i,
                {
                    match self.check_aborted() {
                        Ok(()) => {},
                        Err(e) => {
                            return Err(e);
                        },
                    }
                    let file = &files[i];
                    let mtime = match file.modified_time() {
                        Some(t) => t,
                        None => now,
                    };
                    let permissions = match file.permissions() {
                        Some(permissions) => permissions,
                        None => DEFAULT_PERMISSIONS,
                    };
                    let stamp = zip_timestamp(mtime);
                    assert(entries[i as int] == (ZipEntrySpec {
                        name: file@.name,
                        data: file@.data,
                        deflated,
                        permissions,
                        modified: stamp,
                    }));
                    match zip_packer_add(
                        &mut packer,
                        file.name_str(),
                        file.as_slice(),
                        deflated,
                        permissions,
                        stamp,
                    ) {
                        Ok(()) => {},
                        Err(e) => {
                            return Err(ArchiveError::from_io(&e));
                        },
                    }
                    assert(entries.take(i as int).push(entries[i as int]) =~= entries.take(
                        i + 1,
                    ));
                    i += 1;
                }
                assert(entries.take(i as int) =~= entries);
                match zip_packer_finish(packer) {
                    Ok(bytes) => Ok(bytes),
                    Err(e) => Err(ArchiveError::from_io(&e)),
                }
            },
        }
    }

    /// Unpacks a byte buffer into entries. `now` is the time that entries
    /// with an unreadable timestamp are given.
    #[verifier::loop_isolation(false)]
    pub fn extract_archive(&self, data: &[u8], now: u64) -> (r: Result<
        Vec<ArchiveFile>,
        ArchiveError,
    >)
        ensures
            match r {
                Ok(files) => extracted(self.config_of(), self.aborted_of(), data@, now) == Ok::<
                    Seq<ArchiveFileView>,
                    Failure,
                >(files_view(files@)),
                Err(e) => extracted(self.config_of(), self.aborted_of(), data@, now)
                    matches Err(failure) && failure.fits(e),
            },
    {
        let mut files: Vec<ArchiveFile> = Vec::new();
        match self.config.archive_format() {
            ArchiveFormat::Single => {
                files.push(
                    ArchiveFile::extracted("data".to_string(), slice_to_vec(data), None, None),
                );
                assert(files_view(files@) =~= seq![single_entry(data@)]);
                Ok(files)
            },
            ArchiveFormat::Zip => {
                let mut archive = match zip_open(slice_to_vec(data)) {
                    Ok(archive) => archive,
                    Err(e) => {
                        return Err(ArchiveError::from_io(&e));
                    },
                };
                let count = zip_len(&archive);
                let mut i: usize = 0;
                while i < count
                    invariant
                        i <= count,
                        zip_source(archive) == data@,
                        zip_entry_count(data@) == Some(count as nat),
                        files@.len() == i,
                        forall|j: nat|
                            j < i ==> (#[trigger] zip_entry(data@, j)) is Some && files@[j as int]@
                                == restored(zip_entry(data@, j)->Some_0, now),
                        i > 0 ==> !self.aborted_of(),
                    decreases count - i,
                {
                    match self.check_aborted() {
                        Ok(()) => {},
                        Err(e) => {
                            return Err(e);
                        },
                    }
                    let member = match zip_read(&mut archive, i) {
                        Ok(member) => member,
                        Err(e) => {
                            assert(!zip_reads_all(data@, count as nat)) by {
                                assert(zip_entry(data@, i as nat) is None);
                            }
                            return Err(ArchiveError::from_io(&e));
                        },
                    };
                    let mtime = unix_time(member.modified, now);
                    files.push(
                        ArchiveFile::extracted(member.name, member.data, Some(mtime), member.mode),
                    );
                    i += 1;
                }
                assert(zip_reads_all(data@, count as nat));
                assert(files_view(files@) =~= Seq::new(
                    count as nat,
                    |i: int| restored(zip_entry(data@, i as nat)->Some_0, now),
                ));
                Ok(files)
            },
        }
    }
}

} // verus!
