//! The forward path: entries are admitted under the memory limit and
//! packed, the packed bytes are compressed chunk by chunk, the stream is
//! tagged, and the body is sealed.

use crate::aead::NONCE_LEN;
use crate::checksum::{append_footer, tagged};
use crate::codec::{compressed, header_fits, CompressionContext};
use crate::config::ArchiveConfigView;
use crate::crypto::{generate_nonce, sealed_frame_under, service_key, CryptoService};
use crate::driver::{packed, total_size, Failure, StreamArchiver};
use crate::entry::{files_view, ArchiveFile, ArchiveFileView};
use crate::error::ArchiveError;
use crate::kdf::SALT_LEN;
use crate::secure::SecureBytes;
use vstd::prelude::*;
use vstd::slice::slice_subrange;

verus! {

/// How far an operation has come: the bytes processed, and the bytes that
/// there are in all where that is known.
#[derive(Clone, Copy, Debug, PartialEq, Eq)]
pub struct Progress {
    pub processed: usize,
    pub total: Option<usize>,
}

/// The body of an archive: the compressed stream, with its footer where the
/// configuration asks for one.
pub open spec fn checksummed(config: ArchiveConfigView, stream: Seq<u8>) -> Seq<u8> {
    if config.checksum {
        tagged(stream)
    } else {
        stream
    }
}

/// The packed bytes that are admitted to compression: an abort is seen
/// first, then entries that are together larger than the memory limit are
/// refused with 2009, then the entries are packed, then header fields that
/// do not fit are refused with 2011.
pub open spec fn admitted(
    config: ArchiveConfigView,
    aborted: bool,
    files: Seq<ArchiveFileView>,
    now: u64,
) -> Result<Seq<u8>, Failure> {
    if aborted {
        Err(Failure::Code(2004))
    } else if total_size(files) > config.memory_limit {
        Err(Failure::Code(2009))
    } else {
        match packed(config, false, files, now) {
            Err(failure) => Err(failure),
            Ok(bytes) => if header_fits(config) {
                Ok(bytes)
            } else {
                Err(Failure::Code(2011))
            },
        }
    }
}

/// The body of the archive of `files`.
pub open spec fn archive_body_of(
    config: ArchiveConfigView,
    aborted: bool,
    files: Seq<ArchiveFileView>,
    now: u64,
) -> Result<Seq<u8>, Failure> {
    match admitted(config, aborted, files, now) {
        Err(failure) => Err(failure),
        Ok(bytes) => match compressed(config, bytes) {
            None => Err(Failure::Io),
            Some(stream) => Ok(checksummed(config, stream)),
        },
    }
}

/// The context that ciphertexts are bound to: none is the same as empty.
pub open spec fn context_of(config: ArchiveConfigView) -> Seq<u8> {
    match config.encryption_context {
        Some(context) => context,
        None => Seq::empty(),
    }
}

/// What sealing a body gives under a salt and a nonce. A configuration
/// without encryption leaves the body as it is. With encryption a master
/// key is required, 2008; every failure of the encryption layer leaves
/// with 2006.
pub open spec fn sealed_with(
    config: ArchiveConfigView,
    master_key: Option<Seq<u8>>,
    salt: Seq<u8>,
    nonce: Seq<u8>,
    body: Seq<u8>,
) -> Result<Seq<u8>, Failure> {
    match config.encryption_config {
        None => Ok(body),
        Some(encryption) => match master_key {
            None => Err(Failure::Code(2008)),
            Some(master) => match service_key(master, salt, encryption) {
                Err(_) => Err(Failure::Code(2006)),
                Ok(key) => if CryptoService::sealable(
                    body,
                    context_of(config),
                    config.encryption_aad,
                ) {
                    Ok(
                        sealed_frame_under(
                            encryption.algorithm,
                            key,
                            encryption.key_version,
                            nonce,
                            body,
                            context_of(config),
                            config.encryption_aad,
                        ),
                    )
                } else {
                    Err(Failure::Code(2006))
                },
            },
        },
    }
}

/// Whether `r` is what sealing `body` under fresh random values may give.
/// Without encryption it is the body. With encryption and no master key it
/// is the error 2008. Otherwise it is the sealed body for some salt of 32
/// bytes and some nonce of 12, or an error of the encryption layer.
pub open spec fn seal_outcome_fits(
    config: ArchiveConfigView,
    master_key: Option<Seq<u8>>,
    body: Seq<u8>,
    r: Result<Vec<u8>, ArchiveError>,
) -> bool {
    match config.encryption_config {
        None => r matches Ok(out) && out@ == body,
        Some(_) => match master_key {
            None => r matches Err(e) && e.is_standard(2008),
            Some(_) => match r {
                Ok(out) => exists|salt: Seq<u8>, nonce: Seq<u8>|
                    salt.len() == SALT_LEN && nonce.len() == NONCE_LEN && #[trigger] sealed_with(
                        config,
                        master_key,
                        salt,
                        nonce,
                        body,
                    ) == Ok::<Seq<u8>, Failure>(out@),
                Err(e) => Failure::Code(2006).fits(e),
            },
        },
    }
}

/// The sum of the sizes of `files` where that is within `limit`.
pub fn size_within(files: &Vec<ArchiveFile>, limit: usize) -> (total: Option<usize>)
    ensures
        match total {
            Some(n) => n == total_size(files_view(files@)) && n <= limit,
            None => total_size(files_view(files@)) > limit,
        },
{
    let ghost views = files_view(files@);
    let mut total: usize = 0;
    let mut i: usize = 0;
    while i < files.len()
        invariant
            i <= files.len(),
            views == files_view(files@),
            total == total_size(views.take(i as int)),
            total <= limit,
        decreases files.len() - i,
    {
        let len = files[i].len();
        proof {
            assert(views.take(i + 1).drop_last() =~= views.take(i as int));
            assert(views.take(i + 1).last() == files@[i as int]@);
            assert(total_size(views.take(i + 1)) == total + len);
            lemma_total_size_grows(views, i + 1);
        }
        if len > limit - total {
            return None;
        }
        total = total + len;
        i += 1;
    }
    assert(views.take(i as int) =~= views);
    Some(total)
}

/// The sizes of the first entries sum to at most the sizes of all.
pub proof fn lemma_total_size_grows(files: Seq<ArchiveFileView>, n: int)
    requires
        0 <= n <= files.len(),
    ensures
        total_size(files.take(n)) <= total_size(files),
    decreases files.len() - n,
{
    if n < files.len() {
        assert(files.take(n + 1).drop_last() =~= files.take(n));
        lemma_total_size_grows(files, n + 1);
    } else {
        assert(files.take(n) =~= files);
    }
}

/// An archive that is being compressed: the packed bytes, how many of them
/// the codec has been given, and the sink that takes them.
pub struct ArchiveRun {
    packed: Vec<u8>,
    offset: usize,
    total: usize,
    chunk_size: usize,
    sink: CompressionContext,
}

impl ArchiveRun {
    /// The packed bytes.
    pub closed spec fn packed_of(&self) -> Seq<u8> {
        self.packed@
    }

    /// How many of the packed bytes the codec has been given.
    pub closed spec fn offset_of(&self) -> nat {
        self.offset as nat
    }

    /// The sum of the sizes of the entries.
    pub closed spec fn total_of(&self) -> nat {
        self.total as nat
    }

    /// The configuration of the sink.
    pub closed spec fn config_of(&self) -> ArchiveConfigView {
        self.sink.config_of()
    }

    /// The sink has been given the packed bytes up to the offset.
    pub closed spec fn wf(&self) -> bool {
        &&& self.offset <= self.packed@.len()
        &&& self.sink.wf()
        &&& self.sink.written_of() == self.packed@.take(self.offset as int)
        &&& self.chunk_size == self.sink.config_of().chunk_size
        &&& self.chunk_size > 0
    }

    /// The offset after one more chunk: a chunk of the configured size
    /// further, or the end of the packed bytes where less is left.
    pub open spec fn next_offset(&self) -> nat {
        if self.packed_of().len() - self.offset_of() < self.config_of().chunk_size {
            self.packed_of().len()
        } else {
            (self.offset_of() + self.config_of().chunk_size) as nat
        }
    }

    /// Whether every packed byte has been given to the codec.
    pub open spec fn done(&self) -> bool {
        self.offset_of() == self.packed_of().len()
    }

    /// The sum of the sizes of the entries.
    pub fn total_size(&self) -> (total: usize)
        ensures
            total == self.total_of(),
    {
        self.total
    }

    /// Whether every packed byte has been given to the codec.
    pub fn is_done(&self) -> (done: bool)
        requires
            self.wf(),
        ensures
            done == self.done(),
    {
        self.offset >= self.packed.len()
    }
}

impl StreamArchiver {
    /// Admits the entries and packs them. `now` is the time that entries
    /// without a modification time are stamped with.
    pub fn begin_archive(&self, files: Vec<ArchiveFile>, now: u64) -> (r: Result<
        ArchiveRun,
        ArchiveError,
    >)
        ensures
            match r {
                Ok(run) => admitted(self.config_of(), self.aborted_of(), files_view(files@), now)
                    == Ok::<Seq<u8>, Failure>(run.packed_of()) && run.wf() && run.offset_of() == 0
                    && run.total_of() == total_size(files_view(files@)) && run.config_of()
                    == self.config_of(),
                Err(e) => admitted(self.config_of(), self.aborted_of(), files_view(files@), now)
                    matches Err(failure) && failure.fits(e),
            },
    {
        match self.check_aborted() {
            Ok(()) => {},
            Err(e) => {
                return Err(e);
            },
        }
        let config = self.config();
        let total = match size_within(&files, config.memory_limit()) {
            Some(total) => total,
            None => {
                return Err(ArchiveError::standard(2009));
            },
        };
        let packed_bytes = match self.create_archive(files, now) {
            Ok(bytes) => bytes,
            Err(e) => {
                return Err(e);
            },
        };
        let sink = match CompressionContext::new(config) {
            Ok(sink) => sink,
            Err(e) => {
                return Err(e);
            },
        };
        assert(packed_bytes@.take(0) =~= Seq::<u8>::empty());
        Ok(
            ArchiveRun {
                packed: packed_bytes,
                offset: 0,
                total,
                chunk_size: config.chunk_size(),
                sink,
            },
        )
    }

    /// Gives the codec the next chunk of the packed bytes, after a
    /// checkpoint. Nothing happens once every byte has been given.
    pub fn archive_chunk(&self, run: &mut ArchiveRun) -> (r: Result<Option<Progress>, ArchiveError>)
        requires
            old(run).wf(),
        ensures
            final(run).wf(),
            final(run).packed_of() == old(run).packed_of(),
            final(run).total_of() == old(run).total_of(),
            final(run).config_of() == old(run).config_of(),
            r is Err <==> !old(run).done() && self.aborted_of(),
            match r {
                Ok(None) => old(run).done() && final(run).offset_of() == old(run).offset_of(),
                Ok(Some(progress)) => final(run).offset_of() > old(run).offset_of()
                    && final(run).offset_of() == old(run).next_offset() && progress.processed
                    == final(run).offset_of() && progress.total == Some(
                    old(run).total_of() as usize,
                ),
                Err(e) => e.is_standard(2004) && final(run).offset_of() == old(run).offset_of(),
            },
    {
        if run.offset >= run.packed.len() {
            return Ok(None);
        }
        match self.check_aborted() {
            Ok(()) => {},
            Err(e) => {
                return Err(e);
            },
        }
        let left = run.packed.len() - run.offset;
        let take = if left < run.chunk_size {
            left
        } else {
            run.chunk_size
        };
        let chunk = slice_subrange(run.packed.as_slice(), run.offset, run.offset + take);
        run.sink.write(chunk);
        assert(run.packed@.take(run.offset as int) + chunk@ =~= run.packed@.take(
            run.offset + take,
        ));
        run.offset = run.offset + take;
        Ok(Some(Progress { processed: run.offset, total: Some(run.total) }))
    }

    /// Ends the compressed stream and tags it.
    pub fn finish_archive(&self, run: ArchiveRun) -> (r: Result<Vec<u8>, ArchiveError>)
        requires
            run.wf(),
            run.done(),
        ensures
            match r {
                Ok(body) => compressed(run.config_of(), run.packed_of()) matches Some(stream)
                    && body@ == checksummed(run.config_of(), stream),
                Err(e) => compressed(run.config_of(), run.packed_of()) is None
                    && Failure::Io.fits(e),
            },
    {
        let checksum = run.sink.checksum();
        let mut sink = run.sink;
        assert(run.packed@.take(run.offset as int) =~= run.packed@);
        sink.flush();
        let mut output = match sink.finish() {
            Ok(output) => output,
            Err(e) => {
                return Err(e);
            },
        };
        if checksum {
            append_footer(&mut output);
        }
        Ok(output)
    }

    /// The body of the archive of `files`: the entries are admitted and
    /// packed, compressed in chunks of the configured size, and tagged.
    pub fn archive_body(&self, files: Vec<ArchiveFile>, now: u64) -> (r: Result<
        Vec<u8>,
        ArchiveError,
    >)
        ensures
            match r {
                Ok(body) => archive_body_of(
                    self.config_of(),
                    self.aborted_of(),
                    files_view(files@),
                    now,
                ) == Ok::<Seq<u8>, Failure>(body@),
                Err(e) => archive_body_of(
                    self.config_of(),
                    self.aborted_of(),
                    files_view(files@),
                    now,
                ) matches Err(failure) && failure.fits(e),
            },
    {
        let mut run = match self.begin_archive(files, now) {
            Ok(run) => run,
            Err(e) => {
                return Err(e);
            },
        };
        let ghost start = run;
        loop
            invariant
                run.wf(),
                !self.aborted_of(),
                run.packed_of() == start.packed_of(),
                run.config_of() == start.config_of(),
            ensures
                run.wf(),
                run.done(),
                run.packed_of() == start.packed_of(),
                run.config_of() == start.config_of(),
            decreases run.packed_of().len() - run.offset_of(),
        {
            match self.archive_chunk(&mut run) {
                Ok(Some(_)) => {},
                Ok(None) => {
                    break ;
                },
                Err(e) => {
                    return Err(e);
                },
            }
        }
        self.finish_archive(run)
    }

    /// Seals a body under the given salt and nonce.
    pub fn seal_body(&self, body: Vec<u8>, salt: &[u8], nonce: &[u8]) -> (r: Result<
        Vec<u8>,
        ArchiveError,
    >)
        requires
            nonce@.len() == NONCE_LEN,
        ensures
            match r {
                Ok(out) => sealed_with(
                    self.config_of(),
                    self.master_key_of(),
                    salt@,
                    nonce@,
                    body@,
                ) == Ok::<Seq<u8>, Failure>(out@),
                Err(e) => sealed_with(self.config_of(), self.master_key_of(), salt@, nonce@, body@)
                    matches Err(failure) && failure.fits(e),
            },
    {
        let config = self.config();
        let encryption = match config.encryption_config() {
            Some(encryption) => encryption,
            None => {
                return Ok(body);
            },
        };
        let master = match self.master_key() {
            Some(master) => master,
            None => {
                return Err(ArchiveError::standard(2008));
            },
        };
        let service = match CryptoService::with_salt(master.as_slice(), salt, &encryption) {
            Ok(service) => service,
            Err(e) => {
                return Err(ArchiveError::from_crypto(&e));
            },
        };
        let empty: Vec<u8> = Vec::new();
        let context = match config.encryption_context() {
            Some(context) => context.as_slice(),
            None => empty.as_slice(),
        };
        assert(context@ =~= context_of(self.config_of()));
        let aad = match config.encryption_aad() {
            Some(aad) => Some(aad.as_slice()),
            None => None,
        };
        match service.encrypt_with_nonce(nonce, body.as_slice(), context, aad) {
            Ok(out) => Ok(out),
            Err(e) => Err(ArchiveError::from_crypto(&e)),
        }
    }

    /// Seals a body under a fresh random salt and a fresh random nonce. A
    /// configuration without encryption leaves the body as it is, and
    /// nothing is drawn.
    pub fn seal(&self, body: Vec<u8>) -> (r: Result<Vec<u8>, ArchiveError>)
        ensures
            seal_outcome_fits(self.config_of(), self.master_key_of(), body@, r),
    {
        if self.config().encryption_config().is_none() {
            return Ok(body);
        }
        if self.master_key().is_none() {
            return Err(ArchiveError::standard(2008));
        }
        let salt = match SecureBytes::random(SALT_LEN) {
            Ok(salt) => salt,
            Err(e) => {
                return Err(ArchiveError::from_crypto(&e));
            },
        };
        let nonce = match generate_nonce() {
            Ok(nonce) => nonce,
            Err(e) => {
                return Err(ArchiveError::from_crypto(&e));
            },
        };
        let r = self.seal_body(body, salt.as_slice(), nonce.as_slice());
        proof {
            if r is Ok {
                assert(sealed_with(
                    self.config_of(),
                    self.master_key_of(),
                    salt@,
                    nonce@,
                    body@,
                ) == Ok::<Seq<u8>, Failure>(r->Ok_0@));
            }
        }
        r
    }

    /// Archives the entries: the body of the archive, sealed where the
    /// configuration asks for encryption. `now` is the time that entries
    /// without a modification time are stamped with.
    pub fn archive_files(&self, files: Vec<ArchiveFile>, now: u64) -> (r: Result<
        Vec<u8>,
        ArchiveError,
    >)
        ensures
            match archive_body_of(self.config_of(), self.aborted_of(), files_view(files@), now) {
                Err(failure) => r matches Err(e) && failure.fits(e),
                Ok(body) => seal_outcome_fits(self.config_of(), self.master_key_of(), body, r),
            },
    {
        let body = match self.archive_body(files, now) {
            Ok(body) => body,
            Err(e) => {
                return Err(e);
            },
        };
        self.seal(body)
    }
}

} // verus!
