//! The reverse path: the input is unsealed, the footer is checked and
//! stripped, the stream is decompressed chunk by chunk, and the packed bytes
//! are unpacked into entries.

use crate::archive::{context_of, Progress};
use crate::checksum::{footer_matches, verify_footer, FOOTER_LEN};
use crate::codec::{decompressed, DecompressionContext};
use crate::config::{ArchiveConfigView, CompressionAlgorithm};
use crate::crypto::{decrypt_outcome_under, service_key, CryptoService};
use crate::driver::{extracted, Failure, StreamArchiver};
use crate::entry::{files_view, ArchiveFile, ArchiveFileView};
use crate::error::ArchiveError;
use crate::kdf::SALT_LEN;
use crate::secure::SecureBytes;
use vstd::prelude::*;
use vstd::slice::{slice_subrange, slice_to_vec};

verus! {

/// Whether a result of entries is what `outcome` describes.
pub open spec fn files_fit(
    outcome: Result<Seq<ArchiveFileView>, Failure>,
    r: Result<Vec<ArchiveFile>, ArchiveError>,
) -> bool {
    match r {
        Ok(files) => outcome == Ok::<Seq<ArchiveFileView>, Failure>(files_view(files@)),
        Err(e) => outcome matches Err(failure) && failure.fits(e),
    }
}

/// Whether a result of bytes is what `outcome` describes.
pub open spec fn bytes_fit(outcome: Result<Seq<u8>, Failure>, r: Result<Vec<u8>, ArchiveError>) -> bool {
    match r {
        Ok(bytes) => outcome == Ok::<Seq<u8>, Failure>(bytes@),
        Err(e) => outcome matches Err(failure) && failure.fits(e),
    }
}

/// The compressed stream of a body. Where the configuration asks for a
/// footer, a body shorter than a footer is refused with 2011 and a footer
/// that does not match with 2007, and the footer is stripped.
pub open spec fn stripped(config: ArchiveConfigView, body: Seq<u8>) -> Result<Seq<u8>, Failure> {
    if !config.checksum {
        Ok(body)
    } else if body.len() < FOOTER_LEN {
        Err(Failure::Code(2011))
    } else if !footer_matches(body) {
        Err(Failure::Code(2007))
    } else {
        Ok(body.take(body.len() - FOOTER_LEN))
    }
}

/// The decompressed stream of a body.
pub open spec fn decoded(config: ArchiveConfigView, body: Seq<u8>) -> Result<Seq<u8>, Failure> {
    match stripped(config, body) {
        Err(failure) => Err(failure),
        Ok(stream) => match decompressed(config, stream) {
            None => Err(Failure::Io),
            Some(bytes) => Ok(bytes),
        },
    }
}

/// The entries of a body. An abort is seen once the stream has been
/// opened.
pub open spec fn opened_body_of(config: ArchiveConfigView, aborted: bool, body: Seq<u8>, now: u64) -> Result<
    Seq<ArchiveFileView>,
    Failure,
> {
    match decoded(config, body) {
        Err(failure) => Err(failure),
        Ok(bytes) => if aborted {
            Err(Failure::Code(2004))
        } else {
            extracted(config, false, bytes, now)
        },
    }
}

/// What unsealing gives under a salt. A configuration without encryption
/// leaves the input as it is. With encryption a master key is required,
/// 2008; a failed context check leaves with its own code, 1012, and every
/// other failure of the encryption layer with 2006.
pub open spec fn unsealed_with(
    config: ArchiveConfigView,
    master_key: Option<Seq<u8>>,
    salt: Seq<u8>,
    data: Seq<u8>,
) -> Result<Seq<u8>, Failure> {
    match config.encryption_config {
        None => Ok(data),
        Some(encryption) => match master_key {
            None => Err(Failure::Code(2008)),
            Some(master) => match service_key(master, salt, encryption) {
                Err(_) => Err(Failure::Code(2006)),
                Ok(key) => match decrypt_outcome_under(
                    encryption.algorithm,
                    key,
                    encryption.key_version,
                    data,
                    context_of(config),
                    config.encryption_aad,
                ) {
                    Ok(body) => Ok(body),
                    Err(code) => if code == 1012 {
                        Err(Failure::Code(1012))
                    } else {
                        Err(Failure::Code(2006))
                    },
                },
            },
        },
    }
}

/// What unarchiving `data` gives under `salt`: an abort is seen first, then
/// an input larger than the memory limit is refused with 2009, then the
/// input is unsealed and its body is opened.
pub open spec fn unarchived_with(
    config: ArchiveConfigView,
    aborted: bool,
    master_key: Option<Seq<u8>>,
    salt: Seq<u8>,
    data: Seq<u8>,
    now: u64,
) -> Result<Seq<ArchiveFileView>, Failure> {
    if aborted {
        Err(Failure::Code(2004))
    } else if data.len() > config.memory_limit {
        Err(Failure::Code(2009))
    } else {
        match unsealed_with(config, master_key, salt, data) {
            Err(failure) => Err(failure),
            Ok(body) => opened_body_of(config, false, body, now),
        }
    }
}

/// Whether `r` is what unarchiving `data` may give. Without encryption, and
/// without a master key, it is determined. With both it is what unarchiving
/// gives under some salt of 32 bytes, or the error of a random source that
/// gave nothing.
pub open spec fn unarchive_outcome_fits(
    config: ArchiveConfigView,
    aborted: bool,
    master_key: Option<Seq<u8>>,
    data: Seq<u8>,
    now: u64,
    r: Result<Vec<ArchiveFile>, ArchiveError>,
) -> bool {
    if config.encryption_config is None || master_key is None {
        files_fit(unarchived_with(config, aborted, master_key, Seq::empty(), data, now), r)
    } else {
        ||| r matches Err(e) && Failure::Code(2006).fits(e)
        ||| exists|salt: Seq<u8>|
            salt.len() == SALT_LEN && files_fit(
                #[trigger] unarchived_with(config, aborted, master_key, salt, data, now),
                r,
            )
    }
}

/// What admitting and unsealing `data` gives under `salt`: an abort is seen
/// first, then an input larger than the memory limit is refused with 2009,
/// then the input is unsealed.
pub open spec fn admitted_body(
    config: ArchiveConfigView,
    aborted: bool,
    master_key: Option<Seq<u8>>,
    salt: Seq<u8>,
    data: Seq<u8>,
) -> Result<Seq<u8>, Failure> {
    if aborted {
        Err(Failure::Code(2004))
    } else if data.len() > config.memory_limit {
        Err(Failure::Code(2009))
    } else {
        unsealed_with(config, master_key, salt, data)
    }
}

/// Whether `r` is what admitting and unsealing `data` may give. Without
/// encryption, and without a master key, it is determined. With both it is
/// what unsealing gives under some salt of 32 bytes, or the error of a
/// random source that gave nothing.
pub open spec fn unseal_outcome_fits(
    config: ArchiveConfigView,
    aborted: bool,
    master_key: Option<Seq<u8>>,
    data: Seq<u8>,
    r: Result<Vec<u8>, ArchiveError>,
) -> bool {
    if config.encryption_config is None || master_key is None {
        bytes_fit(admitted_body(config, aborted, master_key, Seq::empty(), data), r)
    } else {
        ||| r matches Err(e) && Failure::Code(2006).fits(e)
        ||| exists|salt: Seq<u8>|
            salt.len() == SALT_LEN && bytes_fit(
                #[trigger] admitted_body(config, aborted, master_key, salt, data),
                r,
            )
    }
}

/// A stream that is being decompressed: the source, and what has been read
/// out of it so far.
pub struct UnarchiveRun {
    source: DecompressionContext,
    buffer: Vec<u8>,
    input_len: usize,
    finished: bool,
}

impl UnarchiveRun {
    /// Everything that the source gives.
    pub closed spec fn output_of(&self) -> Seq<u8> {
        self.source.output_of()
    }

    /// What has been read so far.
    pub closed spec fn buffered(&self) -> Seq<u8> {
        self.buffer@
    }

    /// Whether a read has found the source empty.
    pub closed spec fn done(&self) -> bool {
        self.finished
    }

    /// The most that one read gives.
    pub closed spec fn chunk_size_of(&self) -> nat {
        self.source.chunk_size_of()
    }

    /// The length of the compressed stream.
    pub closed spec fn input_len_of(&self) -> nat {
        self.input_len as nat
    }

    /// The count of bytes of the compressed stream that the source has
    /// pulled.
    pub closed spec fn pulled_of(&self) -> nat {
        self.source.pulled_of()
    }

    /// Whether the stream is its own output: nothing is decompressed.
    pub closed spec fn stored_of(&self) -> bool {
        self.source.stored_of()
    }

    /// The length of what has been read after one more chunk: a chunk of
    /// the configured size more, or all of the output where less is left.
    pub open spec fn next_len(&self) -> nat {
        if self.output_of().len() - self.buffered().len() < self.chunk_size_of() {
            self.output_of().len()
        } else {
            self.buffered().len() + self.chunk_size_of()
        }
    }

    /// What has been read is the start of what the source gives, and all
    /// of it once a read has found the source empty.
    pub closed spec fn wf(&self) -> bool {
        &&& self.source.wf()
        &&& self.buffer@ == self.source.output_of().take(self.source.offset_of() as int)
        &&& self.source.offset_of() <= self.source.output_of().len()
        &&& self.input_len == self.source.input_len_of()
        &&& self.finished ==> self.buffer@ == self.source.output_of()
    }

    /// What has been read so far is the start of the output.
    pub proof fn lemma_buffered_is_prefix(&self)
        requires
            self.wf(),
        ensures
            self.buffered().len() <= self.output_of().len(),
            self.buffered() == self.output_of().take(self.buffered().len() as int),
            self.done() ==> self.buffered() == self.output_of(),
            self.stored_of() ==> self.pulled_of() == self.buffered().len(),
            self.pulled_of() <= self.input_len_of(),
    {
        if self.source.stored_of() {
            self.source.lemma_stored_pulls_what_is_read();
        }
        self.source.lemma_pulled_within_input();
    }

    /// Whether a read has found the source empty.
    pub fn is_done(&self) -> (done: bool)
        ensures
            done == self.done(),
    {
        self.finished
    }

    /// The length of the compressed stream.
    pub fn input_len(&self) -> (len: usize)
        ensures
            len == self.input_len_of(),
    {
        self.input_len
    }
}

impl StreamArchiver {
    /// Checks and strips the footer of a body.
    pub fn strip_footer(&self, body: Vec<u8>) -> (r: Result<Vec<u8>, ArchiveError>)
        ensures
            bytes_fit(stripped(self.config_of(), body@), r),
    {
        if !self.config().checksum() {
            return Ok(body);
        }
        if body.len() < FOOTER_LEN {
            return Err(ArchiveError::standard(2011));
        }
        if !verify_footer(body.as_slice()) {
            return Err(ArchiveError::standard(2007));
        }
        let stream = slice_to_vec(slice_subrange(body.as_slice(), 0, body.len() - FOOTER_LEN));
        assert(stream@ =~= body@.take(body@.len() - FOOTER_LEN));
        Ok(stream)
    }

    /// Checks and strips the footer of a body and opens the stream.
    pub fn begin_unarchive(&self, body: Vec<u8>) -> (r: Result<UnarchiveRun, ArchiveError>)
        ensures
            match r {
                Ok(run) => decoded(self.config_of(), body@) == Ok::<Seq<u8>, Failure>(
                    run.output_of(),
                ) && run.wf() && !run.done() && run.buffered() == Seq::<u8>::empty()
                    && run.chunk_size_of() == self.config_of().chunk_size && run.stored_of() == (
                self.config_of().algorithm == CompressionAlgorithm::Store),
                Err(e) => decoded(self.config_of(), body@) matches Err(failure) && failure.fits(e),
            },
    {
        let stream = match self.strip_footer(body) {
            Ok(stream) => stream,
            Err(e) => {
                return Err(e);
            },
        };
        let source = match DecompressionContext::new(self.config(), stream.as_slice()) {
            Ok(source) => source,
            Err(e) => {
                return Err(e);
            },
        };
        assert(source.output_of().take(0) =~= Seq::<u8>::empty());
        Ok(UnarchiveRun { source, buffer: Vec::new(), input_len: stream.len(), finished: false })
    }

    /// Reads the next chunk out of the stream, after a checkpoint. A read
    /// that finds the stream empty ends the run.
    pub fn unarchive_chunk(&self, run: &mut UnarchiveRun) -> (r: Result<
        Option<Progress>,
        ArchiveError,
    >)
        requires
            old(run).wf(),
        ensures
            final(run).wf(),
            final(run).output_of() == old(run).output_of(),
            final(run).chunk_size_of() == old(run).chunk_size_of(),
            final(run).input_len_of() == old(run).input_len_of(),
            final(run).stored_of() == old(run).stored_of(),
            r is Err <==> self.aborted_of(),
            match r {
                Ok(None) => final(run).done() && final(run).buffered() == old(run).buffered()
                    && final(run).buffered() == final(run).output_of(),
                Ok(Some(progress)) => final(run).done() == old(run).done()
                    && final(run).buffered().len() > old(run).buffered().len()
                    && final(run).buffered() == old(run).output_of().take(
                    old(run).next_len() as int,
                ) && progress.processed == final(run).pulled_of() && progress.total == Some(
                    old(run).input_len_of() as usize,
                ),
                Err(e) => e.is_standard(2004) && final(run).buffered() == old(run).buffered()
                    && final(run).done() == old(run).done(),
            },
    {
        match self.check_aborted() {
            Ok(()) => {},
            Err(e) => {
                return Err(e);
            },
        }
        let chunk = run.source.read();
        if chunk.len() == 0 {
            run.finished = true;
            assert(run.buffer@ =~= run.source.output_of());
            return Ok(None);
        }
        run.buffer.extend_from_slice(chunk.as_slice());
        assert(run.buffer@ =~= run.source.output_of().take(run.source.offset_of() as int));
        let processed = run.source.consumed();
        Ok(Some(Progress { processed, total: Some(run.input_len) }))
    }

    /// Unpacks what was read out of the stream. `now` is the time that
    /// entries with an unreadable timestamp are given.
    pub fn finish_unarchive(&self, run: UnarchiveRun, now: u64) -> (r: Result<
        Vec<ArchiveFile>,
        ArchiveError,
    >)
        requires
            run.wf(),
            run.done(),
        ensures
            files_fit(extracted(self.config_of(), self.aborted_of(), run.output_of(), now), r),
    {
        self.extract_archive(run.buffer.as_slice(), now)
    }

    /// The entries of a body: the footer is checked and stripped, the
    /// stream is decompressed in chunks of the configured size, and the
    /// packed bytes are unpacked.
    #[verifier::loop_isolation(false)]
    pub fn open_body(&self, body: Vec<u8>, now: u64) -> (r: Result<Vec<ArchiveFile>, ArchiveError>)
        ensures
            files_fit(opened_body_of(self.config_of(), self.aborted_of(), body@, now), r),
    {
        let mut run = match self.begin_unarchive(body) {
            Ok(run) => run,
            Err(e) => {
                return Err(e);
            },
        };
        let ghost start = run;
        loop
            invariant
                run.wf(),
                run.output_of() == start.output_of(),
                run.buffered().len() <= run.output_of().len(),
            decreases run.output_of().len() - run.buffered().len(),
        {
            match self.unarchive_chunk(&mut run) {
                Ok(Some(_)) => {
                    proof {
                        run.lemma_buffered_is_prefix();
                    }
                },
                Ok(None) => {
                    break ;
                },
                Err(e) => {
                    return Err(e);
                },
            }
        }
        self.finish_unarchive(run, now)
    }

    /// Unseals an input under the given salt.
    pub fn unseal_body(&self, data: &[u8], salt: &[u8]) -> (r: Result<Vec<u8>, ArchiveError>)
        ensures
            bytes_fit(unsealed_with(self.config_of(), self.master_key_of(), salt@, data@), r),
    {
        let config = self.config();
        let encryption = match config.encryption_config() {
            Some(encryption) => encryption,
            None => {
                return Ok(slice_to_vec(data));
            },
        };
        let master = match self.master_key() {
            Some(master) => master,
            None => {
                return Err(ArchiveError::standard(2008));
            },
        };
        let service = match CryptoService::with_salt(master.as_slice(), salt, &encryption) {
            Ok(service) => service,
            Err(e) => {
                return Err(ArchiveError::from_crypto(&e));
            },
        };
        let empty: Vec<u8> = Vec::new();
        let context = match config.encryption_context() {
            Some(context) => context.as_slice(),
            None => empty.as_slice(),
        };
        assert(context@ =~= context_of(self.config_of()));
        let aad = match config.encryption_aad() {
            Some(aad) => Some(aad.as_slice()),
            None => None,
        };
        match service.decrypt(data, context, aad) {
            Ok(body) => Ok(body),
            Err(e) => Err(ArchiveError::from_crypto(&e)),
        }
    }

    /// Admits an input under the memory limit, after a checkpoint, and
    /// unseals it. Where the configuration asks for encryption, the key is
    /// derived under a fresh random salt.
    pub fn unseal(&self, data: &[u8]) -> (r: Result<Vec<u8>, ArchiveError>)
        ensures
            unseal_outcome_fits(
                self.config_of(),
                self.aborted_of(),
                self.master_key_of(),
                data@,
                r,
            ),
    {
        let ghost zeros = Seq::new(SALT_LEN as nat, |k: int| 0u8);
        match self.check_aborted() {
            Ok(()) => {},
            Err(e) => {
                let r = Err(e);
                proof {
                    assert(bytes_fit(
                        admitted_body(
                            self.config_of(),
                            self.aborted_of(),
                            self.master_key_of(),
                            zeros,
                            data@,
                        ),
                        r,
                    ));
                }
                return r;
            },
        }
        if data.len() > self.config().memory_limit() {
            let r = Err(ArchiveError::standard(2009));
            proof {
                assert(bytes_fit(
                    admitted_body(
                        self.config_of(),
                        self.aborted_of(),
                        self.master_key_of(),
                        zeros,
                        data@,
                    ),
                    r,
                ));
            }
            return r;
        }
        if self.config().encryption_config().is_none() || self.master_key().is_none() {
            let empty: Vec<u8> = Vec::new();
            return self.unseal_body(data, empty.as_slice());
        }
        let salt = match SecureBytes::random(SALT_LEN) {
            Ok(salt) => salt,
            Err(e) => {
                return Err(ArchiveError::from_crypto(&e));
            },
        };
        let r = self.unseal_body(data, salt.as_slice());
        proof {
            assert(bytes_fit(
                admitted_body(
                    self.config_of(),
                    self.aborted_of(),
                    self.master_key_of(),
                    salt@,
                    data@,
                ),
                r,
            ));
        }
        r
    }

    /// Unarchives `data` under the given salt: the input is admitted under
    /// the memory limit, unsealed, and its body is opened.
    pub fn unarchive_files_with_salt(&self, data: &[u8], salt: &[u8], now: u64) -> (r: Result<
        Vec<ArchiveFile>,
        ArchiveError,
    >)
        ensures
            files_fit(
                unarchived_with(
                    self.config_of(),
                    self.aborted_of(),
                    self.master_key_of(),
                    salt@,
                    data@,
                    now,
                ),
                r,
            ),
    {
        match self.check_aborted() {
            Ok(()) => {},
            Err(e) => {
                return Err(e);
            },
        }
        if data.len() > self.config().memory_limit() {
            return Err(ArchiveError::standard(2009));
        }
        let body = match self.unseal_body(data, salt) {
            Ok(body) => body,
            Err(e) => {
                return Err(e);
            },
        };
        self.open_body(body, now)
    }

    /// Unarchives `data`. Where the configuration asks for encryption, the
    /// key is derived under a fresh random salt.
    pub fn unarchive_files(&self, data: &[u8], now: u64) -> (r: Result<
        Vec<ArchiveFile>,
        ArchiveError,
    >)
        ensures
            unarchive_outcome_fits(
                self.config_of(),
                self.aborted_of(),
                self.master_key_of(),
                data@,
                now,
                r,
            ),
    {
        if self.config().encryption_config().is_none() || self.master_key().is_none() {
            let empty: Vec<u8> = Vec::new();
            return self.unarchive_files_with_salt(data, empty.as_slice(), now);
        }
        let salt = match SecureBytes::random(SALT_LEN) {
            Ok(salt) => salt,
            Err(e) => {
                return Err(ArchiveError::from_crypto(&e));
            },
        };
        let r = self.unarchive_files_with_salt(data, salt.as_slice(), now);
        proof {
            assert(files_fit(
                unarchived_with(
                    self.config_of(),
                    self.aborted_of(),
                    self.master_key_of(),
                    salt@,
                    data@,
                    now,
                ),
                r,
            ));
        }
        r
    }
}

} // verus!
