//! Streaming input: chunks that arrive one by one are compressed as they
//! come, or gathered and then unarchived, under the memory limit.

use crate::archive::{checksummed, seal_outcome_fits, Progress};
use crate::batch::{byte_rows, lemma_total_len_grows, total_len};
use crate::checksum::append_footer;
use crate::codec::{compressed, header_fits, CompressionContext};
use crate::config::{ArchiveConfigView, ArchiveFormat};
use crate::driver::{Failure, StreamArchiver};
use crate::entry::ArchiveFile;
use crate::error::ArchiveError;
use crate::kdf::SALT_LEN;
use crate::unarchive::{bytes_fit, files_fit, unarchive_outcome_fits, unarchived_with};
use vstd::prelude::*;

verus! {

/// The chunks of a stream, one after the other.
pub open spec fn joined(chunks: Seq<Seq<u8>>) -> Seq<u8>
    decreases chunks.len(),
{
    if chunks.len() == 0 {
        Seq::empty()
    } else {
        joined(chunks.drop_last()) + chunks.last()
    }
}

/// The chunks of a stream are together as long as the sum of their lengths.
pub proof fn lemma_joined_len(chunks: Seq<Seq<u8>>)
    ensures
        joined(chunks).len() == total_len(chunks),
    decreases chunks.len(),
{
    if chunks.len() > 0 {
        lemma_joined_len(chunks.drop_last());
    }
}

/// The body of the archive of a stream. The ZIP container is refused with
/// 2013 before anything else, since it needs the sizes up front; then an
/// abort is seen, header fields that do not fit are refused with 2011, and
/// a stream larger than the memory limit with 2009.
pub open spec fn stream_body_of(config: ArchiveConfigView, aborted: bool, chunks: Seq<Seq<u8>>) -> Result<
    Seq<u8>,
    Failure,
> {
    if config.archive_format == ArchiveFormat::Zip {
        Err(Failure::Code(2013))
    } else if aborted {
        Err(Failure::Code(2004))
    } else if !header_fits(config) {
        Err(Failure::Code(2011))
    } else if total_len(chunks) > config.memory_limit {
        Err(Failure::Code(2009))
    } else {
        match compressed(config, joined(chunks)) {
            None => Err(Failure::Io),
            Some(stream) => Ok(checksummed(config, stream)),
        }
    }
}

/// A stream that is being compressed: the sink, and the count of bytes that
/// it has taken.
pub struct StreamRun {
    sink: CompressionContext,
    total: usize,
    limit: usize,
}

impl StreamRun {
    /// What the sink has taken.
    pub closed spec fn written_of(&self) -> Seq<u8> {
        self.sink.written_of()
    }

    /// The configuration of the sink.
    pub closed spec fn config_of(&self) -> ArchiveConfigView {
        self.sink.config_of()
    }

    /// The count is the length of what the sink has taken, and within the
    /// memory limit.
    pub closed spec fn wf(&self) -> bool {
        &&& self.sink.wf()
        &&& self.total == self.sink.written_of().len()
        &&& self.limit == self.sink.config_of().memory_limit
        &&& self.total <= self.limit
    }

    /// What has been taken is within the memory limit.
    pub proof fn lemma_within_limit(&self)
        requires
            self.wf(),
        ensures
            self.written_of().len() <= self.config_of().memory_limit,
    {
    }
}

impl StreamArchiver {
    /// Opens the sink for a stream.
    pub fn begin_archive_stream(&self) -> (r: Result<StreamRun, ArchiveError>)
        ensures
            match r {
                Ok(run) => run.wf() && run.written_of() == Seq::<u8>::empty() && run.config_of()
                    == self.config_of() && self.config_of().archive_format != ArchiveFormat::Zip
                    && !self.aborted_of() && header_fits(self.config_of()),
                Err(e) => if self.config_of().archive_format == ArchiveFormat::Zip {
                    e.is_standard(2013)
                } else if self.aborted_of() {
                    e.is_standard(2004)
                } else {
                    !header_fits(self.config_of()) && Failure::Code(2011).fits(e)
                },
            },
    {
        let config = self.config();
        if config.archive_format() == ArchiveFormat::Zip {
            return Err(ArchiveError::standard(2013));
        }
        match self.check_aborted() {
            Ok(()) => {},
            Err(e) => {
                return Err(e);
            },
        }
        let sink = match CompressionContext::new(config) {
            Ok(sink) => sink,
            Err(e) => {
                return Err(e);
            },
        };
        Ok(StreamRun { sink, total: 0, limit: config.memory_limit() })
    }

    /// Takes one chunk of the stream, after a checkpoint. A chunk that
    /// takes the stream past the memory limit is refused with 2009.
    pub fn archive_stream_chunk(&self, run: &mut StreamRun, chunk: &[u8]) -> (r: Result<
        Progress,
        ArchiveError,
    >)
        requires
            old(run).wf(),
        ensures
            final(run).wf(),
            final(run).config_of() == old(run).config_of(),
            match r {
                Ok(progress) => !self.aborted_of()
                    && final(run).written_of() == old(run).written_of() + chunk@
                    && progress.processed == final(run).written_of().len()
                    && progress.total is None,
                Err(e) => final(run).written_of() == old(run).written_of() && if self.aborted_of() {
                    e.is_standard(2004)
                } else {
                    e.is_standard(2009)
                        && old(run).written_of().len() + chunk@.len() > old(run).config_of().memory_limit
                },
            },
    {
        match self.check_aborted() {
            Ok(()) => {},
            Err(e) => {
                return Err(e);
            },
        }
        if chunk.len() > run.limit - run.total {
            return Err(ArchiveError::standard(2009));
        }
        run.sink.write(chunk);
        run.total = run.total + chunk.len();
        Ok(Progress { processed: run.total, total: None })
    }

    /// Ends the compressed stream, after a checkpoint, and tags it.
    pub fn finish_archive_stream(&self, run: StreamRun) -> (r: Result<Vec<u8>, ArchiveError>)
        requires
            run.wf(),
        ensures
            match r {
                Ok(body) => !self.aborted_of() && (compressed(run.config_of(), run.written_of())
                    matches Some(stream) && body@ == checksummed(run.config_of(), stream)),
                Err(e) => if self.aborted_of() {
                    e.is_standard(2004)
                } else {
                    compressed(run.config_of(), run.written_of()) is None && Failure::Io.fits(e)
                },
            },
    {
        match self.check_aborted() {
            Ok(()) => {},
            Err(e) => {
                return Err(e);
            },
        }
        let checksum = run.sink.checksum();
        let mut sink = run.sink;
        sink.flush();
        let mut output = match sink.finish() {
            Ok(output) => output,
            Err(e) => {
                return Err(e);
            },
        };
        if checksum {
            append_footer(&mut output);
        }
        Ok(output)
    }

    /// The body of the archive of a stream whose chunks are `chunks`.
    #[verifier::loop_isolation(false)]
    pub fn archive_stream_body(&self, chunks: &Vec<Vec<u8>>) -> (r: Result<Vec<u8>, ArchiveError>)
        ensures
            bytes_fit(stream_body_of(self.config_of(), self.aborted_of(), byte_rows(chunks@)), r),
    {
        let ghost rows = byte_rows(chunks@);
        let mut run = match self.begin_archive_stream() {
            Ok(run) => run,
            Err(e) => {
                return Err(e);
            },
        };
        let mut i: usize = 0;
        while i < chunks.len()
            invariant
                i <= chunks.len(),
                run.wf(),
                run.config_of() == self.config_of(),
                run.written_of() == joined(rows.take(i as int)),
            decreases chunks.len() - i,
        {
            proof {
                assert(rows.take(i + 1).drop_last() =~= rows.take(i as int));
                assert(rows.take(i + 1).last() == chunks@[i as int]@);
                lemma_joined_len(rows.take(i as int));
                lemma_joined_len(rows.take(i + 1));
                assert(rows.take(i + 1) =~= rows.subrange(0, i + 1));
                lemma_total_len_grows(rows, i + 1);
            }
            match self.archive_stream_chunk(&mut run, chunks[i].as_slice()) {
                Ok(_) => {},
                Err(e) => {
                    return Err(e);
                },
            }
            i += 1;
        }
        proof {
            assert(rows.take(i as int) =~= rows);
            lemma_joined_len(rows);
            run.lemma_within_limit();
        }
        self.finish_archive_stream(run)
    }

    /// Archives a stream whose chunks are `chunks`: the body of the
    /// archive, sealed where the configuration asks for encryption.
    pub fn archive_stream(&self, chunks: &Vec<Vec<u8>>) -> (r: Result<Vec<u8>, ArchiveError>)
        ensures
            match stream_body_of(self.config_of(), self.aborted_of(), byte_rows(chunks@)) {
                Err(failure) => r matches Err(e) && failure.fits(e),
                Ok(body) => seal_outcome_fits(self.config_of(), self.master_key_of(), body, r),
            },
    {
        let body = match self.archive_stream_body(chunks) {
            Ok(body) => body,
            Err(e) => {
                return Err(e);
            },
        };
        self.seal(body)
    }

    /// Gathers one chunk of a stream that is to be unarchived, after a
    /// checkpoint. A chunk that takes the stream past the memory limit is
    /// refused with 2009.
    pub fn gather_chunk(&self, input: &mut Vec<u8>, chunk: &[u8]) -> (r: Result<
        Progress,
        ArchiveError,
    >)
        ensures
            match r {
                Ok(progress) => !self.aborted_of() && final(input)@ == old(input)@ + chunk@
                    && final(input)@.len() <= self.config_of().memory_limit && progress.processed
                    == final(input)@.len() && progress.total is None,
                Err(e) => final(input)@ == old(input)@ && if self.aborted_of() {
                    e.is_standard(2004)
                } else {
                    e.is_standard(2009) && old(input)@.len() + chunk@.len()
                        > self.config_of().memory_limit
                },
            },
    {
        match self.check_aborted() {
            Ok(()) => {},
            Err(e) => {
                return Err(e);
            },
        }
        let limit = self.config().memory_limit();
        if input.len() > limit || chunk.len() > limit - input.len() {
            return Err(ArchiveError::standard(2009));
        }
        input.extend_from_slice(chunk);
        Ok(Progress { processed: input.len(), total: None })
    }

    /// Unarchives a stream whose chunks are `chunks`: the chunks are
    /// gathered under the memory limit, and what they hold together is
    /// unarchived.
    #[verifier::loop_isolation(false)]
    pub fn unarchive_stream(&self, chunks: &Vec<Vec<u8>>, now: u64) -> (r: Result<
        Vec<ArchiveFile>,
        ArchiveError,
    >)
        ensures
            unarchive_outcome_fits(
                self.config_of(),
                self.aborted_of(),
                self.master_key_of(),
                joined(byte_rows(chunks@)),
                now,
                r,
            ),
    {
        let ghost rows = byte_rows(chunks@);
        let ghost zeros = Seq::new(SALT_LEN as nat, |k: int| 0u8);
        match self.check_aborted() {
            Ok(()) => {},
            Err(e) => {
                let r = Err(e);
                proof {
                    assert(files_fit(
                        unarchived_with(
                            self.config_of(),
                            self.aborted_of(),
                            self.master_key_of(),
                            zeros,
                            joined(rows),
                            now,
                        ),
                        r,
                    ));
                }
                return r;
            },
        }
        let mut input: Vec<u8> = Vec::new();
        let mut i: usize = 0;
        while i < chunks.len()
            invariant
                i <= chunks.len(),
                input@ == joined(rows.take(i as int)),
                !self.aborted_of(),
            decreases chunks.len() - i,
        {
            proof {
                assert(rows.take(i + 1).drop_last() =~= rows.take(i as int));
                assert(rows.take(i + 1).last() == chunks@[i as int]@);
                lemma_joined_len(rows.take(i as int));
                lemma_joined_len(rows.take(i + 1));
                lemma_joined_len(rows);
                assert(rows.take(i + 1) =~= rows.subrange(0, i + 1));
                lemma_total_len_grows(rows, i + 1);
            }
            match self.gather_chunk(&mut input, chunks[i].as_slice()) {
                Ok(_) => {},
                Err(e) => {
                    let r = Err(e);
                    proof {
                        assert(files_fit(
                            unarchived_with(
                                self.config_of(),
                                self.aborted_of(),
                                self.master_key_of(),
                                zeros,
                                joined(rows),
                                now,
                            ),
                            r,
                        ));
                    }
                    return r;
                },
            }
            i += 1;
        }
        assert(rows.take(i as int) =~= rows);
        self.unarchive_files(input.as_slice(), now)
    }
}

} // verus!
