//! Codec adapters: one byte sink for writing and one byte source for
//! reading over the five algorithms. An adapter holds plain bytes; the
//! codec runs as one call when the sink is finished or the source is
//! opened.

use crate::config::{bytes_view, ArchiveConfig, ArchiveConfigView, CompressionAlgorithm};
use crate::error::{is_io_failure, ArchiveError};
use vstd::prelude::*;
use vstd::slice::{slice_subrange, slice_to_vec};
use vstd::utf8::encode_utf8;

verus! {

/// Largest extra field that a gzip header takes, in bytes.
pub const GZIP_EXTRA_MAX: usize = 65535;

/// Largest value of the operating system byte of a gzip header.
pub const GZIP_OS_MAX: u32 = 255;

/// The gzip member that `flate2` writes for `data` at `level` under a
/// header with the given comment, extra field and operating system byte,
/// or `None` where it fails.
pub uninterp spec fn gzip_stream(
    level: u32,
    comment: Option<Seq<u8>>,
    extra: Option<Seq<u8>>,
    os: Option<u8>,
    data: Seq<u8>,
) -> Option<Seq<u8>>;

/// The zlib stream that `flate2` writes for `data` at `level`, or `None`
/// where it fails.
pub uninterp spec fn zlib_stream(level: u32, data: Seq<u8>) -> Option<Seq<u8>>;

/// The raw deflate stream that `flate2` writes for `data` at `level`, or
/// `None` where it fails.
pub uninterp spec fn deflate_stream(level: u32, data: Seq<u8>) -> Option<Seq<u8>>;

/// The stream that `brotli` writes for `data` at quality `level` with a
/// buffer and a size hint of `chunk_size`, or `None` where it fails.
pub uninterp spec fn brotli_stream(level: i32, chunk_size: usize, data: Seq<u8>) -> Option<
    Seq<u8>,
>;

/// What `flate2` reads out of a gzip member, or `None` where it fails.
pub uninterp spec fn gzip_decoded(input: Seq<u8>) -> Option<Seq<u8>>;

/// What `flate2` reads out of a zlib stream, or `None` where it fails.
pub uninterp spec fn zlib_decoded(input: Seq<u8>) -> Option<Seq<u8>>;

/// What `flate2` reads out of a raw deflate stream, or `None` where it fails.
pub uninterp spec fn deflate_decoded(input: Seq<u8>) -> Option<Seq<u8>>;

/// What `brotli` reads out of a stream with a buffer of `chunk_size`, or
/// `None` where it fails.
pub uninterp spec fn brotli_decoded(chunk_size: usize, input: Seq<u8>) -> Option<Seq<u8>>;

/// The bytes of an optional comment.
pub open spec fn comment_bytes(comment: Option<Seq<char>>) -> Option<Seq<u8>> {
    match comment {
        Some(text) => Some(encode_utf8(text)),
        None => None,
    }
}

/// The operating system byte of an optional code.
pub open spec fn os_byte(os_code: Option<u32>) -> Option<u8> {
    match os_code {
        Some(code) => Some(code as u8),
        None => None,
    }
}

/// Whether the header fields fit a gzip header: no zero byte in the
/// comment, which the header ends with one; an extra field whose length
/// fits two bytes; an operating system code that fits one. Other algorithms
/// have no header and take anything.
pub open spec fn header_fits(config: ArchiveConfigView) -> bool {
    config.algorithm == CompressionAlgorithm::Gzip ==> {
        &&& config.comment matches Some(text) ==> !encode_utf8(text).contains(0u8)
        &&& config.extra matches Some(extra) ==> extra.len() <= GZIP_EXTRA_MAX
        &&& config.os_code matches Some(code) ==> code <= GZIP_OS_MAX
    }
}

/// The compressed stream of `packed` under `config`, or `None` where the
/// codec fails.
pub open spec fn compressed(config: ArchiveConfigView, packed: Seq<u8>) -> Option<Seq<u8>> {
    match config.algorithm {
        CompressionAlgorithm::Store => Some(packed),
        CompressionAlgorithm::Gzip => gzip_stream(
            config.level as u32,
            comment_bytes(config.comment),
            config.extra,
            os_byte(config.os_code),
            packed,
        ),
        CompressionAlgorithm::Zlib => zlib_stream(config.level as u32, packed),
        CompressionAlgorithm::Deflate => deflate_stream(config.level as u32, packed),
        CompressionAlgorithm::Brotli => brotli_stream(config.level, config.chunk_size, packed),
    }
}

/// What the codec of `config` reads out of `input`, or `None` where it
/// fails.
pub open spec fn decompressed(config: ArchiveConfigView, input: Seq<u8>) -> Option<Seq<u8>> {
    match config.algorithm {
        CompressionAlgorithm::Store => Some(input),
        CompressionAlgorithm::Gzip => gzip_decoded(input),
        CompressionAlgorithm::Zlib => zlib_decoded(input),
        CompressionAlgorithm::Deflate => deflate_decoded(input),
        CompressionAlgorithm::Brotli => brotli_decoded(config.chunk_size, input),
    }
}

/// Whether `bytes` holds a zero byte.
pub fn contains_zero(bytes: &[u8]) -> (found: bool)
    ensures
        found == bytes@.contains(0u8),
{
    let mut i: usize = 0;
    while i < bytes.len()
        invariant
            i <= bytes.len(),
            forall|k: int| 0 <= k < i ==> bytes@[k] != 0u8,
        decreases bytes.len() - i,
    {
        if bytes[i] == 0 {
            assert(bytes@[i as int] == 0u8);
            return true;
        }
        i += 1;
    }
    false
}

/// The write side of a codec: a byte sink that gathers what is written and
/// gives the compressed stream when it is finished.
pub struct CompressionContext {
    algorithm: CompressionAlgorithm,
    level: i32,
    chunk_size: usize,
    comment: Option<Vec<u8>>,
    extra: Option<Vec<u8>>,
    os: Option<u8>,
    checksum: bool,
    written: Vec<u8>,
    config: Ghost<ArchiveConfigView>,
}

impl CompressionContext {
    /// The configuration that the sink was made for.
    pub closed spec fn config_of(&self) -> ArchiveConfigView {
        self.config@
    }

    /// What has been written so far.
    pub closed spec fn written_of(&self) -> Seq<u8> {
        self.written@
    }

    /// The sink holds the fields of a valid configuration whose header
    /// fields fit.
    pub closed spec fn wf(&self) -> bool {
        &&& self.config@.wf()
        &&& header_fits(self.config@)
        &&& self.algorithm == self.config@.algorithm
        &&& self.level == self.config@.level
        &&& self.chunk_size == self.config@.chunk_size
        &&& self.checksum == self.config@.checksum
        &&& self.algorithm == CompressionAlgorithm::Gzip ==> {
            &&& bytes_view(self.comment) == comment_bytes(self.config@.comment)
            &&& bytes_view(self.extra) == self.config@.extra
            &&& self.os == os_byte(self.config@.os_code)
        }
    }

    /// A sink for `config`. Fails with 2011 exactly where the header fields
    /// do not fit a gzip header.
    pub fn new(config: &ArchiveConfig) -> (r: Result<CompressionContext, ArchiveError>)
        ensures
            r is Ok <==> header_fits(config@),
            match r {
                Ok(sink) => sink.wf() && sink.config_of() == config@ && sink.written_of()
                    == Seq::<u8>::empty(),
                Err(e) => e is InvalidInput && e.code_of() == 2011,
            },
    {
        let algorithm = config.algorithm();
        let level = config.level();
        let chunk_size = config.chunk_size();
        let mut comment: Option<Vec<u8>> = None;
        let mut extra: Option<Vec<u8>> = None;
        let mut os: Option<u8> = None;
        if algorithm == CompressionAlgorithm::Gzip {
            match config.comment() {
                Some(text) => {
                    let bytes = text.as_str().as_bytes();
                    if contains_zero(bytes) {
                        return Err(header_error());
                    }
                    comment = Some(slice_to_vec(bytes));
                },
                None => {},
            }
            match config.extra() {
                Some(field) => {
                    if field.len() > GZIP_EXTRA_MAX {
                        return Err(header_error());
                    }
                    extra = Some(slice_to_vec(field.as_slice()));
                },
                None => {},
            }
            match config.os_code() {
                Some(code) => {
                    if code > GZIP_OS_MAX {
                        return Err(header_error());
                    }
                    os = Some(code as u8);
                },
                None => {},
            }
        }
        Ok(
            CompressionContext {
                algorithm,
                level,
                chunk_size,
                comment,
                extra,
                os,
                checksum: config.checksum(),
                written: Vec::new(),
                config: Ghost(config@),
            },
        )
    }

    /// Whether the configuration asks for a footer.
    pub fn checksum(&self) -> (checksum: bool)
        requires
            self.wf(),
        ensures
            checksum == self.config_of().checksum,
    {
        self.checksum
    }

    /// Writes all of `buf` to the sink.
    pub fn write(&mut self, buf: &[u8])
        requires
            old(self).wf(),
        ensures
            final(self).wf(),
            final(self).config_of() == old(self).config_of(),
            final(self).written_of() == old(self).written_of() + buf@,
    {
        self.written.extend_from_slice(buf);
    }

    /// Flushes the sink. A sink that gathers has nothing to push on.
    pub fn flush(&mut self)
        requires
            old(self).wf(),
        ensures
            *final(self) == *old(self),
    {
    }

    /// Ends the stream and gives the compressed output, framed as the
    /// algorithm frames it.
    pub fn finish(self) -> (r: Result<Vec<u8>, ArchiveError>)
        requires
            self.wf(),
        ensures
            match r {
                Ok(out) => compressed(self.config_of(), self.written_of()) == Some(out@),
                Err(e) => compressed(self.config_of(), self.written_of()) is None
                    && is_io_failure(e),
            },
    {
        let outcome = match self.algorithm {
            CompressionAlgorithm::Store => {
                return Ok(self.written);
            },
            CompressionAlgorithm::Gzip => gzip_encode(
                self.written.as_slice(),
                self.level as u32,
                &self.comment,
                &self.extra,
                self.os,
            ),
            CompressionAlgorithm::Zlib => zlib_encode(self.written.as_slice(), self.level as u32),
            CompressionAlgorithm::Deflate => deflate_encode(
                self.written.as_slice(),
                self.level as u32,
            ),
            CompressionAlgorithm::Brotli => brotli_encode(
                self.written.as_slice(),
                self.level,
                self.chunk_size,
            ),
        };
        match outcome {
            Ok(out) => Ok(out),
            Err(e) => Err(ArchiveError::from_io(&e)),
        }
    }
}

fn header_error() -> (e: ArchiveError)
    ensures
        e is InvalidInput,
        e.code_of() == 2011,
{
    ArchiveError::invalid_input(2011, "Header fields do not fit a gzip header".to_string())
}

/// The read side of a codec: a byte source over the decompressed stream
/// that counts how much of its input it has pulled.
pub struct DecompressionContext {
    output: Vec<u8>,
    offset: usize,
    chunk_size: usize,
    pulled: usize,
    stored: bool,
    input_len: Ghost<nat>,
}

impl DecompressionContext {
    /// Everything that the source gives, from its first byte.
    pub closed spec fn output_of(&self) -> Seq<u8> {
        self.output@
    }

    /// How much of the output has been read.
    pub closed spec fn offset_of(&self) -> nat {
        self.offset as nat
    }

    /// The most that one read gives.
    pub closed spec fn chunk_size_of(&self) -> nat {
        self.chunk_size as nat
    }

    /// The length of the input.
    pub closed spec fn input_len_of(&self) -> nat {
        self.input_len@
    }

    /// The count of input bytes that the source has pulled: where nothing
    /// is decompressed, as many as have been read; otherwise as many as
    /// the codec took to give its whole output.
    pub closed spec fn pulled_of(&self) -> nat {
        if self.stored {
            self.offset as nat
        } else {
            self.pulled as nat
        }
    }

    /// Whether the output is the input itself.
    pub closed spec fn stored_of(&self) -> bool {
        self.stored
    }

    /// What has been pulled is within the input.
    pub proof fn lemma_pulled_within_input(&self)
        requires
            self.wf(),
        ensures
            self.pulled_of() <= self.input_len_of(),
    {
    }

    /// Where nothing is decompressed, what has been pulled is what has
    /// been read.
    pub proof fn lemma_stored_pulls_what_is_read(&self)
        requires
            self.stored_of(),
        ensures
            self.pulled_of() == self.offset_of(),
    {
    }

    /// The source has read no further than its output goes, gives chunks
    /// that are not empty, and has pulled no more than its input holds.
    pub closed spec fn wf(&self) -> bool {
        &&& self.offset <= self.output@.len()
        &&& self.chunk_size > 0
        &&& self.pulled <= self.input_len@
        &&& self.stored ==> self.output@.len() == self.input_len@
    }

    /// A source over `input` for the codec of `config`. Fails exactly where
    /// the codec does not read the input through.
    pub fn new(config: &ArchiveConfig, input: &[u8]) -> (r: Result<
        DecompressionContext,
        ArchiveError,
    >)
        ensures
            match r {
                Ok(source) => decompressed(config@, input@) == Some(source.output_of())
                    && source.wf() && source.offset_of() == 0 && source.chunk_size_of()
                    == config@.chunk_size && source.input_len_of() == input@.len()
                    && source.stored_of() == (config@.algorithm == CompressionAlgorithm::Store),
                Err(e) => decompressed(config@, input@) is None && is_io_failure(e),
            },
    {
        let chunk_size = config.chunk_size();
        let outcome = match config.algorithm() {
            CompressionAlgorithm::Store => {
                return Ok(
                    DecompressionContext {
                        output: slice_to_vec(input),
                        offset: 0,
                        chunk_size,
                        pulled: 0,
                        stored: true,
                        input_len: Ghost(input@.len()),
                    },
                );
            },
            CompressionAlgorithm::Gzip => gzip_decode(input),
            CompressionAlgorithm::Zlib => zlib_decode(input),
            CompressionAlgorithm::Deflate => deflate_decode(input),
            CompressionAlgorithm::Brotli => brotli_decode(input, chunk_size),
        };
        match outcome {
            Ok((output, pulled)) => Ok(
                DecompressionContext {
                    output,
                    offset: 0,
                    chunk_size,
                    pulled,
                    stored: false,
                    input_len: Ghost(input@.len()),
                },
            ),
            Err(e) => Err(ArchiveError::from_io(&e)),
        }
    }

    /// Pulls the next bytes of the output: a full chunk while that much is
    /// left, then what is left, then nothing.
    pub fn read(&mut self) -> (chunk: Vec<u8>)
        requires
            old(self).wf(),
        ensures
            final(self).wf(),
            final(self).output_of() == old(self).output_of(),
            final(self).chunk_size_of() == old(self).chunk_size_of(),
            final(self).input_len_of() == old(self).input_len_of(),
            final(self).stored_of() == old(self).stored_of(),
            !old(self).stored_of() ==> final(self).pulled_of() == old(self).pulled_of(),
            final(self).offset_of() == old(self).offset_of() + chunk@.len(),
            final(self).offset_of() <= old(self).output_of().len(),
            chunk@.len() == 0 <==> old(self).offset_of() == old(self).output_of().len(),
            chunk@ == old(self).output_of().subrange(
                old(self).offset_of() as int,
                final(self).offset_of() as int,
            ),
            chunk@.len() == if old(self).output_of().len() - old(self).offset_of() < old(
                self,
            ).chunk_size_of() {
                old(self).output_of().len() - old(self).offset_of()
            } else {
                old(self).chunk_size_of() as int
            },
    {
        let left = self.output.len() - self.offset;
        let take = if left < self.chunk_size {
            left
        } else {
            self.chunk_size
        };
        let chunk = slice_to_vec(
            slice_subrange(self.output.as_slice(), self.offset, self.offset + take),
        );
        self.offset = self.offset + take;
        chunk
    }

    /// The count of input bytes that the source has pulled so far.
    pub fn consumed(&self) -> (count: usize)
        requires
            self.wf(),
        ensures
            count == self.pulled_of(),
            count <= self.input_len_of(),
    {
        if self.stored {
            self.offset
        } else {
            self.pulled
        }
    }
}

/// `flate2::GzBuilder` and the `write::GzEncoder` it makes over a vector:
/// the header fields are set where given, all of `data` is written, and the
/// encoder is flushed and finished. The composer panics on a comment that
/// holds a zero byte and on an extra field of more than 65535 bytes, which
/// `requires` leaves out. The result is a function of the arguments, which
/// is all that is stated of it.
#[verifier::external_body]
fn gzip_encode(
    data: &[u8],
    level: u32,
    comment: &Option<Vec<u8>>,
    extra: &Option<Vec<u8>>,
    os: Option<u8>,
) -> (out: Result<Vec<u8>, std::io::Error>)
    requires
        level <= 9,
        comment matches Some(text) ==> !text@.contains(0u8),
        extra matches Some(field) ==> field@.len() <= GZIP_EXTRA_MAX,
    ensures
        match out {
            Ok(bytes) => gzip_stream(level, bytes_view(*comment), bytes_view(*extra), os, data@)
                == Some(bytes@),
            Err(_) => gzip_stream(level, bytes_view(*comment), bytes_view(*extra), os, data@) is None,
        },
{
    let mut builder = flate2::GzBuilder::new();
    if let Some(text) = comment {
        builder = builder.comment(text.as_slice());
    }
    if let Some(field) = extra {
        builder = builder.extra(field.as_slice());
    }
    if let Some(code) = os {
        builder = builder.operating_system(code);
    }
    let mut encoder = builder.write(Vec::new(), flate2::Compression::new(level));
    std::io::Write::write_all(&mut encoder, data)?;
    std::io::Write::flush(&mut encoder)?;
    encoder.finish()
}

/// `flate2::write::ZlibEncoder` over a vector: all of `data` is written,
/// and the encoder is flushed and finished. The result is a function of the
/// arguments, which is all that is stated of it.
#[verifier::external_body]
fn zlib_encode(data: &[u8], level: u32) -> (out: Result<Vec<u8>, std::io::Error>)
    requires
        level <= 9,
    ensures
        match out {
            Ok(bytes) => zlib_stream(level, data@) == Some(bytes@),
            Err(_) => zlib_stream(level, data@) is None,
        },
{
    let mut encoder = flate2::write::ZlibEncoder::new(Vec::new(), flate2::Compression::new(level));
    std::io::Write::write_all(&mut encoder, data)?;
    std::io::Write::flush(&mut encoder)?;
    encoder.finish()
}

/// `flate2::write::DeflateEncoder` over a vector: all of `data` is written,
/// and the encoder is flushed and finished. The result is a function of the
/// arguments, which is all that is stated of it.
#[verifier::external_body]
fn deflate_encode(data: &[u8], level: u32) -> (out: Result<Vec<u8>, std::io::Error>)
    requires
        level <= 9,
    ensures
        match out {
            Ok(bytes) => deflate_stream(level, data@) == Some(bytes@),
            Err(_) => deflate_stream(level, data@) is None,
        },
{
    let mut encoder = flate2::write::DeflateEncoder::new(
        Vec::new(),
        flate2::Compression::new(level),
    );
    std::io::Write::write_all(&mut encoder, data)?;
    std::io::Write::flush(&mut encoder)?;
    encoder.finish()
}

/// `brotli::CompressorWriter::with_params` over a vector, with the quality
/// and the size hint set: all of `data` is written, the writer is flushed,
/// and `into_inner` ends the stream. The result is a function of the
/// arguments, which is all that is stated of it.
#[verifier::external_body]
fn brotli_encode(data: &[u8], level: i32, chunk_size: usize) -> (out: Result<
    Vec<u8>,
    std::io::Error,
>)
    requires
        0 <= level <= 11,
        chunk_size > 0,
    ensures
        match out {
            Ok(bytes) => brotli_stream(level, chunk_size, data@) == Some(bytes@),
            Err(_) => brotli_stream(level, chunk_size, data@) is None,
        },
{
    let mut params = brotli::enc::BrotliEncoderParams::default();
    params.quality = level;
    params.size_hint = chunk_size;
    let mut writer = brotli::CompressorWriter::with_params(Vec::new(), chunk_size, &params);
    std::io::Write::write_all(&mut writer, data)?;
    std::io::Write::flush(&mut writer)?;
    Ok(writer.into_inner())
}

/// `flate2::read::GzDecoder` over a cursor on `input`, read to its end. It
/// gives the output and the position that the cursor reached, which is
/// within the input. The output is a function of the input, which is all
/// that is stated of it.
#[verifier::external_body]
fn gzip_decode(input: &[u8]) -> (out: Result<(Vec<u8>, usize), std::io::Error>)
    ensures
        match out {
            Ok(pair) => gzip_decoded(input@) == Some(pair.0@) && pair.1 <= input@.len(),
            Err(_) => gzip_decoded(input@) is None,
        },
{
    let mut cursor = std::io::Cursor::new(input);
    let mut output = Vec::new();
    std::io::Read::read_to_end(&mut flate2::read::GzDecoder::new(&mut cursor), &mut output)?;
    Ok((output, cursor.position() as usize))
}

/// `flate2::read::ZlibDecoder` over a cursor on `input`, read to its end.
/// It gives the output and the position that the cursor reached, which is
/// within the input. The output is a function of the input, which is all
/// that is stated of it.
#[verifier::external_body]
fn zlib_decode(input: &[u8]) -> (out: Result<(Vec<u8>, usize), std::io::Error>)
    ensures
        match out {
            Ok(pair) => zlib_decoded(input@) == Some(pair.0@) && pair.1 <= input@.len(),
            Err(_) => zlib_decoded(input@) is None,
        },
{
    let mut cursor = std::io::Cursor::new(input);
    let mut output = Vec::new();
    std::io::Read::read_to_end(&mut flate2::read::ZlibDecoder::new(&mut cursor), &mut output)?;
    Ok((output, cursor.position() as usize))
}

/// `flate2::read::DeflateDecoder` over a cursor on `input`, read to its
/// end. It gives the output and the position that the cursor reached, which
/// is within the input. The output is a function of the input, which is all
/// that is stated of it.
#[verifier::external_body]
fn deflate_decode(input: &[u8]) -> (out: Result<(Vec<u8>, usize), std::io::Error>)
    ensures
        match out {
            Ok(pair) => deflate_decoded(input@) == Some(pair.0@) && pair.1 <= input@.len(),
            Err(_) => deflate_decoded(input@) is None,
        },
{
    let mut cursor = std::io::Cursor::new(input);
    let mut output = Vec::new();
    std::io::Read::read_to_end(&mut flate2::read::DeflateDecoder::new(&mut cursor), &mut output)?;
    Ok((output, cursor.position() as usize))
}

/// `brotli::Decompressor` with a buffer of `chunk_size` over a cursor on
/// `input`, read to its end. It gives the output and the position that the
/// cursor reached, which is within the input. The output is a function of
/// the arguments, which is all that is stated of it.
#[verifier::external_body]
fn brotli_decode(input: &[u8], chunk_size: usize) -> (out: Result<(Vec<u8>, usize), std::io::Error>)
    requires
        chunk_size > 0,
    ensures
        match out {
            Ok(pair) => brotli_decoded(chunk_size, input@) == Some(pair.0@) && pair.1
                <= input@.len(),
            Err(_) => brotli_decoded(chunk_size, input@) is None,
        },
{
    let mut cursor = std::io::Cursor::new(input);
    let mut output = Vec::new();
    std::io::Read::read_to_end(&mut brotli::Decompressor::new(&mut cursor, chunk_size), &mut output)?;
    Ok((output, cursor.position() as usize))
}

} // verus!
