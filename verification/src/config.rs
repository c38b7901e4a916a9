//! The configuration of the pipeline, and the builder that validates it.

use crate::crypto::Config;
use crate::error::ArchiveError;
use vstd::prelude::*;

verus! {

/// Chunk size of a configuration that names none.
pub const DEFAULT_CHUNK_SIZE: usize = 65536;

/// Largest memory limit that a configuration may ask for: 256 MiB.
pub const MAX_MEMORY_LIMIT: usize = 268435456;

/// Level of a configuration that names none, and the only level that goes
/// with no compression.
pub const DEFAULT_LEVEL: i32 = 6;

/// The codec that compresses the packed entries.
#[derive(Clone, Copy, Debug, PartialEq, Eq, Structural)]
pub enum CompressionAlgorithm {
    Gzip,
    Deflate,
    Zlib,
    Brotli,
    /// No compression: the stream is the packed bytes.
    Store,
}

/// The container that the entries are packed into.
#[derive(Clone, Copy, Debug, PartialEq, Eq, Structural)]
pub enum ArchiveFormat {
    /// No container: exactly one entry, whose bytes are the packed bytes.
    Single,
    Zip,
}

/// The characters of an optional string.
pub open spec fn text_view(text: Option<String>) -> Option<Seq<char>> {
    match text {
        Some(t) => Some(t@),
        None => None,
    }
}

/// The bytes of an optional vector.
pub open spec fn bytes_view(bytes: Option<Vec<u8>>) -> Option<Seq<u8>> {
    match bytes {
        Some(b) => Some(b@),
        None => None,
    }
}

/// Whether `level` is in the range of `algorithm`: 0 to 9 for gzip, zlib and
/// deflate, 0 to 11 for brotli, and 6 alone where nothing is compressed.
pub open spec fn level_allowed(algorithm: CompressionAlgorithm, level: i32) -> bool {
    match algorithm {
        CompressionAlgorithm::Gzip | CompressionAlgorithm::Deflate | CompressionAlgorithm::Zlib => 0
            <= level <= 9,
        CompressionAlgorithm::Brotli => 0 <= level <= 11,
        CompressionAlgorithm::Store => level == DEFAULT_LEVEL,
    }
}

/// What a configuration holds.
pub struct ArchiveConfigView {
    pub level: i32,
    pub algorithm: CompressionAlgorithm,
    pub chunk_size: usize,
    pub comment: Option<Seq<char>>,
    pub extra: Option<Seq<u8>>,
    pub os_code: Option<u32>,
    pub encryption_config: Option<Config>,
    pub encryption_context: Option<Seq<u8>>,
    pub encryption_aad: Option<Seq<u8>>,
    pub checksum: bool,
    pub memory_limit: usize,
    pub preset: Option<Seq<char>>,
    pub dict: Option<Seq<u8>>,
    pub archive_format: ArchiveFormat,
}

impl ArchiveConfigView {
    /// What every built configuration satisfies.
    pub open spec fn wf(&self) -> bool {
        &&& self.chunk_size > 0
        &&& self.memory_limit <= MAX_MEMORY_LIMIT
        &&& level_allowed(self.algorithm, self.level)
    }
}

/// What a builder holds: for each field a value, or nothing yet.
pub struct ArchiveConfigBuilderView {
    pub level: Option<i32>,
    pub algorithm: Option<CompressionAlgorithm>,
    pub chunk_size: Option<usize>,
    pub comment: Option<Seq<char>>,
    pub extra: Option<Seq<u8>>,
    pub os_code: Option<u32>,
    pub encryption_config: Option<Config>,
    pub encryption_context: Option<Seq<u8>>,
    pub encryption_aad: Option<Seq<u8>>,
    pub checksum: Option<bool>,
    pub memory_limit: Option<usize>,
    pub preset: Option<Seq<char>>,
    pub dict: Option<Seq<u8>>,
    pub archive_format: Option<ArchiveFormat>,
}

impl ArchiveConfigBuilderView {
    /// A builder that names nothing.
    pub open spec fn empty() -> ArchiveConfigBuilderView {
        ArchiveConfigBuilderView {
            level: None,
            algorithm: None,
            chunk_size: None,
            comment: None,
            extra: None,
            os_code: None,
            encryption_config: None,
            encryption_context: None,
            encryption_aad: None,
            checksum: None,
            memory_limit: None,
            preset: None,
            dict: None,
            archive_format: None,
        }
    }

    /// The level that will be built.
    pub open spec fn chosen_level(&self) -> i32 {
        match self.level {
            Some(level) => level,
            None => DEFAULT_LEVEL,
        }
    }

    /// The algorithm that will be built.
    pub open spec fn chosen_algorithm(&self) -> CompressionAlgorithm {
        match self.algorithm {
            Some(algorithm) => algorithm,
            None => CompressionAlgorithm::Gzip,
        }
    }

    /// The chunk size that will be built.
    pub open spec fn chosen_chunk_size(&self) -> usize {
        match self.chunk_size {
            Some(size) => size,
            None => DEFAULT_CHUNK_SIZE,
        }
    }

    /// The memory limit that will be built.
    pub open spec fn chosen_memory_limit(&self) -> usize {
        match self.memory_limit {
            Some(limit) => limit,
            None => MAX_MEMORY_LIMIT,
        }
    }

    /// The configuration that the builder describes, with the defaults for
    /// what it does not name.
    pub open spec fn described(&self) -> ArchiveConfigView {
        ArchiveConfigView {
            level: self.chosen_level(),
            algorithm: self.chosen_algorithm(),
            chunk_size: self.chosen_chunk_size(),
            comment: self.comment,
            extra: self.extra,
            os_code: self.os_code,
            encryption_config: self.encryption_config,
            encryption_context: self.encryption_context,
            encryption_aad: self.encryption_aad,
            checksum: match self.checksum {
                Some(enable) => enable,
                None => false,
            },
            memory_limit: self.chosen_memory_limit(),
            preset: self.preset,
            dict: self.dict,
            archive_format: match self.archive_format {
                Some(format) => format,
                None => ArchiveFormat::Single,
            },
        }
    }

    /// What building gives: the configuration, or the code of the first
    /// rule that it breaks, in the order chunk size, memory limit, level.
    pub open spec fn built(&self) -> Result<ArchiveConfigView, u32> {
        if self.chosen_chunk_size() == 0 {
            Err(2001)
        } else if self.chosen_memory_limit() > MAX_MEMORY_LIMIT {
            Err(2009)
        } else if !level_allowed(self.chosen_algorithm(), self.chosen_level()) {
            Err(2002)
        } else {
            Ok(self.described())
        }
    }
}

/// Building gives a valid configuration or one of the three codes of a
/// broken rule.
pub proof fn lemma_built_is_valid(builder: ArchiveConfigBuilderView)
    ensures
        match builder.built() {
            Ok(config) => config.wf(),
            Err(code) => code == 2001 || code == 2002 || code == 2009,
        },
{
}

/// Gathers the fields of a configuration; `build` validates them.
pub struct ArchiveConfigBuilder {
    level: Option<i32>,
    algorithm: Option<CompressionAlgorithm>,
    chunk_size: Option<usize>,
    comment: Option<String>,
    extra: Option<Vec<u8>>,
    os_code: Option<u32>,
    encryption_config: Option<Config>,
    encryption_context: Option<Vec<u8>>,
    encryption_aad: Option<Vec<u8>>,
    checksum: Option<bool>,
    memory_limit: Option<usize>,
    preset: Option<String>,
    dict: Option<Vec<u8>>,
    archive_format: Option<ArchiveFormat>,
}

impl View for ArchiveConfigBuilder {
    type V = ArchiveConfigBuilderView;

    closed spec fn view(&self) -> ArchiveConfigBuilderView {
        ArchiveConfigBuilderView {
            level: self.level,
            algorithm: self.algorithm,
            chunk_size: self.chunk_size,
            comment: text_view(self.comment),
            extra: bytes_view(self.extra),
            os_code: self.os_code,
            encryption_config: self.encryption_config,
            encryption_context: bytes_view(self.encryption_context),
            encryption_aad: bytes_view(self.encryption_aad),
            checksum: self.checksum,
            memory_limit: self.memory_limit,
            preset: text_view(self.preset),
            dict: bytes_view(self.dict),
            archive_format: self.archive_format,
        }
    }
}

impl ArchiveConfigBuilder {
    /// A builder that names nothing yet.
    pub fn new() -> (builder: ArchiveConfigBuilder)
        ensures
            builder@ == ArchiveConfigBuilderView::empty(),
    {
        ArchiveConfigBuilder {
            level: None,
            algorithm: None,
            chunk_size: None,
            comment: None,
            extra: None,
            os_code: None,
            encryption_config: None,
            encryption_context: None,
            encryption_aad: None,
            checksum: None,
            memory_limit: None,
            preset: None,
            dict: None,
            archive_format: None,
        }
    }

    /// Sets the compression level.
    pub fn level(self, level: i32) -> (builder: ArchiveConfigBuilder)
        ensures
            builder@ == (ArchiveConfigBuilderView { level: Some(level), ..self@ }),
    {
        let mut builder = self;
        builder.level = Some(level);
        builder
    }

    /// Sets the compression algorithm.
    pub fn algorithm(self, algorithm: CompressionAlgorithm) -> (builder: ArchiveConfigBuilder)
        ensures
            builder@ == (ArchiveConfigBuilderView { algorithm: Some(algorithm), ..self@ }),
    {
        let mut builder = self;
        builder.algorithm = Some(algorithm);
        builder
    }

    /// Sets the size of the windows in which data is fed to the codec.
    pub fn chunk_size(self, chunk_size: usize) -> (builder: ArchiveConfigBuilder)
        ensures
            builder@ == (ArchiveConfigBuilderView { chunk_size: Some(chunk_size), ..self@ }),
    {
        let mut builder = self;
        builder.chunk_size = Some(chunk_size);
        builder
    }

    /// Sets the comment of the gzip header.
    pub fn comment(self, comment: Option<String>) -> (builder: ArchiveConfigBuilder)
        ensures
            builder@ == (ArchiveConfigBuilderView { comment: text_view(comment), ..self@ }),
    {
        let mut builder = self;
        builder.comment = comment;
        builder
    }

    /// Sets the extra field of the gzip header.
    pub fn extra(self, extra: Option<Vec<u8>>) -> (builder: ArchiveConfigBuilder)
        ensures
            builder@ == (ArchiveConfigBuilderView { extra: bytes_view(extra), ..self@ }),
    {
        let mut builder = self;
        builder.extra = extra;
        builder
    }

    /// Sets the operating system byte of the gzip header.
    pub fn os_code(self, os_code: Option<u32>) -> (builder: ArchiveConfigBuilder)
        ensures
            builder@ == (ArchiveConfigBuilderView { os_code: os_code, ..self@ }),
    {
        let mut builder = self;
        builder.os_code = os_code;
        builder
    }

    /// Sets how the output is encrypted; `None` leaves it in the clear.
    pub fn encryption_config(self, config: Option<Config>) -> (builder: ArchiveConfigBuilder)
        ensures
            builder@ == (ArchiveConfigBuilderView { encryption_config: config, ..self@ }),
    {
        let mut builder = self;
        builder.encryption_config = config;
        builder
    }

    /// Sets the context that ciphertexts are bound to.
    pub fn encryption_context(self, context: Option<Vec<u8>>) -> (builder: ArchiveConfigBuilder)
        ensures
            builder@ == (ArchiveConfigBuilderView { encryption_context: bytes_view(context), ..self@ }),
    {
        let mut builder = self;
        builder.encryption_context = context;
        builder
    }

    /// Sets the associated data that ciphertexts authenticate.
    pub fn encryption_aad(self, aad: Option<Vec<u8>>) -> (builder: ArchiveConfigBuilder)
        ensures
            builder@ == (ArchiveConfigBuilderView { encryption_aad: bytes_view(aad), ..self@ }),
    {
        let mut builder = self;
        builder.encryption_aad = aad;
        builder
    }

    /// Sets whether a CRC-32 footer is appended.
    pub fn checksum(self, enable: bool) -> (builder: ArchiveConfigBuilder)
        ensures
            builder@ == (ArchiveConfigBuilderView { checksum: Some(enable), ..self@ }),
    {
        let mut builder = self;
        builder.checksum = Some(enable);
        builder
    }

    /// Sets the memory limit; `None` asks for the largest allowed.
    pub fn memory_limit(self, limit: Option<usize>) -> (builder: ArchiveConfigBuilder)
        ensures
            builder@ == (ArchiveConfigBuilderView { memory_limit: limit, ..self@ }),
    {
        let mut builder = self;
        builder.memory_limit = limit;
        builder
    }

    /// Sets the name of a preset.
    pub fn preset(self, preset: Option<String>) -> (builder: ArchiveConfigBuilder)
        ensures
            builder@ == (ArchiveConfigBuilderView { preset: text_view(preset), ..self@ }),
    {
        let mut builder = self;
        builder.preset = preset;
        builder
    }

    /// Sets the dictionary hint of the decoder.
    pub fn dict(self, dict: Option<Vec<u8>>) -> (builder: ArchiveConfigBuilder)
        ensures
            builder@ == (ArchiveConfigBuilderView { dict: bytes_view(dict), ..self@ }),
    {
        let mut builder = self;
        builder.dict = dict;
        builder
    }

    /// Sets the container.
    pub fn archive_format(self, format: ArchiveFormat) -> (builder: ArchiveConfigBuilder)
        ensures
            builder@ == (ArchiveConfigBuilderView { archive_format: Some(format), ..self@ }),
    {
        let mut builder = self;
        builder.archive_format = Some(format);
        builder
    }

    /// Validates the fields and builds the configuration.
    pub fn build(self) -> (r: Result<ArchiveConfig, ArchiveError>)
        ensures
            match r {
                Ok(config) => self@.built() == Ok::<ArchiveConfigView, u32>(config@)
                    && config@.wf(),
                Err(e) => self@.built() == Err::<ArchiveConfigView, u32>(e.code_of())
                    && e.is_standard(e.code_of()),
            },
    {
        let level = match self.level {
            Some(level) => level,
            None => DEFAULT_LEVEL,
        };
        let algorithm = match self.algorithm {
            Some(algorithm) => algorithm,
            None => CompressionAlgorithm::Gzip,
        };
        let chunk_size = match self.chunk_size {
            Some(size) => size,
            None => DEFAULT_CHUNK_SIZE,
        };
        let memory_limit = match self.memory_limit {
            Some(limit) => limit,
            None => MAX_MEMORY_LIMIT,
        };
        if chunk_size == 0 {
            return Err(ArchiveError::standard(2001));
        }
        if memory_limit > MAX_MEMORY_LIMIT {
            return Err(ArchiveError::standard(2009));
        }
        let level_ok = match algorithm {
            CompressionAlgorithm::Gzip | CompressionAlgorithm::Deflate | CompressionAlgorithm::Zlib => 0
                <= level && level <= 9,
            CompressionAlgorithm::Brotli => 0 <= level && level <= 11,
            CompressionAlgorithm::Store => level == DEFAULT_LEVEL,
        };
        if !level_ok {
            return Err(ArchiveError::standard(2002));
        }
        Ok(
            ArchiveConfig {
                level,
                algorithm,
                chunk_size,
                comment: self.comment,
                extra: self.extra,
                os_code: self.os_code,
                encryption_config: self.encryption_config,
                encryption_context: self.encryption_context,
                encryption_aad: self.encryption_aad,
                checksum: match self.checksum {
                    Some(enable) => enable,
                    None => false,
                },
                memory_limit,
                preset: self.preset,
                dict: self.dict,
                archive_format: match self.archive_format {
                    Some(format) => format,
                    None => ArchiveFormat::Single,
                },
            },
        )
    }
}

/// A validated configuration. It does not change once it is built.
pub struct ArchiveConfig {
    level: i32,
    algorithm: CompressionAlgorithm,
    chunk_size: usize,
    comment: Option<String>,
    extra: Option<Vec<u8>>,
    os_code: Option<u32>,
    encryption_config: Option<Config>,
    encryption_context: Option<Vec<u8>>,
    encryption_aad: Option<Vec<u8>>,
    checksum: bool,
    memory_limit: usize,
    preset: Option<String>,
    dict: Option<Vec<u8>>,
    archive_format: ArchiveFormat,
}

impl View for ArchiveConfig {
    type V = ArchiveConfigView;

    closed spec fn view(&self) -> ArchiveConfigView {
        ArchiveConfigView {
            level: self.level,
            algorithm: self.algorithm,
            chunk_size: self.chunk_size,
            comment: text_view(self.comment),
            extra: bytes_view(self.extra),
            os_code: self.os_code,
            encryption_config: self.encryption_config,
            encryption_context: bytes_view(self.encryption_context),
            encryption_aad: bytes_view(self.encryption_aad),
            checksum: self.checksum,
            memory_limit: self.memory_limit,
            preset: text_view(self.preset),
            dict: bytes_view(self.dict),
            archive_format: self.archive_format,
        }
    }
}

impl ArchiveConfig {
    /// Every configuration is a built one: it satisfies the rules that
    /// building checks.
    #[verifier::type_invariant]
    pub open spec fn valid(&self) -> bool {
        self@.wf()
    }

    /// A builder that names nothing yet.
    pub fn builder() -> (builder: ArchiveConfigBuilder)
        ensures
            builder@ == ArchiveConfigBuilderView::empty(),
    {
        ArchiveConfigBuilder::new()
    }

    /// The compression level.
    pub fn level(&self) -> (value: i32)
        ensures
            value == self@.level,
            self@.wf(),
    {
        proof {
            use_type_invariant(self);
        }
        self.level
    }

    /// The compression algorithm.
    pub fn algorithm(&self) -> (value: CompressionAlgorithm)
        ensures
            value == self@.algorithm,
            self@.wf(),
    {
        proof {
            use_type_invariant(self);
        }
        self.algorithm
    }

    /// The size of the windows in which data is fed to the codec; never zero.
    pub fn chunk_size(&self) -> (value: usize)
        ensures
            value == self@.chunk_size,
            self@.wf(),
    {
        proof {
            use_type_invariant(self);
        }
        self.chunk_size
    }

    /// The operating system byte of the gzip header.
    pub fn os_code(&self) -> (value: Option<u32>)
        ensures
            value == self@.os_code,
    {
        self.os_code
    }

    /// How the output is encrypted, if it is.
    pub fn encryption_config(&self) -> (value: Option<Config>)
        ensures
            value == self@.encryption_config,
    {
        self.encryption_config
    }

    /// Whether a CRC-32 footer is appended.
    pub fn checksum(&self) -> (value: bool)
        ensures
            value == self@.checksum,
    {
        self.checksum
    }

    /// The memory limit; never more than the largest allowed.
    pub fn memory_limit(&self) -> (value: usize)
        ensures
            value == self@.memory_limit,
            self@.wf(),
    {
        proof {
            use_type_invariant(self);
        }
        self.memory_limit
    }

    /// The container.
    pub fn archive_format(&self) -> (value: ArchiveFormat)
        ensures
            value == self@.archive_format,
    {
        self.archive_format
    }

    /// The comment of the gzip header.
    pub fn comment(&self) -> (value: &Option<String>)
        ensures
            text_view(*value) == self@.comment,
    {
        &self.comment
    }

    /// The extra field of the gzip header.
    pub fn extra(&self) -> (value: &Option<Vec<u8>>)
        ensures
            bytes_view(*value) == self@.extra,
    {
        &self.extra
    }

    /// The context that ciphertexts are bound to.
    pub fn encryption_context(&self) -> (value: &Option<Vec<u8>>)
        ensures
            bytes_view(*value) == self@.encryption_context,
    {
        &self.encryption_context
    }

    /// The associated data that ciphertexts authenticate.
    pub fn encryption_aad(&self) -> (value: &Option<Vec<u8>>)
        ensures
            bytes_view(*value) == self@.encryption_aad,
    {
        &self.encryption_aad
    }

    /// The name of the preset.
    pub fn preset(&self) -> (value: &Option<String>)
        ensures
            text_view(*value) == self@.preset,
    {
        &self.preset
    }

    /// The dictionary hint of the decoder.
    pub fn dict(&self) -> (value: &Option<Vec<u8>>)
        ensures
            bytes_view(*value) == self@.dict,
    {
        &self.dict
    }
}

} // verus!
