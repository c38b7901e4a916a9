//! The two error types of the pipeline, with their stable numeric codes.

use vstd::prelude::*;
use vstd::string::*;

verus! {

/// What went wrong in the encryption service. Callers key on the numeric code;
/// the message is for people.
#[derive(Debug)]
pub enum CryptoError {
    EncryptionFailed { code: u32, message: String },
    DecryptionFailed { code: u32, message: String },
    KeyDerivationFailed { code: u32, message: String },
    InvalidInput { code: u32, message: String },
    BatchOperationFailed { code: u32, message: String },
    NonceGenerationFailed { code: u32, message: String },
    ContextValidationFailed { code: u32, message: String },
}

impl CryptoError {
    /// The numeric code that the error carries.
    pub open spec fn code_of(&self) -> u32 {
        match self {
            CryptoError::EncryptionFailed { code, .. } => *code,
            CryptoError::DecryptionFailed { code, .. } => *code,
            CryptoError::KeyDerivationFailed { code, .. } => *code,
            CryptoError::InvalidInput { code, .. } => *code,
            CryptoError::BatchOperationFailed { code, .. } => *code,
            CryptoError::NonceGenerationFailed { code, .. } => *code,
            CryptoError::ContextValidationFailed { code, .. } => *code,
        }
    }

    /// The text that the error carries.
    pub open spec fn message_of(&self) -> Seq<char> {
        match self {
            CryptoError::EncryptionFailed { message, .. } => message@,
            CryptoError::DecryptionFailed { message, .. } => message@,
            CryptoError::KeyDerivationFailed { message, .. } => message@,
            CryptoError::InvalidInput { message, .. } => message@,
            CryptoError::BatchOperationFailed { message, .. } => message@,
            CryptoError::NonceGenerationFailed { message, .. } => message@,
            CryptoError::ContextValidationFailed { message, .. } => message@,
        }
    }

    /// The numeric code.
    pub fn code(&self) -> (code: u32)
        ensures
            code == self.code_of(),
    {
        match self {
            CryptoError::EncryptionFailed { code, .. } => *code,
            CryptoError::DecryptionFailed { code, .. } => *code,
            CryptoError::KeyDerivationFailed { code, .. } => *code,
            CryptoError::InvalidInput { code, .. } => *code,
            CryptoError::BatchOperationFailed { code, .. } => *code,
            CryptoError::NonceGenerationFailed { code, .. } => *code,
            CryptoError::ContextValidationFailed { code, .. } => *code,
        }
    }

    /// A copy of the message.
    pub fn message(&self) -> (message: String)
        ensures
            message@ == self.message_of(),
    {
        match self {
            CryptoError::EncryptionFailed { message, .. } => message.clone(),
            CryptoError::DecryptionFailed { message, .. } => message.clone(),
            CryptoError::KeyDerivationFailed { message, .. } => message.clone(),
            CryptoError::InvalidInput { message, .. } => message.clone(),
            CryptoError::BatchOperationFailed { message, .. } => message.clone(),
            CryptoError::NonceGenerationFailed { message, .. } => message.clone(),
            CryptoError::ContextValidationFailed { message, .. } => message.clone(),
        }
    }

    /// Whether the kind of the error is the one that goes with its code.
    pub open spec fn kind_fits_code(&self) -> bool {
        if self.code_of() == 1001 || self.code_of() == 1023 {
            self is NonceGenerationFailed
        } else if self.code_of() == 1002 || self.code_of() == 1003 || self.code_of() == 1005
            || self.code_of() == 1006 {
            self is KeyDerivationFailed
        } else if self.code_of() == 1004 || self.code_of() == 1008 || self.code_of() == 1009
            || self.code_of() == 1011 || self.code_of() == 1013 || self.code_of() == 1017 {
            self is InvalidInput
        } else if self.code_of() == 1007 || self.code_of() == 1022 {
            self is EncryptionFailed
        } else if self.code_of() == 1010 {
            self is DecryptionFailed
        } else if self.code_of() == 1012 {
            self is ContextValidationFailed
        } else if self.code_of() == 1014 || self.code_of() == 1015 || self.code_of() == 1016
            || self.code_of() == 1018 || self.code_of() == 1019 || self.code_of() == 1020
            || self.code_of() == 1021 {
            self is BatchOperationFailed
        } else {
            false
        }
    }

    /// The message of the standard error of a code.
    pub open spec fn standard_message(code: u32) -> Seq<char> {
        if code == 1001 {
            "Random generation failed"@
        } else if code == 1002 {
            "Invalid AES-256 key length"@
        } else if code == 1003 {
            "Invalid AES-128 key length"@
        } else if code == 1004 {
            "Key version does not fit in one byte"@
        } else if code == 1005 {
            "Invalid Argon2 parameters"@
        } else if code == 1006 {
            "Argon2 key derivation failed"@
        } else if code == 1007 {
            "Encryption operation failed"@
        } else if code == 1008 {
            "Invalid ciphertext length"@
        } else if code == 1009 {
            "Key version mismatch"@
        } else if code == 1010 {
            "Decryption operation failed"@
        } else if code == 1011 {
            "Invalid plaintext length"@
        } else if code == 1012 {
            "Context mismatch"@
        } else if code == 1013 {
            "Expected a byte array"@
        } else if code == 1014 {
            "Input size exceeds max memory limit"@
        } else if code == 1015 {
            "Progress callback failed"@
        } else if code == 1016 {
            "Final progress callback failed"@
        } else if code == 1017 {
            "Expected a byte array"@
        } else if code == 1018 {
            "Input size exceeds max memory limit"@
        } else if code == 1019 {
            "Progress callback failed"@
        } else if code == 1020 {
            "Final progress callback failed"@
        } else if code == 1021 {
            "Progress callback failed"@
        } else if code == 1022 {
            "Stream encryption failed"@
        } else {
            "Nonce generation failed"@
        }
    }

    /// Whether the error is the standard one of its code: the kind that
    /// goes with the code, and the standard text.
    pub open spec fn is_standard(&self, code: u32) -> bool {
        &&& self.code_of() == code
        &&& self.kind_fits_code()
        &&& self.message_of() == CryptoError::standard_message(code)
    }

    /// The standard error of a code of the encryption service.
    pub fn standard(code: u32) -> (e: CryptoError)
        requires
            CryptoError::is_code(code),
        ensures
            e.is_standard(code),
    {
        if code == 1001 {
            CryptoError::nonce_generation_failed(code, String::from_str("Random generation failed"))
        } else if code == 1002 {
            CryptoError::key_derivation_failed(code, String::from_str("Invalid AES-256 key length"))
        } else if code == 1003 {
            CryptoError::key_derivation_failed(code, String::from_str("Invalid AES-128 key length"))
        } else if code == 1004 {
            CryptoError::invalid_input(
                code,
                String::from_str("Key version does not fit in one byte"),
            )
        } else if code == 1005 {
            CryptoError::key_derivation_failed(code, String::from_str("Invalid Argon2 parameters"))
        } else if code == 1006 {
            CryptoError::key_derivation_failed(
                code,
                String::from_str("Argon2 key derivation failed"),
            )
        } else if code == 1007 {
            CryptoError::encryption_failed(code, String::from_str("Encryption operation failed"))
        } else if code == 1008 {
            CryptoError::invalid_input(code, String::from_str("Invalid ciphertext length"))
        } else if code == 1009 {
            CryptoError::invalid_input(code, String::from_str("Key version mismatch"))
        } else if code == 1010 {
            CryptoError::decryption_failed(code, String::from_str("Decryption operation failed"))
        } else if code == 1011 {
            CryptoError::invalid_input(code, String::from_str("Invalid plaintext length"))
        } else if code == 1012 {
            CryptoError::context_validation_failed(code, String::from_str("Context mismatch"))
        } else if code == 1013 {
            CryptoError::invalid_input(code, String::from_str("Expected a byte array"))
        } else if code == 1014 {
            CryptoError::batch_operation_failed(
                code,
                String::from_str("Input size exceeds max memory limit"),
            )
        } else if code == 1015 {
            CryptoError::batch_operation_failed(code, String::from_str("Progress callback failed"))
        } else if code == 1016 {
            CryptoError::batch_operation_failed(
                code,
                String::from_str("Final progress callback failed"),
            )
        } else if code == 1017 {
            CryptoError::invalid_input(code, String::from_str("Expected a byte array"))
        } else if code == 1018 {
            CryptoError::batch_operation_failed(
                code,
                String::from_str("Input size exceeds max memory limit"),
            )
        } else if code == 1019 {
            CryptoError::batch_operation_failed(code, String::from_str("Progress callback failed"))
        } else if code == 1020 {
            CryptoError::batch_operation_failed(
                code,
                String::from_str("Final progress callback failed"),
            )
        } else if code == 1021 {
            CryptoError::batch_operation_failed(code, String::from_str("Progress callback failed"))
        } else if code == 1022 {
            CryptoError::encryption_failed(code, String::from_str("Stream encryption failed"))
        } else {
            CryptoError::nonce_generation_failed(code, String::from_str("Nonce generation failed"))
        }
    }

    /// Whether `code` is a code of the encryption service.
    pub open spec fn is_code(code: u32) -> bool {
        1001 <= code <= 1023
    }

    /// The cipher refused to seal a message.
    pub fn encryption_failed(code: u32, message: String) -> (e: CryptoError)
        ensures
            e is EncryptionFailed,
            e.code_of() == code,
            e.message_of() == message@,
    {
        CryptoError::EncryptionFailed { code, message }
    }

    /// The cipher refused to open a message.
    pub fn decryption_failed(code: u32, message: String) -> (e: CryptoError)
        ensures
            e is DecryptionFailed,
            e.code_of() == code,
            e.message_of() == message@,
    {
        CryptoError::DecryptionFailed { code, message }
    }

    /// No cipher key could be derived.
    pub fn key_derivation_failed(code: u32, message: String) -> (e: CryptoError)
        ensures
            e is KeyDerivationFailed,
            e.code_of() == code,
            e.message_of() == message@,
    {
        CryptoError::KeyDerivationFailed { code, message }
    }

    /// An argument has the wrong shape.
    pub fn invalid_input(code: u32, message: String) -> (e: CryptoError)
        ensures
            e is InvalidInput,
            e.code_of() == code,
            e.message_of() == message@,
    {
        CryptoError::InvalidInput { code, message }
    }

    /// A batch could not be started or reported.
    pub fn batch_operation_failed(code: u32, message: String) -> (e: CryptoError)
        ensures
            e is BatchOperationFailed,
            e.code_of() == code,
            e.message_of() == message@,
    {
        CryptoError::BatchOperationFailed { code, message }
    }

    /// The random source gave nothing.
    pub fn nonce_generation_failed(code: u32, message: String) -> (e: CryptoError)
        ensures
            e is NonceGenerationFailed,
            e.code_of() == code,
            e.message_of() == message@,
    {
        CryptoError::NonceGenerationFailed { code, message }
    }

    /// The opened message is bound to another context.
    pub fn context_validation_failed(code: u32, message: String) -> (e: CryptoError)
        ensures
            e is ContextValidationFailed,
            e.code_of() == code,
            e.message_of() == message@,
    {
        CryptoError::ContextValidationFailed { code, message }
    }
}

/// What went wrong in the archive pipeline. Callers key on the numeric code;
/// the message is for people.
#[derive(Debug)]
pub enum ArchiveError {
    InvalidChunkSize { code: u32, message: String },
    InvalidCompressionLevel { code: u32, message: String },
    UnsupportedAlgorithm { code: u32, message: String },
    OperationAborted { code: u32, message: String },
    IoError { code: u32, message: String },
    EncryptionError { code: u32, message: String },
    ChecksumMismatch { code: u32, message: String },
    InvalidMasterKey { code: u32, message: String },
    MemoryLimitExceeded { code: u32, message: String },
    InvalidPreset { code: u32, message: String },
    InvalidInput { code: u32, message: String },
    CorruptedData { code: u32, message: String },
    UnsupportedFeature { code: u32, message: String },
    InvalidArchiveFormat { code: u32, message: String },
    ParallelProcessingUnavailable { code: u32, message: String },
    DictionaryError { code: u32, message: String },
    StreamError { code: u32, message: String },
}

impl ArchiveError {
    /// The numeric code that the error carries.
    pub open spec fn code_of(&self) -> u32 {
        match self {
            ArchiveError::InvalidChunkSize { code, .. } => *code,
            ArchiveError::InvalidCompressionLevel { code, .. } => *code,
            ArchiveError::UnsupportedAlgorithm { code, .. } => *code,
            ArchiveError::OperationAborted { code, .. } => *code,
            ArchiveError::IoError { code, .. } => *code,
            ArchiveError::EncryptionError { code, .. } => *code,
            ArchiveError::ChecksumMismatch { code, .. } => *code,
            ArchiveError::InvalidMasterKey { code, .. } => *code,
            ArchiveError::MemoryLimitExceeded { code, .. } => *code,
            ArchiveError::InvalidPreset { code, .. } => *code,
            ArchiveError::InvalidInput { code, .. } => *code,
            ArchiveError::CorruptedData { code, .. } => *code,
            ArchiveError::UnsupportedFeature { code, .. } => *code,
            ArchiveError::InvalidArchiveFormat { code, .. } => *code,
            ArchiveError::ParallelProcessingUnavailable { code, .. } => *code,
            ArchiveError::DictionaryError { code, .. } => *code,
            ArchiveError::StreamError { code, .. } => *code,
        }
    }

    /// The text that the error carries.
    pub open spec fn message_of(&self) -> Seq<char> {
        match self {
            ArchiveError::InvalidChunkSize { message, .. } => message@,
            ArchiveError::InvalidCompressionLevel { message, .. } => message@,
            ArchiveError::UnsupportedAlgorithm { message, .. } => message@,
            ArchiveError::OperationAborted { message, .. } => message@,
            ArchiveError::IoError { message, .. } => message@,
            ArchiveError::EncryptionError { message, .. } => message@,
            ArchiveError::ChecksumMismatch { message, .. } => message@,
            ArchiveError::InvalidMasterKey { message, .. } => message@,
            ArchiveError::MemoryLimitExceeded { message, .. } => message@,
            ArchiveError::InvalidPreset { message, .. } => message@,
            ArchiveError::InvalidInput { message, .. } => message@,
            ArchiveError::CorruptedData { message, .. } => message@,
            ArchiveError::UnsupportedFeature { message, .. } => message@,
            ArchiveError::InvalidArchiveFormat { message, .. } => message@,
            ArchiveError::ParallelProcessingUnavailable { message, .. } => message@,
            ArchiveError::DictionaryError { message, .. } => message@,
            ArchiveError::StreamError { message, .. } => message@,
        }
    }

    /// The numeric code.
    pub fn code(&self) -> (code: u32)
        ensures
            code == self.code_of(),
    {
        match self {
            ArchiveError::InvalidChunkSize { code, .. } => *code,
            ArchiveError::InvalidCompressionLevel { code, .. } => *code,
            ArchiveError::UnsupportedAlgorithm { code, .. } => *code,
            ArchiveError::OperationAborted { code, .. } => *code,
            ArchiveError::IoError { code, .. } => *code,
            ArchiveError::EncryptionError { code, .. } => *code,
            ArchiveError::ChecksumMismatch { code, .. } => *code,
            ArchiveError::InvalidMasterKey { code, .. } => *code,
            ArchiveError::MemoryLimitExceeded { code, .. } => *code,
            ArchiveError::InvalidPreset { code, .. } => *code,
            ArchiveError::InvalidInput { code, .. } => *code,
            ArchiveError::CorruptedData { code, .. } => *code,
            ArchiveError::UnsupportedFeature { code, .. } => *code,
            ArchiveError::InvalidArchiveFormat { code, .. } => *code,
            ArchiveError::ParallelProcessingUnavailable { code, .. } => *code,
            ArchiveError::DictionaryError { code, .. } => *code,
            ArchiveError::StreamError { code, .. } => *code,
        }
    }

    /// A copy of the message.
    pub fn message(&self) -> (message: String)
        ensures
            message@ == self.message_of(),
    {
        match self {
            ArchiveError::InvalidChunkSize { message, .. } => message.clone(),
            ArchiveError::InvalidCompressionLevel { message, .. } => message.clone(),
            ArchiveError::UnsupportedAlgorithm { message, .. } => message.clone(),
            ArchiveError::OperationAborted { message, .. } => message.clone(),
            ArchiveError::IoError { message, .. } => message.clone(),
            ArchiveError::EncryptionError { message, .. } => message.clone(),
            ArchiveError::ChecksumMismatch { message, .. } => message.clone(),
            ArchiveError::InvalidMasterKey { message, .. } => message.clone(),
            ArchiveError::MemoryLimitExceeded { message, .. } => message.clone(),
            ArchiveError::InvalidPreset { message, .. } => message.clone(),
            ArchiveError::InvalidInput { message, .. } => message.clone(),
            ArchiveError::CorruptedData { message, .. } => message.clone(),
            ArchiveError::UnsupportedFeature { message, .. } => message.clone(),
            ArchiveError::InvalidArchiveFormat { message, .. } => message.clone(),
            ArchiveError::ParallelProcessingUnavailable { message, .. } => message.clone(),
            ArchiveError::DictionaryError { message, .. } => message.clone(),
            ArchiveError::StreamError { message, .. } => message.clone(),
        }
    }

    /// Whether the kind of the error is the one that goes with its code.
    pub open spec fn kind_fits_code(&self) -> bool {
        if self.code_of() == 2001 {
            self is InvalidChunkSize
        } else if self.code_of() == 2002 {
            self is InvalidCompressionLevel
        } else if self.code_of() == 2003 {
            self is UnsupportedAlgorithm
        } else if self.code_of() == 2004 {
            self is OperationAborted
        } else if self.code_of() == 2005 {
            self is IoError
        } else if self.code_of() == 2006 || self.code_of() == 1012 {
            self is EncryptionError
        } else if self.code_of() == 2007 {
            self is ChecksumMismatch
        } else if self.code_of() == 2008 {
            self is InvalidMasterKey
        } else if self.code_of() == 2009 {
            self is MemoryLimitExceeded
        } else if self.code_of() == 2011 {
            self is InvalidInput
        } else if self.code_of() == 2012 {
            self is CorruptedData
        } else if self.code_of() == 2013 {
            self is UnsupportedFeature
        } else if self.code_of() == 2014 {
            self is InvalidArchiveFormat
        } else {
            false
        }
    }

    /// The message of the standard error of a code.
    pub open spec fn standard_message(code: u32) -> Seq<char> {
        if code == 2001 {
            "Chunk size must be greater than 0"@
        } else if code == 2002 {
            "Compression level is outside the range of the algorithm"@
        } else if code == 2003 {
            "Unsupported compression method for Zip"@
        } else if code == 2004 {
            "Operation aborted by user"@
        } else if code == 2005 {
            "I/O failure"@
        } else if code == 2006 {
            "Encryption layer failed"@
        } else if code == 2007 {
            "Checksum verification failed"@
        } else if code == 2008 {
            "Master key required for encryption"@
        } else if code == 2009 {
            "Input size exceeds memory limit"@
        } else if code == 2011 {
            "Input too short for checksum verification"@
        } else if code == 2012 {
            "Input is malformed"@
        } else if code == 2013 {
            "Zip not supported for streaming input"@
        } else {
            "Single file required when no archive format specified"@
        }
    }

    /// Whether the error is the standard one of its code: the kind that
    /// goes with the code, and the standard text.
    pub open spec fn is_standard(&self, code: u32) -> bool {
        &&& self.code_of() == code
        &&& self.kind_fits_code()
        &&& self.message_of() == ArchiveError::standard_message(code)
    }

    /// The standard error of a code of the archive pipeline.
    pub fn standard(code: u32) -> (e: ArchiveError)
        requires
            ArchiveError::is_code(code),
        ensures
            e.is_standard(code),
    {
        if code == 2001 {
            ArchiveError::invalid_chunk_size(
                code,
                String::from_str("Chunk size must be greater than 0"),
            )
        } else if code == 2002 {
            ArchiveError::invalid_compression_level(
                code,
                String::from_str("Compression level is outside the range of the algorithm"),
            )
        } else if code == 2003 {
            ArchiveError::unsupported_algorithm(
                code,
                String::from_str("Unsupported compression method for Zip"),
            )
        } else if code == 2004 {
            ArchiveError::operation_aborted(code, String::from_str("Operation aborted by user"))
        } else if code == 2005 {
            ArchiveError::io_error(code, String::from_str("I/O failure"))
        } else if code == 2006 {
            ArchiveError::encryption_error(code, String::from_str("Encryption layer failed"))
        } else if code == 2007 {
            ArchiveError::checksum_mismatch(code, String::from_str("Checksum verification failed"))
        } else if code == 2008 {
            ArchiveError::invalid_master_key(
                code,
                String::from_str("Master key required for encryption"),
            )
        } else if code == 2009 {
            ArchiveError::memory_limit_exceeded(
                code,
                String::from_str("Input size exceeds memory limit"),
            )
        } else if code == 2011 {
            ArchiveError::invalid_input(
                code,
                String::from_str("Input too short for checksum verification"),
            )
        } else if code == 2012 {
            ArchiveError::corrupted_data(code, String::from_str("Input is malformed"))
        } else if code == 2013 {
            ArchiveError::unsupported_feature(
                code,
                String::from_str("Zip not supported for streaming input"),
            )
        } else {
            ArchiveError::invalid_archive_format(
                code,
                String::from_str("Single file required when no archive format specified"),
            )
        }
    }

    /// Whether `code` is a code of the archive pipeline.
    pub open spec fn is_code(code: u32) -> bool {
        2001 <= code <= 2014 && code != 2010
    }

    /// The chunk size is zero.
    pub fn invalid_chunk_size(code: u32, message: String) -> (e: ArchiveError)
        ensures
            e is InvalidChunkSize,
            e.code_of() == code,
            e.message_of() == message@,
    {
        ArchiveError::InvalidChunkSize { code, message }
    }

    /// The level is outside the range of the algorithm.
    pub fn invalid_compression_level(code: u32, message: String) -> (e: ArchiveError)
        ensures
            e is InvalidCompressionLevel,
            e.code_of() == code,
            e.message_of() == message@,
    {
        ArchiveError::InvalidCompressionLevel { code, message }
    }

    /// The container cannot hold a stream of this algorithm.
    pub fn unsupported_algorithm(code: u32, message: String) -> (e: ArchiveError)
        ensures
            e is UnsupportedAlgorithm,
            e.code_of() == code,
            e.message_of() == message@,
    {
        ArchiveError::UnsupportedAlgorithm { code, message }
    }

    /// The caller has cancelled the operation.
    pub fn operation_aborted(code: u32, message: String) -> (e: ArchiveError)
        ensures
            e is OperationAborted,
            e.code_of() == code,
            e.message_of() == message@,
    {
        ArchiveError::OperationAborted { code, message }
    }

    /// A sink or a source failed.
    pub fn io_error(code: u32, message: String) -> (e: ArchiveError)
        ensures
            e is IoError,
            e.code_of() == code,
            e.message_of() == message@,
    {
        ArchiveError::IoError { code, message }
    }

    /// The encryption layer failed.
    pub fn encryption_error(code: u32, message: String) -> (e: ArchiveError)
        ensures
            e is EncryptionError,
            e.code_of() == code,
            e.message_of() == message@,
    {
        ArchiveError::EncryptionError { code, message }
    }

    /// The footer does not match the body.
    pub fn checksum_mismatch(code: u32, message: String) -> (e: ArchiveError)
        ensures
            e is ChecksumMismatch,
            e.code_of() == code,
            e.message_of() == message@,
    {
        ArchiveError::ChecksumMismatch { code, message }
    }

    /// Encryption is configured and no master key is set.
    pub fn invalid_master_key(code: u32, message: String) -> (e: ArchiveError)
        ensures
            e is InvalidMasterKey,
            e.code_of() == code,
            e.message_of() == message@,
    {
        ArchiveError::InvalidMasterKey { code, message }
    }

    /// The input is larger than the memory limit.
    pub fn memory_limit_exceeded(code: u32, message: String) -> (e: ArchiveError)
        ensures
            e is MemoryLimitExceeded,
            e.code_of() == code,
            e.message_of() == message@,
    {
        ArchiveError::MemoryLimitExceeded { code, message }
    }

    /// The input has the wrong shape.
    pub fn invalid_input(code: u32, message: String) -> (e: ArchiveError)
        ensures
            e is InvalidInput,
            e.code_of() == code,
            e.message_of() == message@,
    {
        ArchiveError::InvalidInput { code, message }
    }

    /// The input is malformed.
    pub fn corrupted_data(code: u32, message: String) -> (e: ArchiveError)
        ensures
            e is CorruptedData,
            e.code_of() == code,
            e.message_of() == message@,
    {
        ArchiveError::CorruptedData { code, message }
    }

    /// The configuration asks for what this input cannot have.
    pub fn unsupported_feature(code: u32, message: String) -> (e: ArchiveError)
        ensures
            e is UnsupportedFeature,
            e.code_of() == code,
            e.message_of() == message@,
    {
        ArchiveError::UnsupportedFeature { code, message }
    }

    /// The entries do not fit the container.
    pub fn invalid_archive_format(code: u32, message: String) -> (e: ArchiveError)
        ensures
            e is InvalidArchiveFormat,
            e.code_of() == code,
            e.message_of() == message@,
    {
        ArchiveError::InvalidArchiveFormat { code, message }
    }

    /// The error that an I/O failure of the given class becomes.
    pub fn from_io_parts(class: IoFailure, message: String) -> (e: ArchiveError)
        ensures
            e.message_of() == message@,
            class is InvalidData ==> e is CorruptedData && e.code_of() == 2012,
            class is PermissionDenied || class is UnexpectedEof ==> e is InvalidInput
                && e.code_of() == 2011,
            class is Other ==> e is IoError && e.code_of() == 2005,
    {
        match class {
            IoFailure::InvalidData => ArchiveError::corrupted_data(2012, message),
            IoFailure::PermissionDenied => ArchiveError::invalid_input(2011, message),
            IoFailure::UnexpectedEof => ArchiveError::invalid_input(2011, message),
            IoFailure::Other => ArchiveError::io_error(2005, message),
        }
    }

    /// The error that a failure of a codec or of the container becomes.
    pub fn from_io(error: &std::io::Error) -> (e: ArchiveError)
        ensures
            is_io_failure(e),
    {
        ArchiveError::from_io_parts(io_failure_class(error), io_failure_text(error))
    }

    /// The error that a failure of the encryption layer becomes: a failed
    /// context check keeps its own code, every other failure takes the code
    /// of the encryption layer.
    pub fn from_crypto(error: &CryptoError) -> (e: ArchiveError)
        ensures
            e is EncryptionError,
            e.message_of() == error.message_of(),
            e.code_of() == encryption_failure_code(*error),
    {
        let code = match error {
            CryptoError::ContextValidationFailed { code, .. } => *code,
            _ => 2006,
        };
        ArchiveError::encryption_error(code, error.message())
    }
}

/// The code under which a failure of the encryption layer leaves the
/// pipeline.
pub open spec fn encryption_failure_code(error: CryptoError) -> u32 {
    if error is ContextValidationFailed {
        error.code_of()
    } else {
        2006
    }
}

/// The classes of I/O failure that the pipeline tells apart.
#[derive(Debug, Clone, Copy, PartialEq, Eq)]
pub enum IoFailure {
    InvalidData,
    PermissionDenied,
    UnexpectedEof,
    Other,
}

/// Whether `e` is one of the three errors that an I/O failure becomes.
pub open spec fn is_io_failure(e: ArchiveError) -> bool {
    ||| e is CorruptedData && e.code_of() == 2012
    ||| e is InvalidInput && e.code_of() == 2011
    ||| e is IoError && e.code_of() == 2005
}

/// `std::io::Error`, as the codecs and the container hand it out; nothing
/// is stated of it.
#[verifier::external_type_specification]
#[verifier::external_body]
pub struct ExIoError(std::io::Error);

/// `std::io::Error::kind`, reduced to the classes that the pipeline tells
/// apart. Nothing is claimed of the outcome.
#[verifier::external_body]
pub(crate) fn io_failure_class(error: &std::io::Error) -> IoFailure {
    match error.kind() {
        std::io::ErrorKind::InvalidData => IoFailure::InvalidData,
        std::io::ErrorKind::PermissionDenied => IoFailure::PermissionDenied,
        std::io::ErrorKind::UnexpectedEof => IoFailure::UnexpectedEof,
        _ => IoFailure::Other,
    }
}

/// The text that `std::io::Error` displays. Nothing is claimed of it.
#[verifier::external_body]
pub(crate) fn io_failure_text(error: &std::io::Error) -> String {
    error.to_string()
}

} // verus!
