//! What holds of the pipeline as a whole: the layers undo each other, a
//! ciphertext is bound to its key version and to its context, a tagged body
//! betrays every changed byte, and the guards come before the work.
//!
//! The codecs, the ZIP container and the cipher are named, not defined. The
//! laws that pass through one of them say so in a hypothesis: that it reads
//! back what it wrote.

use crate::aead::{opened, sealed, EncryptionAlgorithm, NONCE_LEN};
use crate::archive::{archive_body_of, checksummed, context_of, sealed_with};
use crate::checksum::{lemma_tagged_detects_single_byte, lemma_tagged_matches, tagged};
use crate::codec::{compressed, decompressed, header_fits};
use crate::config::{ArchiveConfigView, ArchiveFormat, CompressionAlgorithm};
use crate::container::{zip_packed, zip_unpacked, ZipEntrySpec};
use crate::crypto::{
    aad_bytes, decrypt_outcome_under, frame, sealed_frame_under, service_key, unbound,
    MAX_KEY_VERSION,
};
use crate::driver::{entries_of, extracted, packed, single_entry, total_size, Failure};
use crate::entry::ArchiveFileView;
use crate::streaming::{joined, lemma_joined_len, stream_body_of};
use crate::unarchive::{opened_body_of, stripped, unarchived_with, unsealed_with};
use vstd::prelude::*;

verus! {

/// The codec of `config` reads back what it writes for `data`.
pub open spec fn codec_inverts(config: ArchiveConfigView, data: Seq<u8>) -> bool {
    compressed(config, data) matches Some(stream) && decompressed(config, stream) == Some(data)
}

/// The cipher opens what it sealed for `message`.
pub open spec fn cipher_inverts(
    algorithm: EncryptionAlgorithm,
    key: Seq<u8>,
    nonce: Seq<u8>,
    message: Seq<u8>,
    aad: Seq<u8>,
) -> bool {
    opened(algorithm, key, nonce, sealed(algorithm, key, nonce, message, aad), aad) == Some(
        message,
    )
}

/// The ZIP container gives back the names and the bytes of `entries`, in
/// order.
pub open spec fn container_inverts(entries: Seq<ZipEntrySpec>) -> bool {
    zip_packed(entries) matches Some(image) && zip_unpacked(image) matches Some(members)
        && members.len() == entries.len() && forall|i: int|
        0 <= i < entries.len() ==> (#[trigger] members[i]).name == entries[i].name
            && members[i].data
            == entries[i].data
}

/// Where nothing is compressed, the codec reads back what it writes.
pub proof fn lemma_store_inverts(config: ArchiveConfigView, data: Seq<u8>)
    requires
        config.algorithm == CompressionAlgorithm::Store,
    ensures
        codec_inverts(config, data),
{
}

/// The footer layer undoes itself: stripping the body of a stream gives the
/// stream back, with a footer and without.
pub proof fn lemma_strip_undoes_checksum(config: ArchiveConfigView, stream: Seq<u8>)
    ensures
        stripped(config, checksummed(config, stream)) == Ok::<Seq<u8>, Failure>(stream),
{
    if config.checksum {
        lemma_tagged_matches(stream);
        assert(tagged(stream).take(tagged(stream).len() - 4) =~= stream);
    }
}

/// Without a container, what is archived comes back as one entry named
/// `data` that holds the same bytes, wherever the codec reads back what it
/// wrote.
pub proof fn lemma_single_round_trip(
    config: ArchiveConfigView,
    file: ArchiveFileView,
    packed_at: u64,
    unpacked_at: u64,
)
    requires
        config.archive_format == ArchiveFormat::Single,
        header_fits(config),
        file.data.len() <= config.memory_limit,
        codec_inverts(config, file.data),
    ensures
        archive_body_of(config, false, seq![file], packed_at) matches Ok(body) && opened_body_of(
            config,
            false,
            body,
            unpacked_at,
        ) == Ok::<Seq<ArchiveFileView>, Failure>(seq![single_entry(file.data)]),
{
    let files = seq![file];
    assert(files.drop_last() =~= Seq::<ArchiveFileView>::empty());
    assert(total_size(files) == file.data.len()) by {
        assert(total_size(files.drop_last()) == 0);
    }
    let stream = compressed(config, file.data)->Some_0;
    lemma_strip_undoes_checksum(config, stream);
}

/// Without a container and without compression the round trip holds of
/// every entry within the memory limit.
pub proof fn lemma_stored_round_trip(
    config: ArchiveConfigView,
    file: ArchiveFileView,
    packed_at: u64,
    unpacked_at: u64,
)
    requires
        config.archive_format == ArchiveFormat::Single,
        config.algorithm == CompressionAlgorithm::Store,
        file.data.len() <= config.memory_limit,
    ensures
        archive_body_of(config, false, seq![file], packed_at) matches Ok(body) && opened_body_of(
            config,
            false,
            body,
            unpacked_at,
        ) == Ok::<Seq<ArchiveFileView>, Failure>(seq![single_entry(file.data)]),
{
    lemma_store_inverts(config, file.data);
    lemma_single_round_trip(config, file, packed_at, unpacked_at);
}

/// In the ZIP container, what is archived comes back with the same names
/// and the same bytes, in order, wherever the container and the codec read
/// back what they wrote. Nothing is said of times and permissions.
pub proof fn lemma_zip_round_trip(
    config: ArchiveConfigView,
    files: Seq<ArchiveFileView>,
    packed_at: u64,
    unpacked_at: u64,
)
    requires
        config.archive_format == ArchiveFormat::Zip,
        config.algorithm == CompressionAlgorithm::Deflate || config.algorithm
            == CompressionAlgorithm::Store,
        total_size(files) <= config.memory_limit,
        container_inverts(
            entries_of(files, config.algorithm == CompressionAlgorithm::Deflate, packed_at),
        ),
        packed(config, false, files, packed_at) matches Ok(image) && codec_inverts(config, image),
    ensures
        archive_body_of(config, false, files, packed_at) matches Ok(body) && opened_body_of(
            config,
            false,
            body,
            unpacked_at,
        ) matches Ok(restored) && restored.len() == files.len() && forall|i: int|
            0 <= i < files.len() ==> (#[trigger] restored[i]).name == files[i].name
                && restored[i].data == files[i].data,
{
    let entries = entries_of(files, config.algorithm == CompressionAlgorithm::Deflate, packed_at);
    let image = zip_packed(entries)->Some_0;
    let stream = compressed(config, image)->Some_0;
    lemma_strip_undoes_checksum(config, stream);
    let members = zip_unpacked(image)->Some_0;
    let restored = extracted(config, false, image, unpacked_at)->Ok_0;
    assert forall|i: int| 0 <= i < files.len() implies (#[trigger] restored[i]).name
        == files[i].name && restored[i].data == files[i].data by {
        assert(members[i].name == entries[i].name);
    }
}

/// A frame opens to its data under the key, the version and the context
/// that it was sealed for, wherever the cipher opens what it sealed.
pub proof fn lemma_frame_round_trip(
    algorithm: EncryptionAlgorithm,
    key: Seq<u8>,
    key_version: u32,
    nonce: Seq<u8>,
    data: Seq<u8>,
    context: Seq<u8>,
    aad: Option<Seq<u8>>,
)
    requires
        key_version <= MAX_KEY_VERSION,
        nonce.len() == NONCE_LEN,
        cipher_inverts(algorithm, key, nonce, data + context, aad_bytes(aad)),
    ensures
        decrypt_outcome_under(
            algorithm,
            key,
            key_version,
            sealed_frame_under(algorithm, key, key_version, nonce, data, context, aad),
            context,
            aad,
        ) == Ok::<Seq<u8>, u32>(data),
{
    lemma_context_binding(algorithm, key, key_version, nonce, data, context, context, aad);
    let plain = data + context;
    assert(plain.subrange(plain.len() - context.len(), plain.len() as int) =~= context);
    assert(plain.subrange(0, plain.len() - context.len()) =~= data);
}

/// A frame that was sealed for one context and is opened for another goes
/// through the context check with the message that the cipher saw: the
/// data followed by the first context. So it fails with 1012 wherever the
/// two contexts have one length and differ.
pub proof fn lemma_context_binding(
    algorithm: EncryptionAlgorithm,
    key: Seq<u8>,
    key_version: u32,
    nonce: Seq<u8>,
    data: Seq<u8>,
    sealed_for: Seq<u8>,
    opened_for: Seq<u8>,
    aad: Option<Seq<u8>>,
)
    requires
        key_version <= MAX_KEY_VERSION,
        nonce.len() == NONCE_LEN,
        cipher_inverts(algorithm, key, nonce, data + sealed_for, aad_bytes(aad)),
    ensures
        decrypt_outcome_under(
            algorithm,
            key,
            key_version,
            sealed_frame_under(algorithm, key, key_version, nonce, data, sealed_for, aad),
            opened_for,
            aad,
        ) == unbound(data + sealed_for, opened_for),
        opened_for.len() == sealed_for.len() && opened_for != sealed_for ==> unbound(
            data + sealed_for,
            opened_for,
        ) == Err::<Seq<u8>, u32>(1012),
{
    let body = sealed(algorithm, key, nonce, data + sealed_for, aad_bytes(aad));
    let whole = sealed_frame_under(algorithm, key, key_version, nonce, data, sealed_for, aad);
    assert(whole == frame(key_version as u8, nonce, body));
    assert(whole.len() == 13 + body.len());
    assert(whole[0] == key_version as u8);
    assert(whole.subrange(1, 13) =~= nonce);
    assert(whole.subrange(13, whole.len() as int) =~= body);
    let plain = data + sealed_for;
    if opened_for.len() == sealed_for.len() {
        assert(plain.subrange(plain.len() - opened_for.len(), plain.len() as int) =~= sealed_for);
    }
}

/// A frame that was written under one key version does not open under
/// another: it fails with 1009, whatever the key and the context.
pub proof fn lemma_key_version_binding(
    algorithm: EncryptionAlgorithm,
    key: Seq<u8>,
    written_under: u32,
    opened_under: u32,
    nonce: Seq<u8>,
    data: Seq<u8>,
    context: Seq<u8>,
    aad: Option<Seq<u8>>,
)
    requires
        written_under <= MAX_KEY_VERSION,
        written_under != opened_under,
        nonce.len() == NONCE_LEN,
    ensures
        decrypt_outcome_under(
            algorithm,
            key,
            opened_under,
            sealed_frame_under(algorithm, key, written_under, nonce, data, context, aad),
            context,
            aad,
        ) == Err::<Seq<u8>, u32>(1009),
{
    let body = sealed(algorithm, key, nonce, data + context, aad_bytes(aad));
    let whole = sealed_frame_under(algorithm, key, written_under, nonce, data, context, aad);
    assert(whole == frame(written_under as u8, nonce, body));
    assert(whole[0] == written_under as u8);
}

/// The encryption layer undoes itself under one salt: what was sealed
/// unseals to the body, wherever the cipher opens what it sealed.
pub proof fn lemma_unseal_undoes_seal(
    config: ArchiveConfigView,
    master_key: Option<Seq<u8>>,
    salt: Seq<u8>,
    nonce: Seq<u8>,
    body: Seq<u8>,
)
    requires
        nonce.len() == NONCE_LEN,
        sealed_with(config, master_key, salt, nonce, body) is Ok,
        config.encryption_config matches Some(encryption) && master_key matches Some(master)
            && service_key(master, salt, encryption) matches Ok(key) ==> cipher_inverts(
            encryption.algorithm,
            key,
            nonce,
            body + context_of(config),
            aad_bytes(config.encryption_aad),
        ),
    ensures
        unsealed_with(config, master_key, salt, sealed_with(config, master_key, salt, nonce, body)->Ok_0)
            == Ok::<Seq<u8>, Failure>(body),
{
    if config.encryption_config is Some {
        let encryption = config.encryption_config->Some_0;
        let master = master_key->Some_0;
        let key = service_key(master, salt, encryption)->Ok_0;
        lemma_frame_round_trip(
            encryption.algorithm,
            key,
            encryption.key_version,
            nonce,
            body,
            context_of(config),
            config.encryption_aad,
        );
    }
}

/// A sealed archive betrays a changed version byte without any help of the
/// cipher: unsealing fails in the encryption layer, with 2006.
pub proof fn lemma_changed_version_is_detected(
    config: ArchiveConfigView,
    master_key: Option<Seq<u8>>,
    salt: Seq<u8>,
    nonce: Seq<u8>,
    body: Seq<u8>,
    version: u8,
)
    requires
        config.encryption_config is Some,
        nonce.len() == NONCE_LEN,
        sealed_with(config, master_key, salt, nonce, body) matches Ok(sealed_bytes)
            && sealed_bytes[0] != version,
    ensures
        unsealed_with(
            config,
            master_key,
            salt,
            sealed_with(config, master_key, salt, nonce, body)->Ok_0.update(0, version),
        ) == Err::<Seq<u8>, Failure>(Failure::Code(2006)),
{
    let encryption = config.encryption_config->Some_0;
    let key = service_key(master_key->Some_0, salt, encryption)->Ok_0;
    let inner = sealed(
        encryption.algorithm,
        key,
        nonce,
        body + context_of(config),
        aad_bytes(config.encryption_aad),
    );
    let whole = sealed_with(config, master_key, salt, nonce, body)->Ok_0;
    assert(whole == frame(encryption.key_version as u8, nonce, inner));
    assert(whole.len() == 13 + inner.len());
    assert(whole[0] == encryption.key_version as u8);
    let changed = whole.update(0, version);
    assert(changed[0] == version);
}

/// A body with a footer betrays every single changed byte: with the footer
/// configured and no encryption, unarchiving fails with 2007 before the
/// codec sees anything.
pub proof fn lemma_changed_byte_is_detected(
    config: ArchiveConfigView,
    stream: Seq<u8>,
    changed: Seq<u8>,
    at: int,
    now: u64,
)
    requires
        config.checksum,
        config.encryption_config is None,
        changed.len() == tagged(stream).len(),
        changed.len() <= config.memory_limit,
        0 <= at < changed.len(),
        changed[at] != tagged(stream)[at],
        forall|i: int| 0 <= i < changed.len() && i != at ==> changed[i] == tagged(stream)[i],
    ensures
        stripped(config, changed) == Err::<Seq<u8>, Failure>(Failure::Code(2007)),
        unarchived_with(config, false, None, Seq::empty(), changed, now) == Err::<
            Seq<ArchiveFileView>,
            Failure,
        >(Failure::Code(2007)),
{
    lemma_tagged_matches(stream);
    lemma_tagged_detects_single_byte(stream, changed, at);
}

/// An abort comes before everything: nothing is packed, compressed or
/// opened once the driver has been told to abort.
pub proof fn lemma_abort_comes_first(
    config: ArchiveConfigView,
    files: Seq<ArchiveFileView>,
    master_key: Option<Seq<u8>>,
    salt: Seq<u8>,
    data: Seq<u8>,
    now: u64,
)
    ensures
        archive_body_of(config, true, files, now) == Err::<Seq<u8>, Failure>(Failure::Code(2004)),
        unarchived_with(config, true, master_key, salt, data, now) == Err::<
            Seq<ArchiveFileView>,
            Failure,
        >(Failure::Code(2004)),
{
}

/// The memory guard comes before the codec: entries that are together
/// larger than the memory limit, and an input that is, are refused with
/// 2009 whatever else holds of them.
pub proof fn lemma_memory_guard(
    config: ArchiveConfigView,
    files: Seq<ArchiveFileView>,
    master_key: Option<Seq<u8>>,
    salt: Seq<u8>,
    data: Seq<u8>,
    now: u64,
)
    ensures
        total_size(files) > config.memory_limit ==> archive_body_of(config, false, files, now)
            == Err::<Seq<u8>, Failure>(Failure::Code(2009)),
        data.len() > config.memory_limit ==> unarchived_with(
            config,
            false,
            master_key,
            salt,
            data,
            now,
        ) == Err::<Seq<ArchiveFileView>, Failure>(Failure::Code(2009)),
{
}

/// A stream is archived as the one entry that its chunks make together:
/// without a container, and with header fields that fit, the body of the
/// archive of a stream is the body of the archive of that entry.
pub proof fn lemma_stream_is_one_entry(
    config: ArchiveConfigView,
    aborted: bool,
    chunks: Seq<Seq<u8>>,
    file: ArchiveFileView,
    now: u64,
)
    requires
        config.archive_format == ArchiveFormat::Single,
        header_fits(config),
        file.data == joined(chunks),
    ensures
        stream_body_of(config, aborted, chunks) == archive_body_of(config, aborted, seq![file], now),
{
    lemma_joined_len(chunks);
    let files = seq![file];
    assert(files.drop_last() =~= Seq::<ArchiveFileView>::empty());
    assert(total_size(files) == file.data.len()) by {
        assert(total_size(files.drop_last()) == 0);
    }
}

/// A stream is never packed into the ZIP container: it is refused with
/// 2013 whatever its chunks are, and whether or not the driver has been
/// told to abort.
pub proof fn lemma_zip_refuses_streams(
    config: ArchiveConfigView,
    aborted: bool,
    chunks: Seq<Seq<u8>>,
)
    requires
        config.archive_format == ArchiveFormat::Zip,
    ensures
        stream_body_of(config, aborted, chunks) == Err::<Seq<u8>, Failure>(Failure::Code(2013)),
{
}

} // verus!
