//! Preparation of immutable versions, whole or from a stream of plaintext.
use crate::cde::{encode_manifest, manifest_encoding, manifest_round_trip};
use crate::crypto::{chunk_aad, chunk_context, chunks_digest, derive_kek, derive_manifest_key, generate_dek, is_sealed, manifest_aad, manifest_context, opened, seal, vault_kek, version_manifest_key, wrapped_dek_aad, wrapped_dek_context, ChunkDigestBuilder};
use crate::error::VaultError;
use crate::format::{group_identifiers, ChunkView, EncryptedChunk, Manifest, ManifestView, ObjectId, SealedRecord, SealedView, VaultId, VersionId, FORMAT_VERSION};
use crate::primitives::{wipe_array, wipe_vec};
use crate::reader::{assembled, binding_verdict, chunk_length, chunk_plaintext, chunks_of_rows, digest_verdict, layout_scan, layout_verdict, manifest_verdict, metadata_verdict, read_verdict, request_for, stored_receipt_verdict, ReadContext, MAX_CHUNKS_PER_VERSION};
use crate::storage::{chunk_of_row, chunk_views, version_of_row, StoredObject, StoredVersion, StreamingPublication, TransactionView, VersionView};
use vstd::prelude::*;

verus! {

/// Default plaintext chunk size.
pub const DEFAULT_CHUNK_SIZE: usize = 4_194_304;

/// An encrypted version that has not been published yet.
#[derive(Debug)]
pub struct PreparedVersion {
    /// The version's own row.
    pub stored_version: StoredVersion,
    /// Its chunks in index order.
    pub chunks: Vec<EncryptedChunk>,
}

/// Whether `count` chunks of `size` bytes hold a plaintext of `length` bytes, the last of
/// them not empty.
pub open spec fn is_chunk_count(length: int, size: int, count: int) -> bool {
    if length == 0 {
        count == 0
    } else {
        0 < count && (count - 1) * size < length <= count * size
    }
}

/// Where the chunk at an index ends.
pub open spec fn chunk_end(length: int, size: int, index: int) -> int {
    if (index + 1) * size < length {
        (index + 1) * size
    } else {
        length
    }
}

/// The part of a plaintext that the chunk at an index holds.
pub open spec fn chunk_piece(plaintext: Seq<u8>, size: int, index: int) -> Seq<u8> {
    plaintext.subrange(index * size, chunk_end(plaintext.len() as int, size, index))
}

/// Whether a chunk is the encryption of its part of a plaintext, bound to its position.
pub open spec fn chunk_holds(
    vault_id: Seq<u8>,
    version: VersionView,
    data_key: Seq<u8>,
    plaintext: Seq<u8>,
    index: int,
    chunk: ChunkView,
) -> bool {
    let piece = chunk_piece(plaintext, version.chunk_size as int, index);
    &&& chunk.index == index
    &&& piece.len() <= version.chunk_size
    &&& is_sealed(
        data_key,
        chunk_context(
            vault_id,
            version.object_id,
            version.version_id,
            chunk.index,
            piece.len() as u32,
        ),
        piece,
        chunk.record,
    )
}

/// The manifest that describes a version and its chunks.
pub open spec fn manifest_for(version: VersionView, chunks: Seq<ChunkView>) -> ManifestView {
    ManifestView {
        format_version: FORMAT_VERSION,
        object_id: version.object_id,
        version_id: version.version_id,
        plaintext_len: version.plaintext_len,
        chunk_size: version.chunk_size,
        chunk_count: version.chunk_count,
        chunk_digest: chunks_digest(chunks),
    }
}

/// The data key that a version's wrapped key opens to.
pub open spec fn data_key_of(
    root_key: Seq<u8>,
    vault_id: Seq<u8>,
    version: VersionView,
) -> Option<Seq<u8>> {
    opened(
        vault_kek(root_key, vault_id),
        wrapped_dek_context(vault_id, version.object_id, version.version_id),
        version.wrapped_dek,
    )
}

/// Whether a version and its chunks are an encryption of a plaintext for a vault.
pub open spec fn version_holds(
    root_key: Seq<u8>,
    vault_id: Seq<u8>,
    version: VersionView,
    chunks: Seq<ChunkView>,
    plaintext: Seq<u8>,
) -> bool {
    &&& data_key_of(root_key, vault_id, version) matches Some(data_key) && data_key.len() == 32
        && contents_hold(vault_id, version, data_key, chunks, plaintext)
}

/// Whether manifest and chunks are an encryption of a plaintext under a data key.
pub open spec fn contents_hold(
    vault_id: Seq<u8>,
    version: VersionView,
    data_key: Seq<u8>,
    chunks: Seq<ChunkView>,
    plaintext: Seq<u8>,
) -> bool {
    &&& version.chunk_size > 0
    &&& version.plaintext_len == plaintext.len()
    &&& version.chunk_count == chunks.len()
    &&& chunks.len() <= MAX_CHUNKS_PER_VERSION
    &&& is_chunk_count(plaintext.len() as int, version.chunk_size as int, chunks.len() as int)
    &&& chunks_digest(chunks).len() == 32
    &&& opened(
        version_manifest_key(data_key, version.version_id),
        manifest_context(vault_id, version.object_id, version.version_id),
        version.manifest,
    ) == Some(manifest_encoding(manifest_for(version, chunks)))
    &&& forall|i: int|
        #![trigger chunks[i]]
        0 <= i < chunks.len() ==> chunk_holds(vault_id, version, data_key, plaintext, i, chunks[i])
}

/// The verdict on the size of a plaintext and its chunks.
pub open spec fn size_verdict(length: int, chunk_size: int) -> Result<(), VaultError> {
    if chunk_size == 0 || chunk_size > u32::MAX {
        Err(VaultError::InvalidInput("invalid chunk size"))
    } else if length > u32::MAX * chunk_size {
        Err(VaultError::InvalidInput("too many chunks"))
    } else if length > MAX_CHUNKS_PER_VERSION * chunk_size {
        Err(VaultError::InvalidInput("nonce budget exceeded"))
    } else {
        Ok(())
    }
}

pub(crate) proof fn lemma_chunk_bounds(length: int, size: int, count: int, index: int)
    requires
        0 <= length,
        0 < size,
        is_chunk_count(length, size, count),
        0 <= index < count,
    ensures
        0 <= index * size < chunk_end(length, size, index) <= length,
        chunk_end(length, size, index) - index * size <= size,
        index + 1 < count ==> chunk_end(length, size, index) == (index + 1) * size,
        index + 1 == count ==> chunk_end(length, size, index) == length,
{
    assert(index * size <= (count - 1) * size) by (nonlinear_arith)
        requires
            index <= count - 1,
            0 < size,
    ;
    assert(0 <= index * size) by (nonlinear_arith)
        requires
            0 <= index,
            0 < size,
    ;
    assert((index + 1) * size == index * size + size) by (nonlinear_arith);
    if index + 1 < count {
        assert((index + 1) * size <= (count - 1) * size) by (nonlinear_arith)
            requires
                index + 1 <= count - 1,
                0 < size,
        ;
    }
}

/// The chunks of a version open to a prefix of its plaintext.
proof fn lemma_assembled_prefix(
    context: ReadContext,
    version: VersionView,
    chunks: Seq<ChunkView>,
    plaintext: Seq<u8>,
    length: int,
)
    requires
        context.manifest == manifest_for(version, chunks),
        context.object_id == version.object_id,
        context.version_id == version.version_id,
        contents_hold(context.vault_id, version, context.data_key, chunks, plaintext),
        0 <= length <= chunks.len(),
    ensures
        assembled(context, chunks.subrange(0, length)) == Ok::<_, VaultError>(
            if length == chunks.len() {
                plaintext
            } else {
                plaintext.subrange(0, length * version.chunk_size)
            },
        ),
    decreases length,
{
    let size = version.chunk_size as int;
    let total = plaintext.len() as int;
    let front = chunks.subrange(0, length);
    if length == 0 {
        assert(front =~= Seq::<ChunkView>::empty());
        if chunks.len() == 0 {
            assert(plaintext =~= Seq::<u8>::empty());
        } else {
            assert(plaintext.subrange(0, 0) =~= Seq::<u8>::empty());
        }
    } else {
        let index = length - 1;
        lemma_assembled_prefix(context, version, chunks, plaintext, index);
        lemma_chunk_bounds(total, size, chunks.len() as int, index);
        assert(front.drop_last() =~= chunks.subrange(0, index));
        let chunk = chunks[index];
        assert(front.last() == chunk);
        assert(chunk_holds(
            context.vault_id,
            version,
            context.data_key,
            plaintext,
            index,
            chunk,
        ));
        let piece = chunk_piece(plaintext, size, index);
        assert(version.chunk_size * (version.chunk_count - 1) == (chunks.len() - 1) * size)
            by (nonlinear_arith)
            requires
                version.chunk_count == chunks.len(),
                size == version.chunk_size,
        ;
        assert((index + 1) * size == index * size + size) by (nonlinear_arith);
        assert(chunk_length(context.manifest, chunk.index) == Ok::<_, VaultError>(
            piece.len() as u32,
        ));
        assert(chunk_plaintext(context, chunk) == Ok::<_, VaultError>(piece));
        let before = plaintext.subrange(0, index * size);
        if length == chunks.len() {
            assert(before + piece =~= plaintext);
        } else {
            assert(before + piece =~= plaintext.subrange(0, length * size));
        }
    }
}

proof fn lemma_layout_accepted(rows: Seq<crate::storage::ChunkRow>, start: int)
    requires
        0 <= start <= rows.len(),
        rows.len() <= MAX_CHUNKS_PER_VERSION,
        forall|i: int|
            0 <= i < rows.len() ==> (#[trigger] rows[i]).nonce@.len() == 12 && rows[i].index == i,
    ensures
        layout_scan(rows, start) == Ok::<(), VaultError>(()),
    decreases rows.len() - start,
{
    if start < rows.len() {
        assert(rows[start].nonce@.len() == 12);
        lemma_layout_accepted(rows, start + 1);
    }
}

/// A read gives back what a write wrote: once a prepared version is stored, and no receipt
/// or a valid receipt stands beside it, reading the object returns exactly its plaintext.
pub proof fn published_version_reads_back(
    root_key: Seq<u8>,
    vault_id: Seq<u8>,
    version: VersionView,
    chunks: Seq<ChunkView>,
    plaintext: Seq<u8>,
    stored: StoredObject,
)
    requires
        version_holds(root_key, vault_id, version, chunks, plaintext),
        version_of_row(stored.version) == Ok::<_, VaultError>(version),
        chunks_of_rows(stored.chunks@) == chunks,
        stored_receipt_verdict(stored.receipt, request_for(vault_id, version)) is Ok,
    ensures
        read_verdict(root_key, vault_id, version.object_id, stored) == Ok::<_, VaultError>(
            plaintext,
        ),
{
    let data_key = data_key_of(root_key, vault_id, version)->0;
    let manifest = manifest_for(version, chunks);
    assert(manifest.well_formed());
    manifest_round_trip(manifest);
    assert(binding_verdict(manifest, version) is Ok);
    let context = ReadContext {
        vault_id,
        object_id: version.object_id,
        version_id: version.version_id,
        manifest,
        data_key,
    };
    assert(manifest_verdict(
        vault_id,
        version.object_id,
        version,
        data_key,
        stored.receipt,
    ) == Ok::<_, VaultError>(context));
    assert(metadata_verdict(
        root_key,
        vault_id,
        version.object_id,
        stored.version,
        stored.receipt,
    ) == Ok::<_, VaultError>(context));
    let rows = stored.chunks@;
    assert forall|i: int| 0 <= i < rows.len() implies (#[trigger] rows[i]).nonce@.len() == 12
        && rows[i].index == i by {
        assert(chunks_of_rows(rows)[i] == chunk_of_row(rows[i]));
        assert(chunk_holds(vault_id, version, data_key, plaintext, i, chunks[i]));
    }
    lemma_layout_accepted(rows, 0);
    assert(digest_verdict(manifest, chunks) is Ok);
    assert(layout_verdict(manifest, rows) is Ok);
    lemma_assembled_prefix(context, version, chunks, plaintext, chunks.len() as int);
    assert(chunks.subrange(0, chunks.len() as int) =~= chunks);
}

/// One stored version never reads as two different plaintexts.
pub proof fn stored_plaintext_is_unique(
    root_key: Seq<u8>,
    vault_id: Seq<u8>,
    version: VersionView,
    chunks: Seq<ChunkView>,
    plaintext: Seq<u8>,
    other: Seq<u8>,
)
    requires
        version_holds(root_key, vault_id, version, chunks, plaintext),
        version_holds(root_key, vault_id, version, chunks, other),
    ensures
        plaintext == other,
{
    let data_key = data_key_of(root_key, vault_id, version)->0;
    let context = ReadContext {
        vault_id,
        object_id: version.object_id,
        version_id: version.version_id,
        manifest: manifest_for(version, chunks),
        data_key,
    };
    lemma_assembled_prefix(context, version, chunks, plaintext, chunks.len() as int);
    lemma_assembled_prefix(context, version, chunks, other, chunks.len() as int);
}

fn seal_chunk(
    data_key: &[u8; 32],
    vault_id: VaultId,
    object_id: ObjectId,
    version_id: VersionId,
    index: u32,
    piece: &[u8],
) -> (res: Result<EncryptedChunk, VaultError>)
    requires
        piece@.len() <= u32::MAX,
    ensures
        res is Ok,
        res->Ok_0.index == index,
        is_sealed(
            data_key@,
            chunk_context(vault_id@, object_id@, version_id@, index, piece@.len() as u32),
            piece@,
            res->Ok_0.record@,
        ),
{
    let aad = chunk_aad(vault_id, object_id, version_id, index, piece.len() as u32);
    let record = seal(data_key, aad.as_slice(), piece)?;
    Ok(EncryptedChunk { index, record })
}

fn seal_manifest(data_key: &[u8; 32], vault_id: VaultId, manifest: &Manifest) -> (res: Result<
    SealedRecord,
    VaultError,
>)
    ensures
        res is Ok,
        opened(
            version_manifest_key(data_key@, manifest@.version_id),
            manifest_context(vault_id@, manifest@.object_id, manifest@.version_id),
            res->Ok_0@,
        ) == Some(manifest_encoding(manifest@)),
{
    let mut bytes = encode_manifest(manifest);
    proof {
        lemma_encoding_is_short(manifest@);
        broadcast use group_identifiers;

    }
    let mut manifest_key = derive_manifest_key(data_key, manifest.version_id)?;
    let aad = manifest_aad(vault_id, manifest.object_id, manifest.version_id);
    let sealed = seal(&manifest_key, aad.as_slice(), bytes.as_slice());
    wipe_array(&mut manifest_key);
    wipe_vec(&mut bytes);
    sealed
}

proof fn lemma_encoding_is_short(manifest: ManifestView)
    requires
        manifest.object_id.len() == 16,
        manifest.version_id.len() == 16,
        manifest.chunk_digest.len() == 32,
    ensures
        manifest_encoding(manifest).len() <= 200,
{
    reveal(crate::cde::cbor_head);
    assert forall|value: nat, width: nat| #[trigger]
        crate::bytes::be_bytes(value, width).len() == width by {
        crate::bytes::lemma_be_bytes_len(value, width);
    }
}

fn wrap_data_key(
    root_key: &[u8; 32],
    vault_id: VaultId,
    object_id: ObjectId,
    version_id: VersionId,
    data_key: &[u8; 32],
) -> (res: Result<SealedRecord, VaultError>)
    ensures
        res is Ok,
        opened(
            vault_kek(root_key@, vault_id@),
            wrapped_dek_context(vault_id@, object_id@, version_id@),
            res->Ok_0@,
        ) == Some(data_key@),
{
    let mut wrapping_key = derive_kek(root_key, vault_id)?;
    let aad = wrapped_dek_aad(vault_id, object_id, version_id);
    let sealed = seal(&wrapping_key, aad.as_slice(), data_key);
    wipe_array(&mut wrapping_key);
    sealed
}

proof fn lemma_count_by_division(length: int, size: int)
    requires
        0 < length,
        0 < size,
    ensures
        is_chunk_count(length, size, (length - 1) / size + 1),
        (length - 1) / size < length,
{
    let full = (length - 1) / size;
    assert(full * size <= length - 1 < (full + 1) * size) by (nonlinear_arith)
        requires
            full == (length - 1) / size,
            0 < size,
            0 < length,
    ;
    assert(full <= length - 1) by (nonlinear_arith)
        requires
            full * size <= length - 1,
            0 < size,
            0 < length,
            full == (length - 1) / size,
    ;
    assert((full + 1 - 1) * size == full * size);
}

/// More than `limit` chunks are needed exactly for a plaintext longer than `limit` chunks.
proof fn lemma_count_exceeds(length: int, size: int, count: int, limit: int)
    requires
        0 <= length,
        0 < size,
        0 <= limit,
        is_chunk_count(length, size, count),
    ensures
        count > limit <==> length > limit * size,
{
    if length == 0 {
        assert(0 <= limit * size) by (nonlinear_arith)
            requires
                0 <= limit,
                0 < size,
        ;
    } else if count > limit {
        assert(limit * size <= (count - 1) * size) by (nonlinear_arith)
            requires
                limit <= count - 1,
                0 < size,
        ;
    } else {
        assert(count * size <= limit * size) by (nonlinear_arith)
            requires
                count <= limit,
                0 < size,
        ;
    }
}

/// How many chunks of a size hold a plaintext.
fn count_chunks(length: usize, size: usize) -> (res: usize)
    requires
        0 < size,
    ensures
        is_chunk_count(length as int, size as int, res as int),
{
    if length == 0 {
        0
    } else {
        proof {
            lemma_count_by_division(length as int, size as int);
        }
        (length - 1) / size + 1
    }
}

/// Encrypts one immutable version under a fresh version identifier and data key.
pub(crate) fn prepare_version(
    root_key: &[u8; 32],
    vault_id: VaultId,
    object_id: ObjectId,
    plaintext: &[u8],
    chunk_size: usize,
) -> (res: Result<PreparedVersion, VaultError>)
    ensures
        match (res, size_verdict(plaintext@.len() as int, chunk_size as int)) {
            (Ok(prepared), Ok(_)) => {
                &&& prepared.stored_version.object_id == object_id
                &&& prepared.stored_version.chunk_size == chunk_size
                &&& version_holds(
                    root_key@,
                    vault_id@,
                    prepared.stored_version@,
                    chunk_views(prepared.chunks@),
                    plaintext@,
                )
            },
            (Err(error), Err(expected)) => error == expected,
            _ => false,
        },
{
    if chunk_size == 0 || chunk_size as u64 > u32::MAX as u64 {
        return Err(VaultError::InvalidInput("invalid chunk size"));
    }
    let chunk_count: usize = count_chunks(plaintext.len(), chunk_size);
    proof {
        lemma_count_exceeds(
            plaintext@.len() as int,
            chunk_size as int,
            chunk_count as int,
            u32::MAX as int,
        );
        lemma_count_exceeds(
            plaintext@.len() as int,
            chunk_size as int,
            chunk_count as int,
            MAX_CHUNKS_PER_VERSION as int,
        );
    }
    if chunk_count as u64 > u32::MAX as u64 {
        return Err(VaultError::InvalidInput("too many chunks"));
    }
    if chunk_count as u32 > MAX_CHUNKS_PER_VERSION {
        return Err(VaultError::InvalidInput("nonce budget exceeded"));
    }
    let version_id = VersionId::random();
    let mut data_key = generate_dek();
    let sealed = seal_version(
        root_key,
        vault_id,
        object_id,
        version_id,
        &data_key,
        plaintext,
        chunk_size as u32,
        chunk_count as u32,
    );
    wipe_array(&mut data_key);
    sealed
}

/// Encrypts one immutable version under a given version identifier and data key.
pub(crate) fn seal_version(
    root_key: &[u8; 32],
    vault_id: VaultId,
    object_id: ObjectId,
    version_id: VersionId,
    data_key: &[u8; 32],
    plaintext: &[u8],
    chunk_size: u32,
    chunk_count: u32,
) -> (res: Result<PreparedVersion, VaultError>)
    requires
        0 < chunk_size,
        is_chunk_count(plaintext@.len() as int, chunk_size as int, chunk_count as int),
        chunk_count <= MAX_CHUNKS_PER_VERSION,
    ensures
        res is Ok,
        res->Ok_0.stored_version.object_id == object_id,
        res->Ok_0.stored_version.version_id == version_id,
        res->Ok_0.stored_version.chunk_size == chunk_size,
        res->Ok_0.stored_version.chunk_count == chunk_count,
        data_key_of(root_key@, vault_id@, res->Ok_0.stored_version@) == Some(data_key@),
        contents_hold(
            vault_id@,
            res->Ok_0.stored_version@,
            data_key@,
            chunk_views(res->Ok_0.chunks@),
            plaintext@,
        ),
{
    let size: usize = chunk_size as usize;
    let length: usize = plaintext.len();
    let mut chunks: Vec<EncryptedChunk> = Vec::new();
    let mut digest = ChunkDigestBuilder::new();
    let mut index: u32 = 0;
    let mut offset: usize = 0;
    let ghost layout = VersionView {
        object_id: object_id@,
        version_id: version_id@,
        wrapped_dek: SealedView { nonce: Seq::empty(), ciphertext: Seq::empty() },
        manifest: SealedView { nonce: Seq::empty(), ciphertext: Seq::empty() },
        plaintext_len: length as u64,
        chunk_size,
        chunk_count,
    };
    assert(digest.chunks() =~= chunk_views(chunks@));
    while index < chunk_count
        invariant
            length == plaintext@.len(),
            size == chunk_size,
            0 < chunk_size,
            is_chunk_count(length as int, chunk_size as int, chunk_count as int),
            chunk_count <= MAX_CHUNKS_PER_VERSION,
            index <= chunk_count,
            index < chunk_count ==> offset == index * chunk_size,
            chunks@.len() == index,
            digest.well_formed(),
            digest.chunks() == chunk_views(chunks@),
            layout.object_id == object_id@,
            layout.version_id == version_id@,
            layout.chunk_size == chunk_size,
            forall|i: int|
                #![trigger chunks@[i]]
                0 <= i < chunks@.len() ==> chunk_holds(
                    vault_id@,
                    layout,
                    data_key@,
                    plaintext@,
                    i,
                    chunks@[i]@,
                ),
        decreases chunk_count - index,
    {
        proof {
            lemma_chunk_bounds(
                length as int,
                chunk_size as int,
                chunk_count as int,
                index as int,
            );
        }
        let end: usize = if length - offset > size {
            offset + size
        } else {
            length
        };
        proof {
            assert((index + 1) * chunk_size == index * chunk_size + chunk_size) by (nonlinear_arith);
            assert(end == chunk_end(length as int, chunk_size as int, index as int));
        }
        let piece = vstd::slice::slice_subrange(plaintext, offset, end);
        assert(piece@ == chunk_piece(plaintext@, chunk_size as int, index as int));
        let chunk = seal_chunk(data_key, vault_id, object_id, version_id, index, piece)?;
        digest.update(index, &chunk.record);
        let ghost before = chunks@;
        chunks.push(chunk);
        assert(chunk_views(chunks@) =~= chunk_views(before).push(
            ChunkView { index, record: chunk.record@ },
        ));
        offset = end;
        index = index + 1;
    }
    let manifest = Manifest {
        format_version: FORMAT_VERSION,
        object_id,
        version_id,
        plaintext_len: length as u64,
        chunk_size,
        chunk_count,
        chunk_digest: digest.finalize(),
    };
    let sealed_manifest = seal_manifest(data_key, vault_id, &manifest)?;
    let wrapped_dek = wrap_data_key(root_key, vault_id, object_id, version_id, data_key)?;
    let stored_version = StoredVersion {
        object_id,
        version_id,
        wrapped_dek,
        manifest: sealed_manifest,
        plaintext_len: length as u64,
        chunk_size,
        chunk_count,
    };
    proof {
        let version = stored_version@;
        let views = chunk_views(chunks@);
        assert(manifest@ == manifest_for(version, views));
        assert forall|i: int| #![trigger views[i]] 0 <= i < views.len() implies chunk_holds(
            vault_id@,
            version,
            data_key@,
            plaintext@,
            i,
            views[i],
        ) by {
            assert(chunk_holds(vault_id@, layout, data_key@, plaintext@, i, chunks@[i]@));
        }
    }
    Ok(PreparedVersion { stored_version, chunks })
}

/// Checks the chunk size of a streamed version.
pub fn stream_chunk_size(chunk_size: usize) -> (res: Result<u32, VaultError>)
    ensures
        match res {
            Ok(size) => 0 < chunk_size && size == chunk_size,
            Err(error) => {
                &&& chunk_size == 0 || chunk_size > u32::MAX
                &&& error == VaultError::InvalidInput("invalid chunk size")
            },
        },
{
    if chunk_size == 0 || chunk_size as u64 > u32::MAX as u64 {
        return Err(VaultError::InvalidInput("invalid chunk size"));
    }
    Ok(chunk_size as u32)
}

/// One immutable version that is encrypted while its plaintext arrives in fragments of
/// any length. At most one chunk of plaintext is held at a time.
pub struct StreamingPut {
    vault_id: VaultId,
    object_id: ObjectId,
    version_id: VersionId,
    data_key: [u8; 32],
    wrapped_dek: SealedRecord,
    chunk_size: u32,
    buffer: Vec<u8>,
    digest: ChunkDigestBuilder,
    totals: StreamingPublication,
    fed: Ghost<Seq<u8>>,
    root_key: Ghost<Seq<u8>>,
}

/// What a streamed version ends with.
pub struct StreamedVersion {
    /// The completed version.
    pub stored_version: StoredVersion,
    /// The last chunk, where the plaintext does not end with a full one.
    pub last_chunk: Option<EncryptedChunk>,
}

/// The contents of an optional chunk as a sequence.
pub open spec fn optional_chunk(chunk: Option<EncryptedChunk>) -> Seq<ChunkView> {
    match chunk {
        Some(chunk) => seq![chunk@],
        None => Seq::empty(),
    }
}

/// Whether a chunk is the encryption of one full chunk of plaintext at its position.
pub open spec fn full_chunk_holds(
    vault_id: Seq<u8>,
    object_id: Seq<u8>,
    version_id: Seq<u8>,
    data_key: Seq<u8>,
    plaintext: Seq<u8>,
    size: u32,
    index: int,
    chunk: ChunkView,
) -> bool {
    &&& chunk.index == index
    &&& (index + 1) * size <= plaintext.len()
    &&& is_sealed(
        data_key,
        chunk_context(vault_id, object_id, version_id, chunk.index, size),
        plaintext.subrange(index * size, (index + 1) * size),
        chunk.record,
    )
}

impl StreamingPut {
    /// The plaintext taken in so far.
    pub closed spec fn fed(&self) -> Seq<u8> {
        self.fed@
    }

    /// The chunks handed out so far.
    pub closed spec fn emitted(&self) -> Seq<ChunkView> {
        self.digest.chunks()
    }

    /// The chunk size.
    pub closed spec fn size(&self) -> u32 {
        self.chunk_size
    }

    /// The object written to.
    pub closed spec fn object(&self) -> Seq<u8> {
        self.object_id@
    }

    /// The identifier of the new version.
    pub closed spec fn version(&self) -> Seq<u8> {
        self.version_id@
    }

    /// The wrapped data key of the new version.
    pub closed spec fn wrapped(&self) -> SealedView {
        self.wrapped_dek@
    }

    /// The vault written to and its Root Key.
    pub closed spec fn vault(&self) -> (Seq<u8>, Seq<u8>) {
        (self.vault_id@, self.root_key@)
    }

    /// Whether another state belongs to the same version.
    pub open spec fn continues(&self, other: &Self) -> bool {
        &&& self.size() == other.size()
        &&& self.object() == other.object()
        &&& self.version() == other.version()
        &&& self.wrapped() == other.wrapped()
        &&& self.vault() == other.vault()
    }

    /// The transaction that the chunks handed out and the end of the version amount to.
    pub open spec fn publication(&self, streamed: StreamedVersion) -> TransactionView {
        TransactionView::Publish {
            version: streamed.stored_version@,
            chunks: self.emitted() + optional_chunk(streamed.last_chunk),
            receipt: None,
        }
    }

    /// Whether the end of the version completes an encryption of what was taken in.
    pub open spec fn completed_by(&self, streamed: StreamedVersion) -> bool {
        let version = streamed.stored_version@;
        &&& version.object_id == self.object()
        &&& version.version_id == self.version()
        &&& version.wrapped_dek == self.wrapped()
        &&& version.chunk_size == self.size()
        &&& version_holds(
            self.vault().1,
            self.vault().0,
            version,
            self.emitted() + optional_chunk(streamed.last_chunk),
            self.fed(),
        )
    }

    /// Every full chunk taken in has been handed out encrypted, and the rest is buffered.
    pub closed spec fn well_formed(&self) -> bool {
        let count = self.digest.chunks().len();
        &&& 0 < self.chunk_size
        &&& self.digest.well_formed()
        &&& count <= MAX_CHUNKS_PER_VERSION
        &&& self.buffer@.len() < self.chunk_size
        &&& count * self.chunk_size + self.buffer@.len() == self.fed@.len()
        &&& self.buffer@ == self.fed@.skip(count * self.chunk_size)
        &&& self.totals.count() == count
        &&& self.totals.total() == count * self.chunk_size
        &&& opened(
            vault_kek(self.root_key@, self.vault_id@),
            wrapped_dek_context(self.vault_id@, self.object_id@, self.version_id@),
            self.wrapped_dek@,
        ) == Some(self.data_key@)
        &&& forall|i: int|
            #![trigger self.digest.chunks()[i]]
            0 <= i < count ==> full_chunk_holds(
                self.vault_id@,
                self.object_id@,
                self.version_id@,
                self.data_key@,
                self.fed@,
                self.chunk_size,
                i,
                self.digest.chunks()[i],
            )
    }

    /// Begins a version under a fresh version identifier and data key.
    pub(crate) fn begin(root_key: &[u8; 32], vault_id: VaultId, object_id: ObjectId, chunk_size: u32) -> (
    res: Result<Self, VaultError>)
        requires
            0 < chunk_size,
        ensures
            res is Ok,
            res->Ok_0.well_formed(),
            res->Ok_0.fed() == Seq::<u8>::empty(),
            res->Ok_0.emitted() == Seq::<ChunkView>::empty(),
            res->Ok_0.size() == chunk_size,
            res->Ok_0.object() == object_id@,
            res->Ok_0.vault() == (vault_id@, root_key@),
    {
        let version_id = VersionId::random();
        let mut data_key = generate_dek();
        match wrap_data_key(root_key, vault_id, object_id, version_id, &data_key) {
            Ok(wrapped_dek) => {
                let res = StreamingPut {
                    vault_id,
                    object_id,
                    version_id,
                    data_key,
                    wrapped_dek,
                    chunk_size,
                    buffer: Vec::new(),
                    digest: ChunkDigestBuilder::new(),
                    totals: StreamingPublication::begin(),
                    fed: Ghost(Seq::empty()),
                    root_key: Ghost(root_key@),
                };
                assert(res.buffer@ =~= res.fed@.skip(0));
                Ok(res)
            },
            Err(error) => {
                wipe_array(&mut data_key);
                Err(error)
            },
        }
    }

    /// Returns the object written to.
    #[must_use]
    pub fn object_id(&self) -> (res: ObjectId)
        ensures
            res@ == self.object(),
    {
        self.object_id
    }

    /// Returns the identifier of the new version.
    #[must_use]
    pub fn version_id(&self) -> (res: VersionId)
        ensures
            res@ == self.version(),
    {
        self.version_id
    }

    /// Returns the wrapped data key of the new version.
    #[must_use]
    pub fn wrapped_dek(&self) -> (res: &SealedRecord)
        ensures
            res@ == self.wrapped(),
    {
        &self.wrapped_dek
    }

    /// Returns the chunk size of the new version.
    #[must_use]
    pub fn chunk_size(&self) -> (res: u32)
        ensures
            res == self.size(),
    {
        self.chunk_size
    }

    /// Overwrites the data key and the buffered plaintext of an abandoned version.
    pub fn wipe(self) {
        let mut state = self;
        wipe_array(&mut state.data_key);
        wipe_vec(&mut state.buffer);
    }

    /// Takes in a fragment of plaintext and hands out every chunk that became full.
    pub fn feed(self, bytes: &[u8]) -> (res: Result<(Self, Vec<EncryptedChunk>), VaultError>)
        requires
            self.well_formed(),
        ensures
            match res {
                Ok((next, chunks)) => {
                    &&& self.fed().len() + bytes@.len() < (MAX_CHUNKS_PER_VERSION + 1)
                        * self.size()
                    &&& next.well_formed()
                    &&& next.continues(&self)
                    &&& next.fed() == self.fed() + bytes@
                    &&& next.emitted() == self.emitted() + chunk_views(chunks@)
                },
                Err(error) => {
                    &&& self.fed().len() + bytes@.len() >= (MAX_CHUNKS_PER_VERSION + 1)
                        * self.size()
                    &&& error == VaultError::InvalidInput("nonce budget exceeded")
                },
            },
            res is Ok <==> self.fed().len() + bytes@.len() < 16_777_217 * self.size(),
    {
        let mut state = self;
        let mut chunks: Vec<EncryptedChunk> = Vec::new();
        let mut position: usize = 0;
        proof {
            assert(self.fed@ + bytes@.subrange(0, 0) =~= self.fed@);
            assert(self.digest.chunks() + chunk_views(chunks@) =~= self.digest.chunks());
        }
        while position < bytes.len()
            invariant
                position <= bytes@.len(),
                state.well_formed(),
                state.continues(&self),
                state.fed@ == self.fed@ + bytes@.subrange(0, position as int),
                state.digest.chunks() == self.digest.chunks() + chunk_views(chunks@),
            decreases bytes@.len() - position,
        {
            let room: usize = state.chunk_size as usize - state.buffer.len();
            let left: usize = bytes.len() - position;
            let taken: usize = if left < room {
                left
            } else {
                room
            };
            let fragment = vstd::slice::slice_subrange(bytes, position, position + taken);
            let ghost shorter = bytes@.subrange(0, position as int);
            let ghost longer = bytes@.subrange(0, position + taken);
            assert(longer =~= shorter + fragment@);
            match state.absorb(fragment) {
                Ok((next, chunk)) => {
                    state = next;
                    assert(state.fed@ =~= self.fed@ + longer);
                    match chunk {
                        Some(chunk) => {
                            let ghost before = chunks@;
                            chunks.push(chunk);
                            assert(chunk_views(chunks@) =~= chunk_views(before).push(chunk@));
                            assert(state.digest.chunks() =~= self.digest.chunks() + chunk_views(
                                chunks@,
                            ));
                        },
                        None => {},
                    }
                },
                Err(error) => {
                    return Err(error);
                },
            }
            position += taken;
        }
        proof {
            assert(bytes@.subrange(0, position as int) =~= bytes@);
            let count = state.digest.chunks().len() as int;
            let size = state.chunk_size as int;
            assert(count * size + size <= (MAX_CHUNKS_PER_VERSION + 1) * size) by (nonlinear_arith)
                requires
                    count <= MAX_CHUNKS_PER_VERSION,
                    0 < size,
            ;
        }
        Ok((state, chunks))
    }

    /// Seals what is left in the buffer and the manifest, and completes the version.
    pub fn finish(self) -> (res: Result<StreamedVersion, VaultError>)
        requires
            self.well_formed(),
        ensures
            match res {
                Ok(streamed) => {
                    &&& self.fed().len() <= MAX_CHUNKS_PER_VERSION * self.size()
                    &&& self.completed_by(streamed)
                },
                Err(error) => {
                    &&& self.fed().len() > MAX_CHUNKS_PER_VERSION * self.size()
                    &&& error == VaultError::InvalidInput("nonce budget exceeded")
                },
            },
            res is Ok <==> self.fed().len() <= 16_777_216 * self.size(),
    {
        let mut state = self;
        let ghost count = self.digest.chunks().len() as int;
        let ghost size = self.chunk_size as int;
        let ghost plaintext = self.fed@;
        proof {
            assert(0 <= count * size) by (nonlinear_arith)
                requires
                    0 <= count,
                    0 < size,
            ;
            assert((count + 1) * size == count * size + size) by (nonlinear_arith);
            assert(count * size <= MAX_CHUNKS_PER_VERSION * size) by (nonlinear_arith)
                requires
                    count <= MAX_CHUNKS_PER_VERSION,
                    0 < size,
            ;
            assert(count < MAX_CHUNKS_PER_VERSION ==> count * size + size <= MAX_CHUNKS_PER_VERSION
                * size) by (nonlinear_arith)
                requires
                    0 < size,
            ;
            assert(count * size + size <= u64::MAX) by (nonlinear_arith)
                requires
                    0 <= count <= 16_777_216,
                    0 < size <= 0xffff_ffff,
            ;
        }
        let mut last_chunk: Option<EncryptedChunk> = None;
        if state.buffer.len() > 0 {
            let index: u32 = state.totals.next_index();
            if index >= MAX_CHUNKS_PER_VERSION {
                state.wipe();
                return Err(VaultError::InvalidInput("nonce budget exceeded"));
            }
            let length: u32 = state.buffer.len() as u32;
            let chunk = seal_chunk(
                &state.data_key,
                state.vault_id,
                state.object_id,
                state.version_id,
                index,
                state.buffer.as_slice(),
            )?;
            let appended = state.totals.append_chunk(&chunk, length);
            assert(appended is Ok);
            state.digest.update(index, &chunk.record);
            last_chunk = Some(chunk);
        }
        let ghost chunks = self.digest.chunks() + optional_chunk(last_chunk);
        assert(state.digest.chunks() =~= chunks);
        let chunk_count: u32 = state.totals.next_index();
        let plaintext_len = state.totals.finish(chunk_count)?;
        assert(plaintext_len == plaintext.len());
        let manifest = Manifest {
            format_version: FORMAT_VERSION,
            object_id: state.object_id,
            version_id: state.version_id,
            plaintext_len,
            chunk_size: state.chunk_size,
            chunk_count,
            chunk_digest: state.digest.finalize(),
        };
        let sealed_manifest = seal_manifest(&state.data_key, state.vault_id, &manifest)?;
        wipe_array(&mut state.data_key);
        wipe_vec(&mut state.buffer);
        let stored_version = StoredVersion {
            object_id: state.object_id,
            version_id: state.version_id,
            wrapped_dek: state.wrapped_dek,
            manifest: sealed_manifest,
            plaintext_len,
            chunk_size: state.chunk_size,
            chunk_count,
        };
        proof {
            let version = stored_version@;
            assert(manifest@ == manifest_for(version, chunks));
            assert((count - 1) * size == count * size - size) by (nonlinear_arith);
            assert(count == 0 ==> count * size == 0);
            assert(count > 0 ==> count * size > 0) by (nonlinear_arith)
                requires
                    0 < size,
            ;
            assert(is_chunk_count(plaintext.len() as int, size, chunks.len() as int));
            assert forall|i: int| #![trigger chunks[i]] 0 <= i < chunks.len() implies chunk_holds(
                self.vault_id@,
                version,
                self.data_key@,
                plaintext,
                i,
                chunks[i],
            ) by {
                lemma_chunk_bounds(plaintext.len() as int, size, chunks.len() as int, i);
                assert((i + 1) * size == i * size + size) by (nonlinear_arith);
                if i < count {
                    assert(chunks[i] == self.digest.chunks()[i]);
                    assert(full_chunk_holds(
                        self.vault_id@,
                        self.object_id@,
                        self.version_id@,
                        self.data_key@,
                        plaintext,
                        self.chunk_size,
                        i,
                        self.digest.chunks()[i],
                    ));
                    assert(chunk_end(plaintext.len() as int, size, i) == (i + 1) * size);
                } else {
                    assert(chunk_piece(plaintext, size, i) =~= self.buffer@);
                }
            }
            assert(contents_hold(self.vault_id@, version, self.data_key@, chunks, plaintext));
        }
        Ok(StreamedVersion { stored_version, last_chunk })
    }

    /// Takes in at most what still fits into the buffered chunk.
    fn absorb(self, fragment: &[u8]) -> (res: Result<(Self, Option<EncryptedChunk>), VaultError>)
        requires
            self.well_formed(),
            self.buffer@.len() + fragment@.len() <= self.chunk_size,
        ensures
            match res {
                Ok((next, chunk)) => {
                    &&& next.well_formed()
                    &&& next.continues(&self)
                    &&& next.fed@ == self.fed@ + fragment@
                    &&& next.digest.chunks() == self.digest.chunks() + optional_chunk(chunk)
                },
                Err(error) => {
                    &&& self.fed@.len() + fragment@.len() >= (MAX_CHUNKS_PER_VERSION + 1)
                        * self.chunk_size
                    &&& error == VaultError::InvalidInput("nonce budget exceeded")
                },
            },
    {
        let mut state = self;
        let ghost count = self.digest.chunks().len() as int;
        let ghost size = self.chunk_size as int;
        let ghost grown = self.fed@ + fragment@;
        state.buffer.extend_from_slice(fragment);
        proof {
            assert(0 <= count * size) by (nonlinear_arith)
                requires
                    0 <= count,
                    0 < size,
            ;
            assert((count + 1) * size == count * size + size) by (nonlinear_arith);
            assert(state.buffer@ =~= grown.skip(count * size));
            assert forall|i: int|
                #![trigger self.digest.chunks()[i]]
                0 <= i < count implies full_chunk_holds(
                self.vault_id@,
                self.object_id@,
                self.version_id@,
                self.data_key@,
                grown,
                self.chunk_size,
                i,
                self.digest.chunks()[i],
            ) by {
                lemma_full_chunk_extends(
                    self.vault_id@,
                    self.object_id@,
                    self.version_id@,
                    self.data_key@,
                    self.fed@,
                    fragment@,
                    self.chunk_size,
                    i,
                    self.digest.chunks()[i],
                );
            }
        }
        state.fed = Ghost(grown);
        if state.buffer.len() < state.chunk_size as usize {
            assert(state.digest.chunks() =~= self.digest.chunks() + optional_chunk(None));
            return Ok((state, None));
        }
        let index: u32 = state.totals.next_index();
        if index >= MAX_CHUNKS_PER_VERSION {
            state.wipe();
            return Err(VaultError::InvalidInput("nonce budget exceeded"));
        }
        let sealed = seal_chunk(
            &state.data_key,
            state.vault_id,
            state.object_id,
            state.version_id,
            index,
            state.buffer.as_slice(),
        );
        match sealed {
            Ok(chunk) => {
                proof {
                    assert(count * size + size <= u64::MAX) by (nonlinear_arith)
                        requires
                            0 <= count <= 16_777_216,
                            0 < size <= 0xffff_ffff,
                    ;
                }
                let appended = state.totals.append_chunk(&chunk, state.chunk_size);
                assert(appended is Ok);
                state.digest.update(index, &chunk.record);
                proof {
                    assert(state.buffer@ =~= grown.subrange(count * size, (count + 1) * size));
                    assert(state.digest.chunks() =~= self.digest.chunks() + optional_chunk(
                        Some(chunk),
                    ));
                }
                wipe_vec(&mut state.buffer);
                proof {
                    assert(state.buffer@ =~= grown.skip((count + 1) * size));
                    assert(full_chunk_holds(
                        state.vault_id@,
                        state.object_id@,
                        state.version_id@,
                        state.data_key@,
                        grown,
                        state.chunk_size,
                        count,
                        chunk@,
                    ));
                }
                Ok((state, Some(chunk)))
            },
            Err(error) => Err(error),
        }
    }
}

proof fn lemma_full_chunk_extends(
    vault_id: Seq<u8>,
    object_id: Seq<u8>,
    version_id: Seq<u8>,
    data_key: Seq<u8>,
    plaintext: Seq<u8>,
    more: Seq<u8>,
    size: u32,
    index: int,
    chunk: ChunkView,
)
    requires
        0 <= index,
        full_chunk_holds(
            vault_id,
            object_id,
            version_id,
            data_key,
            plaintext,
            size,
            index,
            chunk,
        ),
    ensures
        full_chunk_holds(
            vault_id,
            object_id,
            version_id,
            data_key,
            plaintext + more,
            size,
            index,
            chunk,
        ),
{
    assert(0 <= index * size <= (index + 1) * size) by (nonlinear_arith)
        requires
            0 <= index,
            0 <= size,
    ;
    assert((plaintext + more).subrange(index * size, (index + 1) * size) =~= plaintext.subrange(
        index * size,
        (index + 1) * size,
    ));
}

/// A stream goes on as it began: the same size, object, version, wrapped key and vault.
pub proof fn streams_go_on_as_they_began(stream: StreamingPut, next: StreamingPut)
    ensures
        next.continues(&stream) ==> {
            &&& next.size() == stream.size()
            &&& next.object() == stream.object()
            &&& next.version() == stream.version()
            &&& next.wrapped() == stream.wrapped()
            &&& next.vault() == stream.vault()
        },
{
}

} // verus!
