//! Verification-first reads. A stored version is opened in two passes: the first
//! checks the layout and digest of every encrypted chunk, and only its result can
//! open chunks in the second.
use crate::bytes::{bytes_equal, fixed_bytes};
use crate::cde::{decode_manifest, manifest_decoding};
use crate::crypto::{chunk_aad, chunk_context, chunks_digest, derive_kek, derive_manifest_key, manifest_aad, manifest_context, open, opened, vault_kek, version_manifest_key, wrapped_dek_aad, wrapped_dek_context, ChunkDigestBuilder};
use crate::error::VaultError;
use crate::format::{ChunkView, Manifest, ManifestView, ObjectId, VaultId, VersionId, FORMAT_VERSION};
use crate::primitives::{wipe_array, wipe_vec};
use crate::storage::{chunk_of_row, receipt_of_row, version_of_row, ChunkRow, ReceiptRow, StoredObject, StoredVersion, VersionRow, VersionView};
use crate::witness::{commitment_of, RequestView, WitnessRequest};
use vstd::prelude::*;

verus! {

/// Maximum number of chunks encrypted under one version data key.
pub const MAX_CHUNKS_PER_VERSION: u32 = 16_777_216;

/// Whether a manifest describes exactly the stored version, and within policy.
pub open spec fn binding_verdict(manifest: ManifestView, stored: VersionView) -> Result<
    (),
    VaultError,
> {
    if manifest.format_version != FORMAT_VERSION || manifest.object_id != stored.object_id
        || manifest.version_id != stored.version_id || manifest.plaintext_len
        != stored.plaintext_len || manifest.chunk_size != stored.chunk_size || manifest.chunk_count
        != stored.chunk_count {
        Err(VaultError::Invariant("Manifest and SQLite metadata binding"))
    } else if manifest.chunk_size == 0 || manifest.chunk_count > MAX_CHUNKS_PER_VERSION {
        Err(VaultError::InvalidFormat("Manifest chunk policy"))
    } else {
        Ok(())
    }
}

/// Checks that a manifest describes exactly the stored version, and within policy.
pub fn validate_manifest_binding(manifest: &Manifest, stored: &StoredVersion) -> (res: Result<
    (),
    VaultError,
>)
    ensures
        res == binding_verdict(manifest@, stored@),
{
    if manifest.format_version != FORMAT_VERSION || manifest.object_id != stored.object_id
        || manifest.version_id != stored.version_id || manifest.plaintext_len
        != stored.plaintext_len || manifest.chunk_size != stored.chunk_size || manifest.chunk_count
        != stored.chunk_count {
        return Err(VaultError::Invariant("Manifest and SQLite metadata binding"));
    }
    if manifest.chunk_size == 0 || manifest.chunk_count > MAX_CHUNKS_PER_VERSION {
        return Err(VaultError::invalid_format("Manifest chunk policy"));
    }
    Ok(())
}

/// The plaintext length that a manifest gives the chunk at an index.
pub open spec fn chunk_length(manifest: ManifestView, index: u32) -> Result<u32, VaultError> {
    if index >= manifest.chunk_count {
        Err(VaultError::InvalidFormat("chunk index outside Manifest"))
    } else if index + 1 < manifest.chunk_count {
        Ok(manifest.chunk_size)
    } else {
        let prefix = manifest.chunk_size * (manifest.chunk_count - 1);
        if manifest.plaintext_len < prefix {
            Err(VaultError::InvalidFormat("Manifest plaintext length"))
        } else if manifest.plaintext_len - prefix > u32::MAX {
            Err(VaultError::InvalidFormat("final chunk length"))
        } else {
            Ok((manifest.plaintext_len - prefix) as u32)
        }
    }
}

/// Computes the plaintext length that a manifest gives the chunk at an index.
pub fn expected_plaintext_chunk_len(manifest: &Manifest, index: u32) -> (res: Result<
    u32,
    VaultError,
>)
    ensures
        res == chunk_length(manifest@, index),
{
    if index >= manifest.chunk_count {
        return Err(VaultError::invalid_format("chunk index outside Manifest"));
    }
    if index + 1 < manifest.chunk_count {
        return Ok(manifest.chunk_size);
    }
    let size: u64 = manifest.chunk_size as u64;
    let full: u64 = (manifest.chunk_count - 1) as u64;
    assert(size * full <= 0xffff_ffff * 0xffff_ffff) by (nonlinear_arith)
        requires
            size <= 0xffff_ffff,
            full <= 0xffff_ffff,
    ;
    let prefix: u64 = size * full;
    match manifest.plaintext_len.checked_sub(prefix) {
        Some(tail) => if tail > u32::MAX as u64 {
            Err(VaultError::invalid_format("final chunk length"))
        } else {
            Ok(tail as u32)
        },
        None => Err(VaultError::invalid_format("Manifest plaintext length")),
    }
}

/// What identifies and opens the chunks of one version.
pub ghost struct ReadContext {
    pub vault_id: Seq<u8>,
    pub object_id: Seq<u8>,
    pub version_id: Seq<u8>,
    pub manifest: ManifestView,
    pub data_key: Seq<u8>,
}

/// The verdict on a stored receipt, where a version has one.
pub open spec fn stored_receipt_verdict(
    receipt: Option<ReceiptRow>,
    request: RequestView,
) -> Result<(), VaultError> {
    match receipt {
        None => Ok(()),
        Some(row) => match receipt_of_row(row) {
            Err(error) => Err(error),
            Ok(receipt) => receipt.request_verdict(request),
        },
    }
}

/// What a witness is asked to acknowledge for a stored version.
pub open spec fn request_for(vault_id: Seq<u8>, version: VersionView) -> RequestView {
    RequestView {
        vault_id,
        object_id: version.object_id,
        version_id: version.version_id,
        commitment: commitment_of(
            vault_id,
            version.object_id,
            version.version_id,
            version.manifest,
        ),
    }
}

/// What opening the metadata of a stored version comes to: wrapped key, manifest, row
/// binding and receipt, in this order.
pub open spec fn metadata_verdict(
    root_key: Seq<u8>,
    vault_id: Seq<u8>,
    object_id: Seq<u8>,
    row: VersionRow,
    receipt: Option<ReceiptRow>,
) -> Result<ReadContext, VaultError> {
    match version_of_row(row) {
        Err(error) => Err(error),
        Ok(version) => if version.object_id != object_id {
            Err(VaultError::Invariant("object pointer binding"))
        } else {
            match opened(
                vault_kek(root_key, vault_id),
                wrapped_dek_context(vault_id, object_id, version.version_id),
                version.wrapped_dek,
            ) {
                None => Err(VaultError::Authentication),
                Some(data_key) => if data_key.len() != 32 {
                    Err(VaultError::InvalidFormat("wrapped DEK length"))
                } else {
                    manifest_verdict(vault_id, object_id, version, data_key, receipt)
                },
            }
        },
    }
}

/// What opening the manifest of a stored version comes to.
pub open spec fn manifest_verdict(
    vault_id: Seq<u8>,
    object_id: Seq<u8>,
    version: VersionView,
    data_key: Seq<u8>,
    receipt: Option<ReceiptRow>,
) -> Result<ReadContext, VaultError> {
    match opened(
        version_manifest_key(data_key, version.version_id),
        manifest_context(vault_id, object_id, version.version_id),
        version.manifest,
    ) {
        None => Err(VaultError::Authentication),
        Some(bytes) => match manifest_decoding(bytes) {
            Err(error) => Err(error),
            Ok(manifest) => match binding_verdict(manifest, version) {
                Err(error) => Err(error),
                Ok(_) => match stored_receipt_verdict(receipt, request_for(vault_id, version)) {
                    Err(error) => Err(error),
                    Ok(_) => Ok(
                        ReadContext {
                            vault_id,
                            object_id,
                            version_id: version.version_id,
                            manifest,
                            data_key,
                        },
                    ),
                },
            },
        },
    }
}

/// Whether stored chunk rows count up from `start`, with the first violation.
pub open spec fn layout_scan(rows: Seq<ChunkRow>, start: int) -> Result<(), VaultError>
    decreases rows.len() - start,
{
    if start >= rows.len() {
        Ok(())
    } else if rows[start].nonce@.len() != 12 {
        Err(VaultError::InvalidFormat("invalid 96-bit nonce length"))
    } else if rows[start].index != start {
        Err(VaultError::Invariant("stored chunk indices"))
    } else if start == u32::MAX {
        Err(VaultError::Invariant("stored chunk count"))
    } else {
        layout_scan(rows, start + 1)
    }
}

/// The chunks that rows stand for.
pub open spec fn chunks_of_rows(rows: Seq<ChunkRow>) -> Seq<ChunkView> {
    Seq::new(rows.len(), |i: int| chunk_of_row(rows[i]))
}

/// The verdict on the number and digest of chunks whose indices count up.
pub open spec fn digest_verdict(manifest: ManifestView, chunks: Seq<ChunkView>) -> Result<
    (),
    VaultError,
> {
    if chunks.len() != manifest.chunk_count {
        Err(VaultError::Invariant("stored chunk count"))
    } else if chunks_digest(chunks) != manifest.chunk_digest {
        Err(VaultError::Authentication)
    } else {
        Ok(())
    }
}

/// The verdict on the stored chunks of a version before any of them is opened.
pub open spec fn layout_verdict(manifest: ManifestView, rows: Seq<ChunkRow>) -> Result<
    (),
    VaultError,
> {
    match layout_scan(rows, 0) {
        Err(error) => Err(error),
        Ok(_) => digest_verdict(manifest, chunks_of_rows(rows)),
    }
}

/// What one chunk opens to.
pub open spec fn chunk_plaintext(context: ReadContext, chunk: ChunkView) -> Result<
    Seq<u8>,
    VaultError,
> {
    match chunk_length(context.manifest, chunk.index) {
        Err(error) => Err(error),
        Ok(length) => match opened(
            context.data_key,
            chunk_context(
                context.vault_id,
                context.object_id,
                context.version_id,
                chunk.index,
                length,
            ),
            chunk.record,
        ) {
            None => Err(VaultError::Authentication),
            Some(part) => if part.len() != length {
                Err(VaultError::InvalidFormat("authenticated chunk length"))
            } else {
                Ok(part)
            },
        },
    }
}

/// What a sequence of chunks opens to, one behind the other.
pub open spec fn assembled(context: ReadContext, chunks: Seq<ChunkView>) -> Result<
    Seq<u8>,
    VaultError,
>
    decreases chunks.len(),
{
    if chunks.len() == 0 {
        Ok(Seq::empty())
    } else {
        match assembled(context, chunks.drop_last()) {
            Err(error) => Err(error),
            Ok(front) => match chunk_plaintext(context, chunks.last()) {
                Err(error) => Err(error),
                Ok(part) => Ok(front + part),
            },
        }
    }
}

/// What reading a stored version comes to: its whole plaintext, or the first check that
/// fails.
pub open spec fn read_verdict(
    root_key: Seq<u8>,
    vault_id: Seq<u8>,
    object_id: Seq<u8>,
    stored: StoredObject,
) -> Result<Seq<u8>, VaultError> {
    match metadata_verdict(root_key, vault_id, object_id, stored.version, stored.receipt) {
        Err(error) => Err(error),
        Ok(context) => match layout_verdict(context.manifest, stored.chunks@) {
            Err(error) => Err(error),
            Ok(_) => match assembled(context, chunks_of_rows(stored.chunks@)) {
                Err(error) => Err(error),
                Ok(plaintext) => if plaintext.len() != context.manifest.plaintext_len {
                    Err(VaultError::Invariant("plaintext length after chunk assembly"))
                } else {
                    Ok(plaintext)
                },
            },
        },
    }
}

/// The first pass over a stored version: layout and digest of its chunks.
pub struct LayoutChecker {
    vault_id: VaultId,
    object_id: ObjectId,
    version_id: VersionId,
    manifest: Manifest,
    data_key: [u8; 32],
    digest: ChunkDigestBuilder,
    expected_index: u32,
}

impl LayoutChecker {
    /// What identifies and opens the chunks.
    pub closed spec fn context(&self) -> ReadContext {
        ReadContext {
            vault_id: self.vault_id@,
            object_id: self.object_id@,
            version_id: self.version_id@,
            manifest: self.manifest@,
            data_key: self.data_key@,
        }
    }

    /// The chunks checked so far.
    pub closed spec fn checked(&self) -> Seq<ChunkView> {
        self.digest.chunks()
    }

    /// The running digest and the next index agree with the chunks checked so far.
    pub closed spec fn well_formed(&self) -> bool {
        &&& self.digest.well_formed()
        &&& self.expected_index == self.digest.chunks().len()
    }

    /// Opens the metadata of a stored version: wrapped key, manifest, row binding and
    /// receipt.
    pub(crate) fn open(
        root_key: &[u8; 32],
        vault_id: VaultId,
        object_id: ObjectId,
        row: &VersionRow,
        receipt: &Option<ReceiptRow>,
    ) -> (res: Result<Self, VaultError>)
        ensures
            match (res, metadata_verdict(root_key@, vault_id@, object_id@, *row, *receipt)) {
                (Ok(checker), Ok(context)) => {
                    &&& checker.well_formed()
                    &&& checker.context() == context
                    &&& checker.checked() == Seq::<ChunkView>::empty()
                    &&& context.manifest.chunk_count <= MAX_CHUNKS_PER_VERSION
                },
                (Err(error), Err(expected)) => error == expected,
                _ => false,
            },
    {
        let version = row.version()?;
        if version.object_id != object_id {
            return Err(VaultError::Invariant("object pointer binding"));
        }
        let mut wrapping_key = derive_kek(root_key, vault_id)?;
        let wrapped_aad = wrapped_dek_aad(vault_id, object_id, version.version_id);
        let unwrapped = open(&wrapping_key, wrapped_aad.as_slice(), &version.wrapped_dek);
        wipe_array(&mut wrapping_key);
        let mut data_key_bytes = unwrapped?;
        let fixed_key: Option<[u8; 32]> = fixed_bytes(data_key_bytes.as_slice());
        wipe_vec(&mut data_key_bytes);
        let mut data_key = match fixed_key {
            Some(data_key) => data_key,
            None => return Err(VaultError::invalid_format("wrapped DEK length")),
        };
        match Self::open_manifest(&data_key, vault_id, object_id, &version, receipt) {
            Ok(manifest) => Ok(
                LayoutChecker {
                    vault_id,
                    object_id,
                    version_id: version.version_id,
                    manifest,
                    data_key,
                    digest: ChunkDigestBuilder::new(),
                    expected_index: 0,
                },
            ),
            Err(error) => {
                wipe_array(&mut data_key);
                Err(error)
            },
        }
    }

    fn open_manifest(
        data_key: &[u8; 32],
        vault_id: VaultId,
        object_id: ObjectId,
        version: &StoredVersion,
        receipt: &Option<ReceiptRow>,
    ) -> (res: Result<Manifest, VaultError>)
        requires
            version@.object_id == object_id@,
        ensures
            match (
                res,
                manifest_verdict(vault_id@, object_id@, version@, data_key@, *receipt),
            ) {
                (Ok(manifest), Ok(context)) => {
                    &&& manifest@ == context.manifest
                    &&& manifest.chunk_count <= MAX_CHUNKS_PER_VERSION
                },
                (Err(error), Err(expected)) => error == expected,
                _ => false,
            },
    {
        let mut manifest_key = derive_manifest_key(data_key, version.version_id)?;
        let aad = manifest_aad(vault_id, object_id, version.version_id);
        let unsealed = open(&manifest_key, aad.as_slice(), &version.manifest);
        wipe_array(&mut manifest_key);
        let mut manifest_bytes = unsealed?;
        let decoded = decode_manifest(manifest_bytes.as_slice());
        wipe_vec(&mut manifest_bytes);
        let manifest = decoded?;
        validate_manifest_binding(&manifest, version)?;
        match receipt {
            Some(row) => {
                let receipt = row.receipt()?;
                let request = WitnessRequest::new(
                    vault_id,
                    object_id,
                    version.version_id,
                    &version.manifest,
                );
                receipt.verify_request(&request)?;
            },
            None => {},
        }
        Ok(manifest)
    }

    /// Forgets the data key of a read that is not continued.
    pub fn wipe(self) {
        let mut state = self;
        wipe_array(&mut state.data_key);
    }

    /// Checks the next stored chunk: its nonce, its position, and its part of the digest.
    pub fn check_chunk(self, row: &ChunkRow) -> (res: Result<Self, VaultError>)
        requires
            self.well_formed(),
        ensures
            match res {
                Ok(next) => {
                    &&& row.nonce@.len() == 12
                    &&& row.index == self.checked().len()
                    &&& next.well_formed()
                    &&& next.context() == self.context()
                    &&& next.checked() == self.checked().push(chunk_of_row(*row))
                },
                Err(error) => if row.nonce@.len() != 12 {
                    error == VaultError::InvalidFormat("invalid 96-bit nonce length")
                } else if row.index != self.checked().len() {
                    error == VaultError::Invariant("stored chunk indices")
                } else {
                    &&& self.checked().len() == u32::MAX
                    &&& error == VaultError::Invariant("stored chunk count")
                },
            },
    {
        let mut state = self;
        let chunk = match row.chunk() {
            Ok(chunk) => chunk,
            Err(error) => {
                wipe_array(&mut state.data_key);
                return Err(error);
            },
        };
        if chunk.index != state.expected_index {
            wipe_array(&mut state.data_key);
            return Err(VaultError::Invariant("stored chunk indices"));
        }
        if state.expected_index == u32::MAX {
            wipe_array(&mut state.data_key);
            return Err(VaultError::Invariant("stored chunk count"));
        }
        state.digest.update(chunk.index, &chunk.record);
        state.expected_index = state.expected_index + 1;
        Ok(state)
    }

    /// Confirms the number and digest of all chunks and turns to opening them.
    pub fn finish_layout(self) -> (res: Result<ChunkOpener, VaultError>)
        requires
            self.well_formed(),
        ensures
            match (res, digest_verdict(self.context().manifest, self.checked())) {
                (Ok(opener), Ok(_)) => {
                    &&& opener.context() == self.context()
                    &&& opener.written() == 0
                },
                (Err(error), Err(expected)) => error == expected,
                _ => false,
            },
    {
        let mut data_key = self.data_key;
        if self.expected_index != self.manifest.chunk_count {
            wipe_array(&mut data_key);
            return Err(VaultError::Invariant("stored chunk count"));
        }
        let digest = self.digest.finalize();
        if !bytes_equal(&digest, &self.manifest.chunk_digest) {
            wipe_array(&mut data_key);
            return Err(VaultError::Authentication);
        }
        Ok(
            ChunkOpener {
                vault_id: self.vault_id,
                object_id: self.object_id,
                version_id: self.version_id,
                manifest: self.manifest,
                data_key,
                written_len: 0,
            },
        )
    }
}

/// The second pass over a stored version, possible only after the first has confirmed
/// the layout and digest of every chunk.
pub struct ChunkOpener {
    vault_id: VaultId,
    object_id: ObjectId,
    version_id: VersionId,
    manifest: Manifest,
    data_key: [u8; 32],
    written_len: u64,
}

impl ChunkOpener {
    /// What identifies and opens the chunks.
    pub closed spec fn context(&self) -> ReadContext {
        ReadContext {
            vault_id: self.vault_id@,
            object_id: self.object_id@,
            version_id: self.version_id@,
            manifest: self.manifest@,
            data_key: self.data_key@,
        }
    }

    /// How many plaintext bytes have been handed out.
    pub closed spec fn written(&self) -> u64 {
        self.written_len
    }

    /// Forgets the data key of a read that is not continued.
    pub fn wipe(self) {
        let mut state = self;
        wipe_array(&mut state.data_key);
    }

    /// Opens one chunk and hands out its plaintext.
    pub fn open_chunk(self, row: &ChunkRow) -> (res: Result<(Self, Vec<u8>), VaultError>)
        ensures
            match res {
                Ok((next, part)) => {
                    &&& row.nonce@.len() == 12
                    &&& chunk_plaintext(self.context(), chunk_of_row(*row)) == Ok::<
                        _,
                        VaultError,
                    >(part@)
                    &&& next.context() == self.context()
                    &&& next.written() == self.written() + part@.len()
                },
                Err(error) => if row.nonce@.len() != 12 {
                    error == VaultError::InvalidFormat("invalid 96-bit nonce length")
                } else {
                    match chunk_plaintext(self.context(), chunk_of_row(*row)) {
                        Err(expected) => error == expected,
                        Ok(part) => {
                            &&& self.written() + part.len() > u64::MAX
                            &&& error == VaultError::Invariant(
                                "plaintext length after chunk assembly",
                            )
                        },
                    }
                },
            },
    {
        let mut state = self;
        match state.open_part(row) {
            Ok(mut part) => match state.written_len.checked_add(part.len() as u64) {
                Some(written_len) => {
                    state.written_len = written_len;
                    Ok((state, part))
                },
                None => {
                    wipe_vec(&mut part);
                    wipe_array(&mut state.data_key);
                    Err(VaultError::Invariant("plaintext length after chunk assembly"))
                },
            },
            Err(error) => {
                wipe_array(&mut state.data_key);
                Err(error)
            },
        }
    }

    fn open_part(&self, row: &ChunkRow) -> (res: Result<Vec<u8>, VaultError>)
        ensures
            match res {
                Ok(part) => {
                    &&& row.nonce@.len() == 12
                    &&& chunk_plaintext(self.context(), chunk_of_row(*row)) == Ok::<
                        _,
                        VaultError,
                    >(part@)
                },
                Err(error) => if row.nonce@.len() != 12 {
                    error == VaultError::InvalidFormat("invalid 96-bit nonce length")
                } else {
                    chunk_plaintext(self.context(), chunk_of_row(*row)) == Err::<Seq<u8>, _>(error)
                },
            },
    {
        let chunk = row.chunk()?;
        let length = expected_plaintext_chunk_len(&self.manifest, chunk.index)?;
        let aad = chunk_aad(self.vault_id, self.object_id, self.version_id, chunk.index, length);
        let mut part = open(&self.data_key, aad.as_slice(), &chunk.record)?;
        if part.len() as u64 != length as u64 {
            wipe_vec(&mut part);
            return Err(VaultError::invalid_format("authenticated chunk length"));
        }
        Ok(part)
    }

    /// Confirms that exactly the manifest's plaintext was handed out.
    pub fn finish(self) -> (res: Result<(), VaultError>)
        ensures
            res is Ok <==> self.written() == self.context().manifest.plaintext_len,
            res matches Err(error) ==> error == VaultError::Invariant(
                "plaintext length after chunk assembly",
            ),
    {
        let mut state = self;
        let complete = state.written_len == state.manifest.plaintext_len;
        wipe_array(&mut state.data_key);
        if !complete {
            return Err(VaultError::Invariant("plaintext length after chunk assembly"));
        }
        Ok(())
    }
}

proof fn lemma_scan_prefix(rows: Seq<ChunkRow>, start: int)
    requires
        0 <= start <= rows.len(),
        forall|i: int|
            0 <= i < start ==> (#[trigger] rows[i]).nonce@.len() == 12 && rows[i].index == i && i
                < u32::MAX,
    ensures
        layout_scan(rows, 0) == layout_scan(rows, start),
    decreases start,
{
    if start > 0 {
        lemma_scan_prefix(rows, start - 1);
        assert(rows[start - 1].nonce@.len() == 12);
    }
}

proof fn lemma_assembled_prefix_error(context: ReadContext, chunks: Seq<ChunkView>, length: int)
    requires
        0 <= length <= chunks.len(),
        assembled(context, chunks.subrange(0, length)) is Err,
    ensures
        assembled(context, chunks) == assembled(context, chunks.subrange(0, length)),
    decreases chunks.len() - length,
{
    if length == chunks.len() {
        assert(chunks.subrange(0, length) =~= chunks);
    } else {
        let longer = chunks.subrange(0, length + 1);
        assert(longer.drop_last() =~= chunks.subrange(0, length));
        lemma_assembled_prefix_error(context, chunks, length + 1);
    }
}

/// The plaintext of a prefix of chunks is short enough to be counted.
proof fn lemma_assembled_length(context: ReadContext, chunks: Seq<ChunkView>)
    requires
        assembled(context, chunks) is Ok,
    ensures
        (assembled(context, chunks)->Ok_0).len() <= chunks.len() * 0xffff_ffff,
    decreases chunks.len(),
{
    if chunks.len() > 0 {
        lemma_assembled_length(context, chunks.drop_last());
    }
}

/// Reads a stored version whole: nothing is returned before every check has passed.
pub(crate) fn read_version(
    root_key: &[u8; 32],
    vault_id: VaultId,
    object_id: ObjectId,
    stored: &StoredObject,
) -> (res: Result<Vec<u8>, VaultError>)
    ensures
        match (res, read_verdict(root_key@, vault_id@, object_id@, *stored)) {
            (Ok(plaintext), Ok(expected)) => plaintext@ == expected,
            (Err(error), Err(expected)) => error == expected,
            _ => false,
        },
{
    let mut checker = LayoutChecker::open(
        root_key,
        vault_id,
        object_id,
        &stored.version,
        &stored.receipt,
    )?;
    let ghost context = checker.context();
    let rows = &stored.chunks;
    let mut position: usize = 0;
    assert(checker.checked() =~= chunks_of_rows(rows@).subrange(0, 0));
    while position < rows.len()
        invariant
            position <= rows@.len(),
            rows@ == stored.chunks@,
            checker.well_formed(),
            checker.context() == context,
            metadata_verdict(root_key@, vault_id@, object_id@, stored.version, stored.receipt)
                == Ok::<_, VaultError>(context),
            checker.checked() == chunks_of_rows(rows@).subrange(0, position as int),
            forall|i: int|
                0 <= i < position ==> (#[trigger] rows@[i]).nonce@.len() == 12 && rows@[i].index
                    == i && i < u32::MAX,
        decreases rows@.len() - position,
    {
        proof {
            lemma_scan_prefix(rows@, position as int);
        }
        checker = checker.check_chunk(&rows[position])?;
        assert(chunks_of_rows(rows@).subrange(0, position + 1) =~= chunks_of_rows(
            rows@,
        ).subrange(0, position as int).push(chunk_of_row(rows@[position as int])));
        assert(rows@[position as int].index == position && position < u32::MAX);
        position += 1;
    }
    proof {
        lemma_scan_prefix(rows@, position as int);
        assert(chunks_of_rows(rows@).subrange(0, position as int) =~= chunks_of_rows(rows@));
    }
    let mut opener = checker.finish_layout()?;
    let mut plaintext: Vec<u8> = Vec::new();
    let mut next: usize = 0;
    let ghost chunks = chunks_of_rows(rows@);
    assert(chunks.subrange(0, 0) =~= Seq::<ChunkView>::empty());
    while next < rows.len()
        invariant
            next <= rows@.len(),
            rows@ == stored.chunks@,
            chunks == chunks_of_rows(rows@),
            opener.context() == context,
            metadata_verdict(root_key@, vault_id@, object_id@, stored.version, stored.receipt)
                == Ok::<_, VaultError>(context),
            layout_verdict(context.manifest, stored.chunks@) == Ok::<(), VaultError>(()),
            rows@.len() <= MAX_CHUNKS_PER_VERSION,
            forall|i: int| 0 <= i < rows@.len() ==> (#[trigger] rows@[i]).nonce@.len() == 12,
            assembled(context, chunks.subrange(0, next as int)) == Ok::<_, VaultError>(
                plaintext@,
            ),
            opener.written() == plaintext@.len(),
        decreases rows@.len() - next,
    {
        let ghost before = chunks.subrange(0, next as int);
        let ghost after = chunks.subrange(0, next + 1);
        proof {
            assert(after.drop_last() =~= before);
            assert(after.last() == chunk_of_row(rows@[next as int]));
            lemma_assembled_length(context, before);
            assert(rows@[next as int].nonce@.len() == 12);
        }
        match opener.open_chunk(&rows[next]) {
            Ok((state, mut part)) => {
                opener = state;
                let ghost assembled_before = plaintext@;
                plaintext.extend_from_slice(part.as_slice());
                assert(plaintext@ =~= assembled_before + part@);
                wipe_vec(&mut part);
            },
            Err(error) => {
                wipe_vec(&mut plaintext);
                proof {
                    assert(assembled(context, after) == Err::<Seq<u8>, _>(error));
                    lemma_assembled_prefix_error(context, chunks, next + 1);
                }
                return Err(error);
            },
        }
        next += 1;
    }
    assert(chunks.subrange(0, next as int) =~= chunks);
    match opener.finish() {
        Ok(_) => Ok(plaintext),
        Err(error) => {
            wipe_vec(&mut plaintext);
            Err(error)
        },
    }
}

proof fn lemma_scan_accepts(rows: Seq<ChunkRow>, start: int)
    requires
        0 <= start,
        layout_scan(rows, start) is Ok,
    ensures
        forall|i: int| start <= i < rows.len() ==> (#[trigger] rows[i]).index == i,
    decreases rows.len() - start,
{
    if start < rows.len() {
        lemma_scan_accepts(rows, start + 1);
    }
}

/// A version reads only where its chunks are complete and in order: as many as its manifest
/// says, each at its own index, with the manifest's digest.
pub proof fn accepted_chunks_are_complete_and_in_order(
    root_key: Seq<u8>,
    vault_id: Seq<u8>,
    object_id: Seq<u8>,
    stored: StoredObject,
)
    requires
        read_verdict(root_key, vault_id, object_id, stored) is Ok,
    ensures
        metadata_verdict(root_key, vault_id, object_id, stored.version, stored.receipt) matches Ok(
            context,
        ) && stored.chunks@.len() == context.manifest.chunk_count && chunks_digest(
            chunks_of_rows(stored.chunks@),
        ) == context.manifest.chunk_digest,
        forall|i: int| 0 <= i < stored.chunks@.len() ==> (#[trigger] stored.chunks@[i]).index == i,
{
    lemma_scan_accepts(stored.chunks@, 0);
}

/// Deleting, inserting or reordering chunks of a readable version makes it unreadable.
pub proof fn deleted_inserted_and_reordered_chunks_are_refused(
    root_key: Seq<u8>,
    vault_id: Seq<u8>,
    object_id: Seq<u8>,
    stored: StoredObject,
    changed: StoredObject,
)
    requires
        read_verdict(root_key, vault_id, object_id, stored) is Ok,
        changed.version == stored.version,
        changed.receipt == stored.receipt,
        changed.chunks@.len() != stored.chunks@.len() || exists|i: int|
            0 <= i < changed.chunks@.len() && (#[trigger] changed.chunks@[i]).index != i,
    ensures
        read_verdict(root_key, vault_id, object_id, changed) is Err,
{
    accepted_chunks_are_complete_and_in_order(root_key, vault_id, object_id, stored);
    if read_verdict(root_key, vault_id, object_id, changed) is Ok {
        accepted_chunks_are_complete_and_in_order(root_key, vault_id, object_id, changed);
    }
}

/// A manifest agrees with a stored row exactly where every field of the two is the same, the
/// format is the first, chunks are not empty and there are at most 16,777,216 of them.
pub proof fn manifests_agree_field_by_field(manifest: ManifestView, stored: VersionView)
    ensures
        binding_verdict(manifest, stored) is Ok <==> {
            &&& manifest.format_version == 1
            &&& manifest.object_id == stored.object_id
            &&& manifest.version_id == stored.version_id
            &&& manifest.plaintext_len == stored.plaintext_len
            &&& manifest.chunk_size == stored.chunk_size
            &&& manifest.chunk_count == stored.chunk_count
            &&& manifest.chunk_size > 0
            &&& manifest.chunk_count <= 16_777_216
        },
{
}

/// Every chunk but the last holds one chunk size, and the last holds what is left of the
/// plaintext, if that is not negative and fits in four bytes. There is no further chunk.
pub proof fn chunks_hold_their_share(manifest: ManifestView, index: u32)
    ensures
        ({
            let left = manifest.plaintext_len - index * manifest.chunk_size;
            &&& index + 1 < manifest.chunk_count ==> chunk_length(manifest, index) == Ok::<
                _,
                VaultError,
            >(manifest.chunk_size)
            &&& index + 1 == manifest.chunk_count && 0 <= left <= 0xffff_ffff ==> chunk_length(
                manifest,
                index,
            ) == Ok::<_, VaultError>(left as u32)
            &&& index + 1 == manifest.chunk_count && !(0 <= left <= 0xffff_ffff) ==> chunk_length(
                manifest,
                index,
            ) is Err
            &&& index >= manifest.chunk_count ==> chunk_length(manifest, index) is Err
        }),
{
    if index + 1 == manifest.chunk_count {
        assert(manifest.chunk_size * (manifest.chunk_count - 1) == index * manifest.chunk_size)
            by (nonlinear_arith)
            requires
                index + 1 == manifest.chunk_count,
        ;
    }
}

proof fn lemma_layout_scan(rows: Seq<ChunkRow>, start: int)
    requires
        0 <= start <= rows.len(),
    ensures
        layout_scan(rows, start) is Ok <==> forall|i: int|
            start <= i < rows.len() ==> {
                &&& (#[trigger] rows[i]).nonce@.len() == 12
                &&& rows[i].index == i
                &&& i < 0xffff_ffff
            },
        layout_scan(rows, start) matches Err(error) ==> error is InvalidFormat || error
            is Invariant,
    decreases rows.len() - start,
{
    if start < rows.len() {
        lemma_layout_scan(rows, start + 1);
    }
}

/// Stored chunks are in order exactly where each has a nonce of twelve bytes and stands at
/// its own index, all of them below 2^32 - 1.
pub proof fn stored_chunks_are_in_order(rows: Seq<ChunkRow>)
    ensures
        layout_scan(rows, 0) is Ok <==> forall|i: int|
            0 <= i < rows.len() ==> {
                &&& (#[trigger] rows[i]).nonce@.len() == 12
                &&& rows[i].index == i
                &&& i < 0xffff_ffff
            },
{
    lemma_layout_scan(rows, 0);
}

/// A stored object that does not read is a reason to lock: every error of a read is one of
/// authentication, of format or of an invariant.
pub proof fn refused_reads_are_reasons_to_lock(
    root_key: Seq<u8>,
    vault_id: Seq<u8>,
    object_id: Seq<u8>,
    stored: StoredObject,
)
    ensures
        read_verdict(root_key, vault_id, object_id, stored) matches Err(error) ==> {
            ||| error is Authentication
            ||| error is InvalidFormat
            ||| error is Invariant
        },
{
    lemma_layout_scan(stored.chunks@, 0);
    lemma_metadata_errors(root_key, vault_id, object_id, stored.version, stored.receipt);
    match metadata_verdict(root_key, vault_id, object_id, stored.version, stored.receipt) {
        Ok(context) => lemma_part_errors(context, chunks_of_rows(stored.chunks@)),
        Err(error) => {},
    }
}

proof fn lemma_metadata_errors(
    root_key: Seq<u8>,
    vault_id: Seq<u8>,
    object_id: Seq<u8>,
    row: VersionRow,
    receipt: Option<ReceiptRow>,
)
    ensures
        metadata_verdict(root_key, vault_id, object_id, row, receipt) matches Err(error) ==> {
            ||| error is Authentication
            ||| error is InvalidFormat
            ||| error is Invariant
        },
{
    match version_of_row(row) {
        Ok(version) => match opened(
            vault_kek(root_key, vault_id),
            wrapped_dek_context(vault_id, object_id, version.version_id),
            version.wrapped_dek,
        ) {
            Some(data_key) => match opened(
                version_manifest_key(data_key, version.version_id),
                manifest_context(vault_id, object_id, version.version_id),
                version.manifest,
            ) {
                Some(bytes) => crate::cde::undecodable_manifests_are_format_errors(bytes),
                None => {},
            },
            None => {},
        },
        Err(error) => {},
    }
}

proof fn lemma_part_errors(context: ReadContext, chunks: Seq<ChunkView>)
    ensures
        assembled(context, chunks) matches Err(error) ==> error is InvalidFormat || error
            is Authentication,
    decreases chunks.len(),
{
    if chunks.len() > 0 {
        lemma_part_errors(context, chunks.drop_last());
    }
}

} // verus!
