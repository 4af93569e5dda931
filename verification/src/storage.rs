//! The persistent model: rows as a database returns them, their strict parsing,
//! the transactions that the vault asks for and what each does to the database.
use crate::bytes::{fixed_bytes, same_text};
use crate::crypto::{EnvelopeView, KdfParams, RootEnvelope, MAX_PERSISTED_ARGON2_MEMORY_KIB};
use crate::error::VaultError;
use crate::format::{group_identifiers, ChunkView, EncryptedChunk, ObjectId, SealedRecord, SealedView, VaultId, VersionId, FORMAT_VERSION};
use crate::witness::{ReceiptView, WitnessReceipt};
use vstd::prelude::*;

verus! {

/// The stored Root Key envelope.
#[derive(Clone, Debug)]
pub struct EnvelopeRow {
    /// Format version of the vault.
    pub format_version: u32,
    /// Vault identifier.
    pub vault_id: Vec<u8>,
    /// Argon2id salt.
    pub salt: Vec<u8>,
    /// Argon2id memory cost in KiB.
    pub memory_kib: u32,
    /// Argon2id time cost.
    pub iterations: u32,
    /// Argon2id lane count.
    pub lanes: u32,
    /// Nonce of the encrypted Root Key.
    pub nonce: Vec<u8>,
    /// Encrypted Root Key.
    pub ciphertext: Vec<u8>,
}

/// The stored description of one immutable version.
#[derive(Clone, Debug)]
pub struct VersionRow {
    /// Object that the version belongs to.
    pub object_id: Vec<u8>,
    /// Version identifier.
    pub version_id: Vec<u8>,
    /// Nonce of the wrapped data key.
    pub wrapped_dek_nonce: Vec<u8>,
    /// Wrapped data key.
    pub wrapped_dek_ciphertext: Vec<u8>,
    /// Nonce of the sealed manifest.
    pub manifest_nonce: Vec<u8>,
    /// Sealed manifest.
    pub manifest_ciphertext: Vec<u8>,
    /// Total plaintext length.
    pub plaintext_len: u64,
    /// Chunk size.
    pub chunk_size: u32,
    /// Number of chunks.
    pub chunk_count: u32,
}

/// One stored encrypted chunk.
#[derive(Clone, Debug)]
pub struct ChunkRow {
    /// Zero-based chunk index.
    pub index: u32,
    /// Nonce.
    pub nonce: Vec<u8>,
    /// Ciphertext and tag.
    pub ciphertext: Vec<u8>,
}

/// The stored freshness receipt of one version.
#[derive(Clone, Debug)]
pub struct ReceiptRow {
    /// Vault identifier.
    pub vault_id: Vec<u8>,
    /// Object identifier.
    pub object_id: Vec<u8>,
    /// Version identifier.
    pub version_id: Vec<u8>,
    /// Epoch of the acknowledgement.
    pub witness_epoch: u64,
    /// Acknowledged commitment.
    pub commitment: Vec<u8>,
    /// Witness public key.
    pub public_key: Vec<u8>,
    /// Witness signature.
    pub signature: Vec<u8>,
}

/// Everything that is stored for an object's active version, chunks in index order.
#[derive(Clone, Debug)]
pub struct StoredObject {
    /// The active version.
    pub version: VersionRow,
    /// Its receipt, where it has one.
    pub receipt: Option<ReceiptRow>,
    /// Its chunks.
    pub chunks: Vec<ChunkRow>,
}

/// Row material required to verify and open an immutable version.
#[derive(Debug)]
pub struct StoredVersion {
    /// Object that the version belongs to.
    pub object_id: ObjectId,
    /// Version identifier.
    pub version_id: VersionId,
    /// Data key wrapped under the vault's key.
    pub wrapped_dek: SealedRecord,
    /// Sealed manifest.
    pub manifest: SealedRecord,
    /// Total plaintext length.
    pub plaintext_len: u64,
    /// Chunk size.
    pub chunk_size: u32,
    /// Number of chunks.
    pub chunk_count: u32,
}

/// The contents of a stored version.
pub ghost struct VersionView {
    pub object_id: Seq<u8>,
    pub version_id: Seq<u8>,
    pub wrapped_dek: SealedView,
    pub manifest: SealedView,
    pub plaintext_len: u64,
    pub chunk_size: u32,
    pub chunk_count: u32,
}

impl View for StoredVersion {
    type V = VersionView;

    open spec fn view(&self) -> VersionView {
        VersionView {
            object_id: self.object_id@,
            version_id: self.version_id@,
            wrapped_dek: self.wrapped_dek@,
            manifest: self.manifest@,
            plaintext_len: self.plaintext_len,
            chunk_size: self.chunk_size,
            chunk_count: self.chunk_count,
        }
    }
}

/// Parses a stored nonce.
pub fn bytes12(bytes: &[u8]) -> (res: Result<[u8; 12], VaultError>)
    ensures
        match res {
            Ok(array) => array@ == bytes@,
            Err(error) => {
                &&& bytes@.len() != 12
                &&& error == VaultError::InvalidFormat("invalid 96-bit nonce length")
            },
        },
{
    match fixed_bytes(bytes) {
        Some(array) => Ok(array),
        None => Err(VaultError::invalid_format("invalid 96-bit nonce length")),
    }
}

/// Parses a stored salt.
pub fn bytes16(bytes: &[u8]) -> (res: Result<[u8; 16], VaultError>)
    ensures
        match res {
            Ok(array) => array@ == bytes@,
            Err(error) => {
                &&& bytes@.len() != 16
                &&& error == VaultError::InvalidFormat("invalid 128-bit identifier length")
            },
        },
{
    match fixed_bytes(bytes) {
        Some(array) => Ok(array),
        None => Err(VaultError::invalid_format("invalid 128-bit identifier length")),
    }
}

/// Parses a stored commitment or public key.
pub fn bytes32(bytes: &[u8]) -> (res: Result<[u8; 32], VaultError>)
    ensures
        match res {
            Ok(array) => array@ == bytes@,
            Err(error) => {
                &&& bytes@.len() != 32
                &&& error == VaultError::InvalidFormat("invalid 256-bit length")
            },
        },
{
    match fixed_bytes(bytes) {
        Some(array) => Ok(array),
        None => Err(VaultError::invalid_format("invalid 256-bit length")),
    }
}

/// Parses a stored signature.
pub fn bytes64(bytes: &[u8]) -> (res: Result<[u8; 64], VaultError>)
    ensures
        match res {
            Ok(array) => array@ == bytes@,
            Err(error) => {
                &&& bytes@.len() != 64
                &&& error == VaultError::InvalidFormat("invalid 512-bit signature length")
            },
        },
{
    match fixed_bytes(bytes) {
        Some(array) => Ok(array),
        None => Err(VaultError::invalid_format("invalid 512-bit signature length")),
    }
}

/// What a stored envelope stands for, with its first violation where it has one.
pub open spec fn envelope_of_row(row: EnvelopeRow) -> Result<EnvelopeView, VaultError> {
    if row.format_version != FORMAT_VERSION {
        Err(VaultError::InvalidFormat("unsupported vault format version"))
    } else if row.memory_kib > MAX_PERSISTED_ARGON2_MEMORY_KIB {
        Err(VaultError::InvalidFormat("Argon2id KDF parameter policy"))
    } else if row.vault_id@.len() != 16 {
        Err(VaultError::InvalidFormat("invalid identifier length"))
    } else if row.salt@.len() != 16 {
        Err(VaultError::InvalidFormat("invalid 128-bit identifier length"))
    } else if row.nonce@.len() != 12 {
        Err(VaultError::InvalidFormat("invalid 96-bit nonce length"))
    } else {
        Ok(
            EnvelopeView {
                vault_id: row.vault_id@,
                salt: row.salt@,
                params: KdfParams {
                    memory_kib: row.memory_kib,
                    iterations: row.iterations,
                    lanes: row.lanes,
                },
                record: SealedView { nonce: row.nonce@, ciphertext: row.ciphertext@ },
            },
        )
    }
}

impl EnvelopeRow {
    /// Parses the sole Root Key envelope of a vault.
    pub fn root_envelope(self) -> (res: Result<RootEnvelope, VaultError>)
        ensures
            match (res, envelope_of_row(self)) {
                (Ok(envelope), Ok(expected)) => envelope@ == expected,
                (Err(error), Err(expected)) => error == expected,
                _ => false,
            },
    {
        if self.format_version != FORMAT_VERSION {
            return Err(VaultError::invalid_format("unsupported vault format version"));
        }
        let params = KdfParams {
            memory_kib: self.memory_kib,
            iterations: self.iterations,
            lanes: self.lanes,
        };
        params.validate_persisted()?;
        let vault_id = VaultId::from_slice(self.vault_id.as_slice())?;
        let salt = bytes16(self.salt.as_slice())?;
        let nonce = bytes12(self.nonce.as_slice())?;
        Ok(
            RootEnvelope {
                vault_id,
                salt,
                params,
                record: SealedRecord { nonce, ciphertext: self.ciphertext },
            },
        )
    }

    /// Writes a Root Key envelope as a row.
    #[must_use]
    pub fn from_envelope(envelope: &RootEnvelope) -> (res: Self)
        ensures
            envelope.params.memory_kib <= MAX_PERSISTED_ARGON2_MEMORY_KIB ==> envelope_of_row(res)
                == Ok::<_, VaultError>(envelope@),
            res.format_version == FORMAT_VERSION,
            res.vault_id@ == envelope@.vault_id,
            res.salt@ == envelope@.salt,
            res.memory_kib == envelope.params.memory_kib,
            res.iterations == envelope.params.iterations,
            res.lanes == envelope.params.lanes,
            res.nonce@ == envelope@.record.nonce,
            res.ciphertext@ == envelope@.record.ciphertext,
    {
        broadcast use group_identifiers;

        EnvelopeRow {
            format_version: FORMAT_VERSION,
            vault_id: vstd::slice::slice_to_vec(envelope.vault_id.as_bytes()),
            salt: vstd::slice::slice_to_vec(&envelope.salt),
            memory_kib: envelope.params.memory_kib,
            iterations: envelope.params.iterations,
            lanes: envelope.params.lanes,
            nonce: vstd::slice::slice_to_vec(&envelope.record.nonce),
            ciphertext: envelope.record.ciphertext.clone(),
        }
    }
}

/// What a stored version row stands for.
pub open spec fn version_of_row(row: VersionRow) -> Result<VersionView, VaultError> {
    if row.object_id@.len() != 16 || row.version_id@.len() != 16 {
        Err(VaultError::InvalidFormat("invalid identifier length"))
    } else if row.wrapped_dek_nonce@.len() != 12 || row.manifest_nonce@.len() != 12 {
        Err(VaultError::InvalidFormat("invalid 96-bit nonce length"))
    } else {
        Ok(
            VersionView {
                object_id: row.object_id@,
                version_id: row.version_id@,
                wrapped_dek: SealedView {
                    nonce: row.wrapped_dek_nonce@,
                    ciphertext: row.wrapped_dek_ciphertext@,
                },
                manifest: SealedView {
                    nonce: row.manifest_nonce@,
                    ciphertext: row.manifest_ciphertext@,
                },
                plaintext_len: row.plaintext_len,
                chunk_size: row.chunk_size,
                chunk_count: row.chunk_count,
            },
        )
    }
}

impl VersionRow {
    /// Parses a stored version.
    pub fn version(&self) -> (res: Result<StoredVersion, VaultError>)
        ensures
            match (res, version_of_row(*self)) {
                (Ok(version), Ok(expected)) => version@ == expected,
                (Err(error), Err(expected)) => error == expected,
                _ => false,
            },
    {
        let object_id = ObjectId::from_slice(self.object_id.as_slice())?;
        let version_id = VersionId::from_slice(self.version_id.as_slice())?;
        let wrapped_nonce = bytes12(self.wrapped_dek_nonce.as_slice())?;
        let manifest_nonce = bytes12(self.manifest_nonce.as_slice())?;
        Ok(
            StoredVersion {
                object_id,
                version_id,
                wrapped_dek: SealedRecord {
                    nonce: wrapped_nonce,
                    ciphertext: self.wrapped_dek_ciphertext.clone(),
                },
                manifest: SealedRecord {
                    nonce: manifest_nonce,
                    ciphertext: self.manifest_ciphertext.clone(),
                },
                plaintext_len: self.plaintext_len,
                chunk_size: self.chunk_size,
                chunk_count: self.chunk_count,
            },
        )
    }

    /// Writes a version as a row.
    #[must_use]
    pub fn from_version(version: &StoredVersion) -> (res: Self)
        ensures
            version_of_row(res) == Ok::<_, VaultError>(version@),
            res.object_id@ == version.object_id@,
            res.version_id@ == version.version_id@,
            res.plaintext_len == version.plaintext_len,
            res.chunk_size == version.chunk_size,
            res.chunk_count == version.chunk_count,
            res.wrapped_dek_nonce@ == version@.wrapped_dek.nonce,
            res.wrapped_dek_ciphertext@ == version@.wrapped_dek.ciphertext,
            res.manifest_nonce@ == version@.manifest.nonce,
            res.manifest_ciphertext@ == version@.manifest.ciphertext,
    {
        broadcast use group_identifiers;

        VersionRow {
            object_id: vstd::slice::slice_to_vec(version.object_id.as_bytes()),
            version_id: vstd::slice::slice_to_vec(version.version_id.as_bytes()),
            wrapped_dek_nonce: vstd::slice::slice_to_vec(&version.wrapped_dek.nonce),
            wrapped_dek_ciphertext: version.wrapped_dek.ciphertext.clone(),
            manifest_nonce: vstd::slice::slice_to_vec(&version.manifest.nonce),
            manifest_ciphertext: version.manifest.ciphertext.clone(),
            plaintext_len: version.plaintext_len,
            chunk_size: version.chunk_size,
            chunk_count: version.chunk_count,
        }
    }
}

/// The chunk that a stored row stands for, where its nonce has the right length.
pub open spec fn chunk_of_row(row: ChunkRow) -> ChunkView {
    ChunkView {
        index: row.index,
        record: SealedView { nonce: row.nonce@, ciphertext: row.ciphertext@ },
    }
}

impl ChunkRow {
    /// Parses a stored chunk.
    pub fn chunk(&self) -> (res: Result<EncryptedChunk, VaultError>)
        ensures
            match res {
                Ok(chunk) => self.nonce@.len() == 12 && chunk@ == chunk_of_row(*self),
                Err(error) => {
                    &&& self.nonce@.len() != 12
                    &&& error == VaultError::InvalidFormat("invalid 96-bit nonce length")
                },
            },
    {
        let nonce = bytes12(self.nonce.as_slice())?;
        Ok(
            EncryptedChunk {
                index: self.index,
                record: SealedRecord { nonce, ciphertext: self.ciphertext.clone() },
            },
        )
    }

    /// Writes a chunk as a row.
    #[must_use]
    pub fn from_chunk(chunk: &EncryptedChunk) -> (res: Self)
        ensures
            chunk_of_row(res) == chunk@,
            res.nonce@.len() == 12,
            res.index == chunk.index,
            res.nonce@ == chunk@.record.nonce,
            res.ciphertext@ == chunk@.record.ciphertext,
    {
        ChunkRow {
            index: chunk.index,
            nonce: vstd::slice::slice_to_vec(&chunk.record.nonce),
            ciphertext: chunk.record.ciphertext.clone(),
        }
    }
}

/// The receipt fields of a stored row, before the signature is checked.
pub open spec fn receipt_fields_of_row(row: ReceiptRow) -> Result<ReceiptView, VaultError> {
    if row.vault_id@.len() != 16 || row.object_id@.len() != 16 || row.version_id@.len() != 16 {
        Err(VaultError::InvalidFormat("invalid identifier length"))
    } else if row.commitment@.len() != 32 || row.public_key@.len() != 32 {
        Err(VaultError::InvalidFormat("invalid 256-bit length"))
    } else if row.signature@.len() != 64 {
        Err(VaultError::InvalidFormat("invalid 512-bit signature length"))
    } else {
        Ok(
            ReceiptView {
                vault_id: row.vault_id@,
                object_id: row.object_id@,
                version_id: row.version_id@,
                witness_epoch: row.witness_epoch,
                commitment: row.commitment@,
                public_key: row.public_key@,
                signature: row.signature@,
            },
        )
    }
}

/// The signature-validated receipt of a stored row.
pub open spec fn receipt_of_row(row: ReceiptRow) -> Result<ReceiptView, VaultError> {
    match receipt_fields_of_row(row) {
        Err(error) => Err(error),
        Ok(receipt) => match receipt.signature_verdict() {
            Err(error) => Err(error),
            Ok(_) => Ok(receipt),
        },
    }
}

impl ReceiptRow {
    /// Parses a stored receipt and verifies its signature.
    pub fn receipt(&self) -> (res: Result<WitnessReceipt, VaultError>)
        ensures
            match (res, receipt_of_row(*self)) {
                (Ok(receipt), Ok(expected)) => receipt@ == expected,
                (Err(error), Err(expected)) => error == expected,
                _ => false,
            },
    {
        let vault_id = VaultId::from_slice(self.vault_id.as_slice())?;
        let object_id = ObjectId::from_slice(self.object_id.as_slice())?;
        let version_id = VersionId::from_slice(self.version_id.as_slice())?;
        let commitment = bytes32(self.commitment.as_slice())?;
        let public_key = bytes32(self.public_key.as_slice())?;
        let signature = bytes64(self.signature.as_slice())?;
        WitnessReceipt::new(
            vault_id,
            object_id,
            version_id,
            self.witness_epoch,
            commitment,
            public_key,
            signature,
        )
    }

    /// Writes a receipt as a row.
    #[must_use]
    pub fn from_receipt(receipt: &WitnessReceipt) -> (res: Self)
        ensures
            receipt_fields_of_row(res) == Ok::<_, VaultError>(receipt@),
            res.vault_id@ == receipt@.vault_id,
            res.object_id@ == receipt@.object_id,
            res.version_id@ == receipt@.version_id,
            res.witness_epoch == receipt@.witness_epoch,
            res.commitment@ == receipt@.commitment,
            res.public_key@ == receipt@.public_key,
            res.signature@ == receipt@.signature,
    {
        proof {
            receipt.lemma_widths();
        }
        ReceiptRow {
            vault_id: vstd::slice::slice_to_vec(receipt.vault_id().as_bytes()),
            object_id: vstd::slice::slice_to_vec(receipt.object_id().as_bytes()),
            version_id: vstd::slice::slice_to_vec(receipt.version_id().as_bytes()),
            witness_epoch: receipt.witness_epoch(),
            commitment: vstd::slice::slice_to_vec(receipt.commitment()),
            public_key: vstd::slice::slice_to_vec(receipt.public_key()),
            signature: vstd::slice::slice_to_vec(receipt.signature()),
        }
    }
}

/// The receipt of an object's active version, where there is an active version with one.
pub open spec fn active_receipt_of(
    version: Option<&VersionRow>,
    receipt: Option<&ReceiptRow>,
) -> Result<Option<ReceiptView>, VaultError> {
    match version {
        None => Ok(None),
        Some(version) => match version_of_row(*version) {
            Err(error) => Err(error),
            Ok(_) => match receipt {
                None => Ok(None),
                Some(receipt) => match receipt_of_row(*receipt) {
                    Err(error) => Err(error),
                    Ok(receipt) => Ok(Some(receipt)),
                },
            },
        },
    }
}

/// Loads the receipt bound to an object's active version when it has one.
pub fn active_receipt(version: Option<&VersionRow>, receipt: Option<&ReceiptRow>) -> (res: Result<
    Option<WitnessReceipt>,
    VaultError,
>)
    ensures
        match (res, active_receipt_of(version, receipt)) {
            (Ok(Some(receipt)), Ok(Some(expected))) => receipt@ == expected,
            (Ok(None), Ok(None)) => true,
            (Err(error), Err(expected)) => error == expected,
            _ => false,
        },
{
    match version {
        Some(version) => {
            version.version()?;
        },
        None => return Ok(None),
    }
    match receipt {
        Some(receipt) => Ok(Some(receipt.receipt()?)),
        None => Ok(None),
    }
}

/// One atomic change of the database.
#[allow(inconsistent_fields)]
#[derive(Debug)]
pub enum StorageTransaction {
    /// Inserts a version with its chunks and an optional receipt, then makes it active.
    Publish {
        /// The new version.
        version: StoredVersion,
        /// Its chunks.
        chunks: Vec<EncryptedChunk>,
        /// Its receipt, where it has one.
        receipt: Option<WitnessReceipt>,
    },
    /// Inserts a version with its chunks and marks it as waiting for a witness.
    Stage {
        /// The new version.
        version: StoredVersion,
        /// Its chunks.
        chunks: Vec<EncryptedChunk>,
        /// Epoch that the witness is expected to hold.
        expected_epoch: u64,
    },
    /// Inserts the receipt of a staged version, makes it active and clears the mark.
    Finalize {
        /// Object whose pointer advances.
        object_id: ObjectId,
        /// Version that becomes active.
        version_id: VersionId,
        /// The receipt.
        receipt: WitnessReceipt,
    },
}

/// What a transaction does, without its representation.
#[allow(inconsistent_fields)]
pub ghost enum TransactionView {
    Publish { version: VersionView, chunks: Seq<ChunkView>, receipt: Option<ReceiptView> },
    Stage { version: VersionView, chunks: Seq<ChunkView>, expected_epoch: u64 },
    Finalize { object_id: Seq<u8>, version_id: Seq<u8>, receipt: ReceiptView },
}

/// The contents of a list of chunks.
pub open spec fn chunk_views(chunks: Seq<EncryptedChunk>) -> Seq<ChunkView> {
    Seq::new(chunks.len(), |i: int| chunks[i]@)
}

impl View for StorageTransaction {
    type V = TransactionView;

    open spec fn view(&self) -> TransactionView {
        match *self {
            StorageTransaction::Publish { version, chunks, receipt } => TransactionView::Publish {
                version: version@,
                chunks: chunk_views(chunks@),
                receipt: match receipt {
                    Some(receipt) => Some(receipt@),
                    None => None,
                },
            },
            StorageTransaction::Stage { version, chunks, expected_epoch } => TransactionView::Stage {
                version: version@,
                chunks: chunk_views(chunks@),
                expected_epoch,
            },
            StorageTransaction::Finalize { object_id, version_id, receipt } => {
                TransactionView::Finalize {
                    object_id: object_id@,
                    version_id: version_id@,
                    receipt: receipt@,
                }
            },
        }
    }
}

impl TransactionView {
    /// Whether a transaction is one that the vault builds: a version comes with all of its
    /// chunks, and a receipt is for the version it accompanies.
    pub open spec fn well_built(self) -> bool {
        match self {
            TransactionView::Publish { version, chunks, receipt } => {
                &&& chunks.len() == version.chunk_count
                &&& receipt matches Some(receipt) ==> receipt.version_id == version.version_id
            },
            TransactionView::Stage { version, chunks, expected_epoch } => chunks.len()
                == version.chunk_count,
            TransactionView::Finalize { object_id, version_id, receipt } => {
                &&& receipt.object_id == object_id
                &&& receipt.version_id == version_id
            },
        }
    }

    /// The object that a transaction changes.
    pub open spec fn object_id(self) -> Seq<u8> {
        match self {
            TransactionView::Publish { version, chunks, receipt } => version.object_id,
            TransactionView::Stage { version, chunks, expected_epoch } => version.object_id,
            TransactionView::Finalize { object_id, version_id, receipt } => object_id,
        }
    }
}

/// The tables that hold objects, versions, chunks, receipts and staged versions.
#[verifier::ext_equal]
pub ghost struct Database {
    pub versions: Map<Seq<u8>, VersionView>,
    pub chunks: Map<Seq<u8>, Seq<ChunkView>>,
    pub active: Map<Seq<u8>, Seq<u8>>,
    pub receipts: Map<Seq<u8>, ReceiptView>,
    pub pending: Map<Seq<u8>, u64>,
}

/// Whether no two chunks share an index or a nonce.
pub open spec fn chunks_distinct(chunks: Seq<ChunkView>) -> bool {
    forall|i: int, j: int|
        #![trigger chunks[i], chunks[j]]
        0 <= i < j < chunks.len() ==> chunks[i].index != chunks[j].index && chunks[i].record.nonce
            != chunks[j].record.nonce
}

/// Whether no stored receipt has the key and epoch of a new one.
pub open spec fn receipt_is_new(
    receipts: Map<Seq<u8>, ReceiptView>,
    receipt: ReceiptView,
) -> bool {
    &&& !receipts.contains_key(receipt.version_id)
    &&& forall|other: Seq<u8>|
        #[trigger] receipts.contains_key(other) ==> !(receipts[other].public_key
            == receipt.public_key && receipts[other].witness_epoch == receipt.witness_epoch)
}

impl Database {
    /// A database without objects.
    pub open spec fn empty() -> Database {
        Database {
            versions: Map::empty(),
            chunks: Map::empty(),
            active: Map::empty(),
            receipts: Map::empty(),
            pending: Map::empty(),
        }
    }

    /// Every active pointer names a version of its own object, and every staged or
    /// acknowledged version exists.
    pub open spec fn consistent(self) -> bool {
        &&& forall|object: Seq<u8>|
            #[trigger] self.active.contains_key(object) ==> {
                &&& self.versions.contains_key(self.active[object])
                &&& self.versions[self.active[object]].object_id == object
            }
        &&& forall|version: Seq<u8>|
            #[trigger] self.pending.contains_key(version) ==> self.versions.contains_key(version)
        &&& forall|version: Seq<u8>|
            #[trigger] self.receipts.contains_key(version) ==> self.versions.contains_key(version)
        &&& forall|version: Seq<u8>|
            #[trigger] self.versions.contains_key(version) ==> {
                &&& self.versions[version].version_id == version
                &&& self.chunks.contains_key(version)
                &&& self.chunks[version].len() == self.versions[version].chunk_count
            }
    }

    /// Whether the constraints of the tables admit a transaction.
    pub open spec fn admits(self, transaction: TransactionView) -> bool {
        match transaction {
            TransactionView::Publish { version, chunks, receipt } => {
                &&& !self.versions.contains_key(version.version_id)
                &&& chunks_distinct(chunks)
                &&& receipt matches Some(receipt) ==> {
                    &&& receipt.version_id == version.version_id
                    &&& receipt_is_new(self.receipts, receipt)
                }
            },
            TransactionView::Stage { version, chunks, expected_epoch } => {
                &&& !self.versions.contains_key(version.version_id)
                &&& chunks_distinct(chunks)
            },
            TransactionView::Finalize { object_id, version_id, receipt } => {
                &&& self.pending.contains_key(version_id)
                &&& self.versions.contains_key(version_id)
                &&& receipt.version_id == version_id
                &&& receipt_is_new(self.receipts, receipt)
            },
        }
    }

    /// The database after a transaction: all of it, or nothing where it is not admitted.
    pub open spec fn after(self, transaction: TransactionView) -> Database {
        if !self.admits(transaction) {
            self
        } else {
            match transaction {
                TransactionView::Publish { version, chunks, receipt } => Database {
                    versions: self.versions.insert(version.version_id, version),
                    chunks: self.chunks.insert(version.version_id, chunks),
                    active: self.active.insert(version.object_id, version.version_id),
                    receipts: match receipt {
                        Some(receipt) => self.receipts.insert(version.version_id, receipt),
                        None => self.receipts,
                    },
                    pending: self.pending,
                },
                TransactionView::Stage { version, chunks, expected_epoch } => Database {
                    versions: self.versions.insert(version.version_id, version),
                    chunks: self.chunks.insert(version.version_id, chunks),
                    active: self.active,
                    receipts: self.receipts,
                    pending: self.pending.insert(version.version_id, expected_epoch),
                },
                TransactionView::Finalize { object_id, version_id, receipt } => Database {
                    versions: self.versions,
                    chunks: self.chunks,
                    active: self.active.insert(object_id, version_id),
                    receipts: self.receipts.insert(version_id, receipt),
                    pending: self.pending.remove(version_id),
                },
            }
        }
    }
}

impl Database {
    /// Whether the tables admit transactions one after the other.
    pub open spec fn admits_all(self, transactions: Seq<TransactionView>) -> bool
        decreases transactions.len(),
    {
        transactions.len() > 0 ==> {
            &&& self.admits_all(transactions.drop_last())
            &&& self.after_all(transactions.drop_last()).admits(transactions.last())
        }
    }

    /// The database after transactions one after the other.
    pub open spec fn after_all(self, transactions: Seq<TransactionView>) -> Database
        decreases transactions.len(),
    {
        if transactions.len() == 0 {
            self
        } else {
            self.after_all(transactions.drop_last()).after(transactions.last())
        }
    }
}

/// What finalizations one after the other leave behind.
pub(crate) proof fn lemma_finalized_in_turn(database: Database, transactions: Seq<TransactionView>)
    requires
        database.admits_all(transactions),
        forall|i: int| 0 <= i < transactions.len() ==> (#[trigger] transactions[i]) is Finalize,
    ensures
        ({
            let after = database.after_all(transactions);
            &&& forall|i: int|
                0 <= i < transactions.len() ==> {
                    let version_id = (#[trigger] transactions[i])->Finalize_version_id;
                    &&& !after.pending.contains_key(version_id)
                    &&& after.receipts.contains_key(version_id)
                    &&& after.receipts[version_id] == transactions[i]->Finalize_receipt
                    &&& (forall|j: int|
                        i < j < transactions.len() ==> (#[trigger] transactions[j]).object_id()
                            != transactions[i].object_id()) ==> after.active.contains_pair(
                        transactions[i].object_id(),
                        version_id,
                    )
                }
            &&& forall|version: Seq<u8>| #[trigger]
                after.pending.contains_key(version) ==> database.pending.contains_key(version)
        }),
    decreases transactions.len(),
{
    if transactions.len() > 0 {
        let front = transactions.drop_last();
        let last = transactions.last();
        assert forall|i: int| 0 <= i < front.len() implies (#[trigger] front[i]) is Finalize by {
            assert(front[i] == transactions[i]);
        }
        lemma_finalized_in_turn(database, front);
        let before = database.after_all(front);
        let after = database.after_all(transactions);
        assert(after == before.after(last));
        assert(before.admits(last));
        assert(last == transactions[transactions.len() - 1]);
        assert forall|i: int| 0 <= i < transactions.len() implies {
            let version_id = (#[trigger] transactions[i])->Finalize_version_id;
            &&& !after.pending.contains_key(version_id)
            &&& after.receipts.contains_key(version_id)
            &&& after.receipts[version_id] == transactions[i]->Finalize_receipt
            &&& (forall|j: int|
                i < j < transactions.len() ==> (#[trigger] transactions[j]).object_id()
                    != transactions[i].object_id()) ==> after.active.contains_pair(
                transactions[i].object_id(),
                version_id,
            )
        } by {
            if i < front.len() {
                assert(front[i] == transactions[i]);
                if forall|j: int|
                    i < j < transactions.len() ==> (#[trigger] transactions[j]).object_id()
                        != transactions[i].object_id() {
                    assert forall|j: int| i < j < front.len() implies (
                    #[trigger] front[j]).object_id() != front[i].object_id() by {
                        assert(front[j] == transactions[j]);
                    }
                }
            }
        }
    }
}

/// Publication exposes the whole new version or nothing: where the database admits it, the
/// pointer advances to the version with all of its chunks, and otherwise nothing changes.
pub proof fn publication_is_atomic(
    database: Database,
    version: VersionView,
    chunks: Seq<ChunkView>,
    receipt: Option<ReceiptView>,
)
    ensures
        ({
            let transaction = TransactionView::Publish { version, chunks, receipt };
            let after = database.after(transaction);
            if database.admits(transaction) {
                &&& after.active.contains_key(version.object_id)
                &&& after.active[version.object_id] == version.version_id
                &&& after.versions[version.version_id] == version
                &&& after.chunks[version.version_id] == chunks
                &&& receipt matches Some(receipt) ==> after.receipts[version.version_id] == receipt
            } else {
                after == database
            }
        }),
{
}

/// Staging a version for a witness never changes which version of any object is active.
pub proof fn staging_keeps_active_pointers(
    database: Database,
    version: VersionView,
    chunks: Seq<ChunkView>,
    expected_epoch: u64,
)
    ensures
        database.after(TransactionView::Stage { version, chunks, expected_epoch }).active
            == database.active,
{
}

/// Finalizing a staged version exposes exactly what was staged, keeps its receipt and
/// clears the mark.
pub proof fn finalization_exposes_the_staged_version(
    database: Database,
    version: VersionView,
    chunks: Seq<ChunkView>,
    expected_epoch: u64,
    receipt: ReceiptView,
)
    requires
        database.admits(TransactionView::Stage { version, chunks, expected_epoch }),
        receipt.version_id == version.version_id,
        receipt_is_new(database.receipts, receipt),
    ensures
        ({
            let staged = database.after(TransactionView::Stage { version, chunks, expected_epoch });
            let finalize = TransactionView::Finalize {
                object_id: version.object_id,
                version_id: version.version_id,
                receipt,
            };
            let after = staged.after(finalize);
            &&& staged.admits(finalize)
            &&& after.active[version.object_id] == version.version_id
            &&& after.versions[version.version_id] == version
            &&& after.chunks[version.version_id] == chunks
            &&& after.receipts[version.version_id] == receipt
            &&& !after.pending.contains_key(version.version_id)
            &&& after == (Database {
                pending: after.pending,
                ..database.after(
                    TransactionView::Publish { version, chunks, receipt: Some(receipt) },
                )
            })
        }),
{
}

/// A receipt cannot be finalized for a version that was not staged.
pub proof fn finalization_needs_staging(
    database: Database,
    object_id: Seq<u8>,
    version_id: Seq<u8>,
    receipt: ReceiptView,
)
    requires
        !database.pending.contains_key(version_id),
    ensures
        database.after(TransactionView::Finalize { object_id, version_id, receipt }) == database,
{
}

/// Versions are immutable: no transaction changes or removes a stored version, its chunks
/// or its receipt, and none touches the active pointer of another object.
pub proof fn stored_versions_never_change(
    database: Database,
    transaction: TransactionView,
    version_id: Seq<u8>,
    other_object: Seq<u8>,
)
    requires
        database.consistent(),
    ensures
        ({
            let after = database.after(transaction);
            &&& database.versions.contains_key(version_id) ==> {
                &&& after.versions.contains_key(version_id)
                &&& after.versions[version_id] == database.versions[version_id]
                &&& after.chunks[version_id] == database.chunks[version_id]
            }
            &&& database.receipts.contains_key(version_id) ==> {
                &&& after.receipts.contains_key(version_id)
                &&& after.receipts[version_id] == database.receipts[version_id]
            }
            &&& other_object != transaction.object_id() ==> {
                &&& after.active.contains_key(other_object) == database.active.contains_key(
                    other_object,
                )
                &&& database.active.contains_key(other_object) ==> after.active[other_object]
                    == database.active[other_object]
            }
        }),
{
}

/// Consistency survives every transaction that the vault builds.
pub proof fn transactions_keep_consistency(database: Database, transaction: TransactionView)
    requires
        database.consistent(),
        transaction.well_built(),
        transaction matches TransactionView::Finalize { object_id, version_id, receipt }
            ==> database.versions.contains_key(version_id) ==> database.versions[version_id].object_id
            == object_id,
    ensures
        database.after(transaction).consistent(),
{
}

/// An empty database is consistent.
pub proof fn empty_database_is_consistent()
    ensures
        Database::empty().consistent(),
{
}

/// Builds the transaction that publishes a version and advances the active pointer.
pub fn publish(
    version: StoredVersion,
    chunks: Vec<EncryptedChunk>,
    receipt: Option<WitnessReceipt>,
) -> (res: Result<StorageTransaction, VaultError>)
    ensures
        match res {
            Ok(transaction) => {
                &&& chunks@.len() == version.chunk_count
                &&& transaction == (StorageTransaction::Publish { version, chunks, receipt })
            },
            Err(error) => {
                &&& chunks@.len() != version.chunk_count
                &&& error == VaultError::Invariant("chunk count does not match version metadata")
            },
        },
{
    if chunks.len() as u64 != version.chunk_count as u64 {
        return Err(VaultError::Invariant("chunk count does not match version metadata"));
    }
    Ok(StorageTransaction::Publish { version, chunks, receipt })
}

/// Builds the transaction that stages encrypted data before its witness acknowledgement.
pub fn stage_witness_publication(
    version: StoredVersion,
    chunks: Vec<EncryptedChunk>,
    expected_epoch: u64,
) -> (res: Result<StorageTransaction, VaultError>)
    ensures
        match res {
            Ok(transaction) => {
                &&& chunks@.len() == version.chunk_count
                &&& transaction == (StorageTransaction::Stage { version, chunks, expected_epoch })
            },
            Err(error) => {
                &&& chunks@.len() != version.chunk_count
                &&& error == VaultError::Invariant("chunk count does not match version metadata")
            },
        },
{
    if chunks.len() as u64 != version.chunk_count as u64 {
        return Err(VaultError::Invariant("chunk count does not match version metadata"));
    }
    Ok(StorageTransaction::Stage { version, chunks, expected_epoch })
}

/// Builds the transaction that finalizes a staged version. `staged` is the mark found in
/// the same transaction.
pub fn finalize_witness_publication(
    object_id: ObjectId,
    version_id: VersionId,
    receipt: &WitnessReceipt,
    staged: Option<u64>,
) -> (res: Result<StorageTransaction, VaultError>)
    ensures
        match res {
            Ok(transaction) => {
                &&& receipt@.object_id == object_id@ && receipt@.version_id == version_id@
                &&& staged is Some
                &&& transaction@ == (TransactionView::Finalize {
                    object_id: object_id@,
                    version_id: version_id@,
                    receipt: receipt@,
                })
                &&& transaction@.well_built()
            },
            Err(error) => if receipt@.object_id != object_id@ || receipt@.version_id
                != version_id@ {
                error == VaultError::Invariant("freshness receipt version binding")
            } else {
                &&& staged is None
                &&& error == VaultError::Invariant("missing staged witness publication")
            },
        },
{
    if receipt.object_id() != object_id || receipt.version_id() != version_id {
        return Err(VaultError::Invariant("freshness receipt version binding"));
    }
    if staged.is_none() {
        return Err(VaultError::Invariant("missing staged witness publication"));
    }
    Ok(StorageTransaction::Finalize { object_id, version_id, receipt: *receipt })
}

/// The running totals of an uncommitted version that receives its chunks one by one.
#[derive(Clone, Copy, Debug)]
pub struct StreamingPublication {
    next_chunk_index: u32,
    plaintext_len: u64,
}

impl StreamingPublication {
    /// How many chunks were appended.
    pub closed spec fn count(&self) -> u32 {
        self.next_chunk_index
    }

    /// How many plaintext bytes the appended chunks hold.
    pub closed spec fn total(&self) -> u64 {
        self.plaintext_len
    }

    /// Starts with no chunk appended.
    #[must_use]
    pub fn begin() -> (res: Self)
        ensures
            res.count() == 0,
            res.total() == 0,
    {
        StreamingPublication { next_chunk_index: 0, plaintext_len: 0 }
    }

    /// Returns how many chunks were appended: the index of the next one.
    #[must_use]
    pub fn next_index(&self) -> (res: u32)
        ensures
            res == self.count(),
    {
        self.next_chunk_index
    }

    /// Admits the next encrypted chunk in canonical index order.
    pub fn append_chunk(&mut self, chunk: &EncryptedChunk, plaintext_len: u32) -> (res: Result<
        (),
        VaultError,
    >)
        ensures
            match res {
                Ok(_) => {
                    &&& chunk.index == old(self).count()
                    &&& final(self).count() == old(self).count() + 1
                    &&& final(self).total() == old(self).total() + plaintext_len
                },
                Err(error) => {
                    &&& *final(self) == *old(self)
                    &&& if chunk.index != old(self).count() {
                        error == VaultError::Invariant("streamed chunk index")
                    } else if old(self).count() == u32::MAX {
                        error == VaultError::Invariant("streamed chunk count")
                    } else {
                        &&& old(self).total() + plaintext_len > u64::MAX
                        &&& error == VaultError::Invariant("streamed plaintext length")
                    }
                },
            },
    {
        if chunk.index != self.next_chunk_index {
            return Err(VaultError::Invariant("streamed chunk index"));
        }
        let next_chunk_index = match self.next_chunk_index.checked_add(1) {
            Some(next) => next,
            None => return Err(VaultError::Invariant("streamed chunk count")),
        };
        let total = match self.plaintext_len.checked_add(plaintext_len as u64) {
            Some(total) => total,
            None => return Err(VaultError::Invariant("streamed plaintext length")),
        };
        self.next_chunk_index = next_chunk_index;
        self.plaintext_len = total;
        Ok(())
    }

    /// Confirms the chunk count of the manifest and returns the plaintext length to store.
    pub fn finish(&self, chunk_count: u32) -> (res: Result<u64, VaultError>)
        ensures
            match res {
                Ok(plaintext_len) => {
                    &&& chunk_count == self.count()
                    &&& plaintext_len == self.total()
                },
                Err(error) => {
                    &&& chunk_count != self.count()
                    &&& error == VaultError::Invariant("streamed Manifest chunk count")
                },
            },
    {
        if chunk_count != self.next_chunk_index {
            return Err(VaultError::Invariant("streamed Manifest chunk count"));
        }
        Ok(self.plaintext_len)
    }
}

/// Checks that an update reached exactly the row it was meant for.
pub fn expect_one_row(changed: usize, message: &'static str) -> (res: Result<(), VaultError>)
    ensures
        res is Ok <==> changed == 1,
        res matches Err(error) ==> error == VaultError::Invariant(message),
{
    if changed != 1 {
        return Err(VaultError::Invariant(message));
    }
    Ok(())
}

/// What the structural checks of a database found.
#[derive(Debug)]
pub struct IntegrityReport {
    /// Result of the integrity check; `ok` where nothing was found.
    pub integrity: String,
    /// Whether a foreign key is violated.
    pub foreign_key_violation: bool,
    /// Active pointers without a version of their own object.
    pub dangling_active_versions: i64,
    /// Staged marks without a version.
    pub dangling_pending_versions: i64,
}

/// Judges the structural checks that precede serving requests.
pub fn startup_integrity_check(report: &IntegrityReport) -> (res: Result<(), VaultError>)
    ensures
        res == (if report.integrity@ != "ok"@ {
            Err::<(), _>(VaultError::Invariant("SQLite integrity_check"))
        } else if report.foreign_key_violation {
            Err(VaultError::Invariant("SQLite foreign-key check"))
        } else if report.dangling_active_versions != 0 {
            Err(VaultError::Invariant("active version pointer binding"))
        } else if report.dangling_pending_versions != 0 {
            Err(VaultError::Invariant("pending witness publication binding"))
        } else {
            Ok(())
        }),
{
    if !same_text(report.integrity.as_str(), "ok") {
        return Err(VaultError::Invariant("SQLite integrity_check"));
    }
    if report.foreign_key_violation {
        return Err(VaultError::Invariant("SQLite foreign-key check"));
    }
    if report.dangling_active_versions != 0 {
        return Err(VaultError::Invariant("active version pointer binding"));
    }
    if report.dangling_pending_versions != 0 {
        return Err(VaultError::Invariant("pending witness publication binding"));
    }
    Ok(())
}

/// What a write-ahead-log checkpoint reported.
#[derive(Clone, Copy, Debug)]
pub struct CheckpointReport {
    /// Nonzero where another connection held the checkpoint back.
    pub busy: i64,
    /// Frames in the log.
    pub log_frames: i64,
    /// Frames moved into the database.
    pub checkpointed_frames: i64,
}

/// Rejects a busy or incomplete checkpoint.
pub fn checkpoint_verdict(report: &CheckpointReport) -> (res: Result<(), VaultError>)
    ensures
        res == (if report.busy == 0 && report.log_frames == report.checkpointed_frames {
            Ok::<(), VaultError>(())
        } else {
            Err(VaultError::Storage)
        }),
{
    if report.busy != 0 || report.log_frames != report.checkpointed_frames {
        return Err(VaultError::Storage);
    }
    Ok(())
}

/// Whether a journal mode is `wal` in either case of its letters.
pub open spec fn is_wal(journal_mode: Seq<char>) -> bool {
    &&& journal_mode.len() == 3
    &&& journal_mode[0] == 'w' || journal_mode[0] == 'W'
    &&& journal_mode[1] == 'a' || journal_mode[1] == 'A'
    &&& journal_mode[2] == 'l' || journal_mode[2] == 'L'
}

/// Requires that a database keeps a write-ahead log.
pub fn require_wal(journal_mode: &str) -> (res: Result<(), VaultError>)
    ensures
        res == if is_wal(journal_mode@) {
            Ok::<(), VaultError>(())
        } else {
            Err(VaultError::Storage)
        },
{
    if journal_mode.unicode_len() != 3 {
        return Err(VaultError::Storage);
    }
    let first = journal_mode.get_char(0);
    let second = journal_mode.get_char(1);
    let third = journal_mode.get_char(2);
    if (first == 'w' || first == 'W') && (second == 'a' || second == 'A') && (third == 'l' || third
        == 'L') {
        Ok(())
    } else {
        Err(VaultError::Storage)
    }
}

/// A stored envelope is read exactly where its format is the first, its memory cost is at
/// most 256 MiB and its identifier, salt and nonce have their widths, and it is then read
/// field by field.
pub proof fn envelope_rows_are_read_field_by_field(row: EnvelopeRow)
    ensures
        envelope_of_row(row) is Ok <==> {
            &&& row.format_version == 1
            &&& row.memory_kib <= 262_144
            &&& row.vault_id@.len() == 16
            &&& row.salt@.len() == 16
            &&& row.nonce@.len() == 12
        },
        envelope_of_row(row) matches Ok(envelope) ==> {
            &&& envelope.vault_id == row.vault_id@
            &&& envelope.salt == row.salt@
            &&& envelope.params.memory_kib == row.memory_kib
            &&& envelope.params.iterations == row.iterations
            &&& envelope.params.lanes == row.lanes
            &&& envelope.record.nonce == row.nonce@
            &&& envelope.record.ciphertext == row.ciphertext@
        },
        envelope_of_row(row) matches Err(error) ==> error is InvalidFormat,
{
}

/// A stored version is read exactly where its identifiers and nonces have their widths, and
/// it is then read field by field.
pub proof fn version_rows_are_read_field_by_field(row: VersionRow)
    ensures
        version_of_row(row) is Ok <==> {
            &&& row.object_id@.len() == 16
            &&& row.version_id@.len() == 16
            &&& row.wrapped_dek_nonce@.len() == 12
            &&& row.manifest_nonce@.len() == 12
        },
        version_of_row(row) matches Ok(version) ==> {
            &&& version.object_id == row.object_id@
            &&& version.version_id == row.version_id@
            &&& version.wrapped_dek.nonce == row.wrapped_dek_nonce@
            &&& version.wrapped_dek.ciphertext == row.wrapped_dek_ciphertext@
            &&& version.manifest.nonce == row.manifest_nonce@
            &&& version.manifest.ciphertext == row.manifest_ciphertext@
            &&& version.plaintext_len == row.plaintext_len
            &&& version.chunk_size == row.chunk_size
            &&& version.chunk_count == row.chunk_count
        },
        version_of_row(row) matches Err(error) ==> error is InvalidFormat,
{
}

/// A stored receipt is taken exactly where its fields have their widths and its signature
/// verifies, and it is then taken field by field.
pub proof fn receipt_rows_are_read_field_by_field(row: ReceiptRow)
    ensures
        receipt_of_row(row) matches Ok(receipt) ==> {
            &&& receipt.vault_id == row.vault_id@
            &&& receipt.object_id == row.object_id@
            &&& receipt.version_id == row.version_id@
            &&& receipt.witness_epoch == row.witness_epoch
            &&& receipt.commitment == row.commitment@
            &&& receipt.public_key == row.public_key@
            &&& receipt.signature == row.signature@
            &&& receipt.signature_verdict() is Ok
        },
        receipt_fields_of_row(row) is Ok <==> {
            &&& row.vault_id@.len() == 16
            &&& row.object_id@.len() == 16
            &&& row.version_id@.len() == 16
            &&& row.commitment@.len() == 32
            &&& row.public_key@.len() == 32
            &&& row.signature@.len() == 64
        },
        receipt_fields_of_row(row) matches Ok(receipt) ==> (receipt_of_row(row) is Ok
            <==> receipt.signature_verdict() is Ok),
{
}

/// The receipt that an object stands by is the one stored for its active version, and there
/// is none where the object or the receipt is absent.
pub proof fn active_receipts_are_the_stored_ones(version: VersionRow, receipt: ReceiptRow)
    ensures
        active_receipt_of(None, None) == Ok::<Option<ReceiptView>, VaultError>(None),
        active_receipt_of(None, Some(&receipt)) == Ok::<Option<ReceiptView>, VaultError>(None),
        version_of_row(version) is Ok ==> {
            &&& active_receipt_of(Some(&version), None) == Ok::<Option<ReceiptView>, VaultError>(
                None,
            )
            &&& receipt_of_row(receipt) matches Ok(taken) ==> active_receipt_of(
                Some(&version),
                Some(&receipt),
            ) == Ok::<_, VaultError>(Some(taken))
            &&& receipt_of_row(receipt) is Err ==> active_receipt_of(
                Some(&version),
                Some(&receipt),
            ) is Err
        },
{
}

/// A version with a new identifier and distinct chunks is always admitted, published or
/// staged, and a staged one with a new receipt is always finalized.
pub proof fn new_versions_are_admitted(
    database: Database,
    version: VersionView,
    chunks: Seq<ChunkView>,
    expected_epoch: u64,
    object_id: Seq<u8>,
    receipt: ReceiptView,
)
    ensures
        !database.versions.contains_key(version.version_id) && (forall|i: int, j: int|
            #![trigger chunks[i], chunks[j]]
            0 <= i < j < chunks.len() ==> chunks[i].index != chunks[j].index
                && chunks[i].record.nonce != chunks[j].record.nonce) ==> {
            &&& database.admits(TransactionView::Publish { version, chunks, receipt: None })
            &&& database.admits(TransactionView::Stage { version, chunks, expected_epoch })
        },
        database.pending.contains_key(receipt.version_id) && database.versions.contains_key(
            receipt.version_id,
        ) && !database.receipts.contains_key(receipt.version_id) && (forall|other: Seq<u8>|
            #[trigger] database.receipts.contains_key(other)
                ==> database.receipts[other].public_key != receipt.public_key
                || database.receipts[other].witness_epoch != receipt.witness_epoch)
            ==> database.admits(
            TransactionView::Finalize { object_id, version_id: receipt.version_id, receipt },
        ),
{
}

/// A stored chunk is read field by field.
pub proof fn chunk_rows_are_read_field_by_field(row: ChunkRow, chunks: Seq<EncryptedChunk>)
    ensures
        chunk_of_row(row).index == row.index,
        chunk_of_row(row).record.nonce == row.nonce@,
        chunk_of_row(row).record.ciphertext == row.ciphertext@,
        chunk_views(chunks).len() == chunks.len(),
        forall|i: int|
            0 <= i < chunks.len() ==> #[trigger] chunk_views(chunks)[i] == chunks[i]@,
{
}

/// The journal mode is write-ahead logging exactly where it spells `wal` in any case.
pub proof fn write_ahead_logging_is_recognized(journal_mode: Seq<char>)
    ensures
        is_wal(journal_mode) <==> {
            &&& journal_mode.len() == 3
            &&& forall|i: int|
                0 <= i < 3 ==> (#[trigger] journal_mode[i] == "wal"@[i] || journal_mode[i]
                    == "WAL"@[i])
        },
{
    reveal_strlit("wal");
    reveal_strlit("WAL");
}

/// Staging keeps the whole version for later, and a transaction touches nothing of any other
/// version.
pub proof fn transactions_touch_only_their_version(
    database: Database,
    transaction: TransactionView,
    version_id: Seq<u8>,
    other: Seq<u8>,
)
    requires
        match transaction {
            TransactionView::Publish { version, chunks, receipt } => version.version_id,
            TransactionView::Stage { version, chunks, expected_epoch } => version.version_id,
            TransactionView::Finalize { object_id, version_id: finalized, receipt } => finalized,
        } == version_id,
        other != version_id,
    ensures
        ({
            let after = database.after(transaction);
            &&& after.versions.contains_key(other) == database.versions.contains_key(other)
            &&& after.versions[other] == database.versions[other]
            &&& after.chunks[other] == database.chunks[other]
            &&& after.receipts.contains_key(other) == database.receipts.contains_key(other)
            &&& after.receipts[other] == database.receipts[other]
            &&& after.pending.contains_key(other) == database.pending.contains_key(other)
            &&& after.pending[other] == database.pending[other]
            &&& transaction matches TransactionView::Stage { version, chunks, expected_epoch }
                ==> database.admits(transaction) ==> {
                &&& after.versions.contains_key(version_id)
                &&& after.versions[version_id] == version
                &&& after.chunks[version_id] == chunks
                &&& after.pending.contains_key(version_id)
                &&& after.pending[version_id] == expected_epoch
            }
        }),
{
}

/// Stored versions and transactions stand for their own fields.
pub proof fn transactions_stand_for_their_fields(
    version: StoredVersion,
    transaction: StorageTransaction,
)
    ensures
        version@.object_id == version.object_id@,
        version@.version_id == version.version_id@,
        version@.wrapped_dek == version.wrapped_dek@,
        version@.manifest == version.manifest@,
        version@.plaintext_len == version.plaintext_len,
        version@.chunk_size == version.chunk_size,
        version@.chunk_count == version.chunk_count,
        match transaction {
            StorageTransaction::Publish { version, chunks, receipt } => {
                &&& transaction@ is Publish
                &&& transaction@->Publish_version == version@
                &&& transaction@->Publish_chunks.len() == chunks@.len()
                &&& forall|i: int|
                    0 <= i < chunks@.len() ==> #[trigger] transaction@->Publish_chunks[i]
                        == chunks@[i]@
                &&& transaction@->Publish_receipt is Some <==> receipt is Some
                &&& receipt matches Some(receipt) ==> transaction@->Publish_receipt == Some(
                    receipt@,
                )
            },
            StorageTransaction::Stage { version, chunks, expected_epoch } => {
                &&& transaction@ is Stage
                &&& transaction@->Stage_version == version@
                &&& transaction@->Stage_chunks.len() == chunks@.len()
                &&& forall|i: int|
                    0 <= i < chunks@.len() ==> #[trigger] transaction@->Stage_chunks[i]
                        == chunks@[i]@
                &&& transaction@->Stage_expected_epoch == expected_epoch
            },
            StorageTransaction::Finalize { object_id, version_id, receipt } => transaction@ == (
            TransactionView::Finalize {
                object_id: object_id@,
                version_id: version_id@,
                receipt: receipt@,
            }),
        },
{
}

/// A well-built transaction agrees with itself: as many chunks as its version counts, and a
/// receipt for the very version, and where it finalizes one, for the very object.
pub proof fn well_built_transactions_agree_with_themselves(transaction: TransactionView)
    ensures
        transaction.well_built() <==> match transaction {
            TransactionView::Publish { version, chunks, receipt } => {
                &&& chunks.len() == version.chunk_count
                &&& receipt matches Some(receipt) ==> receipt.version_id == version.version_id
            },
            TransactionView::Stage { version, chunks, expected_epoch } => chunks.len()
                == version.chunk_count,
            TransactionView::Finalize { object_id, version_id, receipt } => receipt.object_id
                == object_id && receipt.version_id == version_id,
        },
{
}

} // verus!
