//! Format identifiers and immutable record types.
use crate::bytes::{bytes_equal, fixed_bytes, hex_encode, hex_text};
use crate::error::VaultError;
use crate::primitives::random_array;
use vstd::prelude::*;
use vstd::std_specs::cmp::PartialEqSpec;

verus! {

/// The current VLT/1 on-disk format version.
pub const FORMAT_VERSION: u32 = 1;

/// A random identifier bound into every VLT/1 key domain.
#[derive(Clone, Copy, Debug, Eq, Hash)]
pub struct VaultId([u8; 16]);

impl View for VaultId {
    type V = Seq<u8>;

    closed spec fn view(&self) -> Seq<u8> {
        self.0@
    }
}

impl PartialEq for VaultId {
    fn eq(&self, other: &Self) -> (res: bool) {
        bytes_equal(&self.0, &other.0)
    }
}

impl vstd::std_specs::cmp::PartialEqSpecImpl for VaultId {
    open spec fn obeys_eq_spec() -> bool {
        true
    }

    open spec fn eq_spec(&self, other: &Self) -> bool {
        self@ == other@
    }
}

impl VaultId {
    /// Every identifier is sixteen bytes long.
    pub broadcast proof fn sixteen_bytes(self)
        ensures
            #[trigger] self@.len() == 16,
    {
    }

    /// Identifiers with the same bytes are the same identifier.
    pub proof fn determined_by_bytes(self, other: Self)
        requires
            self@ == other@,
        ensures
            self == other,
    {
        assert(self.0 =~= other.0);
    }

    /// Generates a fresh identifier from the operating system's generator.
    #[must_use]
    pub fn random() -> (res: Self)
        ensures
            res@.len() == 16,
    {
        VaultId(random_array())
    }

    /// Reconstructs an identifier from exactly sixteen bytes.
    pub fn from_slice(bytes: &[u8]) -> (res: Result<Self, VaultError>)
        ensures
            match res {
                Ok(identifier) => bytes@.len() == 16 && identifier@ == bytes@,
                Err(error) => bytes@.len() != 16 && error == VaultError::InvalidFormat(
                    "invalid identifier length",
                ),
            },
    {
        match fixed_bytes(bytes) {
            Some(array) => Ok(VaultId(array)),
            None => Err(VaultError::invalid_format("invalid identifier length")),
        }
    }

    /// Returns the canonical byte representation.
    #[must_use]
    pub fn as_bytes(&self) -> (res: &[u8; 16])
        ensures
            res@ == self@,
    {
        &self.0
    }

    /// Returns a lowercase hexadecimal presentation.
    #[must_use]
    pub fn to_hex(self) -> (res: String)
        ensures
            res@ == hex_text(self@),
    {
        hex_encode(&self.0)
    }
}

/// A caller-selected logical object identifier.
#[derive(Clone, Copy, Debug, Eq, Hash)]
pub struct ObjectId([u8; 16]);

impl View for ObjectId {
    type V = Seq<u8>;

    closed spec fn view(&self) -> Seq<u8> {
        self.0@
    }
}

impl PartialEq for ObjectId {
    fn eq(&self, other: &Self) -> (res: bool) {
        bytes_equal(&self.0, &other.0)
    }
}

impl vstd::std_specs::cmp::PartialEqSpecImpl for ObjectId {
    open spec fn obeys_eq_spec() -> bool {
        true
    }

    open spec fn eq_spec(&self, other: &Self) -> bool {
        self@ == other@
    }
}

impl ObjectId {
    /// Every identifier is sixteen bytes long.
    pub broadcast proof fn sixteen_bytes(self)
        ensures
            #[trigger] self@.len() == 16,
    {
    }

    /// Identifiers with the same bytes are the same identifier.
    pub proof fn determined_by_bytes(self, other: Self)
        requires
            self@ == other@,
        ensures
            self == other,
    {
        assert(self.0 =~= other.0);
    }

    /// Generates a fresh identifier from the operating system's generator.
    #[must_use]
    pub fn random() -> (res: Self)
        ensures
            res@.len() == 16,
    {
        ObjectId(random_array())
    }

    /// Reconstructs an identifier from exactly sixteen bytes.
    pub fn from_slice(bytes: &[u8]) -> (res: Result<Self, VaultError>)
        ensures
            match res {
                Ok(identifier) => bytes@.len() == 16 && identifier@ == bytes@,
                Err(error) => bytes@.len() != 16 && error == VaultError::InvalidFormat(
                    "invalid identifier length",
                ),
            },
    {
        match fixed_bytes(bytes) {
            Some(array) => Ok(ObjectId(array)),
            None => Err(VaultError::invalid_format("invalid identifier length")),
        }
    }

    /// Returns the canonical byte representation.
    #[must_use]
    pub fn as_bytes(&self) -> (res: &[u8; 16])
        ensures
            res@ == self@,
    {
        &self.0
    }

    /// Returns a lowercase hexadecimal presentation.
    #[must_use]
    pub fn to_hex(self) -> (res: String)
        ensures
            res@ == hex_text(self@),
    {
        hex_encode(&self.0)
    }
}

/// A random immutable object-version identifier.
#[derive(Clone, Copy, Debug, Eq, Hash)]
pub struct VersionId([u8; 16]);

impl View for VersionId {
    type V = Seq<u8>;

    closed spec fn view(&self) -> Seq<u8> {
        self.0@
    }
}

impl PartialEq for VersionId {
    fn eq(&self, other: &Self) -> (res: bool) {
        bytes_equal(&self.0, &other.0)
    }
}

impl vstd::std_specs::cmp::PartialEqSpecImpl for VersionId {
    open spec fn obeys_eq_spec() -> bool {
        true
    }

    open spec fn eq_spec(&self, other: &Self) -> bool {
        self@ == other@
    }
}

impl VersionId {
    /// Every identifier is sixteen bytes long.
    pub broadcast proof fn sixteen_bytes(self)
        ensures
            #[trigger] self@.len() == 16,
    {
    }

    /// Identifiers with the same bytes are the same identifier.
    pub proof fn determined_by_bytes(self, other: Self)
        requires
            self@ == other@,
        ensures
            self == other,
    {
        assert(self.0 =~= other.0);
    }

    /// Generates a fresh identifier from the operating system's generator.
    #[must_use]
    pub fn random() -> (res: Self)
        ensures
            res@.len() == 16,
    {
        VersionId(random_array())
    }

    /// Reconstructs an identifier from exactly sixteen bytes.
    pub fn from_slice(bytes: &[u8]) -> (res: Result<Self, VaultError>)
        ensures
            match res {
                Ok(identifier) => bytes@.len() == 16 && identifier@ == bytes@,
                Err(error) => bytes@.len() != 16 && error == VaultError::InvalidFormat(
                    "invalid identifier length",
                ),
            },
    {
        match fixed_bytes(bytes) {
            Some(array) => Ok(VersionId(array)),
            None => Err(VaultError::invalid_format("invalid identifier length")),
        }
    }

    /// Returns the canonical byte representation.
    #[must_use]
    pub fn as_bytes(&self) -> (res: &[u8; 16])
        ensures
            res@ == self@,
    {
        &self.0
    }

    /// Returns a lowercase hexadecimal presentation.
    #[must_use]
    pub fn to_hex(self) -> (res: String)
        ensures
            res@ == hex_text(self@),
    {
        hex_encode(&self.0)
    }
}

pub broadcast group group_identifiers {
    VaultId::sixteen_bytes,
    ObjectId::sixteen_bytes,
    VersionId::sixteen_bytes,
}

/// A sealed AEAD record with a 96-bit nonce.
#[derive(Debug, Eq)]
pub struct SealedRecord {
    /// The 96-bit AES-GCM-SIV nonce.
    pub nonce: [u8; 12],
    /// Ciphertext followed by the 128-bit authentication tag.
    pub ciphertext: Vec<u8>,
}

/// The bytes of a sealed record.
pub ghost struct SealedView {
    pub nonce: Seq<u8>,
    pub ciphertext: Seq<u8>,
}

impl View for SealedRecord {
    type V = SealedView;

    open spec fn view(&self) -> SealedView {
        SealedView { nonce: self.nonce@, ciphertext: self.ciphertext@ }
    }
}

impl PartialEq for SealedRecord {
    fn eq(&self, other: &Self) -> (res: bool) {
        bytes_equal(&self.nonce, &other.nonce) && bytes_equal(
            self.ciphertext.as_slice(),
            other.ciphertext.as_slice(),
        )
    }
}

impl vstd::std_specs::cmp::PartialEqSpecImpl for SealedRecord {
    open spec fn obeys_eq_spec() -> bool {
        true
    }

    open spec fn eq_spec(&self, other: &Self) -> bool {
        self@ == other@
    }
}

impl Clone for SealedRecord {
    fn clone(&self) -> (res: Self)
        ensures
            res@ == self@,
    {
        SealedRecord { nonce: self.nonce, ciphertext: self.ciphertext.clone() }
    }
}

/// Metadata that binds a version to its encrypted contents.
#[derive(Clone, Copy, Debug, Eq)]
pub struct Manifest {
    /// The VLT/1 format version.
    pub format_version: u32,
    /// The logical object represented by this version.
    pub object_id: ObjectId,
    /// The immutable version identifier.
    pub version_id: VersionId,
    /// Total plaintext length in bytes.
    pub plaintext_len: u64,
    /// Fixed chunk size used while publishing the version.
    pub chunk_size: u32,
    /// Number of authenticated chunks.
    pub chunk_count: u32,
    /// SHA-256 digest over canonical chunk metadata and ciphertexts.
    pub chunk_digest: [u8; 32],
}

/// The contents of a manifest.
pub ghost struct ManifestView {
    pub format_version: u32,
    pub object_id: Seq<u8>,
    pub version_id: Seq<u8>,
    pub plaintext_len: u64,
    pub chunk_size: u32,
    pub chunk_count: u32,
    pub chunk_digest: Seq<u8>,
}

impl ManifestView {
    /// The field widths that every manifest has.
    pub open spec fn well_formed(self) -> bool {
        &&& self.object_id.len() == 16
        &&& self.version_id.len() == 16
        &&& self.chunk_digest.len() == 32
    }
}

impl View for Manifest {
    type V = ManifestView;

    open spec fn view(&self) -> ManifestView {
        ManifestView {
            format_version: self.format_version,
            object_id: self.object_id@,
            version_id: self.version_id@,
            plaintext_len: self.plaintext_len,
            chunk_size: self.chunk_size,
            chunk_count: self.chunk_count,
            chunk_digest: self.chunk_digest@,
        }
    }
}

impl PartialEq for Manifest {
    fn eq(&self, other: &Self) -> (res: bool) {
        self.format_version == other.format_version && self.object_id == other.object_id
            && self.version_id == other.version_id && self.plaintext_len == other.plaintext_len
            && self.chunk_size == other.chunk_size && self.chunk_count == other.chunk_count
            && bytes_equal(&self.chunk_digest, &other.chunk_digest)
    }
}

impl vstd::std_specs::cmp::PartialEqSpecImpl for Manifest {
    open spec fn obeys_eq_spec() -> bool {
        true
    }

    open spec fn eq_spec(&self, other: &Self) -> bool {
        self@ == other@
    }
}

/// One encrypted chunk prepared for transactional publication.
#[derive(Clone, Debug, Eq)]
pub struct EncryptedChunk {
    /// Zero-based chunk index.
    pub index: u32,
    /// AEAD nonce and ciphertext.
    pub record: SealedRecord,
}

/// The contents of an encrypted chunk.
pub ghost struct ChunkView {
    pub index: u32,
    pub record: SealedView,
}

impl View for EncryptedChunk {
    type V = ChunkView;

    open spec fn view(&self) -> ChunkView {
        ChunkView { index: self.index, record: self.record@ }
    }
}

impl PartialEq for EncryptedChunk {
    fn eq(&self, other: &Self) -> (res: bool) {
        self.index == other.index && self.record == other.record
    }
}

impl vstd::std_specs::cmp::PartialEqSpecImpl for EncryptedChunk {
    open spec fn obeys_eq_spec() -> bool {
        true
    }

    open spec fn eq_spec(&self, other: &Self) -> bool {
        self@ == other@
    }
}

/// Records, manifests and chunks stand for their own fields.
pub proof fn records_stand_for_their_fields(
    record: SealedRecord,
    manifest: Manifest,
    chunk: EncryptedChunk,
)
    ensures
        record@.nonce == record.nonce@,
        record@.ciphertext == record.ciphertext@,
        manifest@.format_version == manifest.format_version,
        manifest@.object_id == manifest.object_id@,
        manifest@.version_id == manifest.version_id@,
        manifest@.plaintext_len == manifest.plaintext_len,
        manifest@.chunk_size == manifest.chunk_size,
        manifest@.chunk_count == manifest.chunk_count,
        manifest@.chunk_digest == manifest.chunk_digest@,
        chunk@.index == chunk.index,
        chunk@.record == chunk.record@,
{
}

/// Identifiers are equal exactly where their bytes are.
pub proof fn identifiers_are_compared_whole(
    vault: VaultId,
    other_vault: VaultId,
    object: ObjectId,
    other_object: ObjectId,
    version: VersionId,
    other_version: VersionId,
)
    ensures
        vault.eq_spec(&other_vault) <==> vault@ == other_vault@,
        object.eq_spec(&other_object) <==> object@ == other_object@,
        version.eq_spec(&other_version) <==> version@ == other_version@,
{
}

/// Records, manifests and chunks are equal exactly where every field is.
pub proof fn records_are_compared_whole(
    record: SealedRecord,
    other_record: SealedRecord,
    manifest: Manifest,
    other_manifest: Manifest,
    chunk: EncryptedChunk,
    other_chunk: EncryptedChunk,
)
    ensures
        record.eq_spec(&other_record) <==> {
            &&& record.nonce@ == other_record.nonce@
            &&& record.ciphertext@ == other_record.ciphertext@
        },
        manifest.eq_spec(&other_manifest) <==> {
            &&& manifest.format_version == other_manifest.format_version
            &&& manifest.object_id@ == other_manifest.object_id@
            &&& manifest.version_id@ == other_manifest.version_id@
            &&& manifest.plaintext_len == other_manifest.plaintext_len
            &&& manifest.chunk_size == other_manifest.chunk_size
            &&& manifest.chunk_count == other_manifest.chunk_count
            &&& manifest.chunk_digest@ == other_manifest.chunk_digest@
        },
        chunk.eq_spec(&other_chunk) <==> {
            &&& chunk.index == other_chunk.index
            &&& chunk.record.nonce@ == other_chunk.record.nonce@
            &&& chunk.record.ciphertext@ == other_chunk.record.ciphertext@
        },
{
}

} // verus!
