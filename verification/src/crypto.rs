//! Key hierarchy and authenticated-encryption records.
//!
//! This module composes outside primitives; it does not implement AES, POLYVAL,
//! Argon2id, HKDF or SHA-256 itself.
use crate::bytes::{be_bytes, be_value_of_be_bytes, fixed_bytes, lemma_be_bytes_len, lemma_pow256_values, push_be};
use crate::error::VaultError;
use crate::format::{group_identifiers, ChunkView, ObjectId, SealedRecord, SealedView, VaultId, VersionId};
use crate::primitives::{absorbed, aead_ciphertext, aead_decrypt, aead_encrypt, aead_plaintext, argon2_accepts, argon2_costs_usable, argon2id, argon2id_output, hkdf_expand, hkdf_sha256, random_array, sha256, sha256_absorb, sha256_finish, sha256_start, wipe_array, wipe_vec, Sha256Stream, AEAD_MAX_BYTES, ARGON2_MAX_PASSPHRASE_BYTES};
use vstd::prelude::*;
use vstd::std_specs::cmp::PartialEqSpec;
use vstd::utf8::{encode_utf8, is_ascii_chars_encode_utf8};

verus! {

/// Default Argon2id memory cost in KiB.
pub const DEFAULT_ARGON2_MEMORY_KIB: u32 = 65_536;

/// Default Argon2id time cost.
pub const DEFAULT_ARGON2_ITERATIONS: u32 = 3;

/// Default Argon2id parallelism, matching the RFC 9106 64-MiB profile.
pub const DEFAULT_ARGON2_LANES: u32 = 4;

/// Largest Argon2id memory cost that is accepted from persistent state, in KiB.
pub const MAX_PERSISTED_ARGON2_MEMORY_KIB: u32 = 262_144;

/// Parameters stored with an encrypted Root Key envelope.
#[derive(Clone, Copy, Debug, PartialEq, Eq, Structural)]
pub struct KdfParams {
    /// Argon2id memory cost in KiB.
    pub memory_kib: u32,
    /// Argon2id time cost.
    pub iterations: u32,
    /// Argon2id lane count.
    pub lanes: u32,
}

impl KdfParams {
    /// Whether Argon2 can run with these parameters.
    pub open spec fn usable(self) -> bool {
        argon2_costs_usable(self.memory_kib, self.iterations, self.lanes)
    }

    /// Returns the interactive password profile.
    #[must_use]
    pub fn interactive() -> (res: Self)
        ensures
            res == (KdfParams { memory_kib: 65_536, iterations: 3, lanes: 4 }),
            res.usable(),
    {
        KdfParams {
            memory_kib: DEFAULT_ARGON2_MEMORY_KIB,
            iterations: DEFAULT_ARGON2_ITERATIONS,
            lanes: DEFAULT_ARGON2_LANES,
        }
    }

    /// Rejects persisted parameters whose memory cost exceeds the accepted policy.
    pub fn validate_persisted(&self) -> (res: Result<(), VaultError>)
        ensures
            match res {
                Ok(_) => self.memory_kib <= MAX_PERSISTED_ARGON2_MEMORY_KIB,
                Err(error) => {
                    &&& self.memory_kib > MAX_PERSISTED_ARGON2_MEMORY_KIB
                    &&& error == VaultError::InvalidFormat("Argon2id KDF parameter policy")
                },
            },
            res is Ok <==> self.memory_kib <= 262_144,
    {
        if self.memory_kib > MAX_PERSISTED_ARGON2_MEMORY_KIB {
            return Err(VaultError::invalid_format("Argon2id KDF parameter policy"));
        }
        Ok(())
    }
}

/// Metadata and ciphertext required to unwrap the random Root Key.
#[derive(Debug, Eq)]
pub struct RootEnvelope {
    /// The vault identifier bound into the root-envelope AAD.
    pub vault_id: VaultId,
    /// Random Argon2id salt.
    pub salt: [u8; 16],
    /// Persisted Argon2id parameters.
    pub params: KdfParams,
    /// AES-GCM-SIV nonce and encrypted Root Key.
    pub record: SealedRecord,
}

/// The contents of a Root Key envelope.
pub ghost struct EnvelopeView {
    pub vault_id: Seq<u8>,
    pub salt: Seq<u8>,
    pub params: KdfParams,
    pub record: SealedView,
}

impl View for RootEnvelope {
    type V = EnvelopeView;

    open spec fn view(&self) -> EnvelopeView {
        EnvelopeView {
            vault_id: self.vault_id@,
            salt: self.salt@,
            params: self.params,
            record: self.record@,
        }
    }
}

impl PartialEq for RootEnvelope {
    fn eq(&self, other: &Self) -> (res: bool) {
        self.vault_id == other.vault_id && crate::bytes::bytes_equal(&self.salt, &other.salt)
            && self.params == other.params && self.record == other.record
    }
}

impl vstd::std_specs::cmp::PartialEqSpecImpl for RootEnvelope {
    open spec fn obeys_eq_spec() -> bool {
        true
    }

    open spec fn eq_spec(&self, other: &Self) -> bool {
        self@ == other@
    }
}

impl Clone for RootEnvelope {
    fn clone(&self) -> (res: Self)
        ensures
            res@ == self@,
    {
        RootEnvelope {
            vault_id: self.vault_id,
            salt: self.salt,
            params: self.params,
            record: self.record.clone(),
        }
    }
}

/// The bytes of a fixed label.
pub open spec fn label(text: &str) -> Seq<u8> {
    encode_utf8(text@)
}

/// The context of a Root Key envelope.
pub open spec fn root_context(vault_id: Seq<u8>) -> Seq<u8> {
    label("VLT1/ROOT\0") + vault_id
}

/// The context of one encrypted chunk.
pub open spec fn chunk_context(
    vault_id: Seq<u8>,
    object_id: Seq<u8>,
    version_id: Seq<u8>,
    index: u32,
    length: u32,
) -> Seq<u8> {
    label("VLT1/CHUNK\0") + vault_id + object_id + version_id + be_bytes(index as nat, 4)
        + be_bytes(length as nat, 4)
}

/// The context of a sealed manifest.
pub open spec fn manifest_context(
    vault_id: Seq<u8>,
    object_id: Seq<u8>,
    version_id: Seq<u8>,
) -> Seq<u8> {
    label("VLT1/MANIFEST\0") + vault_id + object_id + version_id
}

/// The context of a wrapped data key.
pub open spec fn wrapped_dek_context(
    vault_id: Seq<u8>,
    object_id: Seq<u8>,
    version_id: Seq<u8>,
) -> Seq<u8> {
    label("VLT1/WRAPPED-DEK\0") + vault_id + object_id + version_id
}

/// The key that a passphrase stands for under given parameters.
pub open spec fn passphrase_key(
    passphrase: Seq<char>,
    salt: Seq<u8>,
    params: KdfParams,
) -> Seq<u8> {
    argon2id_output(
        encode_utf8(passphrase),
        salt,
        params.memory_kib,
        params.iterations,
        params.lanes,
    )
}

/// The key-encryption key of a vault.
pub open spec fn vault_kek(root_key: Seq<u8>, vault_id: Seq<u8>) -> Seq<u8> {
    hkdf_sha256(vault_id, root_key, label("VLT1/KEK"))
}

/// The key that seals the manifest of a version.
pub open spec fn version_manifest_key(data_key: Seq<u8>, version_id: Seq<u8>) -> Seq<u8> {
    hkdf_sha256(version_id, data_key, label("VLT1/MANIFEST"))
}

/// What a record authenticates to under a key and a context, or nothing.
pub open spec fn opened(key: Seq<u8>, context: Seq<u8>, record: SealedView) -> Option<Seq<u8>> {
    aead_plaintext(key, record.nonce, context, record.ciphertext)
}

/// Whether a record is the encryption of a plaintext under a key and a context.
pub open spec fn is_sealed(
    key: Seq<u8>,
    context: Seq<u8>,
    plaintext: Seq<u8>,
    record: SealedView,
) -> bool {
    &&& record.nonce.len() == 12
    &&& record.ciphertext == aead_ciphertext(key, record.nonce, context, plaintext)
    &&& record.ciphertext.len() == plaintext.len() + 16
    &&& opened(key, context, record) == Some(plaintext)
}

/// What a passphrase makes of a Root Key envelope.
pub open spec fn unwrapped_root_key(passphrase: Seq<char>, envelope: EnvelopeView) -> Result<
    Seq<u8>,
    VaultError,
> {
    if !envelope.params.usable() {
        Err(VaultError::InvalidInput("invalid Argon2id parameters"))
    } else if encode_utf8(passphrase).len() > ARGON2_MAX_PASSPHRASE_BYTES {
        Err(VaultError::UnlockFailed)
    } else {
        match opened(
            passphrase_key(passphrase, envelope.salt, envelope.params),
            root_context(envelope.vault_id),
            envelope.record,
        ) {
            Some(root_key) => if root_key.len() == 32 {
                Ok(root_key)
            } else {
                Err(VaultError::UnlockFailed)
            },
            None => Err(VaultError::UnlockFailed),
        }
    }
}

/// What the chunk digest takes in of one chunk.
pub open spec fn chunk_transcript(index: u32, record: SealedView) -> Seq<u8> {
    be_bytes(index as nat, 4) + record.nonce + be_bytes(record.ciphertext.len(), 8)
        + record.ciphertext
}

/// What the chunk digest takes in of a sequence of chunks.
pub open spec fn chunks_transcript(chunks: Seq<ChunkView>) -> Seq<u8>
    decreases chunks.len(),
{
    if chunks.len() == 0 {
        Seq::empty()
    } else {
        chunk_transcript(chunks[0].index, chunks[0].record) + chunks_transcript(
            chunks.drop_first(),
        )
    }
}

/// The digest that a manifest commits to for its chunks.
pub open spec fn chunks_digest(chunks: Seq<ChunkView>) -> Seq<u8> {
    sha256(label("VLT1/CHUNK-DIGEST\0") + chunks_transcript(chunks))
}

/// The transcript of one more chunk is the transcript with that chunk's own behind it.
pub proof fn lemma_transcript_push(chunks: Seq<ChunkView>, chunk: ChunkView)
    ensures
        chunks_transcript(chunks.push(chunk)) == chunks_transcript(chunks) + chunk_transcript(
            chunk.index,
            chunk.record,
        ),
    decreases chunks.len(),
{
    let longer = chunks.push(chunk);
    if chunks.len() == 0 {
        assert(longer.drop_first() =~= Seq::<ChunkView>::empty());
        assert(chunks_transcript(longer.drop_first()) =~= Seq::<u8>::empty());
        assert(chunks_transcript(longer) =~= chunks_transcript(chunks) + chunk_transcript(
            chunk.index,
            chunk.record,
        ));
    } else {
        lemma_transcript_push(chunks.drop_first(), chunk);
        assert(longer.drop_first() =~= chunks.drop_first().push(chunk));
        assert(chunks_transcript(longer) =~= chunks_transcript(chunks) + chunk_transcript(
            chunk.index,
            chunk.record,
        ));
    }
}

/// Whether a chunk has the field widths that every stored chunk has.
pub open spec fn chunk_widths(chunk: ChunkView) -> bool {
    &&& chunk.record.nonce.len() == 12
    &&& chunk.record.ciphertext.len() <= u64::MAX
}

/// Deleting, inserting, reordering or altering chunks changes what is hashed: no two chunk
/// sequences have the same transcript.
pub proof fn transcript_is_unambiguous(left: Seq<ChunkView>, right: Seq<ChunkView>)
    requires
        forall|i: int| 0 <= i < left.len() ==> chunk_widths(#[trigger] left[i]),
        forall|i: int| 0 <= i < right.len() ==> chunk_widths(#[trigger] right[i]),
        chunks_transcript(left) == chunks_transcript(right),
    ensures
        left == right,
    decreases left.len(),
{
    if left.len() == 0 {
        if right.len() > 0 {
            lemma_be_bytes_len(right[0].index as nat, 4);
            assert(chunks_transcript(right).len() >= 4);
        }
        assert(left =~= right);
    } else if right.len() == 0 {
        lemma_be_bytes_len(left[0].index as nat, 4);
        assert(chunks_transcript(left).len() >= 4);
    } else {
        let whole = chunks_transcript(left);
        lemma_transcript_head(left);
        lemma_transcript_head(right);
        let length = whole.subrange(16, 24);
        assert(be_bytes(left[0].record.ciphertext.len(), 8) == length);
        assert(be_bytes(right[0].record.ciphertext.len(), 8) == length);
        lemma_pow256_values();
        be_value_of_be_bytes(left[0].record.ciphertext.len(), 8);
        be_value_of_be_bytes(right[0].record.ciphertext.len(), 8);
        be_value_of_be_bytes(left[0].index as nat, 4);
        be_value_of_be_bytes(right[0].index as nat, 4);
        assert(left[0] == right[0]);
        transcript_is_unambiguous(left.drop_first(), right.drop_first());
        assert(left =~= seq![left[0]] + left.drop_first());
        assert(right =~= seq![right[0]] + right.drop_first());
    }
}

proof fn lemma_transcript_head(chunks: Seq<ChunkView>)
    requires
        chunks.len() > 0,
        chunk_widths(chunks[0]),
    ensures
        ({
            let whole = chunks_transcript(chunks);
            let size = chunks[0].record.ciphertext.len() as int;
            &&& whole.len() >= 24 + size
            &&& whole.subrange(0, 4) == be_bytes(chunks[0].index as nat, 4)
            &&& whole.subrange(4, 16) == chunks[0].record.nonce
            &&& whole.subrange(16, 24) == be_bytes(chunks[0].record.ciphertext.len(), 8)
            &&& whole.subrange(24, 24 + size) == chunks[0].record.ciphertext
            &&& whole.skip(24 + size) == chunks_transcript(chunks.drop_first())
        }),
{
    let whole = chunks_transcript(chunks);
    let size = chunks[0].record.ciphertext.len() as int;
    lemma_be_bytes_len(chunks[0].index as nat, 4);
    lemma_be_bytes_len(chunks[0].record.ciphertext.len(), 8);
    assert(whole.subrange(0, 4) =~= be_bytes(chunks[0].index as nat, 4));
    assert(whole.subrange(4, 16) =~= chunks[0].record.nonce);
    assert(whole.subrange(16, 24) =~= be_bytes(chunks[0].record.ciphertext.len(), 8));
    assert(whole.subrange(24, 24 + size) =~= chunks[0].record.ciphertext);
    assert(whole.skip(24 + size) =~= chunks_transcript(chunks.drop_first()));
}

proof fn lemma_context_labels()
    ensures
        label("VLT1/ROOT\0").len() == 10,
        label("VLT1/CHUNK\0").len() == 11,
        label("VLT1/MANIFEST\0").len() == 14,
        label("VLT1/WRAPPED-DEK\0").len() == 17,
{
    reveal_strlit("VLT1/ROOT\0");
    reveal_strlit("VLT1/CHUNK\0");
    reveal_strlit("VLT1/MANIFEST\0");
    reveal_strlit("VLT1/WRAPPED-DEK\0");
    is_ascii_chars_encode_utf8("VLT1/ROOT\0"@);
    is_ascii_chars_encode_utf8("VLT1/CHUNK\0"@);
    is_ascii_chars_encode_utf8("VLT1/MANIFEST\0"@);
    is_ascii_chars_encode_utf8("VLT1/WRAPPED-DEK\0"@);
}

/// No context of one kind is a context of another kind: a record sealed for one purpose is
/// never presented to the cipher under another purpose's context.
pub proof fn contexts_are_separated(
    vault: VaultId,
    object: ObjectId,
    version: VersionId,
    index: u32,
    length: u32,
    other_vault: VaultId,
    other_object: ObjectId,
    other_version: VersionId,
)
    ensures
        chunk_context(vault@, object@, version@, index, length) != manifest_context(
            other_vault@,
            other_object@,
            other_version@,
        ),
        chunk_context(vault@, object@, version@, index, length) != wrapped_dek_context(
            other_vault@,
            other_object@,
            other_version@,
        ),
        chunk_context(vault@, object@, version@, index, length) != root_context(other_vault@),
        manifest_context(vault@, object@, version@) != wrapped_dek_context(
            other_vault@,
            other_object@,
            other_version@,
        ),
        manifest_context(vault@, object@, version@) != root_context(other_vault@),
        wrapped_dek_context(vault@, object@, version@) != root_context(other_vault@),
{
    broadcast use group_identifiers;

    lemma_context_labels();
    lemma_be_bytes_len(index as nat, 4);
    lemma_be_bytes_len(length as nat, 4);
    assert(chunk_context(vault@, object@, version@, index, length).len() == 67);
    assert(manifest_context(other_vault@, other_object@, other_version@).len() == 62);
    assert(wrapped_dek_context(other_vault@, other_object@, other_version@).len() == 65);
    assert(root_context(other_vault@).len() == 26);
    assert(manifest_context(vault@, object@, version@).len() == 62);
    assert(wrapped_dek_context(vault@, object@, version@).len() == 65);
}

/// A chunk context determines the vault, object, version, position and length it was built
/// from, so that a chunk cannot pass for another.
pub proof fn chunk_context_is_injective(
    vault: VaultId,
    object: ObjectId,
    version: VersionId,
    index: u32,
    length: u32,
    other_vault: VaultId,
    other_object: ObjectId,
    other_version: VersionId,
    other_index: u32,
    other_length: u32,
)
    requires
        chunk_context(vault@, object@, version@, index, length) == chunk_context(
            other_vault@,
            other_object@,
            other_version@,
            other_index,
            other_length,
        ),
    ensures
        vault == other_vault,
        object == other_object,
        version == other_version,
        index == other_index,
        length == other_length,
{
    lemma_chunk_context_parts(vault, object, version, index, length);
    lemma_chunk_context_parts(other_vault, other_object, other_version, other_index, other_length);
    vault.determined_by_bytes(other_vault);
    object.determined_by_bytes(other_object);
    version.determined_by_bytes(other_version);
    lemma_pow256_values();
    be_value_of_be_bytes(index as nat, 4);
    be_value_of_be_bytes(other_index as nat, 4);
    be_value_of_be_bytes(length as nat, 4);
    be_value_of_be_bytes(other_length as nat, 4);
}

proof fn lemma_chunk_context_parts(
    vault: VaultId,
    object: ObjectId,
    version: VersionId,
    index: u32,
    length: u32,
)
    ensures
        ({
            let whole = chunk_context(vault@, object@, version@, index, length);
            &&& whole.subrange(11, 27) == vault@
            &&& whole.subrange(27, 43) == object@
            &&& whole.subrange(43, 59) == version@
            &&& whole.subrange(59, 63) == be_bytes(index as nat, 4)
            &&& whole.subrange(63, 67) == be_bytes(length as nat, 4)
        }),
{
    broadcast use group_identifiers;

    lemma_context_labels();
    lemma_be_bytes_len(index as nat, 4);
    lemma_be_bytes_len(length as nat, 4);
    let whole = chunk_context(vault@, object@, version@, index, length);
    assert(whole.subrange(11, 27) =~= vault@);
    assert(whole.subrange(27, 43) =~= object@);
    assert(whole.subrange(43, 59) =~= version@);
    assert(whole.subrange(59, 63) =~= be_bytes(index as nat, 4));
    assert(whole.subrange(63, 67) =~= be_bytes(length as nat, 4));
}

/// Manifest and wrapped-key contexts determine the vault, object and version they name.
pub proof fn version_contexts_are_injective(
    vault: VaultId,
    object: ObjectId,
    version: VersionId,
    other_vault: VaultId,
    other_object: ObjectId,
    other_version: VersionId,
)
    requires
        manifest_context(vault@, object@, version@) == manifest_context(
            other_vault@,
            other_object@,
            other_version@,
        ) || wrapped_dek_context(vault@, object@, version@) == wrapped_dek_context(
            other_vault@,
            other_object@,
            other_version@,
        ),
    ensures
        vault == other_vault,
        object == other_object,
        version == other_version,
{
    broadcast use group_identifiers;

    lemma_context_labels();
    if manifest_context(vault@, object@, version@) == manifest_context(
        other_vault@,
        other_object@,
        other_version@,
    ) {
        let whole = manifest_context(vault@, object@, version@);
        let other = manifest_context(other_vault@, other_object@, other_version@);
        assert(whole.subrange(14, 30) =~= vault@ && other.subrange(14, 30) =~= other_vault@);
        assert(whole.subrange(30, 46) =~= object@ && other.subrange(30, 46) =~= other_object@);
        assert(whole.subrange(46, 62) =~= version@ && other.subrange(46, 62) =~= other_version@);
    } else {
        let whole = wrapped_dek_context(vault@, object@, version@);
        let other = wrapped_dek_context(other_vault@, other_object@, other_version@);
        assert(whole.subrange(17, 33) =~= vault@ && other.subrange(17, 33) =~= other_vault@);
        assert(whole.subrange(33, 49) =~= object@ && other.subrange(33, 49) =~= other_object@);
        assert(whole.subrange(49, 65) =~= version@ && other.subrange(49, 65) =~= other_version@);
    }
    vault.determined_by_bytes(other_vault);
    object.determined_by_bytes(other_object);
    version.determined_by_bytes(other_version);
}

/// Generates a fresh 256-bit Root Key.
#[must_use]
pub fn generate_root_key() -> (res: [u8; 32])
    ensures
        res@.len() == 32,
{
    random_array()
}

/// Generates a fresh version data key.
#[must_use]
pub fn generate_dek() -> (res: [u8; 32])
    ensures
        res@.len() == 32,
{
    random_array()
}

/// Creates a password-protected Root Key envelope with a fresh salt.
pub fn seal_root_key(
    passphrase: &str,
    vault_id: VaultId,
    root_key: &[u8; 32],
    params: KdfParams,
) -> (res: Result<RootEnvelope, VaultError>)
    ensures
        match res {
            Ok(envelope) => {
                &&& params.usable()
                &&& encode_utf8(passphrase@).len() <= ARGON2_MAX_PASSPHRASE_BYTES
                &&& envelope.vault_id == vault_id
                &&& envelope.params == params
                &&& unwrapped_root_key(passphrase@, envelope@) == Ok::<_, VaultError>(root_key@)
            },
            Err(VaultError::InvalidInput(message)) => {
                &&& !params.usable()
                &&& message == "invalid Argon2id parameters"
            },
            Err(error) => {
                &&& params.usable()
                &&& encode_utf8(passphrase@).len() > ARGON2_MAX_PASSPHRASE_BYTES
                &&& error == VaultError::UnlockFailed
            },
        },
{
    broadcast use group_identifiers;

    let salt: [u8; 16] = random_array();
    let mut key = match derive_passphrase_key(passphrase, &salt, params) {
        Ok(key) => key,
        Err(error) => return Err(error),
    };
    let aad = root_aad(vault_id);
    proof {
        lemma_context_labels();
    }
    let sealed = seal(&key, aad.as_slice(), root_key);
    wipe_array(&mut key);
    match sealed {
        Ok(record) => Ok(RootEnvelope { vault_id, salt, params, record }),
        Err(error) => Err(error),
    }
}

/// Decrypts a Root Key envelope after deriving the passphrase key.
pub fn open_root_key(passphrase: &str, envelope: &RootEnvelope) -> (res: Result<
    [u8; 32],
    VaultError,
>)
    ensures
        match (res, unwrapped_root_key(passphrase@, envelope@)) {
            (Ok(root_key), Ok(expected)) => root_key@ == expected,
            (Err(error), Err(expected)) => error == expected,
            _ => false,
        },
{
    let mut key = match derive_passphrase_key(passphrase, &envelope.salt, envelope.params) {
        Ok(key) => key,
        Err(error) => return Err(error),
    };
    let aad = root_aad(envelope.vault_id);
    let unsealed = open(&key, aad.as_slice(), &envelope.record);
    wipe_array(&mut key);
    match unsealed {
        Ok(mut plaintext) => {
            let root_key: Option<[u8; 32]> = fixed_bytes(plaintext.as_slice());
            wipe_vec(&mut plaintext);
            match root_key {
                Some(root_key) => Ok(root_key),
                None => Err(VaultError::UnlockFailed),
            }
        },
        Err(_) => Err(VaultError::UnlockFailed),
    }
}

/// Derives the per-vault key-encryption key from the Root Key.
pub fn derive_kek(root_key: &[u8; 32], vault_id: VaultId) -> (res: Result<[u8; 32], VaultError>)
    ensures
        res is Ok,
        res->Ok_0@ == vault_kek(root_key@, vault_id@),
        res->Ok_0@ == hkdf_sha256(vault_id@, root_key@, encode_utf8("VLT1/KEK"@)),
{
    derive_domain_key(root_key, vault_id.as_bytes(), "VLT1/KEK")
}

/// Derives a distinct manifest key from a version data key.
pub fn derive_manifest_key(dek: &[u8; 32], version_id: VersionId) -> (res: Result<
    [u8; 32],
    VaultError,
>)
    ensures
        res is Ok,
        res->Ok_0@ == version_manifest_key(dek@, version_id@),
        res->Ok_0@ == hkdf_sha256(version_id@, dek@, encode_utf8("VLT1/MANIFEST"@)),
{
    derive_domain_key(dek, version_id.as_bytes(), "VLT1/MANIFEST")
}

/// Encrypts a plaintext with AES-256-GCM-SIV under a given nonce.
pub fn seal_with_nonce(key: &[u8], nonce: [u8; 12], aad: &[u8], plaintext: &[u8]) -> (res: Result<
    SealedRecord,
    VaultError,
>)
    ensures
        match res {
            Ok(record) => {
                &&& key@.len() == 32
                &&& plaintext@.len() <= AEAD_MAX_BYTES && aad@.len() <= AEAD_MAX_BYTES
                &&& record.nonce == nonce
                &&& is_sealed(key@, aad@, plaintext@, record@)
            },
            Err(VaultError::Invariant(message)) => {
                &&& key@.len() != 32
                &&& message == "AES-256 key length"
            },
            Err(error) => {
                &&& key@.len() == 32
                &&& plaintext@.len() > AEAD_MAX_BYTES || aad@.len() > AEAD_MAX_BYTES
                &&& error == VaultError::Authentication
            },
        },
        res matches Ok(record) ==> {
            &&& record.ciphertext@ == aead_ciphertext(key@, nonce@, aad@, plaintext@)
            &&& aead_plaintext(key@, nonce@, aad@, record.ciphertext@) == Some(plaintext@)
        },
{
    if key.len() != 32 {
        return Err(VaultError::Invariant("AES-256 key length"));
    }
    match aead_encrypt(key, &nonce, aad, plaintext) {
        Some(ciphertext) => Ok(SealedRecord { nonce, ciphertext }),
        None => Err(VaultError::Authentication),
    }
}

/// Encrypts a plaintext with AES-256-GCM-SIV and a fresh 96-bit nonce.
pub fn seal(key: &[u8], aad: &[u8], plaintext: &[u8]) -> (res: Result<SealedRecord, VaultError>)
    ensures
        match res {
            Ok(record) => {
                &&& key@.len() == 32
                &&& plaintext@.len() <= AEAD_MAX_BYTES && aad@.len() <= AEAD_MAX_BYTES
                &&& is_sealed(key@, aad@, plaintext@, record@)
            },
            Err(VaultError::Invariant(message)) => {
                &&& key@.len() != 32
                &&& message == "AES-256 key length"
            },
            Err(error) => {
                &&& key@.len() == 32
                &&& plaintext@.len() > AEAD_MAX_BYTES || aad@.len() > AEAD_MAX_BYTES
                &&& error == VaultError::Authentication
            },
        },
        res matches Ok(record) ==> aead_plaintext(key@, record.nonce@, aad@, record.ciphertext@)
            == Some(plaintext@),
{
    seal_with_nonce(key, random_array(), aad, plaintext)
}

/// Decrypts an AES-256-GCM-SIV record after authenticating its context.
pub fn open(key: &[u8], aad: &[u8], record: &SealedRecord) -> (res: Result<Vec<u8>, VaultError>)
    ensures
        match res {
            Ok(plaintext) => {
                &&& key@.len() == 32
                &&& opened(key@, aad@, record@) == Some(plaintext@)
                &&& plaintext@.len() + 16 == record.ciphertext@.len()
            },
            Err(VaultError::Invariant(message)) => {
                &&& key@.len() != 32
                &&& message == "AES-256 key length"
            },
            Err(error) => {
                &&& key@.len() == 32
                &&& opened(key@, aad@, record@) is None
                &&& error == VaultError::Authentication
            },
        },
        res matches Ok(plaintext) ==> aead_plaintext(
            key@,
            record.nonce@,
            aad@,
            record.ciphertext@,
        ) == Some(plaintext@),
        key@.len() == 32 && aead_plaintext(key@, record.nonce@, aad@, record.ciphertext@) is Some
            ==> res is Ok,
{
    if key.len() != 32 {
        return Err(VaultError::Invariant("AES-256 key length"));
    }
    match aead_decrypt(key, &record.nonce, aad, record.ciphertext.as_slice()) {
        Some(plaintext) => Ok(plaintext),
        None => Err(VaultError::Authentication),
    }
}

/// Builds the context of an encrypted object chunk.
#[must_use]
pub fn chunk_aad(
    vault_id: VaultId,
    object_id: ObjectId,
    version_id: VersionId,
    chunk_index: u32,
    plaintext_len: u32,
) -> (res: Vec<u8>)
    ensures
        res@ == chunk_context(vault_id@, object_id@, version_id@, chunk_index, plaintext_len),
        res@ == encode_utf8("VLT1/CHUNK\0"@) + vault_id@ + object_id@ + version_id@ + be_bytes(
            chunk_index as nat,
            4,
        ) + be_bytes(plaintext_len as nat, 4),
        res@.len() == 67,
{
    let mut aad: Vec<u8> = Vec::with_capacity(88);
    aad.extend_from_slice("VLT1/CHUNK\0".as_bytes());
    aad.extend_from_slice(vault_id.as_bytes());
    aad.extend_from_slice(object_id.as_bytes());
    aad.extend_from_slice(version_id.as_bytes());
    push_be(&mut aad, chunk_index as u64, 4);
    push_be(&mut aad, plaintext_len as u64, 4);
    proof {
        broadcast use group_identifiers;

        lemma_context_labels();
        lemma_be_bytes_len(chunk_index as nat, 4);
        lemma_be_bytes_len(plaintext_len as nat, 4);
        assert(aad@ =~= chunk_context(
            vault_id@,
            object_id@,
            version_id@,
            chunk_index,
            plaintext_len,
        ));
    }
    aad
}

/// Builds the context of a sealed version manifest.
#[must_use]
pub fn manifest_aad(vault_id: VaultId, object_id: ObjectId, version_id: VersionId) -> (res: Vec<u8>)
    ensures
        res@ == manifest_context(vault_id@, object_id@, version_id@),
        res@ == encode_utf8("VLT1/MANIFEST\0"@) + vault_id@ + object_id@ + version_id@,
        res@.len() == 62,
{
    let mut aad: Vec<u8> = Vec::with_capacity(72);
    aad.extend_from_slice("VLT1/MANIFEST\0".as_bytes());
    aad.extend_from_slice(vault_id.as_bytes());
    aad.extend_from_slice(object_id.as_bytes());
    aad.extend_from_slice(version_id.as_bytes());
    proof {
        broadcast use group_identifiers;

        lemma_context_labels();
        assert(aad@ =~= manifest_context(vault_id@, object_id@, version_id@));
    }
    aad
}

/// Builds the context of a data key wrapped under the per-vault key.
#[must_use]
pub fn wrapped_dek_aad(vault_id: VaultId, object_id: ObjectId, version_id: VersionId) -> (res: Vec<
    u8,
>)
    ensures
        res@ == wrapped_dek_context(vault_id@, object_id@, version_id@),
        res@ == encode_utf8("VLT1/WRAPPED-DEK\0"@) + vault_id@ + object_id@ + version_id@,
        res@.len() == 65,
{
    let mut aad: Vec<u8> = Vec::with_capacity(72);
    aad.extend_from_slice("VLT1/WRAPPED-DEK\0".as_bytes());
    aad.extend_from_slice(vault_id.as_bytes());
    aad.extend_from_slice(object_id.as_bytes());
    aad.extend_from_slice(version_id.as_bytes());
    proof {
        broadcast use group_identifiers;

        lemma_context_labels();
        assert(aad@ =~= wrapped_dek_context(vault_id@, object_id@, version_id@));
    }
    aad
}

fn root_aad(vault_id: VaultId) -> (res: Vec<u8>)
    ensures
        res@ == root_context(vault_id@),
        res@.len() == 26,
{
    let mut aad: Vec<u8> = Vec::with_capacity(32);
    aad.extend_from_slice("VLT1/ROOT\0".as_bytes());
    aad.extend_from_slice(vault_id.as_bytes());
    proof {
        broadcast use group_identifiers;

        lemma_context_labels();
        assert(aad@ =~= root_context(vault_id@));
    }
    aad
}

fn derive_passphrase_key(passphrase: &str, salt: &[u8; 16], params: KdfParams) -> (res: Result<
    [u8; 32],
    VaultError,
>)
    ensures
        match res {
            Ok(key) => {
                &&& params.usable()
                &&& encode_utf8(passphrase@).len() <= ARGON2_MAX_PASSPHRASE_BYTES
                &&& key@ == passphrase_key(passphrase@, salt@, params)
            },
            Err(VaultError::InvalidInput(message)) => {
                &&& !params.usable()
                &&& message == "invalid Argon2id parameters"
            },
            Err(error) => {
                &&& params.usable()
                &&& encode_utf8(passphrase@).len() > ARGON2_MAX_PASSPHRASE_BYTES
                &&& error == VaultError::UnlockFailed
            },
        },
{
    if params.lanes > 0x1fff_ffff || !argon2_accepts(
        params.memory_kib,
        params.iterations,
        params.lanes,
    ) {
        return Err(VaultError::InvalidInput("invalid Argon2id parameters"));
    }
    match argon2id(
        passphrase.as_bytes(),
        salt,
        params.memory_kib,
        params.iterations,
        params.lanes,
    ) {
        Some(key) => Ok(key),
        None => Err(VaultError::UnlockFailed),
    }
}

fn derive_domain_key(root: &[u8; 32], salt: &[u8], text: &str) -> (res: Result<
    [u8; 32],
    VaultError,
>)
    ensures
        res is Ok,
        res->Ok_0@ == hkdf_sha256(salt@, root@, encode_utf8(text@)),
{
    match hkdf_expand(salt, root, text.as_bytes()) {
        Some(key) => Ok(key),
        None => Err(VaultError::Invariant("HKDF expansion")),
    }
}

/// An incremental digest over encrypted chunks in index order.
pub struct ChunkDigestBuilder {
    state: Sha256Stream,
    chunks: Ghost<Seq<ChunkView>>,
}

impl ChunkDigestBuilder {
    /// The chunks taken in so far.
    pub closed spec fn chunks(&self) -> Seq<ChunkView> {
        self.chunks@
    }

    /// Whether the running hash has taken in exactly the transcript of the chunks.
    pub closed spec fn well_formed(&self) -> bool {
        absorbed(self.state) == label("VLT1/CHUNK-DIGEST\0") + chunks_transcript(self.chunks@)
    }

    /// Starts a digest over no chunks.
    #[must_use]
    pub fn new() -> (res: Self)
        ensures
            res.well_formed(),
            res.chunks() == Seq::<ChunkView>::empty(),
    {
        let mut state = sha256_start();
        sha256_absorb(&mut state, "VLT1/CHUNK-DIGEST\0".as_bytes());
        let res = ChunkDigestBuilder { state, chunks: Ghost(Seq::empty()) };
        assert(absorbed(res.state) =~= label("VLT1/CHUNK-DIGEST\0") + chunks_transcript(
            res.chunks@,
        ));
        res
    }

    /// Takes in the next chunk.
    pub fn update(&mut self, index: u32, record: &SealedRecord)
        requires
            old(self).well_formed(),
        ensures
            final(self).well_formed(),
            final(self).chunks() == old(self).chunks().push(ChunkView { index, record: record@ }),
    {
        let mut header: Vec<u8> = Vec::with_capacity(24);
        push_be(&mut header, index as u64, 4);
        header.extend_from_slice(&record.nonce);
        push_be(&mut header, record.ciphertext.len() as u64, 8);
        sha256_absorb(&mut self.state, header.as_slice());
        sha256_absorb(&mut self.state, record.ciphertext.as_slice());
        let ghost chunk = ChunkView { index, record: record@ };
        proof {
            lemma_transcript_push(self.chunks@, chunk);
            assert(header@ + record.ciphertext@ =~= chunk_transcript(index, record@));
            assert(absorbed(self.state) =~= label("VLT1/CHUNK-DIGEST\0") + (chunks_transcript(
                self.chunks@,
            ) + chunk_transcript(index, record@)));
        }
        self.chunks = Ghost(self.chunks@.push(chunk));
    }

    /// Returns the digest of all chunks taken in.
    #[must_use]
    pub fn finalize(self) -> (res: [u8; 32])
        requires
            self.well_formed(),
        ensures
            res@ == chunks_digest(self.chunks()),
    {
        sha256_finish(self.state)
    }
}

/// Computes the digest that a manifest commits to over every encrypted chunk.
#[must_use]
pub fn chunk_digest(chunks: &[(u32, SealedRecord)]) -> (res: [u8; 32])
    ensures
        res@ == chunks_digest(
            Seq::new(
                chunks@.len(),
                |i: int| ChunkView { index: chunks@[i].0, record: chunks@[i].1@ },
            ),
        ),
{
    let mut digest = ChunkDigestBuilder::new();
    let ghost views = Seq::new(
        chunks@.len(),
        |i: int| ChunkView { index: chunks@[i].0, record: chunks@[i].1@ },
    );
    let mut position: usize = 0;
    assert(digest.chunks() =~= views.subrange(0, 0));
    while position < chunks.len()
        invariant
            position <= chunks@.len(),
            digest.well_formed(),
            views == Seq::new(
                chunks@.len(),
                |i: int| ChunkView { index: chunks@[i].0, record: chunks@[i].1@ },
            ),
            digest.chunks() == views.subrange(0, position as int),
        decreases chunks@.len() - position,
    {
        let entry = &chunks[position];
        digest.update(entry.0, &entry.1);
        assert(views.subrange(0, position + 1) =~= views.subrange(0, position as int).push(
            views[position as int],
        ));
        position += 1;
    }
    assert(views.subrange(0, position as int) =~= views);
    digest.finalize()
}

/// The chunk digest covers every chunk in turn: its index in four bytes, its nonce, the
/// length of its ciphertext in eight bytes and the ciphertext.
pub proof fn digests_cover_every_chunk(chunks: Seq<ChunkView>, chunk: ChunkView)
    ensures
        chunks_transcript(Seq::empty()) == Seq::<u8>::empty(),
        chunks_transcript(chunks.push(chunk)) == chunks_transcript(chunks) + be_bytes(
            chunk.index as nat,
            4,
        ) + chunk.record.nonce + be_bytes(chunk.record.ciphertext.len(), 8)
            + chunk.record.ciphertext,
        chunks_digest(chunks) == sha256(
            encode_utf8("VLT1/CHUNK-DIGEST\0"@) + chunks_transcript(chunks),
        ),
{
    lemma_transcript_push(chunks, chunk);
    assert(chunks_transcript(chunks) + chunk_transcript(chunk.index, chunk.record)
        =~= chunks_transcript(chunks) + be_bytes(chunk.index as nat, 4) + chunk.record.nonce
        + be_bytes(chunk.record.ciphertext.len(), 8) + chunk.record.ciphertext);
}

/// An envelope stands for its own fields.
pub proof fn envelopes_stand_for_their_fields(envelope: RootEnvelope)
    ensures
        envelope@.vault_id == envelope.vault_id@,
        envelope@.salt == envelope.salt@,
        envelope@.params == envelope.params,
        envelope@.record.nonce == envelope.record.nonce@,
        envelope@.record.ciphertext == envelope.record.ciphertext@,
{
}

/// Envelopes are equal exactly where every field is.
pub proof fn envelopes_are_compared_whole(envelope: RootEnvelope, other: RootEnvelope)
    ensures
        envelope.eq_spec(&other) <==> {
            &&& envelope.vault_id@ == other.vault_id@
            &&& envelope.salt@ == other.salt@
            &&& envelope.params == other.params
            &&& envelope.record.nonce@ == other.record.nonce@
            &&& envelope.record.ciphertext@ == other.record.ciphertext@
        },
{
}

} // verus!
