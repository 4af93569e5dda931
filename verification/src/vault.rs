//! Capability-scoped vault operations over an explicit locked/unlocked lifecycle.
//!
//! A vault holds the Root Key envelope and, while unlocked, the Root Key. Rows
//! come from the database and transactions go back to it; every failure that
//! leaves the state of stored data in doubt locks the vault.
use crate::crypto::{generate_root_key, open_root_key, seal_root_key, unwrapped_root_key, EnvelopeView, KdfParams, RootEnvelope};
use crate::error::VaultError;
use crate::format::{ChunkView, ObjectId, VaultId, VersionId};
use crate::primitives::{wipe_array, wipe_vec, ARGON2_MAX_PASSPHRASE_BYTES};
use crate::provider::{acknowledge, fetch_fresh_head, head_asked, head_reply_verdict, receipt_asked, receipt_reply_verdict, InMemoryTestProvider, WitnessProvider};
use crate::reader::{metadata_verdict, read_verdict, read_version, request_for, LayoutChecker};
use crate::storage::{active_receipt, active_receipt_of, checkpoint_verdict, chunk_views, envelope_of_row, expect_one_row, publish, stage_witness_publication, startup_integrity_check, version_of_row, CheckpointReport, Database, EnvelopeRow, IntegrityReport, ReceiptRow, StorageTransaction, StoredObject, TransactionView, VersionRow, VersionView};
use crate::witness::{receipt_view, ReceiptView, RequestView, WitnessHead, WitnessReceipt, WitnessRequest};
use crate::writer::{prepare_version, size_verdict, stream_chunk_size, version_holds, PreparedVersion, StreamedVersion, StreamingPut, DEFAULT_CHUNK_SIZE};
use vstd::prelude::*;
use vstd::utf8::encode_utf8;

verus! {

/// Observable lifecycle state of a vault.
#[derive(Clone, Copy, Debug, PartialEq, Eq, Structural)]
pub enum VaultStatus {
    /// The Root Key is unavailable and secret operations are rejected.
    Locked,
    /// The Root Key is held only in process memory for authorized operations.
    Unlocked,
}

/// A local vault with an explicit locked/unlocked lifecycle.
pub struct Vault {
    envelope: RootEnvelope,
    root_key: Option<[u8; 32]>,
}

/// The state of a vault.
pub ghost struct VaultView {
    pub envelope: EnvelopeView,
    pub root_key: Option<Seq<u8>>,
}

impl VaultView {
    /// The same vault without its Root Key.
    pub open spec fn locked(self) -> VaultView {
        VaultView { envelope: self.envelope, root_key: None }
    }

    /// The vault after an operation that ended with an error.
    pub open spec fn after_error(self, error: VaultError) -> VaultView {
        if error.forces_lock() {
            self.locked()
        } else {
            self
        }
    }

    /// The vault after an operation that otherwise leaves it as it is.
    pub open spec fn after<T>(self, result: Result<T, VaultError>) -> VaultView {
        match result {
            Ok(_) => self,
            Err(error) => self.after_error(error),
        }
    }
}

/// An object and everything stored for its active version.
#[derive(Debug)]
pub struct ActiveObject {
    /// The object.
    pub object_id: ObjectId,
    /// What is stored for it.
    pub stored: StoredObject,
}

/// A version that is to be staged, and what its witness is to be asked.
#[derive(Debug)]
pub struct StagedPublication {
    /// Object written to.
    pub object_id: ObjectId,
    /// The new version.
    pub version_id: VersionId,
    /// What the witness is asked to acknowledge.
    pub request: WitnessRequest,
    /// Epoch that the witness is expected to hold.
    pub expected_epoch: u64,
    /// The staging transaction.
    pub transaction: StorageTransaction,
}

/// A receipt for a version that waits to be finalized.
#[derive(Clone, Copy, Debug)]
pub struct AcknowledgedPublication {
    /// Object whose pointer is to advance.
    pub object_id: ObjectId,
    /// Version that is to become active.
    pub version_id: VersionId,
    /// The verified receipt.
    pub receipt: WitnessReceipt,
}

/// A staged version that waits for its receipt, as it is stored.
#[derive(Debug)]
pub struct PendingPublication {
    /// The staged version.
    pub version: VersionRow,
    /// Epoch that the witness was expected to hold when the version was staged.
    pub expected_epoch: u64,
}

/// The reconciliation of all staged versions, one after the other. A version is
/// acknowledged by the witness, then finalized in the database, then the next one follows.
pub struct Recovery {
    vault_id: Ghost<Seq<u8>>,
    pending: Vec<PendingPublication>,
    finalized: usize,
    awaiting: Option<AcknowledgedPublication>,
    receipts: Ghost<Seq<ReceiptView>>,
}

impl View for Vault {
    type V = VaultView;

    closed spec fn view(&self) -> VaultView {
        VaultView {
            envelope: self.envelope@,
            root_key: match self.root_key {
                Some(root_key) => Some(root_key@),
                None => None,
            },
        }
    }
}

/// The verdict on a new passphrase.
pub open spec fn passphrase_verdict(passphrase: Seq<char>) -> Result<(), VaultError> {
    if passphrase.len() == 0 {
        Err(VaultError::InvalidInput("passphrase must not be empty"))
    } else {
        Ok(())
    }
}

/// Rejects an empty passphrase.
pub fn validate_passphrase(passphrase: &str) -> (res: Result<(), VaultError>)
    ensures
        res == passphrase_verdict(passphrase@),
        res is Ok <==> passphrase@.len() > 0,
{
    if passphrase.is_empty() {
        return Err(VaultError::InvalidInput("passphrase must not be empty"));
    }
    Ok(())
}

/// What an unlock attempt comes to.
pub open spec fn unlock_verdict(passphrase: Seq<char>, envelope: EnvelopeView) -> Result<
    Seq<u8>,
    VaultError,
> {
    match passphrase_verdict(passphrase) {
        Err(error) => Err(error),
        Ok(_) => unwrapped_root_key(passphrase, envelope),
    }
}

/// What reading an object comes to.
pub open spec fn get_verdict(
    vault: VaultView,
    object_id: Seq<u8>,
    stored: Option<StoredObject>,
) -> Result<Seq<u8>, VaultError> {
    match vault.root_key {
        None => Err(VaultError::Locked),
        Some(root_key) => match stored {
            None => Err(VaultError::NotFound),
            Some(stored) => read_verdict(
                root_key,
                vault.envelope.vault_id,
                object_id,
                stored,
            ),
        },
    }
}

/// What a write of a plaintext comes to before anything is encrypted.
pub open spec fn put_verdict(vault: VaultView, length: int, chunk_size: int) -> Result<
    (),
    VaultError,
> {
    if vault.root_key is None {
        Err(VaultError::Locked)
    } else {
        size_verdict(length, chunk_size)
    }
}

/// What a sweep over objects comes to: their number, or the first object's failure.
pub open spec fn sweep_verdict(vault: VaultView, objects: Seq<ActiveObject>) -> Result<
    (),
    VaultError,
>
    decreases objects.len(),
{
    if vault.root_key is None {
        Err(VaultError::Locked)
    } else if objects.len() == 0 {
        Ok(())
    } else {
        match sweep_verdict(vault, objects.drop_last()) {
            Err(error) => Err(error),
            Ok(_) => match get_verdict(
                vault,
                objects.last().object_id@,
                Some(objects.last().stored),
            ) {
                Err(error) => Err(error),
                Ok(_) => Ok(()),
            },
        }
    }
}

/// The epoch that a local receipt, or its absence, stands for.
pub open spec fn epoch_of(receipt: Option<ReceiptView>) -> u64 {
    match receipt {
        Some(receipt) => receipt.witness_epoch,
        None => 0,
    }
}

/// Checks that a fresh head confirms the local receipt, or its absence, and returns the
/// epoch they agree on.
pub fn confirm_head(local: Option<&WitnessReceipt>, head: &WitnessHead) -> (res: Result<
    u64,
    VaultError,
>)
    ensures
        match res {
            Ok(epoch) => {
                &&& head@.confirms(receipt_view(local))
                &&& epoch == epoch_of(receipt_view(local))
            },
            Err(error) => {
                &&& !head@.confirms(receipt_view(local))
                &&& error == VaultError::WitnessConflict
            },
        },
{
    if !head.confirms(local) {
        return Err(VaultError::WitnessConflict);
    }
    match local {
        Some(receipt) => Ok(receipt.witness_epoch()),
        None => Ok(0),
    }
}

/// What a witnessed write comes to by the witness's reply to its head query: a staging of
/// the plaintext where the head confirms the local receipt or its absence, and a refusal
/// otherwise.
pub open spec fn staged_on_reply(
    vault: VaultView,
    object_id: ObjectId,
    plaintext: Seq<u8>,
    local: Option<ReceiptView>,
    challenge: Seq<u8>,
    reply: Result<WitnessHead, VaultError>,
    res: Result<StagedPublication, VaultError>,
) -> bool {
    match head_reply_verdict(reply, vault.envelope.vault_id, object_id@, challenge) {
        Err(error) => res == Err::<StagedPublication, _>(error),
        Ok(head) => if !head@.confirms(local) {
            res == Err::<StagedPublication, _>(VaultError::WitnessConflict)
        } else {
            &&& res matches Ok(staged)
            &&& staged.object_id == object_id
            &&& staged.expected_epoch == epoch_of(local)
            &&& stages(
                vault,
                object_id@,
                staged.version_id@,
                staged.expected_epoch,
                plaintext,
                staged.transaction@,
            )
            &&& staged.transaction@ matches TransactionView::Stage { version, .. }
                && staged.request@ == request_for(vault.envelope.vault_id, version)
        },
    }
}

/// What asking for the receipt of a staged version comes to by the witness's reply.
pub open spec fn acknowledged_on_reply(
    request: RequestView,
    reply: Result<WitnessReceipt, VaultError>,
    res: Result<AcknowledgedPublication, VaultError>,
) -> bool {
    match receipt_reply_verdict(reply, request) {
        Err(error) => res == Err::<AcknowledgedPublication, _>(error),
        Ok(receipt) => {
            &&& res matches Ok(acknowledged)
            &&& acknowledged.object_id@ == request.object_id
            &&& acknowledged.version_id@ == request.version_id
            &&& acknowledged.receipt == receipt
        },
    }
}

/// What verifying one object comes to by the witness's reply to its head query: the head
/// must confirm the stored receipt, and the object must read.
pub open spec fn witnessed_verdict(
    vault: VaultView,
    object: ActiveObject,
    challenge: Seq<u8>,
    reply: Result<WitnessHead, VaultError>,
) -> Result<(), VaultError> {
    match witnessed_receipt(object) {
        Err(error) => Err(error),
        Ok(local) => match head_reply_verdict(
            reply,
            vault.envelope.vault_id,
            object.object_id@,
            challenge,
        ) {
            Err(error) => Err(error),
            Ok(head) => if !head@.confirms(Some(local)) {
                Err(VaultError::WitnessConflict)
            } else {
                match get_verdict(vault, object.object_id@, Some(object.stored)) {
                    Err(error) => Err(error),
                    Ok(_) => Ok(()),
                }
            },
        },
    }
}

/// Whether the first objects were each asked about once, in order, and found good.
pub open spec fn witnessed_prefix<P: WitnessProvider>(
    vault: VaultView,
    objects: Seq<ActiveObject>,
    asked: Seq<&mut P>,
    states: Seq<P>,
    challenges: Seq<Seq<u8>>,
    replies: Seq<Result<WitnessHead, VaultError>>,
    good: int,
) -> bool {
    &&& asked.len() <= objects.len()
    &&& states.len() == asked.len() + 1
    &&& challenges.len() == asked.len()
    &&& replies.len() == asked.len()
    &&& forall|i: int|
        #![trigger asked[i]]
        0 <= i < asked.len() ==> {
            &&& *asked[i] == states[i]
            &&& head_asked(
                asked[i],
                vault.envelope.vault_id,
                objects[i].object_id@,
                challenges[i],
                replies[i],
            )
        }
    &&& forall|i: int|
        #![trigger objects[i]]
        0 <= i < good ==> witnessed_verdict(vault, objects[i], challenges[i], replies[i]) is Ok
}

/// Whether a sweep with a witness has found the first `count` objects good, with the
/// witness in one state before and in another after.
pub open spec fn witnessed_run<P: WitnessProvider>(
    vault: VaultView,
    objects: Seq<ActiveObject>,
    asked: Seq<&mut P>,
    states: Seq<P>,
    challenges: Seq<Seq<u8>>,
    replies: Seq<Result<WitnessHead, VaultError>>,
    count: int,
    before: P,
    after: P,
) -> bool {
    &&& witnessed_prefix(vault, objects, asked, states, challenges, replies, count)
    &&& asked.len() == count
    &&& states.first() == before
    &&& states.last() == after
}

/// What a sweep with a witness comes to. `asked` are the head queries in order, with the
/// witness's states around them. The sweep succeeds where every object was asked about and
/// found good, and otherwise fails with the first object that was not.
pub open spec fn swept<P: WitnessProvider>(
    vault: VaultView,
    objects: Seq<ActiveObject>,
    asked: Seq<&mut P>,
    states: Seq<P>,
    challenges: Seq<Seq<u8>>,
    replies: Seq<Result<WitnessHead, VaultError>>,
    outcome: Result<u64, VaultError>,
) -> bool {
    let count = asked.len() as int;
    if vault.root_key is None {
        &&& outcome == Err::<u64, _>(VaultError::Locked)
        &&& count == 0
        &&& states.len() == 1
    } else {
        match outcome {
            Ok(verified) => {
                &&& verified == objects.len()
                &&& count == objects.len()
                &&& witnessed_prefix(vault, objects, asked, states, challenges, replies, count)
            },
            Err(error) => {
                ||| {
                    &&& count < objects.len()
                    &&& witnessed_prefix(vault, objects, asked, states, challenges, replies, count)
                    &&& witnessed_receipt(objects[count]) == Err::<ReceiptView, _>(error)
                }
                ||| {
                    &&& count > 0
                    &&& witnessed_prefix(
                        vault,
                        objects,
                        asked,
                        states,
                        challenges,
                        replies,
                        count - 1,
                    )
                    &&& witnessed_receipt(objects[count - 1]) is Ok
                    &&& witnessed_verdict(
                        vault,
                        objects[count - 1],
                        challenges[count - 1],
                        replies[count - 1],
                    ) == Err::<(), _>(error)
                }
            },
        }
    }
}

proof fn lemma_sweep_prefix_error(vault: VaultView, objects: Seq<ActiveObject>, length: int)
    requires
        0 <= length <= objects.len(),
        sweep_verdict(vault, objects.subrange(0, length)) is Err,
    ensures
        sweep_verdict(vault, objects) == sweep_verdict(vault, objects.subrange(0, length)),
    decreases objects.len() - length,
{
    if length == objects.len() {
        assert(objects.subrange(0, length) =~= objects);
    } else {
        let longer = objects.subrange(0, length + 1);
        assert(longer.drop_last() =~= objects.subrange(0, length));
        lemma_sweep_prefix_error(vault, objects, length + 1);
    }
}

impl Vault {
    /// Makes a fresh unlocked vault with a random Root Key. Its envelope is what must be
    /// stored.
    pub fn create(passphrase: &str) -> (res: Result<Self, VaultError>)
        ensures
            match res {
                Ok(vault) => {
                    &&& passphrase@.len() > 0
                    &&& encode_utf8(passphrase@).len() <= ARGON2_MAX_PASSPHRASE_BYTES
                    &&& vault@.root_key is Some
                    &&& vault@.envelope.params == (KdfParams {
                        memory_kib: 65_536,
                        iterations: 3,
                        lanes: 4,
                    })
                    &&& unlock_verdict(passphrase@, vault@.envelope) == Ok::<_, VaultError>(
                        vault@.root_key->0,
                    )
                },
                Err(error) => if passphrase@.len() == 0 {
                    error == VaultError::InvalidInput("passphrase must not be empty")
                } else {
                    &&& encode_utf8(passphrase@).len() > ARGON2_MAX_PASSPHRASE_BYTES
                    &&& error == VaultError::UnlockFailed
                },
            },
            res is Ok <==> passphrase@.len() > 0 && encode_utf8(passphrase@).len() <= 0xffff_ffff,
    {
        validate_passphrase(passphrase)?;
        let vault_id = VaultId::random();
        let mut root_key = generate_root_key();
        match seal_root_key(passphrase, vault_id, &root_key, KdfParams::interactive()) {
            Ok(envelope) => Ok(Vault { envelope, root_key: Some(root_key) }),
            Err(error) => {
                wipe_array(&mut root_key);
                Err(error)
            },
        }
    }

    /// Opens a stored vault in the locked state after its structural checks.
    pub fn open(report: &IntegrityReport, row: Option<EnvelopeRow>) -> (res: Result<
        Self,
        VaultError,
    >)
        ensures
            match res {
                Ok(vault) => {
                    &&& report.integrity@ == "ok"@ && !report.foreign_key_violation
                    &&& report.dangling_active_versions == 0
                    &&& report.dangling_pending_versions == 0
                    &&& row is Some
                    &&& envelope_of_row(row->0) == Ok::<_, VaultError>(vault@.envelope)
                    &&& vault@.root_key is None
                },
                Err(error) => if report.integrity@ != "ok"@ {
                    error == VaultError::Invariant("SQLite integrity_check")
                } else if report.foreign_key_violation {
                    error == VaultError::Invariant("SQLite foreign-key check")
                } else if report.dangling_active_versions != 0 {
                    error == VaultError::Invariant("active version pointer binding")
                } else if report.dangling_pending_versions != 0 {
                    error == VaultError::Invariant("pending witness publication binding")
                } else {
                    match row {
                        None => error == VaultError::NotFound,
                        Some(row) => envelope_of_row(row) == Err::<EnvelopeView, _>(error),
                    }
                },
            },
    {
        startup_integrity_check(report)?;
        match row {
            Some(row) => {
                let envelope = row.root_envelope()?;
                Ok(Vault { envelope, root_key: None })
            },
            None => Err(VaultError::NotFound),
        }
    }

    /// Unlocks the vault by decrypting its Root Key envelope. A failed attempt leaves the
    /// vault locked.
    pub fn unlock(&mut self, passphrase: &str) -> (res: Result<(), VaultError>)
        ensures
            final(self)@.envelope == old(self)@.envelope,
            match (res, unlock_verdict(passphrase@, old(self)@.envelope)) {
                (Ok(_), Ok(root_key)) => final(self)@.root_key == Some(root_key),
                (Err(error), Err(expected)) => error == expected && final(self)@.root_key is None,
                _ => false,
            },
    {
        match validate_passphrase(passphrase) {
            Ok(_) => {},
            Err(error) => {
                self.lock();
                return Err(error);
            },
        }
        match open_root_key(passphrase, &self.envelope) {
            Ok(root_key) => {
                self.lock();
                self.root_key = Some(root_key);
                Ok(())
            },
            Err(error) => {
                self.lock();
                Err(error)
            },
        }
    }

    /// Clears the in-memory Root Key and returns to the locked state.
    pub fn lock(&mut self)
        ensures
            final(self)@ == old(self)@.locked(),
    {
        match &mut self.root_key {
            Some(root_key) => {
                wipe_array(root_key);
            },
            None => {},
        }
        self.root_key = None;
    }

    /// Returns the current lifecycle state.
    #[must_use]
    pub fn status(&self) -> (res: VaultStatus)
        ensures
            res == if self@.root_key is Some {
                VaultStatus::Unlocked
            } else {
                VaultStatus::Locked
            },
    {
        if self.root_key.is_some() {
            VaultStatus::Unlocked
        } else {
            VaultStatus::Locked
        }
    }

    /// Returns the immutable vault identifier.
    #[must_use]
    pub fn vault_id(&self) -> (res: VaultId)
        ensures
            res@ == self@.envelope.vault_id,
    {
        self.envelope.vault_id
    }

    /// Returns the Root Key envelope, which holds no secret in the clear.
    #[must_use]
    pub fn envelope(&self) -> (res: &RootEnvelope)
        ensures
            res@ == self@.envelope,
    {
        &self.envelope
    }

    /// Locks the vault where an error leaves the state of stored data in doubt.
    pub fn lock_after_failure(&mut self, error: &VaultError)
        ensures
            final(self)@ == old(self)@.after_error(*error),
    {
        if error.requires_lock() {
            self.lock();
        }
    }

    /// Takes the outcome of work on the vault's stored data that was carried out outside of
    /// it, such as the passes of a streamed read or write or a transaction, and hands it
    /// back. A failure that leaves the state of stored data in doubt locks the vault.
    pub fn settle<T>(&mut self, outcome: Result<T, VaultError>) -> (res: Result<T, VaultError>)
        ensures
            res == outcome,
            final(self)@ == old(self)@.after(outcome),
    {
        match &outcome {
            Ok(_) => {},
            Err(error) => {
                self.lock_after_failure(error);
            },
        }
        outcome
    }

    /// Encrypts a new immutable version of an object with the default chunk size and
    /// returns the transaction that publishes it.
    pub fn put(&mut self, object_id: ObjectId, plaintext: &[u8]) -> (res: Result<
        (VersionId, StorageTransaction),
        VaultError,
    >)
        ensures
            final(self)@ == old(self)@.after(res),
            match put_verdict(old(self)@, plaintext@.len() as int, DEFAULT_CHUNK_SIZE as int) {
                Err(expected) => res == Err::<(VersionId, StorageTransaction), _>(expected),
                Ok(_) => res matches Ok((version_id, transaction)) && publishes(
                    old(self)@,
                    object_id@,
                    version_id@,
                    DEFAULT_CHUNK_SIZE as int,
                    plaintext@,
                    transaction@,
                ),
            },
            res is Ok <==> old(self)@.root_key is Some && plaintext@.len() <= 16_777_216
                * 4_194_304,
            res matches Ok((_, transaction)) ==> (transaction@ matches TransactionView::Publish {
                version,
                ..
            } && version.chunk_size == 4_194_304 && version.plaintext_len == plaintext@.len()),
    {
        self.put_with_chunk_size(object_id, plaintext, DEFAULT_CHUNK_SIZE)
    }

    /// Encrypts a new immutable version with an explicit chunk size.
    pub fn put_with_chunk_size(
        &mut self,
        object_id: ObjectId,
        plaintext: &[u8],
        chunk_size: usize,
    ) -> (res: Result<(VersionId, StorageTransaction), VaultError>)
        ensures
            final(self)@ == old(self)@.after(res),
            match put_verdict(old(self)@, plaintext@.len() as int, chunk_size as int) {
                Err(expected) => res == Err::<(VersionId, StorageTransaction), _>(expected),
                Ok(_) => res matches Ok((version_id, transaction)) && publishes(
                    old(self)@,
                    object_id@,
                    version_id@,
                    chunk_size as int,
                    plaintext@,
                    transaction@,
                ),
            },
            res is Ok <==> old(self)@.root_key is Some && 1 <= chunk_size <= 0xffff_ffff
                && plaintext@.len() <= 16_777_216 * chunk_size,
            res matches Ok((_, transaction)) ==> (transaction@ matches TransactionView::Publish {
                version,
                ..
            } && version.chunk_size == chunk_size && version.plaintext_len == plaintext@.len()),
    {
        proof {
            crate::guarantees::writes_are_accepted_up_to_the_chunk_cap(
                self@,
                plaintext@.len() as int,
                chunk_size as int,
            );
        }
        let result = self.put_inner(object_id, plaintext, chunk_size);
        self.settle(result)
    }

    fn put_inner(&self, object_id: ObjectId, plaintext: &[u8], chunk_size: usize) -> (res: Result<
        (VersionId, StorageTransaction),
        VaultError,
    >)
        ensures
            match put_verdict(self@, plaintext@.len() as int, chunk_size as int) {
                Err(expected) => res == Err::<(VersionId, StorageTransaction), _>(expected),
                Ok(_) => res matches Ok((version_id, transaction)) && publishes(
                    self@,
                    object_id@,
                    version_id@,
                    chunk_size as int,
                    plaintext@,
                    transaction@,
                ),
            },
    {
        let prepared = self.prepare(object_id, plaintext, chunk_size)?;
        let version_id = prepared.stored_version.version_id;
        let transaction = publish(prepared.stored_version, prepared.chunks, None)?;
        Ok((version_id, transaction))
    }

    fn prepare(&self, object_id: ObjectId, plaintext: &[u8], chunk_size: usize) -> (res: Result<
        PreparedVersion,
        VaultError,
    >)
        ensures
            match put_verdict(self@, plaintext@.len() as int, chunk_size as int) {
                Err(expected) => res == Err::<PreparedVersion, _>(expected),
                Ok(_) => {
                    &&& res is Ok
                    &&& res->Ok_0.stored_version.object_id == object_id
                    &&& res->Ok_0.stored_version.chunk_size == chunk_size
                    &&& version_holds(
                        self@.root_key->0,
                        self@.envelope.vault_id,
                        res->Ok_0.stored_version@,
                        chunk_views(res->Ok_0.chunks@),
                        plaintext@,
                    )
                },
            },
    {
        match &self.root_key {
            Some(root_key) => prepare_version(
                root_key,
                self.envelope.vault_id,
                object_id,
                plaintext,
                chunk_size,
            ),
            None => Err(VaultError::Locked),
        }
    }

    /// Begins a version whose plaintext arrives in fragments.
    pub fn put_from_reader_with_chunk_size(&self, object_id: ObjectId, chunk_size: usize) -> (res:
        Result<StreamingPut, VaultError>)
        ensures
            match res {
                Ok(stream) => {
                    &&& 0 < chunk_size <= u32::MAX
                    &&& self@.root_key is Some
                    &&& stream.well_formed()
                    &&& stream.fed() == Seq::<u8>::empty()
                    &&& stream.emitted() == Seq::<ChunkView>::empty()
                    &&& stream.size() == chunk_size
                    &&& stream.object() == object_id@
                    &&& stream.vault() == (self@.envelope.vault_id, self@.root_key->0)
                },
                Err(error) => if chunk_size == 0 || chunk_size > u32::MAX {
                    error == VaultError::InvalidInput("invalid chunk size")
                } else {
                    &&& self@.root_key is None
                    &&& error == VaultError::Locked
                },
            },
    {
        let size = stream_chunk_size(chunk_size)?;
        match &self.root_key {
            Some(root_key) => StreamingPut::begin(
                root_key,
                self.envelope.vault_id,
                object_id,
                size,
            ),
            None => Err(VaultError::Locked),
        }
    }

    /// Begins a version with the default chunk size.
    pub fn put_from_reader(&self, object_id: ObjectId) -> (res: Result<StreamingPut, VaultError>)
        ensures
            match res {
                Ok(stream) => {
                    &&& self@.root_key is Some
                    &&& stream.well_formed()
                    &&& stream.fed() == Seq::<u8>::empty()
                    &&& stream.emitted() == Seq::<ChunkView>::empty()
                    &&& stream.size() == DEFAULT_CHUNK_SIZE
                    &&& stream.object() == object_id@
                    &&& stream.vault() == (self@.envelope.vault_id, self@.root_key->0)
                },
                Err(error) => self@.root_key is None && error == VaultError::Locked,
            },
            res matches Ok(stream) ==> stream.size() == 4_194_304,
    {
        self.put_from_reader_with_chunk_size(object_id, DEFAULT_CHUNK_SIZE)
    }

    /// Returns the plaintext of an object's active version after full verification.
    /// `stored` is what is stored for the object, or nothing where it is absent.
    pub fn get(&mut self, object_id: ObjectId, stored: Option<&StoredObject>) -> (res: Result<
        Vec<u8>,
        VaultError,
    >)
        ensures
            final(self)@ == old(self)@.after(res),
            match (res, get_verdict(old(self)@, object_id@, stored_value(stored))) {
                (Ok(plaintext), Ok(expected)) => plaintext@ == expected,
                (Err(error), Err(expected)) => error == expected,
                _ => false,
            },
    {
        let result = self.get_inner(object_id, stored);
        self.settle(result)
    }

    fn get_inner(&self, object_id: ObjectId, stored: Option<&StoredObject>) -> (res: Result<
        Vec<u8>,
        VaultError,
    >)
        ensures
            match (res, get_verdict(self@, object_id@, stored_value(stored))) {
                (Ok(plaintext), Ok(expected)) => plaintext@ == expected,
                (Err(error), Err(expected)) => error == expected,
                _ => false,
            },
    {
        match &self.root_key {
            Some(root_key) => match stored {
                Some(stored) => read_version(
                    root_key,
                    self.envelope.vault_id,
                    object_id,
                    stored,
                ),
                None => Err(VaultError::NotFound),
            },
            None => Err(VaultError::Locked),
        }
    }

    /// Begins a read whose chunks arrive one by one: opens the metadata of a version and
    /// turns to checking its chunks.
    pub fn get_to_writer(
        &mut self,
        object_id: ObjectId,
        version: Option<&VersionRow>,
        receipt: &Option<ReceiptRow>,
    ) -> (res: Result<LayoutChecker, VaultError>)
        ensures
            final(self)@ == old(self)@.after(res),
            match res {
                Ok(checker) => {
                    &&& old(self)@.root_key is Some
                    &&& version is Some
                    &&& checker.well_formed()
                    &&& checker.checked() == Seq::<ChunkView>::empty()
                    &&& metadata_verdict(
                        old(self)@.root_key->0,
                        old(self)@.envelope.vault_id,
                        object_id@,
                        *version->0,
                        *receipt,
                    ) == Ok::<_, VaultError>(checker.context())
                },
                Err(error) => if old(self)@.root_key is None {
                    error == VaultError::Locked
                } else if version is None {
                    error == VaultError::NotFound
                } else {
                    metadata_verdict(
                        old(self)@.root_key->0,
                        old(self)@.envelope.vault_id,
                        object_id@,
                        *version->0,
                        *receipt,
                    ) == Err::<crate::reader::ReadContext, _>(error)
                },
            },
    {
        let result = match &self.root_key {
            Some(root_key) => match version {
                Some(version) => LayoutChecker::open(
                    root_key,
                    self.envelope.vault_id,
                    object_id,
                    version,
                    receipt,
                ),
                None => Err(VaultError::NotFound),
            },
            None => Err(VaultError::Locked),
        };
        self.settle(result)
    }

    /// Verifies active versions without returning their plaintext and counts them.
    pub fn verify_active_objects(&mut self, objects: &Vec<ActiveObject>) -> (res: Result<
        u64,
        VaultError,
    >)
        ensures
            final(self)@ == old(self)@.after(res),
            match (res, sweep_verdict(old(self)@, objects@)) {
                (Ok(count), Ok(_)) => count == objects@.len(),
                (Err(error), Err(expected)) => error == expected,
                _ => false,
            },
    {
        let result = self.verify_active_objects_inner(objects);
        self.settle(result)
    }

    fn verify_active_objects_inner(&self, objects: &Vec<ActiveObject>) -> (res: Result<
        u64,
        VaultError,
    >)
        ensures
            match (res, sweep_verdict(self@, objects@)) {
                (Ok(count), Ok(_)) => count == objects@.len(),
                (Err(error), Err(expected)) => error == expected,
                _ => false,
            },
    {
        if self.root_key.is_none() {
            return Err(VaultError::Locked);
        }
        let mut position: usize = 0;
        assert(objects@.subrange(0, 0) =~= Seq::<ActiveObject>::empty());
        while position < objects.len()
            invariant
                position <= objects@.len(),
                self@.root_key is Some,
                sweep_verdict(self@, objects@.subrange(0, position as int)) is Ok,
            decreases objects@.len() - position,
        {
            let object = &objects[position];
            let ghost longer = objects@.subrange(0, position + 1);
            assert(longer.drop_last() =~= objects@.subrange(0, position as int));
            assert(longer.last() == *object);
            match self.get_inner(object.object_id, Some(&object.stored)) {
                Ok(mut plaintext) => {
                    wipe_vec(&mut plaintext);
                },
                Err(error) => {
                    proof {
                        lemma_sweep_prefix_error(self@, objects@, position + 1);
                    }
                    return Err(error);
                },
            }
            position += 1;
        }
        assert(objects@.subrange(0, position as int) =~= objects@);
        Ok(objects.len() as u64)
    }

    /// Prepares a version that a witness must acknowledge. The witness's fresh head must
    /// confirm the receipt of the object's active version, or its absence.
    pub fn put_with_witness<P: WitnessProvider>(
        &mut self,
        object_id: ObjectId,
        plaintext: &[u8],
        active_version: Option<&VersionRow>,
        receipt: Option<&ReceiptRow>,
        provider: &mut P,
    ) -> (res: Result<StagedPublication, VaultError>)
        ensures
            final(self)@ == old(self)@.after(res),
            match put_verdict(old(self)@, plaintext@.len() as int, DEFAULT_CHUNK_SIZE as int) {
                Err(expected) => {
                    &&& res == Err::<StagedPublication, _>(expected)
                    &&& *final(provider) == *old(provider)
                },
                Ok(_) => match active_receipt_of(active_version, receipt) {
                    Err(expected) => {
                        &&& res == Err::<StagedPublication, _>(expected)
                        &&& *final(provider) == *old(provider)
                    },
                    Ok(local) => exists|
                        asked: &mut P,
                        challenge: Seq<u8>,
                        reply: Result<WitnessHead, VaultError>,
                    |
                        {
                            &&& #[trigger] head_asked(
                                asked,
                                old(self)@.envelope.vault_id,
                                object_id@,
                                challenge,
                                reply,
                            )
                            &&& *asked == *old(provider)
                            &&& *final(asked) == *final(provider)
                            &&& staged_on_reply(
                                old(self)@,
                                object_id,
                                plaintext@,
                                local,
                                challenge,
                                reply,
                                res,
                            )
                        },
                },
            },
            res matches Ok(staged) ==> (staged.transaction@ matches TransactionView::Stage {
                version,
                ..
            } && version.chunk_size == 4_194_304 && version.plaintext_len == plaintext@.len()),
            old(self)@.root_key is None || plaintext@.len() > 16_777_216 * 4_194_304 ==> {
                &&& res is Err
                &&& *final(provider) == *old(provider)
            },
    {
        proof {
            crate::guarantees::writes_are_accepted_up_to_the_chunk_cap(
                self@,
                plaintext@.len() as int,
                4_194_304,
            );
        }
        let result = self.put_with_witness_inner(
            object_id,
            plaintext,
            active_version,
            receipt,
            provider,
        );
        self.settle(result)
    }

    fn put_with_witness_inner<P: WitnessProvider>(
        &self,
        object_id: ObjectId,
        plaintext: &[u8],
        active_version: Option<&VersionRow>,
        receipt: Option<&ReceiptRow>,
        provider: &mut P,
    ) -> (res: Result<StagedPublication, VaultError>)
        ensures
            match put_verdict(self@, plaintext@.len() as int, DEFAULT_CHUNK_SIZE as int) {
                Err(expected) => {
                    &&& res == Err::<StagedPublication, _>(expected)
                    &&& *final(provider) == *old(provider)
                },
                Ok(_) => match active_receipt_of(active_version, receipt) {
                    Err(expected) => {
                        &&& res == Err::<StagedPublication, _>(expected)
                        &&& *final(provider) == *old(provider)
                    },
                    Ok(local) => exists|
                        asked: &mut P,
                        challenge: Seq<u8>,
                        reply: Result<WitnessHead, VaultError>,
                    |
                        {
                            &&& #[trigger] head_asked(
                                asked,
                                self@.envelope.vault_id,
                                object_id@,
                                challenge,
                                reply,
                            )
                            &&& *asked == *old(provider)
                            &&& *final(asked) == *final(provider)
                            &&& staged_on_reply(
                                self@,
                                object_id,
                                plaintext@,
                                local,
                                challenge,
                                reply,
                                res,
                            )
                        },
                },
            },
            res matches Ok(staged) ==> (staged.transaction@ matches TransactionView::Stage {
                version,
                ..
            } && version.chunk_size == 4_194_304 && version.plaintext_len == plaintext@.len()),
    {
        let prepared = self.prepare(object_id, plaintext, DEFAULT_CHUNK_SIZE)?;
        let local = active_receipt(active_version, receipt)?;
        let head = fetch_fresh_head(provider, self.envelope.vault_id, object_id)?;
        self.stage_against_head(prepared, local.as_ref(), &head)
    }

    /// Stages a prepared version against the witness's head: builds the staging transaction
    /// and the witness request where the head confirms the local receipt or its absence.
    pub fn stage_against_head(
        &self,
        prepared: PreparedVersion,
        local: Option<&WitnessReceipt>,
        head: &WitnessHead,
    ) -> (res: Result<StagedPublication, VaultError>)
        ensures
            match res {
                Ok(staged) => {
                    &&& head@.confirms(receipt_view(local))
                    &&& prepared.chunks@.len() == prepared.stored_version.chunk_count
                    &&& staged.object_id == prepared.stored_version.object_id
                    &&& staged.version_id == prepared.stored_version.version_id
                    &&& staged.expected_epoch == epoch_of(receipt_view(local))
                    &&& staged.request@ == request_for(
                        self@.envelope.vault_id,
                        prepared.stored_version@,
                    )
                    &&& staged.transaction@ == (TransactionView::Stage {
                        version: prepared.stored_version@,
                        chunks: chunk_views(prepared.chunks@),
                        expected_epoch: staged.expected_epoch,
                    })
                },
                Err(error) => if !head@.confirms(receipt_view(local)) {
                    error == VaultError::WitnessConflict
                } else {
                    &&& prepared.chunks@.len() != prepared.stored_version.chunk_count
                    &&& error == VaultError::Invariant(
                        "chunk count does not match version metadata",
                    )
                },
            },
    {
        let expected_epoch: u64 = confirm_head(local, head)?;
        let object_id = prepared.stored_version.object_id;
        let version_id = prepared.stored_version.version_id;
        let request = WitnessRequest::new(
            self.envelope.vault_id,
            object_id,
            version_id,
            &prepared.stored_version.manifest,
        );
        let transaction = stage_witness_publication(
            prepared.stored_version,
            prepared.chunks,
            expected_epoch,
        )?;
        Ok(StagedPublication { object_id, version_id, request, expected_epoch, transaction })
    }

    /// Obtains the receipt of a staged version. It is refused unless it acknowledges
    /// exactly that version.
    pub fn acknowledge_staged<P: WitnessProvider>(
        &mut self,
        request: &WitnessRequest,
        expected_epoch: u64,
        provider: &mut P,
    ) -> (res: Result<AcknowledgedPublication, VaultError>)
        ensures
            final(self)@ == old(self)@.after(res),
            exists|asked: &mut P, reply: Result<WitnessReceipt, VaultError>|
                {
                    &&& #[trigger] receipt_asked(asked, request@, expected_epoch, reply)
                    &&& *asked == *old(provider)
                    &&& *final(asked) == *final(provider)
                    &&& acknowledged_on_reply(request@, reply, res)
                },
    {
        match acknowledge(provider, request, expected_epoch) {
            Ok(receipt) => Ok(
                AcknowledgedPublication {
                    object_id: request.object_id(),
                    version_id: request.version_id(),
                    receipt,
                },
            ),
            Err(error) => {
                self.lock_after_failure(&error);
                Err(error)
            },
        }
    }

    /// Begins the reconciliation of all staged versions, which needs an unlocked vault.
    pub fn recover_pending_witness_publications(&self, pending: Vec<PendingPublication>) -> (res:
        Result<Recovery, VaultError>)
        ensures
            match res {
                Ok(recovery) => {
                    &&& self@.root_key is Some
                    &&& recovery.well_formed()
                    &&& recovery.vault_id() == self@.envelope.vault_id
                    &&& recovery.pending() == pending@
                    &&& recovery.finalized() == 0
                    &&& recovery.awaiting() is None
                    &&& recovery.complete() <==> pending@.len() == 0
                },
                Err(error) => self@.root_key is None && error == VaultError::Locked,
            },
    {
        if self.root_key.is_none() {
            return Err(VaultError::Locked);
        }
        Ok(
            Recovery {
                vault_id: Ghost(self@.envelope.vault_id),
                pending,
                finalized: 0,
                awaiting: None,
                receipts: Ghost(Seq::empty()),
            },
        )
    }

    /// Reconciles one staged version after a restart: asks the witness again with the
    /// original expected epoch, which returns the same receipt or a conflict.
    pub fn recover_pending_witness_publication<P: WitnessProvider>(
        &mut self,
        version: &VersionRow,
        expected_epoch: u64,
        provider: &mut P,
    ) -> (res: Result<AcknowledgedPublication, VaultError>)
        ensures
            final(self)@ == old(self)@.after(res),
            old(self)@.root_key is None ==> {
                &&& res == Err::<AcknowledgedPublication, _>(VaultError::Locked)
                &&& *final(provider) == *old(provider)
            },
            old(self)@.root_key is Some ==> match version_of_row(*version) {
                Err(expected) => {
                    &&& res == Err::<AcknowledgedPublication, _>(expected)
                    &&& *final(provider) == *old(provider)
                },
                Ok(staged) => exists|asked: &mut P, reply: Result<WitnessReceipt, VaultError>|
                    {
                        &&& #[trigger] receipt_asked(
                            asked,
                            request_for(old(self)@.envelope.vault_id, staged),
                            expected_epoch,
                            reply,
                        )
                        &&& *asked == *old(provider)
                        &&& *final(asked) == *final(provider)
                        &&& acknowledged_on_reply(
                            request_for(old(self)@.envelope.vault_id, staged),
                            reply,
                            res,
                        )
                    },
            },
    {
        if self.root_key.is_none() {
            return Err(VaultError::Locked);
        }
        let staged = match version.version() {
            Ok(staged) => staged,
            Err(error) => {
                self.lock_after_failure(&error);
                return Err(error);
            },
        };
        let request = WitnessRequest::new(
            self.envelope.vault_id,
            staged.object_id,
            staged.version_id,
            &staged.manifest,
        );
        assert(request@ == request_for(self@.envelope.vault_id, staged@));
        self.acknowledge_staged(&request, expected_epoch, provider)
    }

    /// Verifies active versions and their fresh independent witness heads, and counts
    /// them. Every active version must have a stored receipt, and the witness's head under
    /// a new random challenge must confirm exactly that receipt.
    pub fn verify_active_objects_with_witness<P: WitnessProvider>(
        &mut self,
        objects: &Vec<ActiveObject>,
        provider: &mut P,
    ) -> (res: Result<u64, VaultError>)
        ensures
            final(self)@ == old(self)@.after(res),
            exists|
                asked: Seq<&mut P>,
                states: Seq<P>,
                challenges: Seq<Seq<u8>>,
                replies: Seq<Result<WitnessHead, VaultError>>,
            |
                {
                    &&& #[trigger] swept(
                        old(self)@,
                        objects@,
                        asked,
                        states,
                        challenges,
                        replies,
                        res,
                    )
                    &&& states.first() == *old(provider)
                    &&& states.last() == *final(provider)
                    &&& forall|i: int|
                        0 <= i < asked.len() ==> *final(#[trigger] asked[i]) == states[i + 1]
                },
    {
        let result = self.verify_with_witness_inner(objects, provider);
        self.settle(result)
    }

    fn verify_with_witness_inner<P: WitnessProvider>(
        &self,
        objects: &Vec<ActiveObject>,
        provider: &mut P,
    ) -> (res: Result<u64, VaultError>)
        ensures
            exists|
                asked: Seq<&mut P>,
                states: Seq<P>,
                challenges: Seq<Seq<u8>>,
                replies: Seq<Result<WitnessHead, VaultError>>,
            |
                {
                    &&& #[trigger] swept(
                        self@,
                        objects@,
                        asked,
                        states,
                        challenges,
                        replies,
                        res,
                    )
                    &&& states.first() == *old(provider)
                    &&& states.last() == *final(provider)
                    &&& forall|i: int|
                        0 <= i < asked.len() ==> *final(#[trigger] asked[i]) == states[i + 1]
                },
    {
        let mut position: usize = 0;
        proof {
            let asked: Seq<&mut P> = Seq::empty();
            let states = seq![*provider];
            let challenges: Seq<Seq<u8>> = Seq::empty();
            let replies: Seq<Result<WitnessHead, VaultError>> = Seq::empty();
            assert(witnessed_run(
                self@,
                objects@,
                asked,
                states,
                challenges,
                replies,
                0,
                *provider,
                *provider,
            ));
            if self.root_key is None {
                assert(swept(
                    self@,
                    objects@,
                    asked,
                    states,
                    challenges,
                    replies,
                    Err(VaultError::Locked),
                ));
            }
        }
        if self.root_key.is_none() {
            return Err(VaultError::Locked);
        }
        while position < objects.len()
            invariant
                position <= objects@.len(),
                self@.root_key is Some,
                exists|
                    asked: Seq<&mut P>,
                    states: Seq<P>,
                    challenges: Seq<Seq<u8>>,
                    replies: Seq<Result<WitnessHead, VaultError>>,
                |
                    {
                        &&& #[trigger] witnessed_run(
                            self@,
                            objects@,
                            asked,
                            states,
                            challenges,
                            replies,
                            position as int,
                            *old(provider),
                            *provider,
                        )
                        &&& forall|i: int|
                            0 <= i < asked.len() ==> *final(#[trigger] asked[i]) == states[i + 1]
                    },
            decreases objects@.len() - position,
        {
            let object = &objects[position];
            let ghost before = *provider;
            let verdict = self.verify_object_with_witness(object, provider);
            proof {
                let (asked, states, challenges, replies) = choose|
                    asked: Seq<&mut P>,
                    states: Seq<P>,
                    challenges: Seq<Seq<u8>>,
                    replies: Seq<Result<WitnessHead, VaultError>>,
                |
                    {
                        &&& #[trigger] witnessed_run(
                            self@,
                            objects@,
                            asked,
                            states,
                            challenges,
                            replies,
                            position as int,
                            *old(provider),
                            before,
                        )
                        &&& forall|i: int|
                            0 <= i < asked.len() ==> *final(#[trigger] asked[i]) == states[i + 1]
                    };
                if witnessed_receipt(*object) is Err {
                    assert(swept(
                        self@,
                        objects@,
                        asked,
                        states,
                        challenges,
                        replies,
                        Err(verdict->Err_0),
                    ));
                } else {
                    let (query, challenge, reply) = choose|
                        query: &mut P,
                        challenge: Seq<u8>,
                        reply: Result<WitnessHead, VaultError>,
                    |
                        {
                            &&& #[trigger] head_asked(
                                query,
                                self@.envelope.vault_id,
                                object.object_id@,
                                challenge,
                                reply,
                            )
                            &&& *query == before
                            &&& *final(query) == *provider
                            &&& verdict == witnessed_verdict(self@, *object, challenge, reply)
                        };
                    let asked = asked.push(query);
                    let states = states.push(*provider);
                    let challenges = challenges.push(challenge);
                    let replies = replies.push(reply);
                    match verdict {
                        Ok(_) => {
                            assert(witnessed_run(
                                self@,
                                objects@,
                                asked,
                                states,
                                challenges,
                                replies,
                                position + 1,
                                *old(provider),
                                *provider,
                            ));
                        },
                        Err(error) => {
                            assert(swept(
                                self@,
                                objects@,
                                asked,
                                states,
                                challenges,
                                replies,
                                Err(error),
                            ));
                        },
                    }
                }
            }
            verdict?;
            position += 1;
        }
        proof {
            let (asked, states, challenges, replies) = choose|
                asked: Seq<&mut P>,
                states: Seq<P>,
                challenges: Seq<Seq<u8>>,
                replies: Seq<Result<WitnessHead, VaultError>>,
            |
                {
                    &&& #[trigger] witnessed_run(
                        self@,
                        objects@,
                        asked,
                        states,
                        challenges,
                        replies,
                        position as int,
                        *old(provider),
                        *provider,
                    )
                    &&& forall|i: int|
                        0 <= i < asked.len() ==> *final(#[trigger] asked[i]) == states[i + 1]
                };
            assert(swept(
                self@,
                objects@,
                asked,
                states,
                challenges,
                replies,
                Ok(objects@.len() as u64),
            ));
        }
        Ok(objects.len() as u64)
    }

    fn verify_object_with_witness<P: WitnessProvider>(
        &self,
        object: &ActiveObject,
        provider: &mut P,
    ) -> (res: Result<(), VaultError>)
        ensures
            match witnessed_receipt(*object) {
                Err(expected) => {
                    &&& res == Err::<(), _>(expected)
                    &&& *final(provider) == *old(provider)
                },
                Ok(_) => exists|
                    query: &mut P,
                    challenge: Seq<u8>,
                    reply: Result<WitnessHead, VaultError>,
                |
                    {
                        &&& #[trigger] head_asked(
                            query,
                            self@.envelope.vault_id,
                            object.object_id@,
                            challenge,
                            reply,
                        )
                        &&& *query == *old(provider)
                        &&& *final(query) == *final(provider)
                        &&& res == witnessed_verdict(self@, *object, challenge, reply)
                    },
            },
    {
        let local = local_witnessed_receipt(object)?;
        match fetch_fresh_head(provider, self.envelope.vault_id, object.object_id) {
            Ok(head) => self.verify_object_against_head(object, &local, &head),
            Err(error) => Err(error),
        }
    }

    /// Verifies one active object against the witness's head: the head must confirm the
    /// stored receipt, and the object must read.
    pub fn verify_object_against_head(
        &self,
        object: &ActiveObject,
        receipt: &WitnessReceipt,
        head: &WitnessHead,
    ) -> (res: Result<(), VaultError>)
        ensures
            res == if !head@.confirms(Some(receipt@)) {
                Err::<(), VaultError>(VaultError::WitnessConflict)
            } else {
                match get_verdict(self@, object.object_id@, Some(object.stored)) {
                    Err(error) => Err(error),
                    Ok(_) => Ok(()),
                }
            },
    {
        confirm_head(Some(receipt), head)?;
        let mut plaintext = self.get_inner(object.object_id, Some(&object.stored))?;
        wipe_vec(&mut plaintext);
        Ok(())
    }

    /// Judges a full write-ahead-log checkpoint, which needs an unlocked vault. `report` is
    /// nothing where the checkpoint could not be run.
    pub fn full_checkpoint(&mut self, report: Option<&CheckpointReport>) -> (res: Result<
        (),
        VaultError,
    >)
        ensures
            final(self)@ == old(self)@.after(res),
            res == (if old(self)@.root_key is None {
                Err::<(), _>(VaultError::Locked)
            } else {
                match report {
                    Some(report) => if report.busy == 0 && report.log_frames
                        == report.checkpointed_frames {
                        Ok(())
                    } else {
                        Err(VaultError::Storage)
                    },
                    None => Err(VaultError::Storage),
                }
            }),
    {
        if self.root_key.is_none() {
            return Err(VaultError::Locked);
        }
        let result = match report {
            Some(report) => checkpoint_verdict(report),
            None => Err(VaultError::Storage),
        };
        self.settle(result)
    }

    /// Re-wraps the unchanged Root Key under a replacement passphrase and returns the
    /// envelope to store. A wrong current passphrase leaves the vault locked.
    pub fn rotate_passphrase(&mut self, current: &str, replacement: &str) -> (res: Result<
        RootEnvelope,
        VaultError,
    >)
        ensures
            match rotation_verdict(current@, replacement@, old(self)@.envelope) {
                Ok(root_key) => {
                    &&& res is Ok
                    &&& final(self)@ == old(self)@
                    &&& res->Ok_0@.vault_id == old(self)@.envelope.vault_id
                    &&& res->Ok_0@.params == (KdfParams {
                        memory_kib: 65_536,
                        iterations: 3,
                        lanes: 4,
                    })
                    &&& unwrapped_root_key(replacement@, res->Ok_0@) == Ok::<_, VaultError>(
                        root_key,
                    )
                },
                Err(expected) => {
                    &&& res == Err::<RootEnvelope, _>(expected)
                    &&& final(self)@ == if expected == VaultError::UnlockFailed {
                        old(self)@.locked()
                    } else {
                        old(self)@
                    }
                },
            },
    {
        validate_passphrase(replacement)?;
        let result = self.rewrap(current, replacement);
        match &result {
            Ok(_) => {},
            Err(error) => {
                match error {
                    VaultError::UnlockFailed => {
                        self.lock();
                    },
                    _ => {},
                }
            },
        }
        result
    }

    fn rewrap(&self, current: &str, replacement: &str) -> (res: Result<RootEnvelope, VaultError>)
        ensures
            match unwrapped_root_key(current@, self@.envelope) {
                Err(expected) => res == Err::<RootEnvelope, _>(expected),
                Ok(root_key) => match res {
                    Ok(envelope) => {
                        &&& encode_utf8(replacement@).len() <= ARGON2_MAX_PASSPHRASE_BYTES
                        &&& envelope@.vault_id == self@.envelope.vault_id
                        &&& envelope@.params == (KdfParams {
                            memory_kib: 65_536,
                            iterations: 3,
                            lanes: 4,
                        })
                        &&& unwrapped_root_key(replacement@, envelope@) == Ok::<_, VaultError>(
                            root_key,
                        )
                    },
                    Err(error) => {
                        &&& encode_utf8(replacement@).len() > ARGON2_MAX_PASSPHRASE_BYTES
                        &&& error == VaultError::UnlockFailed
                    },
                },
            },
    {
        let mut root_key = open_root_key(current, &self.envelope)?;
        let sealed = seal_root_key(
            replacement,
            self.envelope.vault_id,
            &root_key,
            KdfParams::interactive(),
        );
        wipe_array(&mut root_key);
        sealed
    }

    /// Takes over a rotated envelope once it is stored. `changed` is the number of rows the
    /// update reached. The vault is locked in any case.
    pub fn commit_rotation(&mut self, envelope: RootEnvelope, changed: usize) -> (res: Result<
        (),
        VaultError,
    >)
        ensures
            final(self)@.root_key is None,
            match res {
                Ok(_) => changed == 1 && final(self)@.envelope == envelope@,
                Err(error) => {
                    &&& changed != 1
                    &&& final(self)@.envelope == old(self)@.envelope
                    &&& error == VaultError::Invariant("Root Key envelope replacement")
                },
            },
    {
        self.lock();
        expect_one_row(changed, "Root Key envelope replacement")?;
        self.envelope = envelope;
        Ok(())
    }
}

/// Whether a receipt acknowledges exactly a staged version of a vault.
pub open spec fn acknowledges(
    vault_id: Seq<u8>,
    pending: PendingPublication,
    receipt: ReceiptView,
) -> bool {
    version_of_row(pending.version) matches Ok(staged) && receipt.request_verdict(
        request_for(vault_id, staged),
    ) is Ok
}

impl Recovery {
    /// The vault whose versions are reconciled.
    pub closed spec fn vault_id(&self) -> Seq<u8> {
        self.vault_id@
    }

    /// The staged versions in the order in which they are reconciled.
    pub closed spec fn pending(&self) -> Seq<PendingPublication> {
        self.pending@
    }

    /// How many of them are finalized.
    pub closed spec fn finalized(&self) -> int {
        self.finalized as int
    }

    /// The acknowledged version that is to be finalized next, where there is one.
    pub closed spec fn awaiting(&self) -> Option<AcknowledgedPublication> {
        self.awaiting
    }

    /// The receipts of the finalized versions.
    pub closed spec fn receipts(&self) -> Seq<ReceiptView> {
        self.receipts@
    }

    /// Every finalized version, and the one to be finalized next, is acknowledged by its
    /// receipt.
    pub open spec fn well_formed(&self) -> bool {
        &&& 0 <= self.finalized() <= self.pending().len()
        &&& self.receipts().len() == self.finalized()
        &&& forall|i: int|
            0 <= i < self.finalized() ==> acknowledges(
                self.vault_id(),
                #[trigger] self.pending()[i],
                self.receipts()[i],
            )
        &&& self.awaiting() matches Some(acknowledged) ==> {
            &&& self.finalized() < self.pending().len()
            &&& acknowledges(
                self.vault_id(),
                self.pending()[self.finalized()],
                acknowledged.receipt@,
            )
        }
    }

    /// Whether none is left.
    pub open spec fn complete(&self) -> bool {
        self.finalized() == self.pending().len()
    }

    /// Whether another state belongs to the same run and has finalized as much.
    pub open spec fn keeps(&self, other: &Self) -> bool {
        &&& self.vault_id() == other.vault_id()
        &&& self.pending() == other.pending()
        &&& self.finalized() == other.finalized()
        &&& self.receipts() == other.receipts()
    }

    /// Asks the witness for the receipt of the next staged version with the epoch expected
    /// when it was staged. Nothing is asked where the version is acknowledged already, nor
    /// once all are finalized, which is answered with nothing.
    pub fn acknowledge_next<P: WitnessProvider>(
        &mut self,
        vault: &mut Vault,
        provider: &mut P,
    ) -> (res: Result<Option<AcknowledgedPublication>, VaultError>)
        requires
            old(self).well_formed(),
            old(vault)@.envelope.vault_id == old(self).vault_id(),
        ensures
            final(self).well_formed(),
            final(self).keeps(old(self)),
            final(vault)@ == old(vault)@.after(res),
            final(self).awaiting() == match res {
                Ok(acknowledged) => acknowledged,
                Err(_) => old(self).awaiting(),
            },
            old(self).awaiting() is Some ==> {
                &&& res == Ok::<_, VaultError>(old(self).awaiting())
                &&& *final(provider) == *old(provider)
            },
            old(self).complete() ==> {
                &&& res == Ok::<Option<AcknowledgedPublication>, VaultError>(None)
                &&& *final(provider) == *old(provider)
            },
            !old(self).complete() && old(self).awaiting() is None ==> {
                let next = old(self).pending()[old(self).finalized()];
                if old(vault)@.root_key is None {
                    &&& res == Err::<Option<AcknowledgedPublication>, _>(VaultError::Locked)
                    &&& *final(provider) == *old(provider)
                } else {
                    match version_of_row(next.version) {
                        Err(expected) => {
                            &&& res == Err::<Option<AcknowledgedPublication>, _>(expected)
                            &&& *final(provider) == *old(provider)
                        },
                        Ok(staged) => exists|
                            asked: &mut P,
                            reply: Result<WitnessReceipt, VaultError>,
                        |
                            {
                                &&& #[trigger] receipt_asked(
                                    asked,
                                    request_for(old(self).vault_id(), staged),
                                    next.expected_epoch,
                                    reply,
                                )
                                &&& *asked == *old(provider)
                                &&& *final(asked) == *final(provider)
                                &&& match res {
                                    Ok(Some(acknowledged)) => acknowledged_on_reply(
                                        request_for(old(self).vault_id(), staged),
                                        reply,
                                        Ok(acknowledged),
                                    ),
                                    Ok(None) => false,
                                    Err(error) => acknowledged_on_reply(
                                        request_for(old(self).vault_id(), staged),
                                        reply,
                                        Err(error),
                                    ),
                                }
                            },
                    }
                }
            },
    {
        if self.awaiting.is_some() {
            return Ok(self.awaiting);
        }
        if self.finalized == self.pending.len() {
            return Ok(None);
        }
        let next = &self.pending[self.finalized];
        match vault.recover_pending_witness_publication(
            &next.version,
            next.expected_epoch,
            provider,
        ) {
            Ok(acknowledged) => {
                self.awaiting = Some(acknowledged);
                Ok(Some(acknowledged))
            },
            Err(error) => Err(error),
        }
    }

    /// Records that the acknowledged version is finalized in the database.
    pub fn record_finalization(&mut self)
        requires
            old(self).well_formed(),
            old(self).awaiting() is Some,
        ensures
            final(self).well_formed(),
            final(self).vault_id() == old(self).vault_id(),
            final(self).pending() == old(self).pending(),
            final(self).finalized() == old(self).finalized() + 1,
            final(self).receipts() == old(self).receipts().push(
                old(self).awaiting()->0.receipt@,
            ),
            final(self).awaiting() is None,
    {
        assert(self.finalized < self.pending.len());
        self.receipts = Ghost(self.receipts@.push(self.awaiting->0.receipt@));
        self.finalized = self.finalized + 1;
        self.awaiting = None;
    }

    /// Returns how many versions are finalized.
    #[must_use]
    pub fn recovered(&self) -> (res: u64)
        requires
            self.well_formed(),
        ensures
            res == self.finalized(),
            res == self.receipts().len(),
            self.complete() ==> res == self.pending().len(),
    {
        self.finalized as u64
    }
}

/// What a passphrase rotation comes to: the Root Key that is wrapped again.
pub open spec fn rotation_verdict(
    current: Seq<char>,
    replacement: Seq<char>,
    envelope: EnvelopeView,
) -> Result<Seq<u8>, VaultError> {
    match passphrase_verdict(replacement) {
        Err(error) => Err(error),
        Ok(_) => match unwrapped_root_key(current, envelope) {
            Err(error) => Err(error),
            Ok(root_key) => if encode_utf8(replacement).len() > ARGON2_MAX_PASSPHRASE_BYTES {
                Err(VaultError::UnlockFailed)
            } else {
                Ok(root_key)
            },
        },
    }
}

/// The stored object behind an optional reference.
pub open spec fn stored_value(stored: Option<&StoredObject>) -> Option<StoredObject> {
    match stored {
        Some(stored) => Some(*stored),
        None => None,
    }
}

/// The receipt that an active version must have in a witnessed vault.
pub open spec fn witnessed_receipt(object: ActiveObject) -> Result<ReceiptView, VaultError> {
    match version_of_row(object.stored.version) {
        Err(error) => Err(error),
        Ok(_) => match object.stored.receipt {
            None => Err(VaultError::WitnessConflict),
            Some(receipt) => crate::storage::receipt_of_row(receipt),
        },
    }
}

fn local_witnessed_receipt(object: &ActiveObject) -> (res: Result<WitnessReceipt, VaultError>)
    ensures
        match (res, witnessed_receipt(*object)) {
            (Ok(receipt), Ok(expected)) => receipt@ == expected,
            (Err(error), Err(expected)) => error == expected,
            _ => false,
        },
{
    match active_receipt(Some(&object.stored.version), object.stored.receipt.as_ref())? {
        Some(receipt) => Ok(receipt),
        None => Err(VaultError::WitnessConflict),
    }
}

/// Whether a transaction publishes an encryption of a plaintext as an object's new version.
pub open spec fn publishes(
    vault: VaultView,
    object_id: Seq<u8>,
    version_id: Seq<u8>,
    chunk_size: int,
    plaintext: Seq<u8>,
    transaction: TransactionView,
) -> bool {
    &&& transaction matches TransactionView::Publish { version, chunks, receipt }
    &&& receipt is None
    &&& version.object_id == object_id
    &&& version.version_id == version_id
    &&& version.chunk_size == chunk_size
    &&& transaction.well_built()
    &&& vault.root_key is Some
    &&& version_holds(
        vault.root_key->0,
        vault.envelope.vault_id,
        version,
        chunks,
        plaintext,
    )
}

/// Whether a transaction stages an encryption of a plaintext as an object's next version.
pub open spec fn stages(
    vault: VaultView,
    object_id: Seq<u8>,
    version_id: Seq<u8>,
    expected_epoch: u64,
    plaintext: Seq<u8>,
    transaction: TransactionView,
) -> bool {
    &&& transaction matches TransactionView::Stage { version, chunks, expected_epoch: expected }
    &&& expected == expected_epoch
    &&& version.object_id == object_id
    &&& version.version_id == version_id
    &&& transaction.well_built()
    &&& vault.root_key is Some
    &&& version_holds(
        vault.root_key->0,
        vault.envelope.vault_id,
        version,
        chunks,
        plaintext,
    )
}

/// Whether rows are what a database holds for an object.
pub open spec fn holds(database: Database, object_id: Seq<u8>, stored: StoredObject) -> bool {
    let version_id = database.active[object_id];
    &&& database.active.contains_key(object_id)
    &&& database.versions.contains_key(version_id)
    &&& version_of_row(stored.version) == Ok::<_, VaultError>(database.versions[version_id])
    &&& crate::reader::chunks_of_rows(stored.chunks@) == database.chunks[version_id]
    &&& match stored.receipt {
        Some(row) => {
            &&& database.receipts.contains_key(version_id)
            &&& crate::storage::receipt_fields_of_row(row) == Ok::<_, VaultError>(
                database.receipts[version_id],
            )
        },
        None => !database.receipts.contains_key(version_id),
    }
}

/// A read gives back what the last write wrote: where the database admits a publication,
/// the object then reads as exactly the written plaintext.
pub proof fn published_plaintext_is_read_back(
    vault: VaultView,
    object_id: Seq<u8>,
    version_id: Seq<u8>,
    chunk_size: int,
    plaintext: Seq<u8>,
    transaction: TransactionView,
    database: Database,
    stored: StoredObject,
)
    requires
        publishes(vault, object_id, version_id, chunk_size, plaintext, transaction),
        database.consistent(),
        database.admits(transaction),
        holds(database.after(transaction), object_id, stored),
    ensures
        get_verdict(vault, object_id, Some(stored)) == Ok::<_, VaultError>(plaintext),
{
    match transaction {
        TransactionView::Publish { version, chunks, receipt } => {
            assert(!database.receipts.contains_key(version_id));
            crate::writer::published_version_reads_back(
                vault.root_key->0,
                vault.envelope.vault_id,
                version,
                chunks,
                plaintext,
                stored,
            );
        },
        _ => {},
    }
}

/// A streamed version is one publication: what its chunks and its completed version commit
/// is a single transaction that publishes exactly the plaintext that was fed.
pub proof fn streamed_version_is_one_publication(
    vault: VaultView,
    stream: StreamingPut,
    streamed: StreamedVersion,
)
    requires
        vault.root_key is Some,
        stream.vault() == (vault.envelope.vault_id, vault.root_key->0),
        stream.completed_by(streamed),
    ensures
        publishes(
            vault,
            stream.object(),
            stream.version(),
            stream.size() as int,
            stream.fed(),
            stream.publication(streamed),
        ),
{
}

/// A witnessed write is read back once it is finalized: where the database admits staging
/// and then finalizing with a receipt for the staged version, the object reads as exactly
/// the written plaintext.
pub proof fn witnessed_plaintext_is_read_back(
    vault: VaultView,
    object_id: Seq<u8>,
    version_id: Seq<u8>,
    expected_epoch: u64,
    plaintext: Seq<u8>,
    staging: TransactionView,
    receipt: ReceiptView,
    database: Database,
    stored: StoredObject,
)
    requires
        stages(vault, object_id, version_id, expected_epoch, plaintext, staging),
        staging matches TransactionView::Stage { version, .. } && receipt.request_verdict(
            request_for(vault.envelope.vault_id, version),
        ) is Ok,
        database.consistent(),
        database.admits(staging),
        database.after(staging).admits(
            TransactionView::Finalize { object_id, version_id, receipt },
        ),
        holds(
            database.after(staging).after(
                TransactionView::Finalize { object_id, version_id, receipt },
            ),
            object_id,
            stored,
        ),
    ensures
        get_verdict(vault, object_id, Some(stored)) == Ok::<_, VaultError>(plaintext),
{
    match staging {
        TransactionView::Stage { version, chunks, expected_epoch } => {
            crate::writer::published_version_reads_back(
                vault.root_key->0,
                vault.envelope.vault_id,
                version,
                chunks,
                plaintext,
                stored,
            );
        },
        _ => {},
    }
}

/// A write that is not visible changes no read: a transaction that the database refuses, one
/// that only stages a version, and one for another object leave what is held for an object
/// as it was.
pub proof fn invisible_writes_change_no_read(
    database: Database,
    transaction: TransactionView,
    object_id: Seq<u8>,
    stored: StoredObject,
)
    requires
        database.consistent(),
        !database.admits(transaction) || transaction is Stage || transaction.object_id()
            != object_id,
        transaction matches TransactionView::Finalize { object_id: owner, version_id, .. }
            ==> database.versions.contains_key(version_id) ==> database.versions[version_id].object_id
            == owner,
        holds(database, object_id, stored),
    ensures
        holds(database.after(transaction), object_id, stored),
{
    let version_id = database.active[object_id];
    crate::storage::stored_versions_never_change(database, transaction, version_id, object_id);
    assert(database.versions.contains_key(version_id));
    assert(database.versions[version_id].object_id == object_id);
}

/// Passphrase rotation keeps every object readable: a vault unlocked with the replacement
/// passphrase under the rotated envelope reads whatever it read before.
pub proof fn rotation_keeps_objects_readable(
    before: VaultView,
    current: Seq<char>,
    replacement: Seq<char>,
    rotated: EnvelopeView,
    after: VaultView,
    object_id: Seq<u8>,
    stored: Option<StoredObject>,
)
    requires
        unlock_verdict(current, before.envelope) is Ok,
        before.root_key == Some(unlock_verdict(current, before.envelope)->Ok_0),
        rotation_verdict(current, replacement, before.envelope) is Ok,
        rotated.vault_id == before.envelope.vault_id,
        unwrapped_root_key(replacement, rotated) == rotation_verdict(
            current,
            replacement,
            before.envelope,
        ),
        after.envelope == rotated,
        unlock_verdict(replacement, rotated) is Ok,
        after.root_key == Some(unlock_verdict(replacement, rotated)->Ok_0),
    ensures
        after.envelope.vault_id == before.envelope.vault_id,
        get_verdict(after, object_id, stored) == get_verdict(before, object_id, stored),
{
}

/// A rotation that succeeds always yields a passphrase that unlocks.
pub proof fn rotated_envelope_unlocks(
    current: Seq<char>,
    replacement: Seq<char>,
    envelope: EnvelopeView,
    rotated: EnvelopeView,
)
    requires
        rotation_verdict(current, replacement, envelope) is Ok,
        unwrapped_root_key(replacement, rotated) == rotation_verdict(
            current,
            replacement,
            envelope,
        ),
    ensures
        unlock_verdict(replacement, rotated) == rotation_verdict(current, replacement, envelope),
{
}

/// While a vault is locked every secret operation is refused and nothing changes.
pub proof fn locked_vault_refuses_secret_operations(
    vault: VaultView,
    object_id: Seq<u8>,
    stored: Option<StoredObject>,
    length: int,
    chunk_size: int,
    objects: Seq<ActiveObject>,
)
    requires
        vault.root_key is None,
    ensures
        get_verdict(vault, object_id, stored) == Err::<Seq<u8>, _>(VaultError::Locked),
        put_verdict(vault, length, chunk_size) == Err::<(), _>(VaultError::Locked),
        sweep_verdict(vault, objects) == Err::<(), _>(VaultError::Locked),
        vault.after_error(VaultError::Locked) == vault,
{
}

/// A verification sweep succeeds exactly where every object reads.
pub proof fn sweep_accepts_exactly_readable_objects(vault: VaultView, objects: Seq<ActiveObject>)
    requires
        vault.root_key is Some,
    ensures
        sweep_verdict(vault, objects) is Ok <==> (forall|i: int|
            0 <= i < objects.len() ==> get_verdict(
                vault,
                (#[trigger] objects[i]).object_id@,
                Some(objects[i].stored),
            ) is Ok),
    decreases objects.len(),
{
    if objects.len() > 0 {
        let front = objects.drop_last();
        sweep_accepts_exactly_readable_objects(vault, front);
        assert forall|i: int| 0 <= i < front.len() implies #[trigger] front[i] == objects[i] by {}
        assert(objects[objects.len() - 1] == objects.last());
        if sweep_verdict(vault, front) is Ok {
            assert forall|i: int| 0 <= i < front.len() implies get_verdict(
                vault,
                (#[trigger] objects[i]).object_id@,
                Some(objects[i].stored),
            ) is Ok by {
                assert(front[i] == objects[i]);
            }
        }
    }
}

/// Whether a witness gave a head of an object that answers the challenge it was asked under
/// and confirms a local receipt, or its absence.
pub open spec fn head_confirmed<P: WitnessProvider>(
    vault_id: Seq<u8>,
    object_id: Seq<u8>,
    local: Option<ReceiptView>,
) -> bool {
    exists|asked: &mut P, challenge: Seq<u8>, head: WitnessHead|
        {
            &&& #[trigger] head_asked(asked, vault_id, object_id, challenge, Ok(head))
            &&& head@.answers(vault_id, object_id, challenge)
            &&& head@.confirms(local)
        }
}

/// Whether every head that a witness gives of an object is above an epoch: the witness has
/// acknowledged a later version than the one known by that epoch.
pub open spec fn witness_is_ahead<P: WitnessProvider>(
    vault_id: Seq<u8>,
    object_id: Seq<u8>,
    epoch: u64,
) -> bool {
    forall|asked: &mut P, challenge: Seq<u8>, head: WitnessHead|
        #[trigger] head_asked(asked, vault_id, object_id, challenge, Ok(head)) ==> {
            &&& head@.present
            &&& head@.witness_epoch > epoch
        }
}

/// A witnessed write is staged only where the witness was asked for the object's head and
/// its answer confirms the local receipt, or its absence.
pub proof fn staged_write_is_confirmed<P: WitnessProvider>(
    vault: VaultView,
    object_id: ObjectId,
    plaintext: Seq<u8>,
    local: Option<ReceiptView>,
    asked: &mut P,
    challenge: Seq<u8>,
    reply: Result<WitnessHead, VaultError>,
    res: Result<StagedPublication, VaultError>,
)
    requires
        head_asked(asked, vault.envelope.vault_id, object_id@, challenge, reply),
        staged_on_reply(vault, object_id, plaintext, local, challenge, reply, res),
        res is Ok,
    ensures
        head_confirmed::<P>(vault.envelope.vault_id, object_id@, local),
{
    let head = reply->Ok_0;
    assert(head_asked(asked, vault.envelope.vault_id, object_id@, challenge, Ok(head)));
}

/// A witnessed sweep succeeds only where every object reads and the witness was asked for
/// its head and confirmed exactly its stored receipt.
pub proof fn swept_objects_are_confirmed<P: WitnessProvider>(
    vault: VaultView,
    objects: Seq<ActiveObject>,
    asked: Seq<&mut P>,
    states: Seq<P>,
    challenges: Seq<Seq<u8>>,
    replies: Seq<Result<WitnessHead, VaultError>>,
    verified: u64,
)
    requires
        swept(vault, objects, asked, states, challenges, replies, Ok(verified)),
    ensures
        verified == objects.len(),
        sweep_verdict(vault, objects) is Ok,
        forall|i: int|
            0 <= i < objects.len() ==> {
                &&& witnessed_receipt(#[trigger] objects[i]) is Ok
                &&& head_confirmed::<P>(
                    vault.envelope.vault_id,
                    objects[i].object_id@,
                    Some(witnessed_receipt(objects[i])->Ok_0),
                )
            },
{
    assert forall|i: int| 0 <= i < objects.len() implies {
        &&& witnessed_receipt(#[trigger] objects[i]) is Ok
        &&& head_confirmed::<P>(
            vault.envelope.vault_id,
            objects[i].object_id@,
            Some(witnessed_receipt(objects[i])->Ok_0),
        )
        &&& get_verdict(vault, objects[i].object_id@, Some(objects[i].stored)) is Ok
    } by {
        let head = replies[i]->Ok_0;
        assert(witnessed_verdict(vault, objects[i], challenges[i], replies[i]) is Ok);
        assert(head_asked(
            asked[i],
            vault.envelope.vault_id,
            objects[i].object_id@,
            challenges[i],
            Ok(head),
        ));
    }
    sweep_accepts_exactly_readable_objects(vault, objects);
}

/// A rolled-back store is not written to: where the witness has acknowledged a later
/// version of an object than the local receipt, or any where there is none, a witnessed
/// write of the object is refused.
pub proof fn rolled_back_write_is_refused<P: WitnessProvider>(
    vault: VaultView,
    object_id: ObjectId,
    plaintext: Seq<u8>,
    local: Option<ReceiptView>,
    asked: &mut P,
    challenge: Seq<u8>,
    reply: Result<WitnessHead, VaultError>,
    res: Result<StagedPublication, VaultError>,
)
    requires
        head_asked(asked, vault.envelope.vault_id, object_id@, challenge, reply),
        staged_on_reply(vault, object_id, plaintext, local, challenge, reply, res),
        witness_is_ahead::<P>(vault.envelope.vault_id, object_id@, epoch_of(local)),
    ensures
        res is Err,
{
    if res is Ok {
        staged_write_is_confirmed(
            vault,
            object_id,
            plaintext,
            local,
            asked,
            challenge,
            reply,
            res,
        );
    }
}

/// A rolled-back store is not verified: where the witness has acknowledged a later version
/// of one of the objects than its stored receipt, a witnessed sweep fails.
pub proof fn rolled_back_store_is_refused<P: WitnessProvider>(
    vault: VaultView,
    objects: Seq<ActiveObject>,
    asked: Seq<&mut P>,
    states: Seq<P>,
    challenges: Seq<Seq<u8>>,
    replies: Seq<Result<WitnessHead, VaultError>>,
    outcome: Result<u64, VaultError>,
    index: int,
)
    requires
        swept(vault, objects, asked, states, challenges, replies, outcome),
        0 <= index < objects.len(),
        witnessed_receipt(objects[index]) matches Ok(local) ==> witness_is_ahead::<P>(
            vault.envelope.vault_id,
            objects[index].object_id@,
            local.witness_epoch,
        ),
    ensures
        outcome is Err,
{
    match outcome {
        Ok(verified) => {
            swept_objects_are_confirmed(
                vault,
                objects,
                asked,
                states,
                challenges,
                replies,
                verified,
            );
            assert(witnessed_receipt(objects[index]) is Ok);
        },
        Err(_) => {},
    }
}

/// The in-process witness answers every head query, so a write to an object of which it
/// holds a later receipt is refused as a conflict.
pub proof fn rolled_back_write_conflicts(
    vault: VaultView,
    object_id: ObjectId,
    plaintext: Seq<u8>,
    local: Option<ReceiptView>,
    asked: &mut InMemoryTestProvider,
    challenge: Seq<u8>,
    reply: Result<WitnessHead, VaultError>,
    res: Result<StagedPublication, VaultError>,
)
    requires
        head_asked(asked, vault.envelope.vault_id, object_id@, challenge, reply),
        staged_on_reply(vault, object_id, plaintext, local, challenge, reply, res),
        (*asked)@.current(vault.envelope.vault_id, object_id@) matches Some(current)
            && current.witness_epoch > epoch_of(local),
    ensures
        res == Err::<StagedPublication, _>(VaultError::WitnessConflict),
{
}

/// Head queries leave the in-process witness as it is.
proof fn lemma_queries_keep_witness(
    vault: VaultView,
    objects: Seq<ActiveObject>,
    asked: Seq<&mut InMemoryTestProvider>,
    states: Seq<InMemoryTestProvider>,
    challenges: Seq<Seq<u8>>,
    replies: Seq<Result<WitnessHead, VaultError>>,
    good: int,
    index: int,
)
    requires
        witnessed_prefix(vault, objects, asked, states, challenges, replies, good),
        forall|i: int| 0 <= i < asked.len() ==> *final(#[trigger] asked[i]) == states[i + 1],
        0 <= index <= asked.len(),
    ensures
        states[index]@ == states.first()@,
    decreases index,
{
    if index > 0 {
        lemma_queries_keep_witness(
            vault,
            objects,
            asked,
            states,
            challenges,
            replies,
            good,
            index - 1,
        );
        assert(*final(asked[index - 1]) == states[index]);
    }
}

/// A sweep under the in-process witness over a rolled-back store fails: with a conflict,
/// where the sweep gets as far as the object of which the witness holds a later receipt,
/// and before it otherwise.
pub proof fn rolled_back_store_conflicts(
    vault: VaultView,
    objects: Seq<ActiveObject>,
    asked: Seq<&mut InMemoryTestProvider>,
    states: Seq<InMemoryTestProvider>,
    challenges: Seq<Seq<u8>>,
    replies: Seq<Result<WitnessHead, VaultError>>,
    outcome: Result<u64, VaultError>,
    index: int,
)
    requires
        swept(vault, objects, asked, states, challenges, replies, outcome),
        forall|i: int| 0 <= i < asked.len() ==> *final(#[trigger] asked[i]) == states[i + 1],
        0 <= index < objects.len(),
        witnessed_receipt(objects[index]) matches Ok(local) && states.first()@.current(
            vault.envelope.vault_id,
            objects[index].object_id@,
        ) matches Some(current) && current.witness_epoch > local.witness_epoch,
    ensures
        outcome is Err,
        asked.len() > index ==> {
            &&& outcome == Err::<u64, _>(VaultError::WitnessConflict)
            &&& asked.len() == index + 1
        },
{
    if vault.root_key is Some && asked.len() > index {
        let good = if witnessed_prefix(
            vault,
            objects,
            asked,
            states,
            challenges,
            replies,
            asked.len() as int,
        ) {
            asked.len() as int
        } else {
            asked.len() - 1
        };
        lemma_queries_keep_witness(
            vault,
            objects,
            asked,
            states,
            challenges,
            replies,
            good,
            index,
        );
        assert(head_asked(
            asked[index],
            vault.envelope.vault_id,
            objects[index].object_id@,
            challenges[index],
            replies[index],
        ));
        assert(witnessed_verdict(vault, objects[index], challenges[index], replies[index])
            == Err::<(), _>(VaultError::WitnessConflict));
    }
}

/// The transactions that finalize staged versions with their receipts.
pub open spec fn finalizations(
    pending: Seq<PendingPublication>,
    receipts: Seq<ReceiptView>,
) -> Seq<TransactionView> {
    Seq::new(
        pending.len(),
        |i: int|
            TransactionView::Finalize {
                object_id: version_of_row(pending[i].version)->Ok_0.object_id,
                version_id: version_of_row(pending[i].version)->Ok_0.version_id,
                receipt: receipts[i],
            },
    )
}

/// A recovery that is complete has a receipt for every staged version, and each receipt
/// acknowledges exactly its version.
pub proof fn complete_recovery_acknowledged_every_version(recovery: Recovery)
    requires
        recovery.well_formed(),
        recovery.complete(),
    ensures
        recovery.receipts().len() == recovery.pending().len(),
        forall|i: int|
            0 <= i < recovery.pending().len() ==> acknowledges(
                recovery.vault_id(),
                #[trigger] recovery.pending()[i],
                recovery.receipts()[i],
            ),
{
}

/// Finalizing what a complete recovery acknowledged leaves none of it staged: every version
/// has its receipt stored and is the active one of its object unless a later version of the
/// list replaced it, and where the list was all that was staged, nothing is staged any more,
/// so that a second recovery has nothing to ask.
pub proof fn recovered_versions_are_no_longer_staged(database: Database, recovery: Recovery)
    requires
        recovery.well_formed(),
        recovery.complete(),
        database.admits_all(finalizations(recovery.pending(), recovery.receipts())),
    ensures
        ({
            let transactions = finalizations(recovery.pending(), recovery.receipts());
            let after = database.after_all(transactions);
            &&& forall|i: int|
                0 <= i < transactions.len() ==> {
                    let version_id = (#[trigger] transactions[i])->Finalize_version_id;
                    &&& !after.pending.contains_key(version_id)
                    &&& after.receipts.contains_key(version_id)
                    &&& after.receipts[version_id] == recovery.receipts()[i]
                    &&& (forall|j: int|
                        i < j < transactions.len() ==> (#[trigger] transactions[j]).object_id()
                            != transactions[i].object_id()) ==> after.active.contains_pair(
                        transactions[i].object_id(),
                        version_id,
                    )
                }
            &&& (forall|version: Seq<u8>| #[trigger]
                database.pending.contains_key(version) ==> exists|i: int|
                    0 <= i < transactions.len() && (#[trigger] transactions[i])->Finalize_version_id
                        == version) ==> after.pending == Map::<Seq<u8>, u64>::empty()
        }),
{
    let transactions = finalizations(recovery.pending(), recovery.receipts());
    crate::storage::lemma_finalized_in_turn(database, transactions);
    let after = database.after_all(transactions);
    if forall|version: Seq<u8>| #[trigger]
        database.pending.contains_key(version) ==> exists|i: int|
            0 <= i < transactions.len() && (#[trigger] transactions[i])->Finalize_version_id
                == version {
        assert(after.pending =~= Map::<Seq<u8>, u64>::empty());
    }
}

/// Recovery after a crash gets the same receipt: a version that the in-process witness has
/// already acknowledged above the expected epoch is answered with the receipt it holds.
pub proof fn recovery_gets_the_same_receipt(
    vault: VaultView,
    staged: VersionView,
    expected_epoch: u64,
    asked: &mut InMemoryTestProvider,
    reply: Result<WitnessReceipt, VaultError>,
    res: Result<AcknowledgedPublication, VaultError>,
    receipt: ReceiptView,
)
    requires
        receipt_asked(
            asked,
            request_for(vault.envelope.vault_id, staged),
            expected_epoch,
            reply,
        ),
        acknowledged_on_reply(request_for(vault.envelope.vault_id, staged), reply, res),
        (*asked)@.current(vault.envelope.vault_id, staged.object_id) == Some(receipt),
        receipt.request_verdict(request_for(vault.envelope.vault_id, staged)) is Ok,
        receipt.witness_epoch > expected_epoch,
    ensures
        res matches Ok(acknowledged) && acknowledged.receipt@ == receipt,
{
}

/// A recovery that is kept is kept whole: its vault, its pending versions, how many of them
/// are finalized and their receipts.
pub proof fn kept_recoveries_are_kept_whole(recovery: Recovery, other: Recovery)
    ensures
        recovery.keeps(&other) ==> {
            &&& recovery.vault_id() == other.vault_id()
            &&& recovery.pending() == other.pending()
            &&& recovery.finalized() == other.finalized()
            &&& recovery.receipts() == other.receipts()
        },
        recovery.complete() <==> recovery.finalized() == recovery.pending().len(),
{
}

/// Under a witness every object needs a receipt: one that has none conflicts with the witness,
/// and one that has is judged by that receipt, which must be signed.
pub proof fn witnessed_objects_need_a_receipt(object: ActiveObject)
    requires
        version_of_row(object.stored.version) is Ok,
    ensures
        object.stored.receipt is None ==> witnessed_receipt(object) == Err::<ReceiptView, _>(
            VaultError::WitnessConflict,
        ),
        object.stored.receipt matches Some(row) ==> witnessed_receipt(object)
            == crate::storage::receipt_of_row(row),
{
}

/// A sweep stops at the first object that does not read, with that object's error.
pub proof fn sweeps_stop_at_the_first_unreadable_object(
    vault: VaultView,
    objects: Seq<ActiveObject>,
    bad: int,
)
    requires
        vault.root_key is Some,
        0 <= bad < objects.len(),
        forall|i: int|
            0 <= i < bad ==> get_verdict(
                vault,
                (#[trigger] objects[i]).object_id@,
                Some(objects[i].stored),
            ) is Ok,
        get_verdict(vault, objects[bad].object_id@, Some(objects[bad].stored)) is Err,
    ensures
        sweep_verdict(vault, objects) is Err,
        sweep_verdict(vault, objects)->Err_0 == get_verdict(
            vault,
            objects[bad].object_id@,
            Some(objects[bad].stored),
        )->Err_0,
    decreases objects.len(),
{
    let front = objects.drop_last();
    if bad < front.len() {
        assert(front[bad] == objects[bad]);
        assert forall|i: int| 0 <= i < bad implies get_verdict(
            vault,
            (#[trigger] front[i]).object_id@,
            Some(front[i].stored),
        ) is Ok by {
            assert(front[i] == objects[i]);
        }
        sweeps_stop_at_the_first_unreadable_object(vault, front, bad);
    } else {
        assert forall|i: int| 0 <= i < front.len() implies get_verdict(
            vault,
            (#[trigger] front[i]).object_id@,
            Some(front[i].stored),
        ) is Ok by {
            assert(front[i] == objects[i]);
        }
        sweep_accepts_exactly_readable_objects(vault, front);
    }
}

} // verus!
