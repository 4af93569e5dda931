use vlt1::crypto::{generate_root_key, seal_root_key, KdfParams};
use vlt1::error::VaultError;
use vlt1::format::{ObjectId, VaultId, VersionId};
use vlt1::provider::{InMemoryTestProvider, WitnessProvider};
use vlt1::reader::expected_plaintext_chunk_len;
use vlt1::storage::{
    checkpoint_verdict, finalize_witness_publication, require_wal, ChunkRow, CheckpointReport,
    EnvelopeRow, IntegrityReport, ReceiptRow, StorageTransaction, StoredObject,
    StreamingPublication, VersionRow,
};
use vlt1::vault::{confirm_head, ActiveObject, PendingPublication, Vault, VaultStatus};
use vlt1::witness::{WitnessHead, WitnessReceipt, WitnessRequest};
use vlt1::writer::{stream_chunk_size, PreparedVersion, DEFAULT_CHUNK_SIZE};

const PASSPHRASE: &str = "correct horse battery staple";

/// The tables of one vault.
#[derive(Clone)]
struct Store {
    envelope: EnvelopeRow,
    versions: Vec<VersionRow>,
    chunks: Vec<(Vec<u8>, ChunkRow)>,
    active: Vec<(ObjectId, Vec<u8>)>,
    receipts: Vec<ReceiptRow>,
    pending: Vec<(Vec<u8>, u64)>,
    full: bool,
}

impl Store {
    fn of(vault: &Vault) -> Self {
        Store {
            envelope: EnvelopeRow::from_envelope(vault.envelope()),
            versions: Vec::new(),
            chunks: Vec::new(),
            active: Vec::new(),
            receipts: Vec::new(),
            pending: Vec::new(),
            full: false,
        }
    }

    /// Carries out a transaction as a database would: not at all where the disk is full.
    fn execute(
        &mut self,
        vault: &mut Vault,
        transaction: StorageTransaction,
    ) -> Result<(), VaultError> {
        if self.full {
            vault.lock_after_failure(&VaultError::Storage);
            return Err(VaultError::Storage);
        }
        self.apply(transaction);
        Ok(())
    }

    fn pending_publications(&self) -> Vec<PendingPublication> {
        self.pending
            .iter()
            .map(|(version_id, expected_epoch)| PendingPublication {
                version: self.version(version_id).expect("staged version").clone(),
                expected_epoch: *expected_epoch,
            })
            .collect()
    }

    fn activate(&mut self, object_id: ObjectId, version_id: Vec<u8>) {
        self.active.retain(|(object, _)| *object != object_id);
        self.active.push((object_id, version_id));
    }

    fn apply(&mut self, transaction: StorageTransaction) {
        match transaction {
            StorageTransaction::Publish {
                version,
                chunks,
                receipt,
            } => {
                let key = version.version_id.as_bytes().to_vec();
                self.versions.push(VersionRow::from_version(&version));
                for chunk in &chunks {
                    self.chunks.push((key.clone(), ChunkRow::from_chunk(chunk)));
                }
                if let Some(receipt) = receipt {
                    self.receipts.push(ReceiptRow::from_receipt(&receipt));
                }
                self.activate(version.object_id, key);
            }
            StorageTransaction::Stage {
                version,
                chunks,
                expected_epoch,
            } => {
                let key = version.version_id.as_bytes().to_vec();
                self.versions.push(VersionRow::from_version(&version));
                for chunk in &chunks {
                    self.chunks.push((key.clone(), ChunkRow::from_chunk(chunk)));
                }
                self.pending.push((key, expected_epoch));
            }
            StorageTransaction::Finalize {
                object_id,
                version_id,
                receipt,
            } => {
                let key = version_id.as_bytes().to_vec();
                self.receipts.push(ReceiptRow::from_receipt(&receipt));
                self.pending.retain(|(version, _)| *version != key);
                self.activate(object_id, key);
            }
        }
    }

    fn version(&self, version_id: &[u8]) -> Option<&VersionRow> {
        self.versions
            .iter()
            .find(|version| version.version_id == version_id)
    }

    fn stored(&self, object_id: ObjectId) -> Option<StoredObject> {
        let (_, version_id) = self
            .active
            .iter()
            .find(|(object, _)| *object == object_id)?;
        Some(StoredObject {
            version: self.version(version_id)?.clone(),
            receipt: self
                .receipts
                .iter()
                .find(|receipt| receipt.version_id == *version_id)
                .cloned(),
            chunks: self
                .chunks
                .iter()
                .filter(|(version, _)| version == version_id)
                .map(|(_, chunk)| chunk.clone())
                .collect(),
        })
    }

    fn objects(&self) -> Vec<ActiveObject> {
        self.active
            .iter()
            .map(|(object_id, _)| ActiveObject {
                object_id: *object_id,
                stored: self.stored(*object_id).expect("active object"),
            })
            .collect()
    }

    fn report(&self) -> IntegrityReport {
        IntegrityReport {
            integrity: "ok".to_owned(),
            foreign_key_violation: false,
            dangling_active_versions: self
                .active
                .iter()
                .filter(|(_, version)| self.version(version).is_none())
                .count() as i64,
            dangling_pending_versions: self
                .pending
                .iter()
                .filter(|(version, _)| self.version(version).is_none())
                .count() as i64,
        }
    }

    fn open(&self) -> Result<Vault, VaultError> {
        Vault::open(&self.report(), Some(self.envelope.clone()))
    }

    fn put(
        &mut self,
        vault: &mut Vault,
        object_id: ObjectId,
        plaintext: &[u8],
    ) -> Result<VersionId, VaultError> {
        let (version_id, transaction) = vault.put(object_id, plaintext)?;
        self.execute(vault, transaction)?;
        Ok(version_id)
    }

    fn get(&self, vault: &mut Vault, object_id: ObjectId) -> Result<Vec<u8>, VaultError> {
        vault.get(object_id, self.stored(object_id).as_ref())
    }

    fn put_fragments(
        &mut self,
        vault: &mut Vault,
        object_id: ObjectId,
        plaintext: &[u8],
        fragment: usize,
        chunk_size: usize,
    ) -> Result<VersionId, VaultError> {
        let mut stream = vault.put_from_reader_with_chunk_size(object_id, chunk_size)?;
        let version_id = stream.version_id();
        let mut chunks = Vec::new();
        for part in plaintext.chunks(fragment) {
            let (next, ready) = stream.feed(part)?;
            stream = next;
            chunks.extend(ready);
        }
        let streamed = stream.finish()?;
        chunks.extend(streamed.last_chunk);
        self.apply(StorageTransaction::Publish {
            version: streamed.stored_version,
            chunks,
            receipt: None,
        });
        Ok(version_id)
    }

    fn get_to_writer(
        &self,
        vault: &mut Vault,
        object_id: ObjectId,
        output: &mut Vec<u8>,
    ) -> Result<(), VaultError> {
        let outcome = self.read_passes(vault, object_id, output);
        vault.settle(outcome)
    }

    fn read_passes(
        &self,
        vault: &mut Vault,
        object_id: ObjectId,
        output: &mut Vec<u8>,
    ) -> Result<(), VaultError> {
        let stored = self.stored(object_id).ok_or(VaultError::NotFound)?;
        let mut checker = vault.get_to_writer(object_id, Some(&stored.version), &stored.receipt)?;
        for row in &stored.chunks {
            checker = checker.check_chunk(row)?;
        }
        let mut opener = checker.finish_layout()?;
        for row in &stored.chunks {
            let (next, part) = opener.open_chunk(row)?;
            opener = next;
            output.extend(part);
        }
        opener.finish()
    }

    fn put_with_witness(
        &mut self,
        vault: &mut Vault,
        object_id: ObjectId,
        plaintext: &[u8],
        provider: &mut InMemoryTestProvider,
        finalization_fails: bool,
    ) -> Result<VersionId, VaultError> {
        let stored = self.stored(object_id);
        let staged = vault.put_with_witness(
            object_id,
            plaintext,
            stored.as_ref().map(|stored| &stored.version),
            stored.as_ref().and_then(|stored| stored.receipt.as_ref()),
            provider,
        )?;
        self.apply(staged.transaction);
        let acknowledged = vault.acknowledge_staged(
            &staged.request,
            staged.expected_epoch,
            provider,
        )?;
        if finalization_fails {
            vault.lock_after_failure(&VaultError::Storage);
            return Err(VaultError::Storage);
        }
        self.finalize(
            acknowledged.object_id,
            acknowledged.version_id,
            &acknowledged.receipt,
        )?;
        Ok(staged.version_id)
    }

    fn finalize(
        &mut self,
        object_id: ObjectId,
        version_id: VersionId,
        receipt: &WitnessReceipt,
    ) -> Result<(), VaultError> {
        let mark = self
            .pending
            .iter()
            .find(|(version, _)| version == version_id.as_bytes())
            .map(|(_, epoch)| *epoch);
        let transaction = finalize_witness_publication(object_id, version_id, receipt, mark)?;
        self.apply(transaction);
        Ok(())
    }

    fn tamper_first_chunk(&mut self) {
        let (_, chunk) = self.chunks.first_mut().expect("a chunk");
        for byte in &mut chunk.ciphertext {
            *byte = 0;
        }
    }
}

fn create_vault() -> (Store, Vault) {
    let vault = Vault::create(PASSPHRASE).expect("vault initialization");
    (Store::of(&vault), vault)
}

/// A vault whose passphrase is cheap to try.
fn quick_vault() -> (Store, Vault) {
    let params = KdfParams {
        memory_kib: 8,
        iterations: 1,
        lanes: 1,
    };
    let envelope = seal_root_key(PASSPHRASE, VaultId::random(), &generate_root_key(), params)
        .expect("envelope");
    let report = IntegrityReport {
        integrity: "ok".to_owned(),
        foreign_key_violation: false,
        dangling_active_versions: 0,
        dangling_pending_versions: 0,
    };
    let row = EnvelopeRow::from_envelope(&envelope);
    let mut vault = Vault::open(&report, Some(row)).expect("vault");
    vault.unlock(PASSPHRASE).expect("unlock");
    (Store::of(&vault), vault)
}

#[test]
fn immutable_versions_round_trip_and_advance_the_active_pointer() {
    let (mut store, mut vault) = create_vault();
    let object = ObjectId::random();

    let first_version = store
        .put(&mut vault, object, b"first value")
        .expect("first write");
    assert_eq!(
        store.get(&mut vault, object).expect("first read"),
        b"first value"
    );

    let second_version = store
        .put(&mut vault, object, b"second value")
        .expect("second write");
    assert_ne!(first_version, second_version);
    assert_eq!(
        store.get(&mut vault, object).expect("active read"),
        b"second value"
    );
}

#[test]
fn streaming_round_trip_handles_fragmented_readers_and_bounded_chunks() {
    let (mut store, mut vault) = create_vault();
    let object = ObjectId::random();
    let payload: Vec<u8> = (0usize..(32 * 1024 + 37))
        .map(|index| u8::try_from(index % 251).expect("bounded byte fixture"))
        .collect();

    store
        .put_fragments(&mut vault, object, &payload, 97, 1024)
        .expect("streaming write");
    let mut recovered = Vec::new();
    store
        .get_to_writer(&mut vault, object, &mut recovered)
        .expect("streaming read");

    assert_eq!(recovered, payload);
    assert_eq!(
        store.get(&mut vault, object).expect("whole read"),
        payload
    );
}

#[test]
fn streaming_read_writes_nothing_before_digest_verification() {
    let (mut store, mut vault) = create_vault();
    let object = ObjectId::random();
    store
        .put_fragments(&mut vault, object, &[7; 4096], 4096, 1024)
        .expect("streaming write");
    drop(vault);

    store.tamper_first_chunk();

    let mut reopened = store.open().expect("reopen tampered vault");
    reopened
        .unlock("correct horse battery staple")
        .expect("unlock before streaming verification");
    let mut output = Vec::new();
    assert!(store
        .get_to_writer(&mut reopened, object, &mut output)
        .is_err());
    assert!(output.is_empty());
    assert_eq!(reopened.status(), VaultStatus::Locked);
}

#[test]
fn wrong_passphrase_does_not_unlock_the_vault() {
    let (store, _vault) = create_vault();
    let mut reopened = store.open().expect("reopen vault");

    assert!(reopened.unlock("wrong passphrase").is_err());
    assert_eq!(reopened.status(), VaultStatus::Locked);
}

#[test]
fn passphrase_rotation_preserves_ciphertexts_and_changes_unlock_secret() {
    let (mut store, mut vault) = quick_vault();
    let object = ObjectId::random();
    store
        .put(&mut vault, object, b"rotation-safe plaintext")
        .expect("write");

    let envelope = vault
        .rotate_passphrase("correct horse battery staple", "new passphrase")
        .expect("rotate passphrase");
    store.envelope = EnvelopeRow::from_envelope(&envelope);
    vault.commit_rotation(envelope, 1).expect("commit rotation");
    assert_eq!(vault.status(), VaultStatus::Locked);

    let mut reopened = store.open().expect("reopen vault");
    assert!(reopened.unlock("correct horse battery staple").is_err());
    reopened
        .unlock("new passphrase")
        .expect("new passphrase unlock");
    assert_eq!(
        store
            .get(&mut reopened, object)
            .expect("read after rotation"),
        b"rotation-safe plaintext"
    );
}

#[test]
fn tampered_chunk_fails_authentication_and_locks_the_instance() {
    let (mut store, mut vault) = create_vault();
    let object = ObjectId::random();
    store
        .put(&mut vault, object, b"authenticated payload")
        .expect("write");
    drop(vault);

    store.tamper_first_chunk();

    let mut reopened = store.open().expect("reopen tampered vault");
    reopened
        .unlock("correct horse battery staple")
        .expect("unlock before verification");
    assert!(store.get(&mut reopened, object).is_err());
    assert_eq!(reopened.status(), VaultStatus::Locked);
}

#[test]
fn witness_receipt_is_persisted_verified_and_tamper_locks_the_vault() {
    let (mut store, mut vault) = create_vault();
    let object = ObjectId::random();
    let mut provider = InMemoryTestProvider::from_seed([9; 32]);

    store
        .put_with_witness(
            &mut vault,
            object,
            b"witness-bound payload",
            &mut provider,
            false,
        )
        .expect("witness-backed write");
    assert_eq!(
        vault
            .verify_active_objects(&store.objects())
            .expect("verification sweep"),
        1
    );
    let report = CheckpointReport {
        busy: 0,
        log_frames: 3,
        checkpointed_frames: 3,
    };
    vault
        .full_checkpoint(Some(&report))
        .expect("full checkpoint");
    drop(vault);

    let mut reopened = store.open().expect("reopen witness-backed vault");
    reopened
        .unlock("correct horse battery staple")
        .expect("unlock witness-backed vault");
    assert_eq!(
        store
            .get(&mut reopened, object)
            .expect("receipt-verified read"),
        b"witness-bound payload"
    );
    drop(reopened);

    for receipt in &mut store.receipts {
        receipt.signature = vec![0; 64];
    }

    let mut tampered = store.open().expect("reopen receipt-tampered vault");
    tampered
        .unlock("correct horse battery staple")
        .expect("unlock before receipt verification");
    assert!(store.get(&mut tampered, object).is_err());
    assert_eq!(tampered.status(), VaultStatus::Locked);
}

#[test]
fn startup_integrity_scan_rejects_a_dangling_active_version_pointer() {
    let (mut store, mut vault) = create_vault();
    let object = ObjectId::random();
    store
        .put(&mut vault, object, b"recovery fixture")
        .expect("write fixture");
    drop(vault);

    store.active[0].1 = VersionId::random().as_bytes().to_vec();

    assert!(store.open().is_err());
}

#[test]
fn startup_rejects_excessive_persisted_kdf_parameters() {
    let (mut store, vault) = create_vault();
    drop(vault);

    store.envelope.memory_kib = 262145;

    assert!(matches!(
        store.open(),
        Err(VaultError::InvalidFormat("Argon2id KDF parameter policy"))
    ));
}

#[test]
fn storage_full_fault_rejects_publication_and_locks_the_vault() {
    let (mut store, mut vault) = create_vault();

    store.full = true;
    let object = ObjectId::random();
    assert!(store
        .put(&mut vault, object, b"storage-full fixture")
        .is_err());
    assert_eq!(vault.status(), VaultStatus::Locked);
    assert!(store.stored(object).is_none());
}

#[test]
fn witness_receipt_crash_window_is_reconciled_idempotently_after_reopen() {
    let (mut store, mut vault) = create_vault();
    let object = ObjectId::random();
    let mut provider = InMemoryTestProvider::from_seed([12; 32]);

    assert!(store
        .put_with_witness(
            &mut vault,
            object,
            b"pending witness publication",
            &mut provider,
            true,
        )
        .is_err());
    assert_eq!(vault.status(), VaultStatus::Locked);
    drop(vault);

    let mut reopened = store.open().expect("open pending witness vault");
    reopened
        .unlock("correct horse battery staple")
        .expect("unlock pending witness vault");
    assert!(store.stored(object).is_none());
    let mut recovery = reopened
        .recover_pending_witness_publications(store.pending_publications())
        .expect("unlocked recovery");
    while let Some(acknowledged) = recovery
        .acknowledge_next(&mut reopened, &mut provider)
        .expect("idempotent recovery")
    {
        store
            .finalize(
                acknowledged.object_id,
                acknowledged.version_id,
                &acknowledged.receipt,
            )
            .expect("finalization");
        recovery.record_finalization();
    }
    assert_eq!(recovery.recovered(), 1);
    assert!(store.pending.is_empty());
    let mut again = reopened
        .recover_pending_witness_publications(store.pending_publications())
        .expect("unlocked recovery");
    assert!(again
        .acknowledge_next(&mut reopened, &mut Unreachable)
        .expect("nothing to ask")
        .is_none());
    assert_eq!(again.recovered(), 0);
    assert_eq!(
        store
            .get(&mut reopened, object)
            .expect("recovered active data"),
        b"pending witness publication"
    );
    assert_eq!(
        reopened
            .verify_active_objects_with_witness(&store.objects(), &mut provider)
            .expect("fresh recovered witness head"),
        1
    );
}

#[test]
fn an_empty_plaintext_round_trips_without_chunks() {
    let (mut store, mut vault) = quick_vault();
    let object = ObjectId::random();
    store.put(&mut vault, object, b"").expect("write");
    assert!(store.stored(object).expect("stored").chunks.is_empty());
    assert_eq!(store.get(&mut vault, object).expect("read"), b"");
    store
        .put_fragments(&mut vault, object, b"", 1, 16)
        .expect("streamed write");
    assert_eq!(store.get(&mut vault, object).expect("read"), b"");
}

#[test]
fn chunk_boundaries_are_exact() {
    let (mut store, mut vault) = quick_vault();
    for (length, chunk_size, chunks) in [(8usize, 4usize, 2usize), (9, 4, 3), (1, 4, 1), (4, 4, 1)] {
        let plaintext: Vec<u8> = (0..length as u8).collect();
        let object = ObjectId::random();
        let (_, transaction) = vault
            .put_with_chunk_size(object, &plaintext, chunk_size)
            .expect("version");
        store.apply(transaction);
        let stored = store.stored(object).expect("stored");
        assert_eq!(stored.chunks.len(), chunks);
        assert_eq!(stored.version.chunk_count as usize, chunks);
        assert_eq!(store.get(&mut vault, object).expect("read"), plaintext);
    }
}

#[test]
fn streamed_and_whole_versions_have_the_same_layout() {
    let (mut store, mut vault) = quick_vault();
    let payload: Vec<u8> = (0..100u8).collect();
    for fragment in [1usize, 7, 16, 50, 100] {
        let object = ObjectId::random();
        store
            .put_fragments(&mut vault, object, &payload, fragment, 16)
            .expect("streamed");
        let stored = store.stored(object).expect("stored");
        assert_eq!(stored.version.chunk_count, 7);
        assert_eq!(stored.version.plaintext_len, 100);
        assert_eq!(stored.chunks[6].ciphertext.len(), 4 + 16);
        assert_eq!(store.get(&mut vault, object).expect("read"), payload);
    }
}

#[test]
fn invalid_chunk_sizes_and_empty_passphrases_are_refused() {
    let (_store, mut vault) = quick_vault();
    let object = ObjectId::random();
    assert!(matches!(
        vault.put_with_chunk_size(object, b"x", 0),
        Err(VaultError::InvalidInput("invalid chunk size"))
    ));
    assert!(matches!(
        vault.put_with_chunk_size(object, b"x", u32::MAX as usize + 1),
        Err(VaultError::InvalidInput("invalid chunk size"))
    ));
    assert_eq!(stream_chunk_size(1), Ok(1));
    assert_eq!(vault.status(), VaultStatus::Unlocked);
    assert!(matches!(
        vault.rotate_passphrase(PASSPHRASE, ""),
        Err(VaultError::InvalidInput("passphrase must not be empty"))
    ));
    assert_eq!(vault.status(), VaultStatus::Unlocked);
    assert!(matches!(
        Vault::create(""),
        Err(VaultError::InvalidInput("passphrase must not be empty"))
    ));
    assert_eq!(DEFAULT_CHUNK_SIZE, 4 * 1024 * 1024);
}

#[test]
fn a_locked_vault_refuses_every_secret_operation() {
    let (mut store, mut vault) = quick_vault();
    let object = ObjectId::random();
    store.put(&mut vault, object, b"secret").expect("write");
    let mut provider = InMemoryTestProvider::from_seed([1; 32]);
    vault.lock();
    assert_eq!(store.get(&mut vault, object), Err(VaultError::Locked));
    assert!(matches!(
        vault.put(object, b"x"),
        Err(VaultError::Locked)
    ));
    assert!(matches!(
        vault.put_from_reader(object),
        Err(VaultError::Locked)
    ));
    assert!(matches!(
        vault.put_with_witness(object, b"x", None, None, &mut provider),
        Err(VaultError::Locked)
    ));
    assert_eq!(
        vault.verify_active_objects(&store.objects()),
        Err(VaultError::Locked)
    );
    assert_eq!(
        vault.verify_active_objects_with_witness(&store.objects(), &mut provider),
        Err(VaultError::Locked)
    );
    assert_eq!(vault.full_checkpoint(None), Err(VaultError::Locked));
}

#[test]
fn a_missing_object_does_not_lock_the_vault() {
    let (store, mut vault) = quick_vault();
    assert_eq!(
        store.get(&mut vault, ObjectId::random()),
        Err(VaultError::NotFound)
    );
    assert_eq!(vault.status(), VaultStatus::Unlocked);
}

#[test]
fn chunks_cannot_be_reordered_dropped_or_moved_to_another_object() {
    let (mut store, mut vault) = quick_vault();
    let object = ObjectId::random();
    let other = ObjectId::random();
    store
        .put_fragments(&mut vault, object, &[1; 64], 64, 16)
        .expect("write");
    store
        .put_fragments(&mut vault, other, &[2; 64], 64, 16)
        .expect("write");
    let intact = store.stored(object).expect("stored");
    let foreign = store.stored(other).expect("stored");

    let mut swapped = intact.clone();
    swapped.chunks.swap(0, 1);
    assert!(matches!(
        vault.get(object, Some(&swapped)),
        Err(VaultError::Invariant("stored chunk indices"))
    ));
    assert_eq!(vault.status(), VaultStatus::Locked);

    let mut reopened = store.open().expect("open");
    reopened.unlock(PASSPHRASE).expect("unlock");
    let mut dropped = intact.clone();
    dropped.chunks.pop();
    assert!(matches!(
        reopened.get(object, Some(&dropped)),
        Err(VaultError::Invariant("stored chunk count"))
    ));

    reopened.unlock(PASSPHRASE).expect("unlock");
    let mut moved = intact.clone();
    moved.chunks[2] = foreign.chunks[2].clone();
    assert!(matches!(
        reopened.get(object, Some(&moved)),
        Err(VaultError::Authentication)
    ));

    reopened.unlock(PASSPHRASE).expect("unlock");
    assert!(matches!(
        reopened.get(object, Some(&foreign)),
        Err(VaultError::Invariant("object pointer binding"))
    ));

    reopened.unlock(PASSPHRASE).expect("unlock");
    let mut resized = intact.clone();
    resized.version.plaintext_len += 1;
    assert!(matches!(
        reopened.get(object, Some(&resized)),
        Err(VaultError::Invariant("Manifest and SQLite metadata binding"))
    ));

    reopened.unlock(PASSPHRASE).expect("unlock");
    assert_eq!(
        reopened.get(object, Some(&intact)).expect("intact read"),
        vec![1; 64]
    );
}

#[test]
fn a_rolled_back_store_conflicts_with_the_witness() {
    let (mut store, mut vault) = quick_vault();
    let object = ObjectId::random();
    let mut provider = InMemoryTestProvider::from_seed([2; 32]);
    store
        .put_with_witness(&mut vault, object, b"old", &mut provider, false)
        .expect("first");
    let rolled_back = store.clone();
    store
        .put_with_witness(&mut vault, object, b"new", &mut provider, false)
        .expect("second");
    assert_eq!(
        vault
            .verify_active_objects_with_witness(&store.objects(), &mut provider)
            .expect("current state"),
        1
    );
    assert_eq!(
        vault.verify_active_objects_with_witness(&rolled_back.objects(), &mut provider),
        Err(VaultError::WitnessConflict)
    );
    assert_eq!(vault.status(), VaultStatus::Locked);

    vault.unlock(PASSPHRASE).expect("unlock");
    let stored = rolled_back.stored(object).expect("stored");
    assert!(matches!(
        vault.put_with_witness(
            object,
            b"newer",
            Some(&stored.version),
            stored.receipt.as_ref(),
            &mut provider,
        ),
        Err(VaultError::WitnessConflict)
    ));
    assert_eq!(vault.status(), VaultStatus::Locked);
}

#[test]
fn an_unwitnessed_version_fails_witnessed_verification() {
    let (mut store, mut vault) = quick_vault();
    store
        .put(&mut vault, ObjectId::random(), b"unwitnessed")
        .expect("write");
    let mut provider = InMemoryTestProvider::from_seed([2; 32]);
    assert_eq!(
        vault.verify_active_objects_with_witness(&store.objects(), &mut provider),
        Err(VaultError::WitnessConflict)
    );
}

/// A witness that cannot be reached.
struct Unreachable;

impl WitnessProvider for Unreachable {
    fn issue_receipt(
        &mut self,
        _request: &WitnessRequest,
        _expected_epoch: u64,
    ) -> Result<WitnessReceipt, VaultError> {
        Err(VaultError::WitnessUnavailable)
    }

    fn object_head(
        &mut self,
        _vault_id: VaultId,
        _object_id: ObjectId,
        _challenge: [u8; 32],
    ) -> Result<WitnessHead, VaultError> {
        Err(VaultError::WitnessUnavailable)
    }
}

#[test]
fn an_unreachable_witness_locks_the_vault() {
    let (_store, mut vault) = quick_vault();
    assert!(matches!(
        vault.put_with_witness(ObjectId::random(), b"x", None, None, &mut Unreachable),
        Err(VaultError::WitnessUnavailable)
    ));
    assert_eq!(vault.status(), VaultStatus::Locked);
}

#[test]
fn heads_confirm_receipts_or_their_absence() {
    let request = WitnessRequest::from_parts(
        VaultId::random(),
        ObjectId::random(),
        VersionId::random(),
        [1; 32],
    );
    let receipt = WitnessReceipt::issue(&request, 4, &[3; 32]);
    let present = WitnessHead::issue(
        request.vault_id(),
        request.object_id(),
        Some(&receipt),
        [0; 32],
        &[3; 32],
    );
    let absent = WitnessHead::issue(
        request.vault_id(),
        request.object_id(),
        None,
        [0; 32],
        &[3; 32],
    );
    assert_eq!(confirm_head(Some(&receipt), &present), Ok(4));
    assert_eq!(confirm_head(None, &absent), Ok(0));
    assert_eq!(
        confirm_head(None, &present),
        Err(VaultError::WitnessConflict)
    );
    assert_eq!(
        confirm_head(Some(&receipt), &absent),
        Err(VaultError::WitnessConflict)
    );
}

#[test]
fn finalization_needs_a_matching_staged_version() {
    let request = WitnessRequest::from_parts(
        VaultId::random(),
        ObjectId::random(),
        VersionId::random(),
        [1; 32],
    );
    let receipt = WitnessReceipt::issue(&request, 1, &[3; 32]);
    assert!(matches!(
        finalize_witness_publication(
            ObjectId::random(),
            request.version_id(),
            &receipt,
            Some(0)
        ),
        Err(VaultError::Invariant("freshness receipt version binding"))
    ));
    assert!(matches!(
        finalize_witness_publication(request.object_id(), request.version_id(), &receipt, None),
        Err(VaultError::Invariant("missing staged witness publication"))
    ));
    assert!(finalize_witness_publication(
        request.object_id(),
        request.version_id(),
        &receipt,
        Some(0)
    )
    .is_ok());
}

#[test]
fn startup_findings_are_reported_in_order() {
    let (store, _vault) = quick_vault();
    let mut report = store.report();
    report.dangling_pending_versions = 1;
    assert!(matches!(
        Vault::open(&report, Some(store.envelope.clone())),
        Err(VaultError::Invariant("pending witness publication binding"))
    ));
    report.dangling_active_versions = 1;
    assert!(matches!(
        Vault::open(&report, Some(store.envelope.clone())),
        Err(VaultError::Invariant("active version pointer binding"))
    ));
    report.foreign_key_violation = true;
    assert!(matches!(
        Vault::open(&report, Some(store.envelope.clone())),
        Err(VaultError::Invariant("SQLite foreign-key check"))
    ));
    report.integrity = "row missing".to_owned();
    assert!(matches!(
        Vault::open(&report, Some(store.envelope.clone())),
        Err(VaultError::Invariant("SQLite integrity_check"))
    ));
    assert!(matches!(
        Vault::open(&store.report(), None),
        Err(VaultError::NotFound)
    ));
    let mut future = store.envelope.clone();
    future.format_version = 2;
    assert!(matches!(
        Vault::open(&store.report(), Some(future)),
        Err(VaultError::InvalidFormat("unsupported vault format version"))
    ));
}

#[test]
fn checkpoints_must_be_complete() {
    let mut report = CheckpointReport {
        busy: 0,
        log_frames: 5,
        checkpointed_frames: 5,
    };
    assert_eq!(checkpoint_verdict(&report), Ok(()));
    report.checkpointed_frames = 4;
    assert_eq!(checkpoint_verdict(&report), Err(VaultError::Storage));
    report.busy = 1;
    assert_eq!(checkpoint_verdict(&report), Err(VaultError::Storage));
    assert_eq!(require_wal("WAL"), Ok(()));
    assert_eq!(require_wal("wal"), Ok(()));
    assert_eq!(require_wal("delete"), Err(VaultError::Storage));
}

#[test]
fn a_failed_rotation_commit_keeps_the_old_passphrase() {
    let (store, mut vault) = quick_vault();
    let envelope = vault
        .rotate_passphrase(PASSPHRASE, "replacement")
        .expect("rotation");
    assert_eq!(envelope.params, KdfParams::interactive());
    assert_eq!(
        vault.commit_rotation(envelope, 0),
        Err(VaultError::Invariant("Root Key envelope replacement"))
    );
    assert_eq!(vault.status(), VaultStatus::Locked);
    let mut reopened = store.open().expect("open");
    reopened.unlock(PASSPHRASE).expect("old passphrase");
    assert!(matches!(
        reopened.rotate_passphrase("wrong", "replacement"),
        Err(VaultError::UnlockFailed)
    ));
    assert_eq!(reopened.status(), VaultStatus::Locked);
}

#[test]
fn streamed_chunks_are_admitted_in_order() {
    let (_store, vault) = quick_vault();
    let stream = vault
        .put_from_reader_with_chunk_size(ObjectId::random(), 4)
        .expect("stream");
    let (_stream, chunks) = stream.feed(&[1; 9]).expect("chunks");
    let mut totals = StreamingPublication::begin();
    assert_eq!(
        totals.append_chunk(&chunks[1], 4),
        Err(VaultError::Invariant("streamed chunk index"))
    );
    assert_eq!(totals.append_chunk(&chunks[0], 4), Ok(()));
    assert_eq!(totals.append_chunk(&chunks[1], 4), Ok(()));
    assert_eq!(totals.next_index(), 2);
    assert_eq!(
        totals.finish(3),
        Err(VaultError::Invariant("streamed Manifest chunk count"))
    );
    assert_eq!(totals.finish(2), Ok(8));
}

#[test]
fn chunk_lengths_follow_from_the_manifest() {
    let manifest = vlt1::format::Manifest {
        format_version: 1,
        object_id: ObjectId::random(),
        version_id: VersionId::random(),
        plaintext_len: 10,
        chunk_size: 4,
        chunk_count: 3,
        chunk_digest: [0; 32],
    };
    assert_eq!(expected_plaintext_chunk_len(&manifest, 0), Ok(4));
    assert_eq!(expected_plaintext_chunk_len(&manifest, 2), Ok(2));
    assert_eq!(
        expected_plaintext_chunk_len(&manifest, 3),
        Err(VaultError::InvalidFormat("chunk index outside Manifest"))
    );
    let mut short = manifest;
    short.plaintext_len = 7;
    assert_eq!(
        expected_plaintext_chunk_len(&short, 2),
        Err(VaultError::InvalidFormat("Manifest plaintext length"))
    );
    let mut long = manifest;
    long.plaintext_len = 8 + u64::from(u32::MAX) + 1;
    assert_eq!(
        expected_plaintext_chunk_len(&long, 2),
        Err(VaultError::InvalidFormat("final chunk length"))
    );
}

#[test]
fn prepared_versions_are_staged_only_against_a_confirming_head() {
    let (_store, mut vault) = quick_vault();
    let object = ObjectId::random();
    let mut prepare = || {
        let (_, transaction) = vault
            .put_with_chunk_size(object, b"staged", 4)
            .expect("prepared");
        match transaction {
            StorageTransaction::Publish {
                version, chunks, ..
            } => PreparedVersion {
                stored_version: version,
                chunks,
            },
            _ => panic!("a publication was expected"),
        }
    };
    let (first, second, third, mut incomplete) = (prepare(), prepare(), prepare(), prepare());
    let absent = WitnessHead::issue(vault.vault_id(), object, None, [0; 32], &[3; 32]);
    let staged = vault
        .stage_against_head(first, None, &absent)
        .expect("staged");
    assert_eq!(staged.expected_epoch, 0);
    let receipt = WitnessReceipt::issue(&staged.request, 7, &[3; 32]);
    assert!(matches!(
        vault.stage_against_head(second, Some(&receipt), &absent),
        Err(VaultError::WitnessConflict)
    ));
    let present =
        WitnessHead::issue(vault.vault_id(), object, Some(&receipt), [0; 32], &[3; 32]);
    assert_eq!(
        vault
            .stage_against_head(third, Some(&receipt), &present)
            .expect("next version")
            .expected_epoch,
        7
    );
    incomplete.chunks.pop();
    assert!(matches!(
        vault.stage_against_head(incomplete, None, &absent),
        Err(VaultError::Invariant(
            "chunk count does not match version metadata"
        ))
    ));
}

#[test]
fn an_object_is_verified_against_the_head_of_its_receipt() {
    let (mut store, mut vault) = quick_vault();
    let object = ObjectId::random();
    let mut provider = InMemoryTestProvider::from_seed([8; 32]);
    store
        .put_with_witness(&mut vault, object, b"witnessed", &mut provider, false)
        .expect("write");
    let objects = store.objects();
    let receipt = store.receipts[0].receipt().expect("receipt");
    let head = provider
        .object_head(vault.vault_id(), object, [4; 32])
        .expect("head");
    assert_eq!(
        vault.verify_object_against_head(&objects[0], &receipt, &head),
        Ok(())
    );
    let absent = WitnessHead::issue(vault.vault_id(), object, None, [4; 32], &[8; 32]);
    assert_eq!(
        vault.verify_object_against_head(&objects[0], &receipt, &absent),
        Err(VaultError::WitnessConflict)
    );
    vault.lock();
    assert_eq!(
        vault.verify_object_against_head(&objects[0], &receipt, &head),
        Err(VaultError::Locked)
    );
}

#[test]
fn a_rolled_back_store_is_refused_by_every_witnessed_operation() {
    let (mut store, mut vault) = quick_vault();
    let object = ObjectId::random();
    let mut provider = InMemoryTestProvider::from_seed([21; 32]);
    let empty = store.clone();
    store
        .put_with_witness(&mut vault, object, b"first", &mut provider, false)
        .expect("first write");
    let first = store.clone();
    store
        .put_with_witness(&mut vault, object, b"second", &mut provider, false)
        .expect("second write");
    assert_eq!(
        vault.verify_active_objects_with_witness(&store.objects(), &mut provider),
        Ok(1)
    );

    for mut rolled_back in [empty, first.clone()] {
        vault.unlock(PASSPHRASE).expect("unlock");
        assert_eq!(
            rolled_back
                .put_with_witness(&mut vault, object, b"third", &mut provider, false)
                .err(),
            Some(VaultError::WitnessConflict)
        );
        assert_eq!(vault.status(), VaultStatus::Locked);
    }
    vault.unlock(PASSPHRASE).expect("unlock");
    assert_eq!(
        vault.verify_active_objects_with_witness(&first.objects(), &mut provider),
        Err(VaultError::WitnessConflict)
    );
    assert_eq!(vault.status(), VaultStatus::Locked);
    vault.unlock(PASSPHRASE).expect("unlock");
    assert_eq!(
        vault.verify_active_objects_with_witness(&store.objects(), &mut provider),
        Ok(1)
    );
}

/// A witness that keeps what it was asked.
struct Recording {
    inner: InMemoryTestProvider,
    heads: Vec<(VaultId, ObjectId)>,
    issued: Vec<(WitnessRequest, u64)>,
}

impl WitnessProvider for Recording {
    fn issue_receipt(
        &mut self,
        request: &WitnessRequest,
        expected_epoch: u64,
    ) -> Result<WitnessReceipt, VaultError> {
        self.issued.push((*request, expected_epoch));
        self.inner.issue_receipt(request, expected_epoch)
    }

    fn object_head(
        &mut self,
        vault_id: VaultId,
        object_id: ObjectId,
        challenge: [u8; 32],
    ) -> Result<WitnessHead, VaultError> {
        self.heads.push((vault_id, object_id));
        self.inner.object_head(vault_id, object_id, challenge)
    }
}

#[test]
fn a_witness_is_asked_exactly_once_for_each_step() {
    let (mut store, mut vault) = quick_vault();
    let mut provider = Recording {
        inner: InMemoryTestProvider::from_seed([22; 32]),
        heads: Vec::new(),
        issued: Vec::new(),
    };
    let object = ObjectId::random();
    let staged = vault
        .put_with_witness(object, b"value", None, None, &mut provider)
        .expect("staged");
    assert_eq!(provider.heads, vec![(vault.vault_id(), object)]);
    assert!(provider.issued.is_empty());
    let request = staged.request;
    store.apply(staged.transaction);

    let mut recovery = vault
        .recover_pending_witness_publications(store.pending_publications())
        .expect("recovery");
    let acknowledged = recovery
        .acknowledge_next(&mut vault, &mut provider)
        .expect("acknowledged")
        .expect("one staged version");
    assert_eq!(provider.issued, vec![(request, 0)]);
    let repeated = recovery
        .acknowledge_next(&mut vault, &mut provider)
        .expect("acknowledged already")
        .expect("the same version");
    assert!(repeated.receipt == acknowledged.receipt);
    assert_eq!(provider.issued.len(), 1);
    store
        .finalize(
            acknowledged.object_id,
            acknowledged.version_id,
            &acknowledged.receipt,
        )
        .expect("finalization");
    recovery.record_finalization();
    assert_eq!(
        vault.verify_active_objects_with_witness(&store.objects(), &mut provider),
        Ok(1)
    );
    assert_eq!(provider.heads.len(), 2);
    vault.lock();
    assert_eq!(
        vault
            .recover_pending_witness_publications(Vec::new())
            .err(),
        Some(VaultError::Locked)
    );
}
