use std::path::PathBuf;
use vlt1::backup::{BackupManifest, FileChecksum};
use vlt1::daemon::{
    backup_result, map_vault_error, overloaded_response, parse_hex32, parse_object_id,
    plaintext_result, published, socket_path_decision, unavailable_response, witness_requested,
    Action, Admission, Daemon, DaemonConfig, SocketPath, WitnessConfig, WitnessConfigError,
};
use vlt1::crypto::{generate_root_key, seal_root_key, KdfParams};
use vlt1::error::VaultError;
use vlt1::format::{ObjectId, VaultId, VersionId};
use vlt1::protocol::{ErrorCode, Request, Response, Success};
use vlt1::provider::InMemoryTestProvider;
use vlt1::storage::{
    finalize_witness_publication, ChunkRow, CheckpointReport, EnvelopeRow, IntegrityReport,
    ReceiptRow, StorageTransaction, StoredObject, VersionRow,
};
use vlt1::vault::{ActiveObject, VaultStatus};

const PASSPHRASE: &str = "correct horse battery staple";
const UID: u32 = 1000;

fn config() -> DaemonConfig {
    DaemonConfig::for_current_user(
        PathBuf::from("/run/vlt1.sock"),
        PathBuf::from("/var/vault.sqlite"),
        UID,
    )
}

fn sound() -> IntegrityReport {
    IntegrityReport {
        integrity: "ok".to_owned(),
        foreign_key_violation: false,
        dangling_active_versions: 0,
        dangling_pending_versions: 0,
    }
}

fn envelope_row() -> EnvelopeRow {
    let params = KdfParams {
        memory_kib: 8,
        iterations: 1,
        lanes: 1,
    };
    let envelope = seal_root_key(PASSPHRASE, VaultId::random(), &generate_root_key(), params)
        .expect("envelope");
    EnvelopeRow::from_envelope(&envelope)
}

fn daemon(config: &DaemonConfig) -> Daemon {
    Daemon::open(config, &sound(), Some(envelope_row())).expect("daemon open")
}

fn call(daemon: &mut Daemon, request: Request) -> Action {
    daemon.exchange(Some(UID), Some(request))
}

fn reply(action: Action) -> Response {
    match action {
        Action::Reply { response } => response,
        _ => panic!("the request was not answered"),
    }
}

fn success(response: Response) -> Success {
    match response {
        Response::Success { result } => result,
        Response::Error { error } => panic!("daemon error: {error:?}"),
    }
}

fn code(response: Response) -> ErrorCode {
    match response {
        Response::Error { error } => error.code,
        Response::Success { result } => panic!("unexpected success: {result:?}"),
    }
}

fn unlock(daemon: &mut Daemon) -> Action {
    call(
        daemon,
        Request::Unlock {
            passphrase: PASSPHRASE.to_owned(),
        },
    )
}

fn rows(
    version: &vlt1::storage::StoredVersion,
    chunks: &[vlt1::format::EncryptedChunk],
) -> StoredObject {
    StoredObject {
        version: VersionRow::from_version(version),
        receipt: None,
        chunks: chunks.iter().map(ChunkRow::from_chunk).collect(),
    }
}

#[test]
fn an_authorised_client_executes_a_full_vault_flow() {
    let mut config = config();
    config.allow_shutdown = true;
    let mut daemon = daemon(&config);

    let Success::Status {
        format,
        vault_id,
        lifecycle,
        recovery,
        verified_active_objects,
    } = success(reply(call(&mut daemon, Request::Status)))
    else {
        panic!("daemon returned an unexpected status result");
    };
    assert_eq!(format, "VLT/1");
    assert_eq!(vault_id, daemon.vault.vault_id().to_hex());
    assert_eq!(lifecycle, "locked");
    assert_eq!(recovery, "startup_integrity_ok");
    assert_eq!(verified_active_objects, None);

    assert_eq!(success(reply(unlock(&mut daemon))), Success::Empty);

    let object = ObjectId::random();
    let request = vlt1::cli::put_request(&object.to_hex(), b"daemon-bound authenticated plaintext");
    let Action::Put {
        object_id,
        plaintext,
        witnessed,
    } = call(&mut daemon, request)
    else {
        panic!("a write was expected");
    };
    assert_eq!(object_id, object);
    assert!(!witnessed);
    let (version_id, transaction) = daemon.vault.put(object_id, &plaintext).expect("write");
    let StorageTransaction::Publish {
        version, chunks, ..
    } = transaction
    else {
        panic!("a publication was expected");
    };
    let stored = rows(&version, &chunks);
    assert_eq!(
        success(daemon.respond(Ok(published(version_id)))),
        Success::Published {
            version_id: version_id.to_hex()
        }
    );

    let Action::Get {
        object_id,
        witnessed: false,
    } = call(
        &mut daemon,
        Request::Get {
            object_id: object.to_hex(),
        },
    ) else {
        panic!("a read was expected");
    };
    let plaintext = daemon
        .vault
        .get(object_id, Some(&stored))
        .expect("verified read");
    let result = success(daemon.respond(Ok(plaintext_result(&plaintext))));
    assert_eq!(
        vlt1::cli::received_plaintext(&result),
        Ok(b"daemon-bound authenticated plaintext".to_vec())
    );

    assert!(matches!(
        call(&mut daemon, Request::Verify),
        Action::Verify { witnessed: false }
    ));
    let objects = vec![ActiveObject {
        object_id: object,
        stored,
    }];
    let outcome = daemon.vault.verify_active_objects(&objects);
    assert_eq!(
        success(daemon.finish_verify(outcome)),
        Success::Verified { active_objects: 1 }
    );
    assert!(matches!(
        call(&mut daemon, Request::Checkpoint),
        Action::Checkpoint
    ));
    let report = CheckpointReport {
        busy: 0,
        log_frames: 1,
        checkpointed_frames: 1,
    };
    assert_eq!(
        success(daemon.finish_checkpoint(Some(&report))),
        Success::Empty
    );
    assert!(matches!(
        success(reply(call(&mut daemon, Request::Status))),
        Success::Status {
            verified_active_objects: Some(1),
            ..
        }
    ));

    assert_eq!(
        success(reply(call(&mut daemon, Request::Lock))),
        Success::Empty
    );
    assert_eq!(daemon.vault.status(), VaultStatus::Locked);
    assert_eq!(
        code(reply(call(&mut daemon, Request::Verify))),
        ErrorCode::Locked
    );
    assert_eq!(
        success(reply(call(&mut daemon, Request::Shutdown))),
        Success::Empty
    );
    assert!(daemon.shutdown_requested());
}

#[test]
fn only_the_configured_user_is_served() {
    let mut daemon = daemon(&config());
    assert!(daemon.authorize(Some(UID)));
    assert!(!daemon.authorize(Some(0)));
    assert!(!daemon.authorize(None));
    assert_eq!(
        code(reply(daemon.exchange(
            Some(0),
            Some(Request::Unlock {
                passphrase: PASSPHRASE.to_owned()
            })
        ))),
        ErrorCode::Unauthorized
    );
    assert_eq!(daemon.vault.status(), VaultStatus::Locked);
    assert_eq!(
        code(reply(daemon.exchange(Some(UID), None))),
        ErrorCode::Protocol
    );
}

#[test]
fn shutdown_needs_policy() {
    let mut daemon = daemon(&config());
    assert_eq!(
        code(reply(call(&mut daemon, Request::Shutdown))),
        ErrorCode::Policy
    );
    assert!(!daemon.shutdown_requested());
}

#[test]
fn malformed_requests_are_answered_without_touching_the_vault() {
    let mut daemon = daemon(&config());
    unlock(&mut daemon);
    for object_id in ["", "00", &"0g".repeat(16), &"00".repeat(17), &"é".repeat(16)] {
        assert_eq!(
            code(reply(call(
                &mut daemon,
                Request::Get {
                    object_id: object_id.to_owned()
                }
            ))),
            ErrorCode::InvalidInput
        );
    }
    assert_eq!(
        code(reply(call(
            &mut daemon,
            Request::Put {
                object_id: "00".repeat(16),
                plaintext_b64: "not base64".to_owned(),
            }
        ))),
        ErrorCode::InvalidInput
    );
    assert_eq!(daemon.vault.status(), VaultStatus::Unlocked);
    let parsed = parse_object_id("00112233445566778899aabbccddeeff").expect("lowercase");
    assert_eq!(parsed.to_hex(), "00112233445566778899aabbccddeeff");
    for object_id in [
        "0A0A0A0A0A0A0A0A0A0A0A0A0A0A0A0A",
        "00112233445566778899AABBccddeeff",
    ] {
        assert_eq!(
            code(parse_object_id(object_id).expect_err("uppercase")),
            ErrorCode::InvalidInput
        );
    }
}

#[test]
fn failures_in_doubt_lock_and_others_do_not() {
    let mut daemon = daemon(&config());
    for (error, expected, status) in [
        (
            VaultError::NotFound,
            ErrorCode::NotFound,
            VaultStatus::Unlocked,
        ),
        (
            VaultError::InvalidInput("x"),
            ErrorCode::InvalidInput,
            VaultStatus::Unlocked,
        ),
        (VaultError::Storage, ErrorCode::Storage, VaultStatus::Locked),
        (
            VaultError::Authentication,
            ErrorCode::Verification,
            VaultStatus::Locked,
        ),
        (
            VaultError::Invariant("x"),
            ErrorCode::Verification,
            VaultStatus::Locked,
        ),
        (
            VaultError::InvalidFormat("x"),
            ErrorCode::Verification,
            VaultStatus::Locked,
        ),
        (
            VaultError::WitnessUnavailable,
            ErrorCode::WitnessUnavailable,
            VaultStatus::Locked,
        ),
        (
            VaultError::WitnessConflict,
            ErrorCode::WitnessConflict,
            VaultStatus::Locked,
        ),
    ] {
        unlock(&mut daemon);
        assert_eq!(code(daemon.respond(Err(error))), expected);
        assert_eq!(daemon.vault.status(), status);
    }
    assert_eq!(
        map_vault_error(&VaultError::UnlockFailed).message,
        "vault verification failed"
    );
    assert_eq!(
        map_vault_error(&VaultError::Locked).message,
        "vault is locked"
    );
}

#[test]
fn rotation_through_the_daemon_locks_and_changes_the_passphrase() {
    let mut daemon = daemon(&config());
    unlock(&mut daemon);
    let Action::StoreEnvelope { envelope } = call(
        &mut daemon,
        Request::RotatePassphrase {
            current_passphrase: PASSPHRASE.to_owned(),
            replacement_passphrase: "replacement".to_owned(),
        },
    ) else {
        panic!("an envelope was expected");
    };
    assert_eq!(
        success(daemon.finish_rotation(envelope, Some(1))),
        Success::Empty
    );
    assert_eq!(daemon.vault.status(), VaultStatus::Locked);
    assert_eq!(
        code(reply(unlock(&mut daemon))),
        ErrorCode::Verification
    );
    assert_eq!(
        success(reply(call(
            &mut daemon,
            Request::Unlock {
                passphrase: "replacement".to_owned()
            }
        ))),
        Success::Empty
    );
}

#[test]
fn a_rotation_that_cannot_be_stored_locks_and_keeps_the_passphrase() {
    let mut daemon = daemon(&config());
    unlock(&mut daemon);
    let Action::StoreEnvelope { envelope } = call(
        &mut daemon,
        Request::RotatePassphrase {
            current_passphrase: PASSPHRASE.to_owned(),
            replacement_passphrase: "replacement".to_owned(),
        },
    ) else {
        panic!("an envelope was expected");
    };
    assert_eq!(
        code(daemon.finish_rotation(envelope, None)),
        ErrorCode::Storage
    );
    assert_eq!(daemon.vault.status(), VaultStatus::Locked);
    assert_eq!(success(reply(unlock(&mut daemon))), Success::Empty);
}

#[test]
fn a_witnessed_daemon_reconciles_after_unlock_and_checks_every_read() {
    let mut provider = InMemoryTestProvider::from_seed([6; 32]);
    let mut config = config();
    config.witness = Some(WitnessConfig {
        endpoint: "https://witness.example".to_owned(),
        bearer_token: "token".to_owned(),
        public_key: provider.public_key(),
    });
    let mut daemon = daemon(&config);
    assert!(daemon.witness().is_some());
    assert!(matches!(unlock(&mut daemon), Action::Reconcile));
    let recovery = daemon
        .vault
        .recover_pending_witness_publications(Vec::new())
        .expect("nothing to recover");
    assert_eq!(
        success(daemon.finish_unlock_with_witness(&recovery, &Vec::new(), &mut provider)),
        Success::Empty
    );

    let object = ObjectId::random();
    assert!(daemon.under_witness());
    for request in [
        vlt1::cli::put_request(&object.to_hex(), b"witnessed"),
        Request::Get {
            object_id: object.to_hex(),
        },
        Request::Verify,
    ] {
        assert!(matches!(
            call(&mut daemon, request),
            Action::Put {
                witnessed: true,
                ..
            } | Action::Get {
                witnessed: true,
                ..
            } | Action::Verify { witnessed: true }
        ));
    }
    let staged = daemon
        .vault
        .put_with_witness(object, b"witnessed", None, None, &mut provider)
        .expect("staged");
    let StorageTransaction::Stage {
        version,
        chunks,
        expected_epoch,
    } = staged.transaction
    else {
        panic!("a staged version was expected");
    };
    let acknowledged = daemon
        .vault
        .acknowledge_staged(
            &staged.request,
            expected_epoch,
            &mut provider,
        )
        .expect("acknowledged");
    let StorageTransaction::Finalize { receipt, .. } = finalize_witness_publication(
        acknowledged.object_id,
        acknowledged.version_id,
        &acknowledged.receipt,
        Some(expected_epoch),
    )
    .expect("finalization") else {
        panic!("a finalization was expected");
    };
    let mut stored = rows(&version, &chunks);
    stored.receipt = Some(ReceiptRow::from_receipt(&receipt));
    let objects = vec![ActiveObject {
        object_id: object,
        stored: stored.clone(),
    }];
    assert_eq!(
        daemon.get_with_witness(object, Some(&stored), &objects, &mut provider),
        Ok(b"witnessed".to_vec())
    );

    let mut stranger = InMemoryTestProvider::from_seed([7; 32]);
    assert_eq!(
        daemon.get_with_witness(object, Some(&stored), &objects, &mut stranger),
        Err(VaultError::WitnessConflict)
    );
    assert_eq!(daemon.vault.status(), VaultStatus::Locked);
    assert!(matches!(unlock(&mut daemon), Action::Reconcile));
    assert_eq!(
        code(daemon.finish_unlock_with_witness(&recovery, &objects, &mut stranger)),
        ErrorCode::WitnessConflict
    );
    assert_eq!(daemon.vault.status(), VaultStatus::Locked);
}

#[test]
fn configurations_are_checked_before_serving() {
    let row = || Some(envelope_row());
    let refused = VaultError::InvalidInput("daemon resource configuration");
    let mut without_connections = config();
    without_connections.max_connections = 0;
    assert_eq!(
        Daemon::open(&without_connections, &sound(), row()).err(),
        Some(refused)
    );
    let mut without_deadline = config();
    without_deadline.io_timeout_nanos = 0;
    assert_eq!(
        Daemon::open(&without_deadline, &sound(), row()).err(),
        Some(refused)
    );
    let mut plain_http = config();
    plain_http.witness = Some(WitnessConfig {
        endpoint: "http://witness.example".to_owned(),
        bearer_token: "token".to_owned(),
        public_key: [1; 32],
    });
    assert_eq!(
        Daemon::open(&plain_http, &sound(), row()).err(),
        Some(VaultError::InvalidInput("witness endpoint configuration"))
    );
    assert_eq!(
        Daemon::open(&config(), &sound(), None).err(),
        Some(VaultError::NotFound)
    );
    assert_eq!(config().max_connections, 32);
    assert_eq!(config().io_timeout_nanos, 5_000_000_000);
    assert!(!config().allow_shutdown);
}

#[test]
fn admission_stops_at_the_limit() {
    let mut admission = Admission::new(2);
    assert!(admission.try_acquire_connection());
    assert!(admission.try_acquire_connection());
    assert!(!admission.try_acquire_connection());
    admission.release_connection();
    assert!(admission.try_acquire_connection());
    assert!(!Admission::new(0).try_acquire_connection());
    assert_eq!(code(overloaded_response()), ErrorCode::Overloaded);
    assert_eq!(code(unavailable_response()), ErrorCode::Internal);
    assert_eq!(socket_path_decision(false, false), SocketPath::Bind);
    assert_eq!(socket_path_decision(true, true), SocketPath::Replace);
    assert_eq!(socket_path_decision(true, false), SocketPath::Refuse);
}

#[test]
fn witness_policies_are_complete_or_absent() {
    assert_eq!(witness_requested(true, true, true), Ok(true));
    assert_eq!(witness_requested(false, false, false), Ok(false));
    assert_eq!(
        witness_requested(true, false, true),
        Err(WitnessConfigError::Incomplete)
    );
    let policy = WitnessConfig::from_secrets(
        "https://witness.example".to_owned(),
        "token".to_owned(),
        &format!("\n {} \n", "0a".repeat(32)),
    )
    .expect("policy");
    assert_eq!(policy.public_key, [10; 32]);
    assert_eq!(
        parse_hex32(&"0A".repeat(32)),
        Err(WitnessConfigError::PublicKey)
    );
    assert_eq!(
        WitnessConfigError::PublicKey.message(),
        "witness public key must be 64 lowercase hexadecimal characters"
    );
}

#[test]
fn backups_are_answered_with_their_manifest() {
    let mut checksum = FileChecksum::new();
    checksum.update(b"database").expect("checksum");
    let manifest = BackupManifest::from_snapshot(VaultId::random(), checksum);
    assert_eq!(
        backup_result(&manifest),
        Success::Backup {
            format: "VLT/1 encrypted SQLite backup v1".to_owned(),
            database_sha256: manifest.database_sha256().to_owned(),
            database_bytes: 8,
        }
    );
    assert_eq!(
        published(VersionId::from_slice(&[0xab; 16]).expect("version")),
        Success::Published {
            version_id: "ab".repeat(16)
        }
    );
}
