use vlt1::backup::{
    check_created_snapshot, ensure_new_destination, manifest_path, temporary_path,
    verify_snapshot_database, BackupManifest, FileChecksum, SnapshotReport, BACKUP_FORMAT,
};
use vlt1::error::VaultError;
use vlt1::format::VaultId;

fn checksum(contents: &[u8]) -> FileChecksum {
    let mut checksum = FileChecksum::new();
    for part in contents.chunks(3) {
        checksum.update(part).expect("checksum");
    }
    checksum
}

fn sound(vault_id: VaultId) -> SnapshotReport {
    SnapshotReport {
        integrity: "ok".to_owned(),
        foreign_key_violation: false,
        vault_id: vault_id.as_bytes().to_vec(),
    }
}

#[test]
fn the_checksum_is_sha_256_over_all_parts() {
    let (sha256, bytes) = checksum(b"abc").finish();
    assert_eq!(
        sha256,
        "ba7816bf8f01cfea414140de5dae2223b00361a396177a9cb410ff61f20015ad"
    );
    assert_eq!(bytes, 3);
    let (sha256, bytes) = FileChecksum::new().finish();
    assert_eq!(
        sha256,
        "e3b0c44298fc1c149afbf4c8996fb92427ae41e4649b934ca495991b7852b855"
    );
    assert_eq!(bytes, 0);
}

#[test]
fn a_manifest_verifies_its_own_snapshot_and_no_other() {
    let vault_id = VaultId::random();
    let manifest = BackupManifest::from_snapshot(vault_id, checksum(b"encrypted database"));
    assert_eq!(manifest.format(), BACKUP_FORMAT);
    assert_eq!(manifest.vault_id(), vault_id.to_hex());
    assert_eq!(manifest.database_bytes(), 18);
    let (sha256, bytes) = checksum(b"encrypted database").finish();
    assert_eq!(
        manifest.verify_backup(&sha256, bytes, &sound(vault_id)),
        Ok(())
    );

    let (tampered, _) = checksum(b"encrypted databasf").finish();
    assert_eq!(
        manifest.verify_backup(&tampered, bytes, &sound(vault_id)),
        Err(VaultError::Authentication)
    );
    assert_eq!(
        manifest.verify_checksum(&sha256, bytes + 1),
        Err(VaultError::Authentication)
    );
    assert_eq!(
        manifest.verify_backup(&sha256, bytes, &sound(VaultId::random())),
        Err(VaultError::Invariant("backup manifest vault binding"))
    );
    let mut broken = sound(vault_id);
    broken.integrity = "malformed".to_owned();
    assert_eq!(
        manifest.verify_backup(&sha256, bytes, &broken),
        Err(VaultError::Invariant("backup SQLite integrity_check"))
    );
    let mut dangling = sound(vault_id);
    dangling.foreign_key_violation = true;
    assert_eq!(
        manifest.verify_backup(&sha256, bytes, &dangling),
        Err(VaultError::Invariant("backup SQLite foreign-key check"))
    );
}

#[test]
fn manifest_fields_are_validated() {
    let read = |format: &str, vault_id: &str, sha256: &str| {
        BackupManifest::read_from(
            format.to_owned(),
            vault_id.to_owned(),
            sha256.to_owned(),
            7,
        )
    };
    assert!(read(BACKUP_FORMAT, &"0a".repeat(16), &"0b".repeat(32)).is_ok());
    let refused = VaultError::InvalidFormat("backup manifest fields");
    for (format, vault_id, sha256) in [
        ("VLT/1", "0a".repeat(16), "0b".repeat(32)),
        (BACKUP_FORMAT, "0A".repeat(16), "0b".repeat(32)),
        (BACKUP_FORMAT, "0a".repeat(15), "0b".repeat(32)),
        (BACKUP_FORMAT, "0a".repeat(16), "0b".repeat(33)),
        (BACKUP_FORMAT, "0a".repeat(16), "zz".repeat(32)),
    ] {
        assert_eq!(read(format, &vault_id, &sha256).err(), Some(refused));
    }
}

#[test]
fn snapshots_belong_to_their_vault() {
    let vault_id = VaultId::random();
    assert_eq!(check_created_snapshot(&sound(vault_id), vault_id), Ok(()));
    assert_eq!(
        check_created_snapshot(&sound(VaultId::random()), vault_id),
        Err(VaultError::Invariant("backup vault ID binding"))
    );
    let mut short = sound(vault_id);
    short.vault_id.pop();
    assert_eq!(
        verify_snapshot_database(&short).err(),
        Some(VaultError::InvalidFormat("invalid identifier length"))
    );
}

#[test]
fn backup_paths_are_derived_and_never_overwritten() {
    assert_eq!(
        manifest_path("/backups/vault.sqlite"),
        "/backups/vault.sqlite.vlt1-backup.json"
    );
    assert_eq!(temporary_path("/b/v", "42"), "/b/v.tmp.42");
    let refused = Err(VaultError::InvalidInput("backup destination path"));
    assert_eq!(ensure_new_destination(false, Some(true)), Ok(()));
    assert_eq!(ensure_new_destination(true, Some(true)), refused);
    assert_eq!(ensure_new_destination(false, Some(false)), refused);
    assert_eq!(ensure_new_destination(false, None), refused);
}
